pub mod brightness;
pub mod error;
pub mod operation;
pub mod text;
