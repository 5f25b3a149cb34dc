//! The error taxonomy: every way a query or an update can fail, each with the
//! offending path, text or value pair, and a rendering fit for standard error.

use vstd::prelude::*;
use crate::text::dec_rep;
use crate::text::u16_to_dec;

verus! {

/// Why an operation on a device directory failed.
#[derive(Debug, PartialEq, Eq)]
pub enum Error {
    /// The supplied device path is not a directory.
    InvalidDevicePath(String),
    /// An expected reading file is absent or not a regular file; holds that
    /// file's path.
    MissingReadingFile(String),
    /// A reading file's content is not an unsigned 16-bit integer; holds the
    /// content.
    MalformedReading(String),
    /// The user-supplied brightness text is not an unsigned 16-bit integer;
    /// holds the text.
    MalformedInput(String),
    /// The requested brightness exceeds the device's maximum; holds the
    /// requested value, then the maximum.
    OutOfRange(u16, u16),
    /// An underlying read or write failed; holds its description.
    IOFailure(String),
}

/// `Error` with its texts as character sequences, for contracts.
pub enum ErrorModel {
    InvalidDevicePath(Seq<char>),
    MissingReadingFile(Seq<char>),
    MalformedReading(Seq<char>),
    MalformedInput(Seq<char>),
    OutOfRange(u16, u16),
    IOFailure(Seq<char>),
}

impl View for Error {
    type V = ErrorModel;

    open spec fn view(&self) -> ErrorModel {
        match self {
            Error::InvalidDevicePath(p) => ErrorModel::InvalidDevicePath(p@),
            Error::MissingReadingFile(p) => ErrorModel::MissingReadingFile(p@),
            Error::MalformedReading(t) => ErrorModel::MalformedReading(t@),
            Error::MalformedInput(t) => ErrorModel::MalformedInput(t@),
            Error::OutOfRange(v, m) => ErrorModel::OutOfRange(*v, *m),
            Error::IOFailure(m) => ErrorModel::IOFailure(m@),
        }
    }
}

/// The display text of each error.
pub open spec fn message_spec(e: ErrorModel) -> Seq<char> {
    match e {
        ErrorModel::InvalidDevicePath(p) => "Sysfs path: '"@ + p
            + "' is not a directory or has invalid permissions"@,
        ErrorModel::MissingReadingFile(p) => "Sysfs path: '"@ + p
            + "' is not a file or has invalid permissions"@,
        ErrorModel::MalformedReading(t) => "While parsing: '"@ + t
            + "' as a u16 value, an error occurred"@,
        ErrorModel::MalformedInput(t) => "While parsing: '"@ + t
            + "' as a u16 value, an error occurred"@,
        ErrorModel::OutOfRange(v, m) => "The requested brightness: '"@ + dec_rep(v as nat)
            + "' is greater than the maximum value: '"@ + dec_rep(m as nat) + "'"@,
        ErrorModel::IOFailure(m) => "While reading or writing, an IO Error occurred: '"@ + m
            + "'"@,
    }
}

impl Error {
    /// The human-readable description of this error.
    pub fn message(&self) -> (r: String)
        ensures
            r@ == message_spec(self@),
    {
        match self {
            Error::InvalidDevicePath(p) => {
                let mut s = String::from_str("Sysfs path: '");
                s.append(p.as_str());
                s.append("' is not a directory or has invalid permissions");
                s
            },
            Error::MissingReadingFile(p) => {
                let mut s = String::from_str("Sysfs path: '");
                s.append(p.as_str());
                s.append("' is not a file or has invalid permissions");
                s
            },
            Error::MalformedReading(t) => {
                let mut s = String::from_str("While parsing: '");
                s.append(t.as_str());
                s.append("' as a u16 value, an error occurred");
                s
            },
            Error::MalformedInput(t) => {
                let mut s = String::from_str("While parsing: '");
                s.append(t.as_str());
                s.append("' as a u16 value, an error occurred");
                s
            },
            Error::OutOfRange(v, m) => {
                let mut s = String::from_str("The requested brightness: '");
                let vs = u16_to_dec(*v);
                s.append(vs.as_str());
                s.append("' is greater than the maximum value: '");
                let ms = u16_to_dec(*m);
                s.append(ms.as_str());
                s.append("'");
                s
            },
            Error::IOFailure(m) => {
                let mut s = String::from_str("While reading or writing, an IO Error occurred: '");
                s.append(m.as_str());
                s.append("'");
                s
            },
        }
    }
}

} // verus!
