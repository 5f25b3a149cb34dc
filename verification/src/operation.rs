//! The dispatcher: maps a requested action onto the device lifecycle —
//! load, optionally mutate, then either report or persist — and returns the
//! one outward effect the caller must carry out.

use vstd::prelude::*;
use crate::brightness::DeviceSnapshot;
use crate::brightness::DeviceSnapshotModel;
use crate::brightness::Status;
use crate::brightness::brightness_path_spec;
use crate::brightness::load_spec;
use crate::brightness::report_spec;
use crate::brightness::saved_content_spec;
use crate::brightness::set_brightness_spec;
use crate::error::Error;
use crate::error::ErrorModel;

verus! {

/// A requested action: a read-only query of a device directory, or a
/// validated update with the new brightness as literal text.
#[derive(Debug, PartialEq, Eq)]
pub enum Operation {
    Query(String),
    Apply(String, String),
}

/// `Operation` with its texts as character sequences.
pub enum OperationModel {
    Query(Seq<char>),
    Apply(Seq<char>, Seq<char>),
}

impl View for Operation {
    type V = OperationModel;

    open spec fn view(&self) -> OperationModel {
        match self {
            Operation::Query(p) => OperationModel::Query(p@),
            Operation::Apply(p, t) => OperationModel::Apply(p@, t@),
        }
    }
}

/// What a completed operation asks of its caller: print a report, or write
/// the given text to the given file.
#[derive(Debug, PartialEq, Eq)]
pub enum Effect {
    /// The summary to print on standard output.
    Report(String),
    /// The file to overwrite, then the text to write into it.
    Persist(String, String),
}

/// `Effect` with its texts as character sequences.
pub enum EffectModel {
    Report(Seq<char>),
    Persist(Seq<char>, Seq<char>),
}

impl View for Effect {
    type V = EffectModel;

    open spec fn view(&self) -> EffectModel {
        match self {
            Effect::Report(s) => EffectModel::Report(s@),
            Effect::Persist(p, c) => EffectModel::Persist(p@, c@),
        }
    }
}

/// `Result<Effect, Error>` seen through both views.
pub open spec fn effect_result_model(r: Result<Effect, Error>) -> Result<EffectModel, ErrorModel> {
    match r {
        Ok(eff) => Ok(eff@),
        Err(e) => Err(e@),
    }
}

/// What dispatching an operation over a device snapshot yields. A query
/// loads and reports; an update loads, validates the new value and, only
/// when validation succeeds, asks for the single write that persists it.
/// Any failure aborts with that failure and asks for nothing.
pub open spec fn run_spec(op: OperationModel, snap: DeviceSnapshotModel) -> Result<
    EffectModel,
    ErrorModel,
> {
    match op {
        OperationModel::Query(path) => match load_spec(path, snap) {
            Err(e) => Err(e),
            Ok(st) => Ok(EffectModel::Report(report_spec(st))),
        },
        OperationModel::Apply(path, input) => match load_spec(path, snap) {
            Err(e) => Err(e),
            Ok(st) => {
                let step = set_brightness_spec(st, input);
                match step.1 {
                    Err(e) => Err(e),
                    Ok(_) => Ok(
                        EffectModel::Persist(brightness_path_spec(step.0), saved_content_spec(step.0)),
                    ),
                }
            },
        },
    }
}

/// Dispatches one operation over a snapshot of the addressed directory.
pub fn run(operation: &Operation, snapshot: &DeviceSnapshot) -> (r: Result<Effect, Error>)
    ensures
        effect_result_model(r) == run_spec(operation@, snapshot@),
{
    match operation {
        Operation::Query(path) => {
            let status = match Status::get(path.as_str(), snapshot) {
                Ok(st) => st,
                Err(e) => return Err(e),
            };
            Ok(Effect::Report(status.report()))
        },
        Operation::Apply(path, input) => {
            let mut status = match Status::get(path.as_str(), snapshot) {
                Ok(st) => st,
                Err(e) => return Err(e),
            };
            match status.set_brightness(input.as_str()) {
                Ok(_) => {},
                Err(e) => return Err(e),
            }
            Ok(Effect::Persist(status.brightness_file_path(), status.brightness_file_content()))
        },
    }
}

} // verus!
