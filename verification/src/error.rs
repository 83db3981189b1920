//! The library's error type.
use vstd::prelude::*;

verus! {

/// Errors of process definition and execution.
#[derive(Debug, Clone, PartialEq, Eq)]
pub enum AbcdodafError {
    /// A workflow could not be run.
    WorkflowError(String),
    /// A BPMN process is not valid.
    BpmnError(String),
    /// A DoDAF model could not be produced.
    DodafError(String),
    /// Any other failure, described in text.
    Other(String),
}

/// The result of a library operation.
pub type AbcdodafResult<T> = Result<T, AbcdodafError>;

} // verus!
