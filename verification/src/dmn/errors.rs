//! Errors of decision modelling operations.
use vstd::prelude::*;
use crate::text::{concat2, concat3, owned};

verus! {

/// What went wrong in a decision modelling operation.
#[derive(Debug, Clone, PartialEq, Eq)]
pub enum DmnError {
    FeelParsingError(String),
    FeelEvaluationError(String),
    InvalidDecisionTable(String),
    NoMatchingRules,
    AmbiguousRules(String),
    MissingInput(String),
    InvalidInput(String),
    TypeMismatch { expected: String, actual: String },
    DecisionNotFound(String),
    InvalidDecisionGraph(String),
    CircularDependency(String),
    XmlParsingError(String),
    XmlGenerationError(String),
    UnsupportedVersion(String),
    OperationError(String),
}

/// The result of a decision modelling operation.
pub type DmnResult<T> = Result<T, DmnError>;

/// The text that an error carries (empty for `NoMatchingRules`; the
/// expected type for `TypeMismatch`).
pub open spec fn dmn_error_detail(e: DmnError) -> Seq<char> {
    match e {
        DmnError::FeelParsingError(m) => m@,
        DmnError::FeelEvaluationError(m) => m@,
        DmnError::InvalidDecisionTable(m) => m@,
        DmnError::NoMatchingRules => Seq::empty(),
        DmnError::AmbiguousRules(m) => m@,
        DmnError::MissingInput(m) => m@,
        DmnError::InvalidInput(m) => m@,
        DmnError::TypeMismatch { expected, .. } => expected@,
        DmnError::DecisionNotFound(m) => m@,
        DmnError::InvalidDecisionGraph(m) => m@,
        DmnError::CircularDependency(m) => m@,
        DmnError::XmlParsingError(m) => m@,
        DmnError::XmlGenerationError(m) => m@,
        DmnError::UnsupportedVersion(m) => m@,
        DmnError::OperationError(m) => m@,
    }
}

/// The message that describes `e`.
pub open spec fn dmn_error_text(e: DmnError) -> Seq<char> {
    match e {
        DmnError::FeelParsingError(m) => "FEEL parsing error: "@ + m@,
        DmnError::FeelEvaluationError(m) => "FEEL evaluation error: "@ + m@,
        DmnError::InvalidDecisionTable(m) => "Invalid decision table: "@ + m@,
        DmnError::NoMatchingRules => "No matching rules found for inputs"@,
        DmnError::AmbiguousRules(m) => "Ambiguous rules matched: "@ + m@,
        DmnError::MissingInput(m) => "Missing required input: "@ + m@,
        DmnError::InvalidInput(m) => "Invalid input value: "@ + m@,
        DmnError::TypeMismatch { expected, actual } => "Type mismatch: expected "@ + expected@
            + ", got "@ + actual@,
        DmnError::DecisionNotFound(m) => "Decision not found: "@ + m@,
        DmnError::InvalidDecisionGraph(m) => "Invalid decision graph: "@ + m@,
        DmnError::CircularDependency(m) => "Circular dependency detected: "@ + m@,
        DmnError::XmlParsingError(m) => "XML parsing error: "@ + m@,
        DmnError::XmlGenerationError(m) => "XML generation error: "@ + m@,
        DmnError::UnsupportedVersion(m) => "Unsupported DMN version: "@ + m@,
        DmnError::OperationError(m) => "Operation failed: "@ + m@,
    }
}

impl DmnError {
    /// The message that describes this error.
    pub fn to_string(&self) -> (s: String)
        ensures
            s@ == dmn_error_text(*self),
    {
        match self {
            DmnError::FeelParsingError(m) => concat2("FEEL parsing error: ", m.as_str()),
            DmnError::FeelEvaluationError(m) => concat2("FEEL evaluation error: ", m.as_str()),
            DmnError::InvalidDecisionTable(m) => concat2("Invalid decision table: ", m.as_str()),
            DmnError::NoMatchingRules => owned("No matching rules found for inputs"),
            DmnError::AmbiguousRules(m) => concat2("Ambiguous rules matched: ", m.as_str()),
            DmnError::MissingInput(m) => concat2("Missing required input: ", m.as_str()),
            DmnError::InvalidInput(m) => concat2("Invalid input value: ", m.as_str()),
            DmnError::TypeMismatch { expected, actual } => {
                let mut s = concat3("Type mismatch: expected ", expected.as_str(), ", got ");
                s.append(actual.as_str());
                s
            },
            DmnError::DecisionNotFound(m) => concat2("Decision not found: ", m.as_str()),
            DmnError::InvalidDecisionGraph(m) => concat2("Invalid decision graph: ", m.as_str()),
            DmnError::CircularDependency(m) => concat2("Circular dependency detected: ", m.as_str()),
            DmnError::XmlParsingError(m) => concat2("XML parsing error: ", m.as_str()),
            DmnError::XmlGenerationError(m) => concat2("XML generation error: ", m.as_str()),
            DmnError::UnsupportedVersion(m) => concat2("Unsupported DMN version: ", m.as_str()),
            DmnError::OperationError(m) => concat2("Operation failed: ", m.as_str()),
        }
    }
}

} // verus!
