//! Validation findings, their severity and category, and summaries of them.
use vstd::prelude::*;
use crate::text::{concat3, opt_view, owned, usize_to_decimal, decimal};

verus! {

/// How serious a finding is.
#[derive(Debug, Clone, Copy, PartialEq, Eq, Structural)]
pub enum ErrorSeverity {
    /// The workflow cannot be loaded or executed.
    Error,
    /// The workflow may have issues but can be loaded.
    Warning,
    /// A best-practice suggestion.
    Info,
}

/// What kind of problem a finding reports.
#[derive(Debug, Clone, Copy, PartialEq, Eq, Structural)]
pub enum ErrorCategory {
    MissingField,
    InvalidValue,
    BrokenReference,
    DuplicateId,
    StructuralIssue,
    TypeValidation,
}

/// One validation finding.
#[derive(Debug, Clone, PartialEq, Eq)]
pub struct ValidationError {
    pub severity: ErrorSeverity,
    pub category: ErrorCategory,
    pub message: String,
    pub context: Option<String>,
    pub suggestion: Option<String>,
}

/// The content of a finding, as plain text.
pub struct Issue {
    pub severity: ErrorSeverity,
    pub category: ErrorCategory,
    pub message: Seq<char>,
    pub context: Option<Seq<char>>,
    pub suggestion: Option<Seq<char>>,
}

impl View for ValidationError {
    type V = Issue;

    open spec fn view(&self) -> Issue {
        Issue {
            severity: self.severity,
            category: self.category,
            message: self.message@,
            context: opt_view(self.context),
            suggestion: opt_view(self.suggestion),
        }
    }
}

/// The findings of a list, as plain text.
pub open spec fn issues(v: Seq<ValidationError>) -> Seq<Issue> {
    v.map_values(|e: ValidationError| e@)
}

/// A finding with the given severity, category and message and nothing more.
pub open spec fn issue(severity: ErrorSeverity, category: ErrorCategory, message: Seq<char>) -> Issue {
    Issue { severity, category, message, context: None, suggestion: None }
}

/// `i` with a context.
pub open spec fn in_context(i: Issue, context: Seq<char>) -> Issue {
    Issue { context: Some(context), ..i }
}

/// `i` with a suggestion.
pub open spec fn suggesting(i: Issue, suggestion: Seq<char>) -> Issue {
    Issue { suggestion: Some(suggestion), ..i }
}

impl ValidationError {
    /// A finding of severity `Error`.
    pub fn error(category: ErrorCategory, message: String) -> (e: Self)
        ensures
            e@ == issue(ErrorSeverity::Error, category, message@),
    {
        ValidationError { severity: ErrorSeverity::Error, category, message, context: None, suggestion: None }
    }

    /// A finding of severity `Warning`.
    pub fn warning(category: ErrorCategory, message: String) -> (e: Self)
        ensures
            e@ == issue(ErrorSeverity::Warning, category, message@),
    {
        ValidationError { severity: ErrorSeverity::Warning, category, message, context: None, suggestion: None }
    }

    /// A finding of severity `Info`.
    pub fn info(category: ErrorCategory, message: String) -> (e: Self)
        ensures
            e@ == issue(ErrorSeverity::Info, category, message@),
    {
        ValidationError { severity: ErrorSeverity::Info, category, message, context: None, suggestion: None }
    }

    /// This finding, with `context` attached.
    pub fn with_context(self, context: String) -> (e: Self)
        ensures
            e@ == in_context(self@, context@),
    {
        ValidationError { context: Some(context), ..self }
    }

    /// This finding, with a suggested fix attached.
    pub fn with_suggestion(self, suggestion: String) -> (e: Self)
        ensures
            e@ == suggesting(self@, suggestion@),
    {
        ValidationError { suggestion: Some(suggestion), ..self }
    }
}

/// Number of findings of severity `sev` in `v`.
pub open spec fn count_severity(v: Seq<ValidationError>, sev: ErrorSeverity) -> nat
    decreases v.len(),
{
    if v.len() == 0 {
        0
    } else {
        count_severity(v.drop_last(), sev) + if v.last().severity == sev { 1nat } else { 0nat }
    }
}

proof fn lemma_count_severity_bound(v: Seq<ValidationError>, sev: ErrorSeverity)
    ensures
        count_severity(v, sev) <= v.len(),
    decreases v.len(),
{
    if v.len() > 0 {
        lemma_count_severity_bound(v.drop_last(), sev);
    }
}

/// Every finding has exactly one of the three severities, so the three
/// counts of a summary add up to the number of findings.
pub proof fn lemma_severity_counts_sum(v: Seq<ValidationError>)
    ensures
        count_severity(v, ErrorSeverity::Error) + count_severity(v, ErrorSeverity::Warning) + count_severity(
            v,
            ErrorSeverity::Info,
        ) == v.len(),
    decreases v.len(),
{
    if v.len() > 0 {
        lemma_severity_counts_sum(v.drop_last());
    }
}

/// How many findings of each severity a list holds.
pub struct ValidationSummary {
    pub errors: usize,
    pub warnings: usize,
    pub info: usize,
}

impl ValidationSummary {
    /// Count the findings of `errors` by severity.
    pub fn from_errors(errors: &[ValidationError]) -> (s: Self)
        ensures
            s.errors == count_severity(errors@, ErrorSeverity::Error),
            s.warnings == count_severity(errors@, ErrorSeverity::Warning),
            s.info == count_severity(errors@, ErrorSeverity::Info),
    {
        let mut summary = ValidationSummary { errors: 0, warnings: 0, info: 0 };
        let mut i: usize = 0;
        while i < errors.len()
            invariant
                i <= errors.len(),
                summary.errors == count_severity(errors@.take(i as int), ErrorSeverity::Error),
                summary.warnings == count_severity(errors@.take(i as int), ErrorSeverity::Warning),
                summary.info == count_severity(errors@.take(i as int), ErrorSeverity::Info),
            decreases errors.len() - i,
        {
            proof {
                assert(errors@.take(i + 1).drop_last() == errors@.take(i as int));
                lemma_count_severity_bound(errors@.take(i as int), ErrorSeverity::Error);
                lemma_count_severity_bound(errors@.take(i as int), ErrorSeverity::Warning);
                lemma_count_severity_bound(errors@.take(i as int), ErrorSeverity::Info);
            }
            match errors[i].severity {
                ErrorSeverity::Error => summary.errors = summary.errors + 1,
                ErrorSeverity::Warning => summary.warnings = summary.warnings + 1,
                ErrorSeverity::Info => summary.info = summary.info + 1,
            }
            i = i + 1;
        }
        assert(errors@.take(errors.len() as int) == errors@);
        summary
    }

    /// Whether any finding is an error (not a warning or an info message).
    pub fn has_errors(&self) -> (b: bool)
        ensures
            b == (self.errors > 0),
    {
        self.errors > 0
    }

    /// One line that gives the three counts.
    pub fn format(&self) -> (s: String)
        ensures
            s@ == "Validation summary: "@ + decimal(self.errors as nat) + " error(s), "@ + decimal(
                self.warnings as nat,
            ) + " warning(s), "@ + decimal(self.info as nat) + " info message(s)"@,
    {
        let e = usize_to_decimal(self.errors);
        let w = usize_to_decimal(self.warnings);
        let n = usize_to_decimal(self.info);
        let mut s = concat3("Validation summary: ", e.as_str(), " error(s), ");
        s.append(w.as_str());
        s.append(" warning(s), ");
        s.append(n.as_str());
        s.append(" info message(s)");
        s
    }
}

} // verus!
