//! Documentation of processes: the documents, their diagrams, their export
//! to Markdown, HTML and plain text, and reusable workflow templates.
pub mod builtin_templates;
pub mod diagrams;
pub mod exporters;
pub mod generator;
pub mod templates;

use vstd::prelude::*;

verus! {

/// The documentation of a process.
#[derive(Debug, Clone)]
pub struct ProcessDocumentation {
    pub process_id: String,
    pub name: String,
    pub description: String,
    pub purpose: Option<String>,
    pub inputs: Vec<Parameter>,
    pub outputs: Vec<Parameter>,
    pub participants: Vec<Participant>,
    pub flow_description: String,
    pub error_handling: Vec<ErrorScenario>,
    /// The DoDAF views the process relates to.
    pub dodaf_views: Vec<String>,
    /// Tags and other facts, as key and value, no key twice.
    pub metadata: Vec<(String, String)>,
    /// When the documentation was made, as RFC 3339 text.
    pub generated_at: String,
}

/// An input or output of a process.
#[derive(Debug, Clone)]
pub struct Parameter {
    pub name: String,
    pub param_type: String,
    pub description: String,
    pub required: bool,
    pub default: Option<String>,
    pub constraints: Option<String>,
}

/// Someone or something that takes part in a process.
#[derive(Debug, Clone)]
pub struct Participant {
    pub id: String,
    pub name: String,
    pub participant_type: String,
    pub role: Option<String>,
    pub responsibilities: Vec<String>,
}

/// A way a process can fail, and what is done about it.
#[derive(Debug, Clone)]
pub struct ErrorScenario {
    pub condition: String,
    pub handling: String,
    pub recovery_steps: Vec<String>,
    pub impact: Option<String>,
}

/// The text that `chrono` writes for the RFC 3339 time `rfc3339`, taken to
/// UTC and formatted with the `strftime`-style `format`, or none if `chrono`
/// cannot read the time.
pub uninterp spec fn utc_display(rfc3339: Seq<char>, format: Seq<char>) -> Option<Seq<char>>;

/// The time `rfc3339` in UTC formatted with `format`, from
/// `DateTime::parse_from_rfc3339`, `with_timezone(&Utc)` and `format`; none
/// if it cannot be read. Its value is named, not described. Writing a format
/// with an unknown specifier panics, so `format` is the library's own, whose
/// specifiers are all known.
#[verifier::external_body]
pub(crate) fn display_utc(rfc3339: &str, format: &str) -> (r: Option<String>)
    requires
        format@ == SHOWN_TIME_FORMAT@,
    ensures
        match r {
            Some(t) => utc_display(rfc3339@, format@) == Some(t@),
            None => utc_display(rfc3339@, format@) is None,
        },
{
    match chrono::DateTime::parse_from_rfc3339(rfc3339) {
        Ok(t) => Some(t.with_timezone(&chrono::Utc).format(format).to_string()),
        Err(_) => None,
    }
}

/// How a document's time is shown: `YYYY-MM-DD HH:MM:SS UTC`.
pub const SHOWN_TIME_FORMAT: &'static str = "%Y-%m-%d %H:%M:%S UTC";

/// The time shown for a document made at `rfc3339`: its UTC text form, or the
/// text itself when it cannot be read as a time.
pub open spec fn shown_time(rfc3339: Seq<char>) -> Seq<char> {
    match utc_display(rfc3339, SHOWN_TIME_FORMAT@) {
        Some(t) => t,
        None => rfc3339,
    }
}

/// The time shown for a document made at `rfc3339`.
pub(crate) fn shown_time_text(rfc3339: &str) -> (r: String)
    ensures
        r@ == shown_time(rfc3339@),
{
    match display_utc(rfc3339, SHOWN_TIME_FORMAT) {
        Some(t) => t,
        None => crate::text::owned(rfc3339),
    }
}

} // verus!
