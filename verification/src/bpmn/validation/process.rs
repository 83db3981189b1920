//! Validation of the process record: its id, its name and its version.
use vstd::prelude::*;
use crate::bpmn::json_format::BpmnJsonWorkflow;
use crate::text::{blank, chars_of, concat3, is_blank, owned};
use super::types::{Issue, ValidationError, ErrorSeverity, ErrorCategory, issue, issues, in_context, suggesting};

verus! {

/// The fields of `s` between the dots, as `str::split('.')` yields them.
pub open spec fn dot_fields(s: Seq<char>) -> Seq<Seq<char>>
    decreases s.len(),
{
    if s.len() == 0 {
        seq![Seq::<char>::empty()]
    } else {
        let init = dot_fields(s.drop_last());
        if s.last() == '.' {
            init.push(Seq::<char>::empty())
        } else {
            init.update(init.len() - 1, init.last().push(s.last()))
        }
    }
}

proof fn lemma_dot_fields_nonempty(s: Seq<char>)
    ensures
        dot_fields(s).len() >= 1,
    decreases s.len(),
{
    if s.len() > 0 {
        lemma_dot_fields_nonempty(s.drop_last());
    }
}

pub open spec fn is_digit(c: char) -> bool {
    '0' <= c && c <= '9'
}

/// The number that the decimal digits `d` denote.
pub open spec fn digits_value(d: Seq<char>) -> nat
    decreases d.len(),
{
    if d.len() == 0 {
        0
    } else {
        digits_value(d.drop_last()) * 10 + ((d.last() as nat) - ('0' as nat)) as nat
    }
}

/// The digits part of unsigned-number text: all after a leading `+`, if any.
pub open spec fn unsigned_digits(p: Seq<char>) -> Seq<char> {
    if p.len() > 0 && p[0] == '+' { p.skip(1) } else { p }
}

/// Every character of `d` is a decimal digit.
pub open spec fn all_digits(d: Seq<char>) -> bool {
    forall|i: int| 0 <= i < d.len() ==> is_digit(#[trigger] d[i])
}

/// Text that `str::parse::<u32>` accepts: an optional `+`, then at least one
/// decimal digit, of value at most `u32::MAX`.
pub open spec fn u32_text(p: Seq<char>) -> bool {
    let d = unsigned_digits(p);
    d.len() > 0 && all_digits(d) && digits_value(d) <= u32::MAX
}

/// A version is three dot-separated unsigned 32-bit numbers.
pub open spec fn valid_version(v: Seq<char>) -> bool {
    let f = dot_fields(v);
    f.len() == 3 && forall|k: int| 0 <= k < 3 ==> u32_text(#[trigger] f[k])
}

proof fn lemma_digits_value_prefix(d: Seq<char>, k: int)
    requires
        0 <= k <= d.len(),
        forall|i: int| 0 <= i < d.len() ==> is_digit(#[trigger] d[i]),
    ensures
        digits_value(d.take(k)) <= digits_value(d),
    decreases d.len() - k,
{
    if k < d.len() {
        lemma_digits_value_prefix(d, k + 1);
        assert(d.take(k + 1).drop_last() == d.take(k));
    } else {
        assert(d.take(k) == d);
    }
}

fn check_u32_text(p: &Vec<char>) -> (r: bool)
    ensures
        r == u32_text(p@),
{
    let start: usize = if p.len() > 0 && p[0] == '+' { 1 } else { 0 };
    let ghost d = unsigned_digits(p@);
    assert(d == p@.skip(start as int));
    if start >= p.len() {
        return false;
    }
    let mut value: u64 = 0;
    let mut i: usize = start;
    while i < p.len()
        invariant
            start <= i <= p.len(),
            start < p.len(),
            d == p@.skip(start as int),
            d == unsigned_digits(p@),
            forall|j: int| 0 <= j < i - start ==> is_digit(#[trigger] d[j]),
            value == digits_value(d.take(i - start)),
            value <= u32::MAX,
        decreases p.len() - i,
    {
        let c = p[i];
        assert(d[i - start] == c);
        if !('0' <= c && c <= '9') {
            assert(!is_digit(d[i - start]));
            assert(!u32_text(p@));
            return false;
        }
        assert(d.take(i - start + 1).drop_last() == d.take(i - start));
        let dv = (c as u64) - ('0' as u64);
        value = value * 10 + dv;
        i = i + 1;
        if value > 0xFFFF_FFFF {
            proof {
                if all_digits(d) {
                    lemma_digits_value_prefix(d, i - start);
                    assert(digits_value(d) > u32::MAX);
                }
                assert(!u32_text(p@));
            }
            return false;
        }
    }
    assert(d.take(p.len() - start) == d);
    true
}

/// Whether `version` is three dot-separated unsigned 32-bit numbers, such as `1.0.0`.
pub fn is_valid_version(version: &str) -> (r: bool)
    ensures
        r == valid_version(version@),
{
    let v = chars_of(version);
    let mut fields: Vec<Vec<char>> = Vec::new();
    fields.push(Vec::new());
    let mut i: usize = 0;
    assert(v@.take(0) =~= Seq::<char>::empty());
    assert(fields@.map_values(|f: Vec<char>| f@) =~= dot_fields(Seq::<char>::empty()));
    while i < v.len()
        invariant
            i <= v.len(),
            v@ == version@,
            fields.len() >= 1,
            fields@.map_values(|f: Vec<char>| f@) == dot_fields(v@.take(i as int)),
        decreases v.len() - i,
    {
        let c = v[i];
        let ghost before = fields@.map_values(|f: Vec<char>| f@);
        assert(v@.take(i + 1).drop_last() == v@.take(i as int));
        assert(v@.take(i + 1).last() == c);
        if c == '.' {
            fields.push(Vec::new());
            assert(fields@.map_values(|f: Vec<char>| f@) =~= before.push(Seq::<char>::empty()));
        } else {
            let last = fields.len() - 1;
            let mut cur = fields[last].clone();
            cur.push(c);
            fields.set(last, cur);
            assert(fields@.map_values(|f: Vec<char>| f@) =~= before.update(
                before.len() - 1,
                before.last().push(c),
            ));
        }
        i = i + 1;
    }
    assert(v@.take(v.len() as int) == version@);
    let ghost f = dot_fields(version@);
    if fields.len() != 3 {
        return false;
    }
    assert(fields@[0]@ == f[0]);
    assert(fields@[1]@ == f[1]);
    assert(fields@[2]@ == f[2]);
    let a = check_u32_text(&fields[0]);
    let b = check_u32_text(&fields[1]);
    let c = check_u32_text(&fields[2]);
    a && b && c
}

/// The findings about the process record of `w`.
pub open spec fn process_info_issues(w: BpmnJsonWorkflow) -> Seq<Issue> {
    let p = w.bpmn_process;
    (if blank(p.id@) {
        seq![
            suggesting(
                in_context(
                    issue(ErrorSeverity::Error, ErrorCategory::MissingField, "Process ID cannot be empty"@),
                    "bpmn_process.id"@,
                ),
                "Provide a unique identifier for the process"@,
            ),
        ]
    } else {
        Seq::empty()
    }) + (if blank(p.name@) {
        seq![
            suggesting(
                in_context(
                    issue(ErrorSeverity::Warning, ErrorCategory::MissingField, "Process name is empty"@),
                    "bpmn_process.name"@,
                ),
                "Provide a descriptive name for the process"@,
            ),
        ]
    } else {
        Seq::empty()
    }) + (if !valid_version(p.version@) {
        seq![
            suggesting(
                in_context(
                    issue(
                        ErrorSeverity::Warning,
                        ErrorCategory::InvalidValue,
                        "Invalid version format: '"@ + p.version@ + "'"@,
                    ),
                    "bpmn_process.version"@,
                ),
                "Use semantic versioning format (e.g., '1.0.0')"@,
            ),
        ]
    } else {
        Seq::empty()
    })
}

/// Check the process record of `workflow`: an id, a name and a well-formed version.
pub fn validate_process_info(workflow: &BpmnJsonWorkflow) -> (errors: Vec<ValidationError>)
    ensures
        issues(errors@) == process_info_issues(*workflow),
{
    let mut errors: Vec<ValidationError> = Vec::new();
    let process = &workflow.bpmn_process;
    let ghost e0 = issues(errors@);
    if is_blank(process.id.as_str()) {
        errors.push(
            ValidationError::error(ErrorCategory::MissingField, owned("Process ID cannot be empty"))
                .with_context(owned("bpmn_process.id"))
                .with_suggestion(owned("Provide a unique identifier for the process")),
        );
    }
    let ghost e1 = issues(errors@);
    if is_blank(process.name.as_str()) {
        errors.push(
            ValidationError::warning(ErrorCategory::MissingField, owned("Process name is empty"))
                .with_context(owned("bpmn_process.name"))
                .with_suggestion(owned("Provide a descriptive name for the process")),
        );
    }
    let ghost e2 = issues(errors@);
    if !is_valid_version(process.version.as_str()) {
        errors.push(
            ValidationError::warning(
                ErrorCategory::InvalidValue,
                concat3("Invalid version format: '", process.version.as_str(), "'"),
            ).with_context(owned("bpmn_process.version")).with_suggestion(
                owned("Use semantic versioning format (e.g., '1.0.0')"),
            ),
        );
    }
    assert(issues(errors@) =~= process_info_issues(*workflow));
    errors
}

} // verus!
