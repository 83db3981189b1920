//! Validation of sequence flows: unique ids, existing endpoints, no self-loops.
use vstd::prelude::*;
use crate::bpmn::json_format::{SequenceFlow, WorkflowStep};
use crate::text::{blank, concat3, concat5, is_blank, owned};
use super::types::{
    Issue, ValidationError, ErrorSeverity, ErrorCategory, issue, issues, in_context, suggesting,
};

verus! {

/// Some step of `steps` has the id `id`.
pub open spec fn has_step(steps: Seq<WorkflowStep>, id: Seq<char>) -> bool {
    exists|j: int| 0 <= j < steps.len() && (#[trigger] steps[j]).id@ == id
}

/// Some flow before position `i` has the same id as flow `i`.
pub open spec fn flow_id_seen_before(flows: Seq<SequenceFlow>, i: int) -> bool {
    exists|j: int| 0 <= j < i && (#[trigger] flows[j]).id@ == flows[i].id@
}

/// The findings about flow `i` of `flows`.
pub open spec fn flow_issues(flows: Seq<SequenceFlow>, steps: Seq<WorkflowStep>, i: int) -> Seq<Issue> {
    let f = flows[i];
    (if flow_id_seen_before(flows, i) {
        seq![
            in_context(
                issue(ErrorSeverity::Error, ErrorCategory::DuplicateId, "Duplicate flow ID: '"@ + f.id@ + "'"@),
                f.id@,
            ),
        ]
    } else {
        Seq::empty()
    }) + (if blank(f.id@) {
        seq![issue(ErrorSeverity::Error, ErrorCategory::MissingField, "Sequence flow ID cannot be empty"@)]
    } else {
        Seq::empty()
    }) + (if !has_step(steps, f.source_ref@) {
        seq![
            suggesting(
                in_context(
                    issue(
                        ErrorSeverity::Error,
                        ErrorCategory::BrokenReference,
                        "Sequence flow '"@ + f.id@ + "' references non-existent source node: '"@
                            + f.source_ref@ + "'"@,
                    ),
                    f.id@,
                ),
                "Ensure the sourceRef matches an existing node ID"@,
            ),
        ]
    } else {
        Seq::empty()
    }) + (if !has_step(steps, f.target_ref@) {
        seq![
            suggesting(
                in_context(
                    issue(
                        ErrorSeverity::Error,
                        ErrorCategory::BrokenReference,
                        "Sequence flow '"@ + f.id@ + "' references non-existent target node: '"@
                            + f.target_ref@ + "'"@,
                    ),
                    f.id@,
                ),
                "Ensure the targetRef matches an existing node ID"@,
            ),
        ]
    } else {
        Seq::empty()
    }) + (if f.source_ref@ == f.target_ref@ {
        seq![
            suggesting(
                in_context(
                    issue(
                        ErrorSeverity::Warning,
                        ErrorCategory::StructuralIssue,
                        "Sequence flow '"@ + f.id@ + "' creates a self-loop on node '"@ + f.source_ref@
                            + "'"@,
                    ),
                    f.id@,
                ),
                "Self-loops are generally not recommended in BPMN workflows"@,
            ),
        ]
    } else {
        Seq::empty()
    })
}

/// The findings about the first `n` flows, flow by flow.
pub open spec fn sequence_flows_issues(flows: Seq<SequenceFlow>, steps: Seq<WorkflowStep>, n: int) -> Seq<Issue>
    decreases n,
{
    if n <= 0 {
        Seq::empty()
    } else {
        sequence_flows_issues(flows, steps, n - 1) + flow_issues(flows, steps, n - 1)
    }
}

/// Whether some step of `steps` has the id `id`.
pub fn step_exists(steps: &[WorkflowStep], id: &String) -> (r: bool)
    ensures
        r == has_step(steps@, id@),
{
    let mut j: usize = 0;
    while j < steps.len()
        invariant
            j <= steps.len(),
            forall|k: int| 0 <= k < j ==> (#[trigger] steps@[k]).id@ != id@,
        decreases steps.len() - j,
    {
        if steps[j].id == *id {
            assert(steps@[j as int].id@ == id@);
            return true;
        }
        j = j + 1;
    }
    false
}

fn flow_seen_before(flows: &[SequenceFlow], i: usize) -> (r: bool)
    requires
        i < flows.len(),
    ensures
        r == flow_id_seen_before(flows@, i as int),
{
    let mut j: usize = 0;
    while j < i
        invariant
            j <= i < flows.len(),
            forall|k: int| 0 <= k < j ==> (#[trigger] flows@[k]).id@ != flows@[i as int].id@,
        decreases i - j,
    {
        if flows[j].id == flows[i].id {
            assert(flows@[j as int].id@ == flows@[i as int].id@);
            return true;
        }
        j = j + 1;
    }
    false
}

/// Append `e` to `errors`.
pub fn push_issue(errors: &mut Vec<ValidationError>, e: ValidationError)
    ensures
        issues(final(errors)@) == issues(old(errors)@).push(e@),
{
    errors.push(e);
    assert(issues(errors@) =~= issues(old(errors)@).push(e@));
}

/// Append all of `more` to `errors`.
pub fn append_issues(errors: &mut Vec<ValidationError>, more: Vec<ValidationError>)
    ensures
        issues(final(errors)@) == issues(old(errors)@) + issues(more@),
{
    let mut more = more;
    let ghost m = more@;
    errors.append(&mut more);
    assert(issues(errors@) =~= issues(old(errors)@) + issues(m));
}

fn flow_findings(flows: &[SequenceFlow], steps: &[WorkflowStep], i: usize) -> (errors: Vec<ValidationError>)
    requires
        i < flows.len(),
    ensures
        issues(errors@) == flow_issues(flows@, steps@, i as int),
{
    let flow = &flows[i];
    let mut errors: Vec<ValidationError> = Vec::new();
    let ghost e0 = issues(errors@);
    if flow_seen_before(flows, i) {
        push_issue(
            &mut errors,
            ValidationError::error(
                ErrorCategory::DuplicateId,
                concat3("Duplicate flow ID: '", flow.id.as_str(), "'"),
            ).with_context(flow.id.clone()),
        );
    }
    let ghost e1 = issues(errors@);
    if is_blank(flow.id.as_str()) {
        push_issue(
            &mut errors,
            ValidationError::error(ErrorCategory::MissingField, owned("Sequence flow ID cannot be empty")),
        );
    }
    let ghost e2 = issues(errors@);
    if !step_exists(steps, &flow.source_ref) {
        push_issue(
            &mut errors,
            ValidationError::error(
                ErrorCategory::BrokenReference,
                concat5(
                    "Sequence flow '",
                    flow.id.as_str(),
                    "' references non-existent source node: '",
                    flow.source_ref.as_str(),
                    "'",
                ),
            ).with_context(flow.id.clone()).with_suggestion(
                owned("Ensure the sourceRef matches an existing node ID"),
            ),
        );
    }
    let ghost e3 = issues(errors@);
    if !step_exists(steps, &flow.target_ref) {
        push_issue(
            &mut errors,
            ValidationError::error(
                ErrorCategory::BrokenReference,
                concat5(
                    "Sequence flow '",
                    flow.id.as_str(),
                    "' references non-existent target node: '",
                    flow.target_ref.as_str(),
                    "'",
                ),
            ).with_context(flow.id.clone()).with_suggestion(
                owned("Ensure the targetRef matches an existing node ID"),
            ),
        );
    }
    let ghost e4 = issues(errors@);
    if flow.source_ref == flow.target_ref {
        push_issue(
            &mut errors,
            ValidationError::warning(
                ErrorCategory::StructuralIssue,
                concat5(
                    "Sequence flow '",
                    flow.id.as_str(),
                    "' creates a self-loop on node '",
                    flow.source_ref.as_str(),
                    "'",
                ),
            ).with_context(flow.id.clone()).with_suggestion(
                owned("Self-loops are generally not recommended in BPMN workflows"),
            ),
        );
    }
    assert(issues(errors@) =~= flow_issues(flows@, steps@, i as int));
    errors
}

/// Check every flow: a unique, non-empty id, a source and a target that are
/// steps, and no self-loop.
pub fn validate_sequence_flows(flows: &[SequenceFlow], steps: &[WorkflowStep]) -> (errors: Vec<
    ValidationError,
>)
    ensures
        issues(errors@) == sequence_flows_issues(flows@, steps@, flows@.len() as int),
{
    let mut errors: Vec<ValidationError> = Vec::new();
    let mut i: usize = 0;
    assert(issues(errors@) =~= Seq::<Issue>::empty());
    while i < flows.len()
        invariant
            i <= flows.len(),
            issues(errors@) == sequence_flows_issues(flows@, steps@, i as int),
        decreases flows.len() - i,
    {
        let more = flow_findings(flows, steps, i);
        append_issues(&mut errors, more);
        i = i + 1;
    }
    errors
}

} // verus!
