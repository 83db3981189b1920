//! Validation of workflow files.
//!
//! - `types`: findings, severities, categories and summaries
//! - `constants`: the node, event and task types of BPMN 2.0
//! - `process`: the process record
//! - `workflow_steps`: the steps (nodes)
//! - `sequence_flows`: the flows (connections)
//! - `structure`: the workflow as a whole
pub mod constants;
pub mod process;
pub mod sequence_flows;
pub mod structure;
pub mod types;
pub mod workflow_steps;

use vstd::prelude::*;
use crate::bpmn::json_format::BpmnJsonWorkflow;
use crate::text::{concat2, owned};
use self::process::{process_info_issues, validate_process_info};
use self::sequence_flows::{append_issues, sequence_flows_issues, validate_sequence_flows};
use self::structure::{structure_issues, validate_workflow_structure};
use self::types::{
    Issue, ValidationError, ErrorSeverity, ErrorCategory, issue, issues, suggesting,
};
use self::workflow_steps::{validate_workflow_steps, workflow_steps_issues};

verus! {

/// `Ok` when a workflow has no findings, else all of them.
pub type ValidationResult = Result<(), Vec<ValidationError>>;

/// All findings about `w`: process record, steps, flows, then structure.
pub open spec fn workflow_issues(w: BpmnJsonWorkflow) -> Seq<Issue> {
    process_info_issues(w) + workflow_steps_issues(w.workflow_steps@) + sequence_flows_issues(
        w.sequence_flows@,
        w.workflow_steps@,
        w.sequence_flows@.len() as int,
    ) + structure_issues(w)
}

/// Validate a workflow: `Ok` exactly when nothing is found, else every
/// finding in the order process record, steps, flows, structure.
pub fn validate_bpmn_workflow(workflow: &BpmnJsonWorkflow) -> (r: ValidationResult)
    ensures
        r is Ok <==> workflow_issues(*workflow).len() == 0,
        r matches Err(errors) ==> issues(errors@) == workflow_issues(*workflow),
{
    let mut errors: Vec<ValidationError> = Vec::new();
    append_issues(&mut errors, validate_process_info(workflow));
    append_issues(&mut errors, validate_workflow_steps(&workflow.workflow_steps));
    append_issues(
        &mut errors,
        validate_sequence_flows(&workflow.sequence_flows, &workflow.workflow_steps),
    );
    append_issues(&mut errors, validate_workflow_structure(workflow));
    assert(issues(errors@) =~= workflow_issues(*workflow));
    if errors.len() == 0 {
        Ok(())
    } else {
        Err(errors)
    }
}

/// The finding reported for a workflow file that is not well-formed JSON of
/// the expected shape; `detail` is what the JSON reader said.
pub open spec fn json_parse_issue(detail: Seq<char>) -> Issue {
    suggesting(
        issue(ErrorSeverity::Error, ErrorCategory::InvalidValue, "Failed to parse JSON: "@ + detail),
        "Ensure the JSON is well-formed and matches the expected schema"@,
    )
}

/// The result for a workflow file that could not be read as JSON.
pub fn json_parse_failure(detail: &str) -> (r: ValidationResult)
    ensures
        r matches Err(errors) && issues(errors@) == seq![json_parse_issue(detail@)],
{
    let e = ValidationError::error(ErrorCategory::InvalidValue, concat2("Failed to parse JSON: ", detail))
        .with_suggestion(owned("Ensure the JSON is well-formed and matches the expected schema"));
    let mut errors: Vec<ValidationError> = Vec::new();
    errors.push(e);
    assert(issues(errors@) =~= seq![json_parse_issue(detail@)]);
    Err(errors)
}


proof fn lemma_incoming_positive(flows: Seq<crate::bpmn::json_format::SequenceFlow>, id: Seq<char>, j: int)
    requires
        0 <= j < flows.len(),
        flows[j].target_ref@ == id,
    ensures
        self::structure::incoming_count(flows, id) > 0,
    decreases flows.len(),
{
    if j < flows.len() - 1 {
        assert(flows.drop_last()[j] == flows[j]);
        lemma_incoming_positive(flows.drop_last(), id, j);
    }
}

proof fn lemma_gateway_issues_hold(w: BpmnJsonWorkflow, n: int, i: int, k: int)
    requires
        0 <= i < n,
        0 <= k < self::structure::gateway_issue(w, i).len(),
    ensures
        exists|m: int|
            0 <= m < self::structure::gateway_issues(w, n).len() && #[trigger] self::structure::gateway_issues(w, n)[m]
                == self::structure::gateway_issue(w, i)[k],
    decreases n,
{
    let prev = self::structure::gateway_issues(w, n - 1);
    let last = self::structure::gateway_issue(w, n - 1);
    assert(self::structure::gateway_issues(w, n) == prev + last);
    if i == n - 1 {
        assert((prev + last)[prev.len() + k] == last[k]);
    } else {
        lemma_gateway_issues_hold(w, n - 1, i, k);
        let m = choose|m: int| 0 <= m < prev.len() && #[trigger] prev[m] == self::structure::gateway_issue(w, i)[k];
        assert((prev + last)[m] == prev[m]);
    }
}

/// A start event that some flow leads into makes a workflow invalid: its
/// findings hold an error, at the start event, that it has incoming flows,
/// so `validate_bpmn_workflow` gives `Err`.
pub proof fn lemma_start_event_with_incoming_flow_is_invalid(w: BpmnJsonWorkflow, i: int, j: int)
    requires
        0 <= i < w.workflow_steps@.len(),
        w.workflow_steps@[i].step_type@ == seq!['s', 't', 'a', 'r', 't', 'E', 'v', 'e', 'n', 't'],
        0 <= j < w.sequence_flows@.len(),
        w.sequence_flows@[j].target_ref@ == w.workflow_steps@[i].id@,
    ensures
        workflow_issues(w).len() > 0,
        exists|m: int|
            0 <= m < workflow_issues(w).len() && (#[trigger] workflow_issues(w)[m]).severity == ErrorSeverity::Error
                && workflow_issues(w)[m].context == Some(w.workflow_steps@[i].id@)
                && workflow_issues(w)[m].message == seq!['S', 't', 'a', 'r', 't', ' ', 'e', 'v', 'e', 'n', 't', ' ', '\'']
                + w.workflow_steps@[i].id@ + seq![
                '\'', ' ', 'h', 'a', 's', ' ', 'i', 'n', 'c', 'o', 'm', 'i', 'n', 'g', ' ', 'f', 'l', 'o', 'w', 's',
            ],
{
    reveal_strlit("startEvent");
    reveal_strlit("Start event '");
    reveal_strlit("' has incoming flows");
    assert("startEvent"@ =~= seq!['s', 't', 'a', 'r', 't', 'E', 'v', 'e', 'n', 't']);
    assert("Start event '"@ =~= seq!['S', 't', 'a', 'r', 't', ' ', 'e', 'v', 'e', 'n', 't', ' ', '\'']);
    assert("' has incoming flows"@ =~= seq![
        '\'', ' ', 'h', 'a', 's', ' ', 'i', 'n', 'c', 'o', 'm', 'i', 'n', 'g', ' ', 'f', 'l', 'o', 'w', 's',
    ]);
    let s = w.workflow_steps@[i];
    lemma_incoming_positive(w.sequence_flows@, s.id@, j);
    let gi = self::structure::gateway_issue(w, i);
    assert(gi.len() > 0);
    let target = gi[0];
    assert(target.severity == ErrorSeverity::Error);
    let n = w.workflow_steps@.len() as int;
    lemma_gateway_issues_hold(w, n, i, 0);
    let gs = self::structure::gateway_issues(w, n);
    let m = choose|m: int| 0 <= m < gs.len() && #[trigger] gs[m] == gi[0];
    let st = self::structure::structure_issues(w);
    let before_g = st.len() - gs.len();
    assert(st[before_g + m] == gs[m]);
    let wi = workflow_issues(w);
    let before_s = wi.len() - st.len();
    assert(wi[before_s + before_g + m] == st[before_g + m]);
}

} // verus!
