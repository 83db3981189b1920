//! Validation of the workflow as a whole: start and end events, connected
//! nodes, and the flows that events and gateways may have.
use vstd::prelude::*;
use crate::bpmn::json_format::{BpmnJsonWorkflow, SequenceFlow, WorkflowStep};
use crate::text::{concat3, concat5, owned, str_eq};
use super::sequence_flows::{append_issues, push_issue};
use super::types::{
    Issue, ValidationError, ErrorSeverity, ErrorCategory, issue, issues, in_context, suggesting,
};

verus! {

/// Some step of `steps` has the node type `t`.
pub open spec fn has_step_type(steps: Seq<WorkflowStep>, t: Seq<char>) -> bool {
    exists|j: int| 0 <= j < steps.len() && (#[trigger] steps[j]).step_type@ == t
}

/// Some flow starts or ends at `id`.
pub open spec fn is_connected(flows: Seq<SequenceFlow>, id: Seq<char>) -> bool {
    exists|j: int|
        0 <= j < flows.len() && ((#[trigger] flows[j]).source_ref@ == id || flows[j].target_ref@ == id)
}

/// Number of flows that end at `id`.
pub open spec fn incoming_count(flows: Seq<SequenceFlow>, id: Seq<char>) -> nat
    decreases flows.len(),
{
    if flows.len() == 0 {
        0
    } else {
        incoming_count(flows.drop_last(), id) + if flows.last().target_ref@ == id { 1nat } else { 0nat }
    }
}

/// Number of flows that start at `id`.
pub open spec fn outgoing_count(flows: Seq<SequenceFlow>, id: Seq<char>) -> nat
    decreases flows.len(),
{
    if flows.len() == 0 {
        0
    } else {
        outgoing_count(flows.drop_last(), id) + if flows.last().source_ref@ == id { 1nat } else { 0nat }
    }
}

/// The finding about step `i` when it is connected to no flow.
pub open spec fn disconnected_issue(w: BpmnJsonWorkflow, i: int) -> Seq<Issue> {
    let s = w.workflow_steps@[i];
    if !is_connected(w.sequence_flows@, s.id@) && w.workflow_steps@.len() != 1 {
        seq![
            suggesting(
                in_context(
                    issue(
                        ErrorSeverity::Warning,
                        ErrorCategory::StructuralIssue,
                        "Node '"@ + s.id@ + "' ("@ + s.name@ + ") is not connected to any flows"@,
                    ),
                    s.id@,
                ),
                "Connect this node with sequence flows or remove it"@,
            ),
        ]
    } else {
        Seq::empty()
    }
}

/// The findings about disconnected nodes among the first `n` steps.
pub open spec fn disconnected_issues(w: BpmnJsonWorkflow, n: int) -> Seq<Issue>
    decreases n,
{
    if n <= 0 {
        Seq::empty()
    } else {
        disconnected_issues(w, n - 1) + disconnected_issue(w, n - 1)
    }
}

/// `t` names one of the gateway types whose flows are checked.
pub open spec fn is_checked_gateway(t: Seq<char>) -> bool {
    t == "exclusiveGateway"@ || t == "parallelGateway"@ || t == "inclusiveGateway"@
}

/// A finding about step `s` with context and suggestion.
pub open spec fn step_issue(
    severity: ErrorSeverity,
    s: WorkflowStep,
    before: Seq<char>,
    after: Seq<char>,
    suggestion: Seq<char>,
) -> Issue {
    suggesting(
        in_context(issue(severity, ErrorCategory::StructuralIssue, before + s.id@ + after), s.id@),
        suggestion,
    )
}

/// The findings about the flows of step `i` given its type.
pub open spec fn gateway_issue(w: BpmnJsonWorkflow, i: int) -> Seq<Issue> {
    let s = w.workflow_steps@[i];
    let incoming = incoming_count(w.sequence_flows@, s.id@);
    let outgoing = outgoing_count(w.sequence_flows@, s.id@);
    let t = s.step_type@;
    if t == "startEvent"@ {
        (if incoming > 0 {
            seq![
                step_issue(
                    ErrorSeverity::Error,
                    s,
                    "Start event '"@,
                    "' has incoming flows"@,
                    "Start events should not have incoming sequence flows"@,
                ),
            ]
        } else {
            Seq::empty()
        }) + (if outgoing == 0 {
            seq![
                step_issue(
                    ErrorSeverity::Warning,
                    s,
                    "Start event '"@,
                    "' has no outgoing flows"@,
                    "Start events should have at least one outgoing flow"@,
                ),
            ]
        } else {
            Seq::empty()
        })
    } else if t == "endEvent"@ {
        (if outgoing > 0 {
            seq![
                step_issue(
                    ErrorSeverity::Error,
                    s,
                    "End event '"@,
                    "' has outgoing flows"@,
                    "End events should not have outgoing sequence flows"@,
                ),
            ]
        } else {
            Seq::empty()
        }) + (if incoming == 0 {
            seq![
                step_issue(
                    ErrorSeverity::Warning,
                    s,
                    "End event '"@,
                    "' has no incoming flows"@,
                    "End events should have at least one incoming flow"@,
                ),
            ]
        } else {
            Seq::empty()
        })
    } else if is_checked_gateway(t) {
        if incoming == 0 && outgoing == 0 {
            seq![
                step_issue(
                    ErrorSeverity::Warning,
                    s,
                    "Gateway '"@,
                    "' has no connections"@,
                    "Gateways should have both incoming and outgoing flows"@,
                ),
            ]
        } else if incoming > 1 && outgoing > 1 {
            seq![
                step_issue(
                    ErrorSeverity::Info,
                    s,
                    "Gateway '"@,
                    "' is used as both merge and split"@,
                    "Consider using separate gateways for merge and split operations"@,
                ),
            ]
        } else {
            Seq::empty()
        }
    } else {
        Seq::empty()
    }
}

/// The findings about the flows of the first `n` steps.
pub open spec fn gateway_issues(w: BpmnJsonWorkflow, n: int) -> Seq<Issue>
    decreases n,
{
    if n <= 0 {
        Seq::empty()
    } else {
        gateway_issues(w, n - 1) + gateway_issue(w, n - 1)
    }
}

/// The findings about the structure of `w` as a whole.
pub open spec fn structure_issues(w: BpmnJsonWorkflow) -> Seq<Issue> {
    let steps = w.workflow_steps@;
    (if !has_step_type(steps, "startEvent"@) {
        seq![
            suggesting(
                issue(ErrorSeverity::Error, ErrorCategory::StructuralIssue, "Workflow has no start event"@),
                "Add at least one startEvent node"@,
            ),
        ]
    } else {
        Seq::empty()
    }) + (if !has_step_type(steps, "endEvent"@) {
        seq![
            suggesting(
                issue(ErrorSeverity::Error, ErrorCategory::StructuralIssue, "Workflow has no end event"@),
                "Add at least one endEvent node"@,
            ),
        ]
    } else {
        Seq::empty()
    }) + disconnected_issues(w, steps.len() as int) + gateway_issues(w, steps.len() as int)
}

fn step_type_exists(steps: &Vec<WorkflowStep>, t: &str) -> (r: bool)
    ensures
        r == has_step_type(steps@, t@),
{
    let mut j: usize = 0;
    while j < steps.len()
        invariant
            j <= steps.len(),
            forall|k: int| 0 <= k < j ==> (#[trigger] steps@[k]).step_type@ != t@,
        decreases steps.len() - j,
    {
        if str_eq(steps[j].step_type.as_str(), t) {
            assert(steps@[j as int].step_type@ == t@);
            return true;
        }
        j = j + 1;
    }
    false
}

fn connected(flows: &Vec<SequenceFlow>, id: &String) -> (r: bool)
    ensures
        r == is_connected(flows@, id@),
{
    let mut j: usize = 0;
    while j < flows.len()
        invariant
            j <= flows.len(),
            forall|k: int|
                0 <= k < j ==> (#[trigger] flows@[k]).source_ref@ != id@ && flows@[k].target_ref@ != id@,
        decreases flows.len() - j,
    {
        if flows[j].source_ref == *id || flows[j].target_ref == *id {
            assert(flows@[j as int].source_ref@ == id@ || flows@[j as int].target_ref@ == id@);
            return true;
        }
        j = j + 1;
    }
    false
}

fn count_flows(flows: &Vec<SequenceFlow>, id: &String) -> (r: (usize, usize))
    ensures
        r.0 == incoming_count(flows@, id@),
        r.1 == outgoing_count(flows@, id@),
{
    let mut incoming: usize = 0;
    let mut outgoing: usize = 0;
    let mut j: usize = 0;
    while j < flows.len()
        invariant
            j <= flows.len(),
            incoming == incoming_count(flows@.take(j as int), id@),
            outgoing == outgoing_count(flows@.take(j as int), id@),
            incoming <= j,
            outgoing <= j,
        decreases flows.len() - j,
    {
        assert(flows@.take(j + 1).drop_last() == flows@.take(j as int));
        if flows[j].target_ref == *id {
            incoming = incoming + 1;
        }
        if flows[j].source_ref == *id {
            outgoing = outgoing + 1;
        }
        j = j + 1;
    }
    assert(flows@.take(flows.len() as int) == flows@);
    (incoming, outgoing)
}

/// Warn about each node that no flow starts or ends at (unless the workflow
/// has a single node).
pub fn check_disconnected_nodes(workflow: &BpmnJsonWorkflow) -> (errors: Vec<ValidationError>)
    ensures
        issues(errors@) == disconnected_issues(*workflow, workflow.workflow_steps@.len() as int),
{
    let mut errors: Vec<ValidationError> = Vec::new();
    let steps = &workflow.workflow_steps;
    let mut i: usize = 0;
    assert(issues(errors@) =~= Seq::<Issue>::empty());
    while i < steps.len()
        invariant
            i <= steps.len(),
            steps == &workflow.workflow_steps,
            issues(errors@) == disconnected_issues(*workflow, i as int),
        decreases steps.len() - i,
    {
        let step = &steps[i];
        if !connected(&workflow.sequence_flows, &step.id) && steps.len() != 1 {
            let msg = concat5(
                "Node '",
                step.id.as_str(),
                "' (",
                step.name.as_str(),
                ") is not connected to any flows",
            );
            push_issue(
                &mut errors,
                ValidationError::warning(ErrorCategory::StructuralIssue, msg).with_context(
                    step.id.clone(),
                ).with_suggestion(owned("Connect this node with sequence flows or remove it")),
            );
        }
        assert(issues(errors@) =~= disconnected_issues(*workflow, i + 1));
        i = i + 1;
    }
    errors
}

fn structural(severity: ErrorSeverity, step: &WorkflowStep, before: &str, after: &str, suggestion: &str) -> (e:
    ValidationError)
    ensures
        e@ == step_issue(severity, *step, before@, after@, suggestion@),
{
    ValidationError {
        severity,
        category: ErrorCategory::StructuralIssue,
        message: concat3(before, step.id.as_str(), after),
        context: None,
        suggestion: None,
    }.with_context(step.id.clone()).with_suggestion(owned(suggestion))
}

fn gateway_findings(workflow: &BpmnJsonWorkflow, i: usize) -> (errors: Vec<ValidationError>)
    requires
        i < workflow.workflow_steps.len(),
    ensures
        issues(errors@) == gateway_issue(*workflow, i as int),
{
    let step = &workflow.workflow_steps[i];
    let (incoming, outgoing) = count_flows(&workflow.sequence_flows, &step.id);
    let t = step.step_type.as_str();
    let mut errors: Vec<ValidationError> = Vec::new();
    if str_eq(t, "startEvent") {
        if incoming > 0 {
            push_issue(
                &mut errors,
                structural(
                    ErrorSeverity::Error,
                    step,
                    "Start event '",
                    "' has incoming flows",
                    "Start events should not have incoming sequence flows",
                ),
            );
        }
        if outgoing == 0 {
            push_issue(
                &mut errors,
                structural(
                    ErrorSeverity::Warning,
                    step,
                    "Start event '",
                    "' has no outgoing flows",
                    "Start events should have at least one outgoing flow",
                ),
            );
        }
    } else if str_eq(t, "endEvent") {
        if outgoing > 0 {
            push_issue(
                &mut errors,
                structural(
                    ErrorSeverity::Error,
                    step,
                    "End event '",
                    "' has outgoing flows",
                    "End events should not have outgoing sequence flows",
                ),
            );
        }
        if incoming == 0 {
            push_issue(
                &mut errors,
                structural(
                    ErrorSeverity::Warning,
                    step,
                    "End event '",
                    "' has no incoming flows",
                    "End events should have at least one incoming flow",
                ),
            );
        }
    } else if str_eq(t, "exclusiveGateway") || str_eq(t, "parallelGateway") || str_eq(
        t,
        "inclusiveGateway",
    ) {
        if incoming == 0 && outgoing == 0 {
            push_issue(
                &mut errors,
                structural(
                    ErrorSeverity::Warning,
                    step,
                    "Gateway '",
                    "' has no connections",
                    "Gateways should have both incoming and outgoing flows",
                ),
            );
        } else if outgoing == 1 && incoming > 1 {
            // a converging gateway
        } else if incoming == 1 && outgoing > 1 {
            // a diverging gateway
        } else if incoming > 1 && outgoing > 1 {
            push_issue(
                &mut errors,
                structural(
                    ErrorSeverity::Info,
                    step,
                    "Gateway '",
                    "' is used as both merge and split",
                    "Consider using separate gateways for merge and split operations",
                ),
            );
        }
    }
    assert(issues(errors@) =~= gateway_issue(*workflow, i as int));
    errors
}

/// Check the flows of start events, end events and gateways.
pub fn validate_gateway_connections(workflow: &BpmnJsonWorkflow) -> (errors: Vec<ValidationError>)
    ensures
        issues(errors@) == gateway_issues(*workflow, workflow.workflow_steps@.len() as int),
{
    let mut errors: Vec<ValidationError> = Vec::new();
    let mut i: usize = 0;
    assert(issues(errors@) =~= Seq::<Issue>::empty());
    while i < workflow.workflow_steps.len()
        invariant
            i <= workflow.workflow_steps.len(),
            issues(errors@) == gateway_issues(*workflow, i as int),
        decreases workflow.workflow_steps.len() - i,
    {
        let more = gateway_findings(workflow, i);
        append_issues(&mut errors, more);
        i = i + 1;
    }
    errors
}

/// Check the workflow as a whole: start and end events, connected nodes and
/// the flows of events and gateways.
pub fn validate_workflow_structure(workflow: &BpmnJsonWorkflow) -> (errors: Vec<ValidationError>)
    ensures
        issues(errors@) == structure_issues(*workflow),
{
    let mut errors: Vec<ValidationError> = Vec::new();
    let ghost e0 = issues(errors@);
    if !step_type_exists(&workflow.workflow_steps, "startEvent") {
        push_issue(
            &mut errors,
            ValidationError::error(
                ErrorCategory::StructuralIssue,
                owned("Workflow has no start event"),
            ).with_suggestion(owned("Add at least one startEvent node")),
        );
    }
    let ghost e1 = issues(errors@);
    if !step_type_exists(&workflow.workflow_steps, "endEvent") {
        push_issue(
            &mut errors,
            ValidationError::error(
                ErrorCategory::StructuralIssue,
                owned("Workflow has no end event"),
            ).with_suggestion(owned("Add at least one endEvent node")),
        );
    }
    let ghost e2 = issues(errors@);
    append_issues(&mut errors, check_disconnected_nodes(workflow));
    append_issues(&mut errors, validate_gateway_connections(workflow));
    assert(issues(errors@) =~= structure_issues(*workflow));
    errors
}

} // verus!
