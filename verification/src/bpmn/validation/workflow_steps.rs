//! Validation of workflow steps: unique ids, names, known node types and the
//! requirements of particular node types.
use vstd::prelude::*;
use crate::bpmn::json_format::WorkflowStep;
use crate::text::{blank, concat2, concat3, is_blank, joined, owned, str_eq};
use super::constants::{
    event_types, join, node_types, one_of, strs_view, task_types, valid_event_types,
    valid_node_types, valid_task_types,
};
use super::sequence_flows::{append_issues, push_issue};
use super::types::{
    Issue, ValidationError, ErrorSeverity, ErrorCategory, issue, issues, in_context, suggesting,
};

verus! {

/// Some step before position `i` has the same id as step `i`.
pub open spec fn step_id_seen_before(steps: Seq<WorkflowStep>, i: int) -> bool {
    exists|j: int| 0 <= j < i && (#[trigger] steps[j]).id@ == steps[i].id@
}

/// `t` names an event node.
pub open spec fn is_event_type_name(t: Seq<char>) -> bool {
    t == "startEvent"@ || t == "endEvent"@ || t == "intermediateCatchEvent"@
        || t == "intermediateThrowEvent"@
}

/// The findings that depend on the type of step `s`.
pub open spec fn type_specific_issues(s: WorkflowStep) -> Seq<Issue> {
    let t = s.step_type@;
    if t == "serviceTask"@ {
        match s.task_type {
            None => seq![
                suggesting(
                    in_context(
                        issue(
                            ErrorSeverity::Warning,
                            ErrorCategory::MissingField,
                            "Service task '"@ + s.id@ + "' has no taskType specified"@,
                        ),
                        s.id@,
                    ),
                    "Consider specifying a taskType: "@ + joined(task_types(), ", "@),
                ),
            ],
            Some(tt) => if !task_types().contains(tt@) {
                seq![
                    suggesting(
                        in_context(
                            issue(
                                ErrorSeverity::Warning,
                                ErrorCategory::InvalidValue,
                                "Unknown task type: '"@ + tt@ + "'"@,
                            ),
                            s.id@,
                        ),
                        "Consider using one of: "@ + joined(task_types(), ", "@),
                    ),
                ]
            } else {
                Seq::empty()
            },
        }
    } else if t == "scriptTask"@ {
        if s.implementation is None {
            seq![
                suggesting(
                    in_context(
                        issue(
                            ErrorSeverity::Warning,
                            ErrorCategory::MissingField,
                            "Script task '"@ + s.id@ + "' has no implementation/script specified"@,
                        ),
                        s.id@,
                    ),
                    "Specify the script or implementation to execute"@,
                ),
            ]
        } else {
            Seq::empty()
        }
    } else if is_event_type_name(t) {
        match s.event_type {
            Some(et) => if !event_types().contains(et@) {
                seq![
                    suggesting(
                        in_context(
                            issue(
                                ErrorSeverity::Warning,
                                ErrorCategory::InvalidValue,
                                "Unknown event type: '"@ + et@ + "'"@,
                            ),
                            s.id@,
                        ),
                        "Consider using one of: "@ + joined(event_types(), ", "@),
                    ),
                ]
            } else {
                Seq::empty()
            },
            None => Seq::empty(),
        }
    } else {
        Seq::empty()
    }
}

/// The findings about step `i` of `steps`.
pub open spec fn step_issues(steps: Seq<WorkflowStep>, i: int) -> Seq<Issue> {
    let s = steps[i];
    (if step_id_seen_before(steps, i) {
        seq![
            suggesting(
                in_context(
                    issue(ErrorSeverity::Error, ErrorCategory::DuplicateId, "Duplicate node ID: '"@ + s.id@ + "'"@),
                    s.id@,
                ),
                "Ensure each node has a unique ID"@,
            ),
        ]
    } else {
        Seq::empty()
    }) + (if blank(s.id@) {
        seq![issue(ErrorSeverity::Error, ErrorCategory::MissingField, "Node ID cannot be empty"@)]
    } else {
        Seq::empty()
    }) + (if blank(s.name@) {
        seq![
            suggesting(
                in_context(
                    issue(ErrorSeverity::Warning, ErrorCategory::MissingField, "Node '"@ + s.id@ + "' has no name"@),
                    s.id@,
                ),
                "Provide a descriptive name for the node"@,
            ),
        ]
    } else {
        Seq::empty()
    }) + (if !node_types().contains(s.step_type@) {
        seq![
            suggesting(
                in_context(
                    issue(
                        ErrorSeverity::Error,
                        ErrorCategory::InvalidValue,
                        "Invalid node type: '"@ + s.step_type@ + "'"@,
                    ),
                    s.id@,
                ),
                "Use one of the valid BPMN node types: "@ + joined(node_types(), ", "@),
            ),
        ]
    } else {
        Seq::empty()
    }) + type_specific_issues(s)
}

/// The findings about the first `n` steps, step by step.
pub open spec fn steps_issues(steps: Seq<WorkflowStep>, n: int) -> Seq<Issue>
    decreases n,
{
    if n <= 0 {
        Seq::empty()
    } else {
        steps_issues(steps, n - 1) + step_issues(steps, n - 1)
    }
}

/// The findings about a list of steps: one error when it is empty, else the
/// findings step by step.
pub open spec fn workflow_steps_issues(steps: Seq<WorkflowStep>) -> Seq<Issue> {
    if steps.len() == 0 {
        seq![
            suggesting(
                issue(ErrorSeverity::Error, ErrorCategory::StructuralIssue, "Workflow has no steps/nodes"@),
                "Add at least a start event and end event"@,
            ),
        ]
    } else {
        steps_issues(steps, steps.len() as int)
    }
}

fn step_seen_before(steps: &[WorkflowStep], i: usize) -> (r: bool)
    requires
        i < steps.len(),
    ensures
        r == step_id_seen_before(steps@, i as int),
{
    let mut j: usize = 0;
    while j < i
        invariant
            j <= i < steps.len(),
            forall|k: int| 0 <= k < j ==> (#[trigger] steps@[k]).id@ != steps@[i as int].id@,
        decreases i - j,
    {
        if steps[j].id == steps[i].id {
            assert(steps@[j as int].id@ == steps@[i as int].id@);
            return true;
        }
        j = j + 1;
    }
    false
}

/// Check what the type of `step` asks of it.
fn validate_node_type_specifics(step: &WorkflowStep) -> (errors: Vec<ValidationError>)
    ensures
        issues(errors@) == type_specific_issues(*step),
{
    let mut errors: Vec<ValidationError> = Vec::new();
    let t = step.step_type.as_str();
    if str_eq(t, "serviceTask") {
        match &step.task_type {
            None => {
                let tt = valid_task_types();
                let list = join(&tt, ", ");
                push_issue(
                    &mut errors,
                    ValidationError::warning(
                        ErrorCategory::MissingField,
                        concat3("Service task '", step.id.as_str(), "' has no taskType specified"),
                    ).with_context(step.id.clone()).with_suggestion(
                        concat2("Consider specifying a taskType: ", list.as_str()),
                    ),
                );
            },
            Some(task_type) => {
                let tt = valid_task_types();
                if !one_of(&tt, task_type.as_str()) {
                    let list = join(&tt, ", ");
                    push_issue(
                        &mut errors,
                        ValidationError::warning(
                            ErrorCategory::InvalidValue,
                            concat3("Unknown task type: '", task_type.as_str(), "'"),
                        ).with_context(step.id.clone()).with_suggestion(
                            concat2("Consider using one of: ", list.as_str()),
                        ),
                    );
                }
            },
        }
    } else if str_eq(t, "scriptTask") {
        if step.implementation.is_none() {
            push_issue(
                &mut errors,
                ValidationError::warning(
                    ErrorCategory::MissingField,
                    concat3(
                        "Script task '",
                        step.id.as_str(),
                        "' has no implementation/script specified",
                    ),
                ).with_context(step.id.clone()).with_suggestion(
                    owned("Specify the script or implementation to execute"),
                ),
            );
        }
    } else if str_eq(t, "startEvent") || str_eq(t, "endEvent") || str_eq(t, "intermediateCatchEvent")
        || str_eq(t, "intermediateThrowEvent") {
        if let Some(event_type) = &step.event_type {
            let et = valid_event_types();
            if !one_of(&et, event_type.as_str()) {
                let list = join(&et, ", ");
                push_issue(
                    &mut errors,
                    ValidationError::warning(
                        ErrorCategory::InvalidValue,
                        concat3("Unknown event type: '", event_type.as_str(), "'"),
                    ).with_context(step.id.clone()).with_suggestion(
                        concat2("Consider using one of: ", list.as_str()),
                    ),
                );
            }
        }
    }
    assert(issues(errors@) =~= type_specific_issues(*step));
    errors
}

fn step_findings(steps: &[WorkflowStep], i: usize) -> (errors: Vec<ValidationError>)
    requires
        i < steps.len(),
    ensures
        issues(errors@) == step_issues(steps@, i as int),
{
    let step = &steps[i];
    let mut errors: Vec<ValidationError> = Vec::new();
    let ghost e0 = issues(errors@);
    if step_seen_before(steps, i) {
        push_issue(
            &mut errors,
            ValidationError::error(
                ErrorCategory::DuplicateId,
                concat3("Duplicate node ID: '", step.id.as_str(), "'"),
            ).with_context(step.id.clone()).with_suggestion(owned("Ensure each node has a unique ID")),
        );
    }
    let ghost e1 = issues(errors@);
    if is_blank(step.id.as_str()) {
        push_issue(
            &mut errors,
            ValidationError::error(ErrorCategory::MissingField, owned("Node ID cannot be empty")),
        );
    }
    let ghost e2 = issues(errors@);
    if is_blank(step.name.as_str()) {
        push_issue(
            &mut errors,
            ValidationError::warning(
                ErrorCategory::MissingField,
                concat3("Node '", step.id.as_str(), "' has no name"),
            ).with_context(step.id.clone()).with_suggestion(
                owned("Provide a descriptive name for the node"),
            ),
        );
    }
    let ghost e3 = issues(errors@);
    let nt = valid_node_types();
    if !one_of(&nt, step.step_type.as_str()) {
        let list = join(&nt, ", ");
        push_issue(
            &mut errors,
            ValidationError::error(
                ErrorCategory::InvalidValue,
                concat3("Invalid node type: '", step.step_type.as_str(), "'"),
            ).with_context(step.id.clone()).with_suggestion(
                concat2("Use one of the valid BPMN node types: ", list.as_str()),
            ),
        );
    }
    let ghost e4 = issues(errors@);
    let specific = validate_node_type_specifics(step);
    append_issues(&mut errors, specific);
    assert(issues(errors@) =~= step_issues(steps@, i as int));
    errors
}

/// Check every step: a unique, non-empty id, a name, a known node type, and
/// what its type asks of it.
pub fn validate_workflow_steps(steps: &[WorkflowStep]) -> (errors: Vec<ValidationError>)
    ensures
        issues(errors@) == workflow_steps_issues(steps@),
{
    let mut errors: Vec<ValidationError> = Vec::new();
    if steps.len() == 0 {
        push_issue(
            &mut errors,
            ValidationError::error(
                ErrorCategory::StructuralIssue,
                owned("Workflow has no steps/nodes"),
            ).with_suggestion(owned("Add at least a start event and end event")),
        );
        assert(issues(errors@) =~= workflow_steps_issues(steps@));
        return errors;
    }
    let mut i: usize = 0;
    assert(issues(errors@) =~= Seq::<Issue>::empty());
    while i < steps.len()
        invariant
            i <= steps.len(),
            issues(errors@) == steps_issues(steps@, i as int),
        decreases steps.len() - i,
    {
        let more = step_findings(steps, i);
        append_issues(&mut errors, more);
        i = i + 1;
    }
    errors
}

} // verus!
