//! Workflow files in JSON form: the process record, its steps and its flows.
use vstd::prelude::*;
use crate::text::owned;

verus! {

/// A workflow read from a JSON workflow file.
#[derive(Debug, Clone)]
pub struct BpmnJsonWorkflow {
    pub bpmn_process: BpmnProcessInfo,
    pub workflow_steps: Vec<WorkflowStep>,
    pub sequence_flows: Vec<SequenceFlow>,
    pub dodaf_metadata: Option<serde_json::Value>,
    pub task_metadata: Option<serde_json::Value>,
}

/// The process record of a workflow.
#[derive(Debug, Clone)]
pub struct BpmnProcessInfo {
    pub id: String,
    pub name: String,
    pub version: String,
    pub is_executable: bool,
    pub process_type: String,
}

/// The version a workflow file gets when it names none: `1.0.0`.
pub fn default_version() -> (s: String)
    ensures
        s@ == "1.0.0"@,
{
    owned("1.0.0")
}

/// Whether a workflow file that says nothing is executable: it is.
pub fn default_executable() -> (b: bool)
    ensures
        b,
{
    true
}

/// A node of the workflow.
#[derive(Debug, Clone)]
pub struct WorkflowStep {
    pub id: String,
    pub name: String,
    pub step_type: String,
    pub task_type: Option<String>,
    pub event_type: Option<String>,
    pub implementation: Option<String>,
    pub inputs: Vec<String>,
    pub outputs: Vec<String>,
    pub duration_minutes: Option<i32>,
}

/// A connection between two nodes of the workflow.
#[derive(Debug, Clone)]
pub struct SequenceFlow {
    pub id: String,
    pub source_ref: String,
    pub target_ref: String,
    pub name: Option<String>,
    pub condition: Option<String>,
}

} // verus!
