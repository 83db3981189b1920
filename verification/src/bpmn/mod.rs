//! BPMN process models: elements, process definitions and instances, XML
//! export, workflow files and their validation, and execution decisions.
pub mod elements;
pub mod file_io;
pub mod json_format;
pub mod namespace;
pub mod process;
pub mod runtime;
pub mod xml_io;
pub mod xml_read;
pub mod validation;

use vstd::prelude::*;
use crate::entries::{get_key, keys_unique, set_key, sets_key, value_of};
use uuid::Uuid;
use crate::outside::{new_uuid_v4, now_rfc3339};
use crate::text::owned;

verus! {

/// One run of a process.
#[derive(Debug, Clone)]
pub struct ProcessInstance {
    pub id: Uuid,
    pub process_id: String,
    pub state: ProcessState,
    /// The variables, by name, each name once.
    pub variables: Vec<(String, serde_json::Value)>,
    /// When the run started, as RFC 3339 text.
    pub started_at: String,
    /// When the run ended, as RFC 3339 text, if it has.
    pub completed_at: Option<String>,
}

/// The state of a process instance.
#[derive(Debug, Clone, Copy, PartialEq, Eq, Structural)]
pub enum ProcessState {
    Pending,
    Running,
    Suspended,
    Completed,
    Failed,
    Cancelled,
}

/// The kinds of BPMN element a process is made of.
#[derive(Debug, Clone, Copy, PartialEq, Eq, Structural)]
pub enum BpmnElement {
    StartEvent,
    EndEvent,
    UserTask,
    ServiceTask,
    ScriptTask,
    ManualTask,
    ExclusiveGateway,
    ParallelGateway,
    InclusiveGateway,
    SubProcess,
}

impl ProcessInstance {
    /// A pending instance of process `process_id` with a fresh random id,
    /// started now, with no variables.
    pub fn new(process_id: &str) -> (r: Self)
        ensures
            r.process_id@ == process_id@,
            r.state == ProcessState::Pending,
            r.variables@.len() == 0,
            r.completed_at is None,
    {
        ProcessInstance {
            id: new_uuid_v4(),
            process_id: owned(process_id),
            state: ProcessState::Pending,
            variables: Vec::new(),
            started_at: now_rfc3339(),
            completed_at: None,
        }
    }

    /// Set variable `key` to `value`, replacing its value if it has one.
    pub fn set_variable(&mut self, key: &str, value: serde_json::Value)
        ensures
            *final(self) == (ProcessInstance { variables: final(self).variables, ..*old(self) }),
            sets_key(old(self).variables@, final(self).variables@, key@, value),
            keys_unique(old(self).variables@) ==> keys_unique(final(self).variables@),
    {
        set_key(&mut self.variables, owned(key), value);
    }

    /// The value of variable `key`, if it is set.
    pub fn get_variable(&self, key: &str) -> (r: Option<&serde_json::Value>)
        ensures
            match r {
                Some(v) => value_of(self.variables@, key@) == Some(*v),
                None => value_of(self.variables@, key@) is None,
            },
    {
        get_key(&self.variables, key)
    }

    /// Mark the instance completed, now.
    pub fn complete(&mut self)
        ensures
            final(self).state == ProcessState::Completed,
            final(self).completed_at is Some,
            *final(self) == (ProcessInstance {
                state: ProcessState::Completed,
                completed_at: final(self).completed_at,
                ..*old(self)
            }),
    {
        self.state = ProcessState::Completed;
        self.completed_at = Some(now_rfc3339());
    }

    /// Mark the instance failed, now.
    pub fn fail(&mut self)
        ensures
            final(self).state == ProcessState::Failed,
            final(self).completed_at is Some,
            *final(self) == (ProcessInstance {
                state: ProcessState::Failed,
                completed_at: final(self).completed_at,
                ..*old(self)
            }),
    {
        self.state = ProcessState::Failed;
        self.completed_at = Some(now_rfc3339());
    }
}

} // verus!
