//! The kinds of event the executor streams to its clients, and which of
//! them a client asks for.
use vstd::prelude::*;
use uuid::Uuid;

verus! {

/// A kind of streamed event.
#[derive(Debug, Clone, Copy, PartialEq, Eq, Hash, Structural)]
pub enum EventType {
    ExecutionStatus,
    ExecutionLog,
    ConnectionHealth,
    WorkflowUpdate,
    ComplianceUpdate,
}

/// The events a client wants: of these kinds, and for this workflow,
/// execution and log level where one is given.
#[derive(Debug, Clone)]
pub struct EventSubscription {
    pub event_types: Vec<EventType>,
    pub workflow_filter: Option<Uuid>,
    pub execution_filter: Option<Uuid>,
    pub log_level_filter: Option<String>,
}

impl Default for EventSubscription {
    /// Execution status, execution logs and connection health, unfiltered.
    fn default() -> (r: Self)
        ensures
            r.event_types@ == seq![EventType::ExecutionStatus, EventType::ExecutionLog, EventType::ConnectionHealth],
            r.workflow_filter is None,
            r.execution_filter is None,
            r.log_level_filter is None,
    {
        EventSubscription {
            event_types: vec![EventType::ExecutionStatus, EventType::ExecutionLog, EventType::ConnectionHealth],
            workflow_filter: None,
            execution_filter: None,
            log_level_filter: None,
        }
    }
}

} // verus!
