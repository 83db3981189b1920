//! OV-5 operational activity model: performers, resources, rules and traces.
use vstd::prelude::*;
use std::collections::HashMap;
use crate::text::owned;

verus! {

/// A performer of operational activities (DM2 Performer).
#[derive(Debug, Clone, PartialEq)]
pub struct Performer {
    pub id: String,
    pub name: String,
    pub description: Option<String>,
    pub performer_type: PerformerType,
    pub properties: HashMap<String, serde_json::Value>,
}

/// The kinds of performer, with what each kind records.
#[derive(Debug, Clone, PartialEq)]
pub enum PerformerType {
    Person { role: String, skills: Vec<String> },
    Organization { org_type: String, parent_org: Option<String> },
    Service { service_type: String, interface_ref: Option<String> },
    ServiceInterface { protocol: String, endpoint: Option<String> },
    System { system_type: String, capabilities: Vec<String> },
    Interface { interface_type: String, port: Option<String> },
}

/// A reference to a performer, with the role it plays.
#[derive(Debug, Clone, PartialEq)]
pub struct PerformerRef {
    pub performer_id: String,
    pub role: Option<String>,
}

/// The kinds of resource that can flow between activities.
#[derive(Debug, Clone, Copy, PartialEq, Eq, Structural)]
pub enum ResourceType {
    /// Information: data and messages.
    Information,
    /// Funding: budget and financial resources.
    Funding,
    /// Personnel: human resources.
    Personnel,
    /// Materiel: physical goods and equipment.
    Materiel,
}

/// How a cost was obtained.
#[derive(Debug, Clone, Copy, PartialEq, Eq, Structural)]
pub enum CostType {
    Fixed,
    Variable,
    Estimated,
    Actual,
}

/// A unit of time.
#[derive(Debug, Clone, Copy, PartialEq, Eq, Structural)]
pub enum TimeUnit {
    Seconds,
    Minutes,
    Hours,
    Days,
    Weeks,
    Months,
}

/// How often something happens: occurrences per unit of time.
#[derive(Debug, Clone, Copy, PartialEq)]
pub struct Frequency {
    pub occurrences: i32,
    pub per_time_unit: TimeUnit,
}

/// The security domain of an activity.
#[derive(Debug, Clone, PartialEq)]
pub struct SecurityDomain {
    pub classification: SecurityClassification,
    pub access_control: Vec<String>,
    pub constraints: Vec<String>,
}

/// Classification levels of a security domain.
#[derive(Debug, Clone, PartialEq, Eq)]
pub enum SecurityClassification {
    Unclassified,
    Confidential,
    Secret,
    TopSecret,
    Custom(String),
}

/// The kind of a location.
#[derive(Debug, Clone, Copy, PartialEq, Eq, Structural)]
pub enum LocationType {
    Physical,
    Virtual,
    Distributed,
}

/// A business rule constraining an activity (from OV-6a).
#[derive(Debug, Clone, PartialEq)]
pub struct BusinessRule {
    pub id: String,
    pub name: String,
    pub description: String,
    pub rule_type: RuleType,
    pub expression: String,
}

/// The kind of a business rule.
#[derive(Debug, Clone, Copy, PartialEq, Eq, Structural)]
pub enum RuleType {
    Constraint,
    Guideline,
    Policy,
    Regulation,
}

/// A node of an activity decomposition tree (OV-5a).
#[derive(Debug, Clone, PartialEq)]
pub struct DecompositionNode {
    pub activity_id: String,
    pub level: i32,
    pub parent_id: Option<String>,
    pub children: Vec<String>,
    pub sequence_order: Option<i32>,
}

/// An activity decomposition tree (OV-5a).
#[derive(Debug, Clone, PartialEq)]
pub struct ActivityDecompositionTree {
    pub id: String,
    pub name: String,
    pub root_activities: Vec<String>,
    pub nodes: Vec<DecompositionNode>,
}

/// OV-6c event-trace description: the time-ordered events of a scenario.
#[derive(Debug, Clone, PartialEq)]
pub struct EventTraceDescription {
    pub id: String,
    pub name: String,
    pub description: Option<String>,
    pub scenario: String,
    pub trace_events: Vec<TraceEvent>,
    /// The BPMN process that represents the trace, if any.
    pub bpmn_ref: Option<String>,
}

/// One event of a trace.
#[derive(Debug, Clone, PartialEq)]
pub struct TraceEvent {
    /// When the event happened, as RFC 3339 text.
    pub timestamp: String,
    pub sequence_number: i32,
    pub event_type: TraceEventType,
    pub activity_id: String,
    pub performer_id: String,
    pub description: String,
}

/// The kind of a trace event.
#[derive(Debug, Clone, Copy, PartialEq, Eq, Structural)]
pub enum TraceEventType {
    ActivityStart,
    ActivityEnd,
    MessageSent,
    MessageReceived,
    DecisionPoint,
    ResourceAllocated,
    ResourceReleased,
}

/// The kind of an operational node.
#[derive(Debug, Clone, Copy, PartialEq, Eq, Structural)]
pub enum OperationalNodeType {
    Organization,
    System,
    Facility,
    Platform,
}

impl Performer {
    /// A person performing `role`, with no skills, description or properties.
    pub fn new_person(id: &str, name: &str, role: &str) -> (r: Self)
        ensures
            r.id@ == id@,
            r.name@ == name@,
            r.description is None,
            r.performer_type matches PerformerType::Person { role: pr, skills } && pr@ == role@ && skills@.len() == 0,
            r.properties@.len() == 0,
    {
        Performer {
            id: owned(id),
            name: owned(name),
            description: None,
            performer_type: PerformerType::Person { role: owned(role), skills: Vec::new() },
            properties: HashMap::new(),
        }
    }

    /// A system of type `system_type`, with no capabilities, description or properties.
    pub fn new_system(id: &str, name: &str, system_type: &str) -> (r: Self)
        ensures
            r.id@ == id@,
            r.name@ == name@,
            r.description is None,
            r.performer_type matches PerformerType::System { system_type: st, capabilities } && st@ == system_type@ && capabilities@.len() == 0,
            r.properties@.len() == 0,
    {
        Performer {
            id: owned(id),
            name: owned(name),
            description: None,
            performer_type: PerformerType::System { system_type: owned(system_type), capabilities: Vec::new() },
            properties: HashMap::new(),
        }
    }
}

} // verus!
