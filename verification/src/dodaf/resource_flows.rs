//! Resource flow taxonomy: what flows between activities, and how.
use vstd::prelude::*;

verus! {

/// The kind of information a flow carries.
#[derive(Debug, Clone, Copy, PartialEq, Eq, Structural)]
pub enum InformationType {
    Command,
    Control,
    Intelligence,
    Surveillance,
    Reconnaissance,
    Logistics,
    Administrative,
    Tactical,
    Strategic,
    Operational,
    Technical,
    Raw,
    Processed,
    Analyzed,
}

/// The kind of personnel a flow moves.
#[derive(Debug, Clone, Copy, PartialEq, Eq, Structural)]
pub enum PersonnelType {
    Military,
    Civilian,
    Contractor,
    Analyst,
    Engineer,
    Operator,
    Administrator,
    Manager,
}

/// The kind of materiel a flow moves.
#[derive(Debug, Clone, Copy, PartialEq, Eq, Structural)]
pub enum MaterielType {
    Equipment,
    Supplies,
    Ammunition,
    Fuel,
    Parts,
    Tools,
    Vehicles,
    Hardware,
    Software,
}

/// The kind of energy a flow moves.
#[derive(Debug, Clone, Copy, PartialEq, Eq, Structural)]
pub enum EnergyType {
    Electrical,
    Mechanical,
    Thermal,
    Chemical,
    Nuclear,
}

/// The kind of communication a flow carries.
#[derive(Debug, Clone, Copy, PartialEq, Eq, Structural)]
pub enum CommunicationType {
    Voice,
    Data,
    Video,
    Text,
    Signal,
    Telemetry,
}

/// When a flowing resource must arrive.
#[derive(Debug, Clone)]
pub struct TimelinessCriteria {
    pub max_latency_ms: Option<u64>,
    pub max_age_seconds: Option<u64>,
    pub real_time_required: bool,
}

/// Performance a flow requires.
#[derive(Debug, Clone)]
pub struct PerformanceRequirements {
    pub throughput: Option<String>,
    pub response_time_ms: Option<u64>,
    pub concurrency: Option<u32>,
}

/// Quality of service of a flow.
#[derive(Debug, Clone)]
pub struct QualityOfService {
    pub priority: QoSPriority,
    pub guaranteed_delivery: bool,
    pub ordering_required: bool,
}

/// Priority of a flow.
#[derive(Debug, Clone, Copy, PartialEq, Eq, Structural)]
pub enum QoSPriority {
    Critical,
    High,
    Medium,
    Low,
}

/// How often a flow happens.
#[derive(Debug, Clone)]
pub enum FlowFrequency {
    Continuous,
    Periodic { interval_seconds: u64 },
    OnDemand,
    Event { trigger: String },
}

} // verus!
