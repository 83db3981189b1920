//! CV-1 capability vision: strategic objectives and capability increments over time.
use vstd::prelude::*;
use std::collections::HashMap;
use crate::outside::now_rfc3339;
use crate::text::{opt_view, owned, strings_view};

verus! {

/// CV-1 capability vision: the strategic context of capabilities over time.
#[derive(Debug, Clone)]
pub struct CapabilityVision {
    pub id: String,
    pub name: String,
    pub description: String,
    pub version: String,
    pub vision_statement: String,
    pub mission_areas: Vec<String>,
    pub strategic_objectives: Vec<StrategicObjective>,
    pub capability_increments: Vec<CapabilityIncrement>,
    pub timeframe: TimeFrame,
    pub related_capabilities: Vec<String>,
    pub supporting_operations: Vec<String>,
    pub supporting_systems: Vec<String>,
    /// Creation time, as RFC 3339 text.
    pub created_at: String,
    pub metadata: HashMap<String, serde_json::Value>,
}

/// A strategic objective supporting the vision.
#[derive(Debug, Clone)]
pub struct StrategicObjective {
    pub id: String,
    pub name: String,
    pub description: String,
    pub priority: i32,
    pub measures_of_effectiveness: Vec<String>,
}

/// An incremental delivery of capabilities.
#[derive(Debug, Clone)]
pub struct CapabilityIncrement {
    pub id: String,
    pub name: String,
    pub description: Option<String>,
    pub version: String,
    /// Start time, as RFC 3339 text.
    pub start_date: String,
    /// End time, as RFC 3339 text, if any.
    pub end_date: Option<String>,
    pub capabilities_enabled: Vec<String>,
    pub dependencies: Vec<String>,
}

/// Descriptions of the near, mid and far term.
#[derive(Debug, Clone)]
pub struct TimeFrame {
    pub near_term: Option<String>,
    pub mid_term: Option<String>,
    pub far_term: Option<String>,
}

impl CapabilityVision {
    /// A version 1.0 vision created now, with nothing else set.
    pub fn new(id: &str, name: &str, description: &str, vision_statement: &str) -> (r: Self)
        ensures
            r.id@ == id@,
            r.name@ == name@,
            r.description@ == description@,
            r.version@ == "1.0"@,
            r.vision_statement@ == vision_statement@,
            r.mission_areas@.len() == 0,
            r.strategic_objectives@.len() == 0,
            r.capability_increments@.len() == 0,
            r.timeframe == (TimeFrame { near_term: None, mid_term: None, far_term: None }),
            r.related_capabilities@.len() == 0,
            r.supporting_operations@.len() == 0,
            r.supporting_systems@.len() == 0,
            r.metadata@.len() == 0,
    {
        CapabilityVision {
            id: owned(id),
            name: owned(name),
            description: owned(description),
            version: owned("1.0"),
            vision_statement: owned(vision_statement),
            mission_areas: Vec::new(),
            strategic_objectives: Vec::new(),
            capability_increments: Vec::new(),
            timeframe: TimeFrame::default(),
            related_capabilities: Vec::new(),
            supporting_operations: Vec::new(),
            supporting_systems: Vec::new(),
            created_at: now_rfc3339(),
            metadata: HashMap::new(),
        }
    }

    /// Add a mission area.
    pub fn add_mission_area(self, mission_area: &str) -> (r: Self)
        ensures
            strings_view(r.mission_areas@) == strings_view(self.mission_areas@).push(mission_area@),
            r == (CapabilityVision { mission_areas: r.mission_areas, ..self }),
    {
        let mut s = self;
        s.mission_areas.push(owned(mission_area));
        proof {
            assert(strings_view(s.mission_areas@) =~= strings_view(self.mission_areas@).push(mission_area@));
        }
        s
    }

    /// Add a strategic objective.
    pub fn add_objective(self, objective: StrategicObjective) -> (r: Self)
        ensures
            r.strategic_objectives@ == self.strategic_objectives@.push(objective),
            r == (CapabilityVision { strategic_objectives: r.strategic_objectives, ..self }),
    {
        let mut s = self;
        s.strategic_objectives.push(objective);
        s
    }

    /// Add a capability increment.
    pub fn add_increment(self, increment: CapabilityIncrement) -> (r: Self)
        ensures
            r.capability_increments@ == self.capability_increments@.push(increment),
            r == (CapabilityVision { capability_increments: r.capability_increments, ..self }),
    {
        let mut s = self;
        s.capability_increments.push(increment);
        s
    }

    /// Set the timeframe.
    pub fn with_timeframe(self, timeframe: TimeFrame) -> (r: Self)
        ensures
            r == (CapabilityVision { timeframe: timeframe, ..self }),
    {
        let mut s = self;
        s.timeframe = timeframe;
        s
    }

    /// Add a related capability.
    pub fn add_related_capability(self, capability_id: &str) -> (r: Self)
        ensures
            strings_view(r.related_capabilities@) == strings_view(self.related_capabilities@).push(capability_id@),
            r == (CapabilityVision { related_capabilities: r.related_capabilities, ..self }),
    {
        let mut s = self;
        s.related_capabilities.push(owned(capability_id));
        proof {
            assert(strings_view(s.related_capabilities@) =~= strings_view(self.related_capabilities@).push(capability_id@));
        }
        s
    }

    /// Add a supporting operational view.
    pub fn add_supporting_operation(self, operation_id: &str) -> (r: Self)
        ensures
            strings_view(r.supporting_operations@) == strings_view(self.supporting_operations@).push(operation_id@),
            r == (CapabilityVision { supporting_operations: r.supporting_operations, ..self }),
    {
        let mut s = self;
        s.supporting_operations.push(owned(operation_id));
        proof {
            assert(strings_view(s.supporting_operations@) =~= strings_view(self.supporting_operations@).push(operation_id@));
        }
        s
    }

    /// Add a supporting system view.
    pub fn add_supporting_system(self, system_id: &str) -> (r: Self)
        ensures
            strings_view(r.supporting_systems@) == strings_view(self.supporting_systems@).push(system_id@),
            r == (CapabilityVision { supporting_systems: r.supporting_systems, ..self }),
    {
        let mut s = self;
        s.supporting_systems.push(owned(system_id));
        proof {
            assert(strings_view(s.supporting_systems@) =~= strings_view(self.supporting_systems@).push(system_id@));
        }
        s
    }
}

impl StrategicObjective {
    /// An objective of priority 1 with no measures.
    pub fn new(id: &str, name: &str, description: &str) -> (r: Self)
        ensures
            r.id@ == id@,
            r.name@ == name@,
            r.description@ == description@,
            r.priority == 1,
            r.measures_of_effectiveness@.len() == 0,
    {
        StrategicObjective {
            id: owned(id),
            name: owned(name),
            description: owned(description),
            priority: 1,
            measures_of_effectiveness: Vec::new(),
        }
    }

    /// Set the priority.
    pub fn with_priority(self, priority: i32) -> (r: Self)
        ensures
            r == (StrategicObjective { priority: priority, ..self }),
    {
        let mut s = self;
        s.priority = priority;
        s
    }

    /// Add a measure of effectiveness.
    pub fn add_measure(self, measure: &str) -> (r: Self)
        ensures
            strings_view(r.measures_of_effectiveness@) == strings_view(self.measures_of_effectiveness@).push(measure@),
            r == (StrategicObjective { measures_of_effectiveness: r.measures_of_effectiveness, ..self }),
    {
        let mut s = self;
        s.measures_of_effectiveness.push(owned(measure));
        proof {
            assert(strings_view(s.measures_of_effectiveness@) =~= strings_view(self.measures_of_effectiveness@).push(measure@));
        }
        s
    }
}

impl CapabilityIncrement {
    /// A version 1.0 increment starting at `start_date` (RFC 3339), with nothing else set.
    pub fn new(id: &str, name: &str, start_date: &str) -> (r: Self)
        ensures
            r.id@ == id@,
            r.name@ == name@,
            r.description is None,
            r.version@ == "1.0"@,
            r.start_date@ == start_date@,
            r.end_date is None,
            r.capabilities_enabled@.len() == 0,
            r.dependencies@.len() == 0,
    {
        CapabilityIncrement {
            id: owned(id),
            name: owned(name),
            description: None,
            version: owned("1.0"),
            start_date: owned(start_date),
            end_date: None,
            capabilities_enabled: Vec::new(),
            dependencies: Vec::new(),
        }
    }

    /// Set the description.
    pub fn with_description(self, desc: &str) -> (r: Self)
        ensures
            opt_view(r.description) == Some(desc@),
            r == (CapabilityIncrement { description: r.description, ..self }),
    {
        let mut s = self;
        s.description = Some(owned(desc));
        s
    }

    /// Set the end time (RFC 3339).
    pub fn with_end_date(self, end_date: &str) -> (r: Self)
        ensures
            opt_view(r.end_date) == Some(end_date@),
            r == (CapabilityIncrement { end_date: r.end_date, ..self }),
    {
        let mut s = self;
        s.end_date = Some(owned(end_date));
        s
    }

    /// Add a capability that the increment enables.
    pub fn add_enabled_capability(self, capability_id: &str) -> (r: Self)
        ensures
            strings_view(r.capabilities_enabled@) == strings_view(self.capabilities_enabled@).push(capability_id@),
            r == (CapabilityIncrement { capabilities_enabled: r.capabilities_enabled, ..self }),
    {
        let mut s = self;
        s.capabilities_enabled.push(owned(capability_id));
        proof {
            assert(strings_view(s.capabilities_enabled@) =~= strings_view(self.capabilities_enabled@).push(capability_id@));
        }
        s
    }

    /// Add an increment that this one depends on.
    pub fn add_dependency(self, increment_id: &str) -> (r: Self)
        ensures
            strings_view(r.dependencies@) == strings_view(self.dependencies@).push(increment_id@),
            r == (CapabilityIncrement { dependencies: r.dependencies, ..self }),
    {
        let mut s = self;
        s.dependencies.push(owned(increment_id));
        proof {
            assert(strings_view(s.dependencies@) =~= strings_view(self.dependencies@).push(increment_id@));
        }
        s
    }
}

impl Default for TimeFrame {
    fn default() -> (r: Self)
        ensures
            r == (TimeFrame { near_term: None, mid_term: None, far_term: None }),
    {
        TimeFrame { near_term: None, mid_term: None, far_term: None }
    }
}

impl TimeFrame {
    /// A timeframe with all three periods described.
    pub fn with_all(near: &str, mid: &str, far: &str) -> (r: Self)
        ensures
            opt_view(r.near_term) == Some(near@),
            opt_view(r.mid_term) == Some(mid@),
            opt_view(r.far_term) == Some(far@),
    {
        TimeFrame {
            near_term: Some(owned(near)),
            mid_term: Some(owned(mid)),
            far_term: Some(owned(far)),
        }
    }

    /// Set the near term.
    pub fn with_near_term(self, near_term: &str) -> (r: Self)
        ensures
            opt_view(r.near_term) == Some(near_term@),
            r == (TimeFrame { near_term: r.near_term, ..self }),
    {
        let mut s = self;
        s.near_term = Some(owned(near_term));
        s
    }

    /// Set the mid term.
    pub fn with_mid_term(self, mid_term: &str) -> (r: Self)
        ensures
            opt_view(r.mid_term) == Some(mid_term@),
            r == (TimeFrame { mid_term: r.mid_term, ..self }),
    {
        let mut s = self;
        s.mid_term = Some(owned(mid_term));
        s
    }

    /// Set the far term.
    pub fn with_far_term(self, far_term: &str) -> (r: Self)
        ensures
            opt_view(r.far_term) == Some(far_term@),
            r == (TimeFrame { far_term: r.far_term, ..self }),
    {
        let mut s = self;
        s.far_term = Some(owned(far_term));
        s
    }
}

} // verus!
