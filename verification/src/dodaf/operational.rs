//! The operational viewpoint: mission areas, activities and information exchanges.
use vstd::prelude::*;
use std::collections::HashMap;
use uuid::Uuid;
use crate::outside::new_uuid_v4;
use crate::text::{opt_view, owned, strings_view};

verus! {

/// The operational viewpoint: mission areas, activities and the information they exchange.
#[derive(Debug, Clone)]
pub struct OperationalView {
    pub mission_areas: Vec<MissionArea>,
    pub activities: Vec<OperationalActivity>,
    pub information_exchanges: Vec<InformationExchange>,
}

impl OperationalView {
    /// An empty view.
    pub fn new() -> (r: Self)
        ensures
            r.mission_areas@.len() == 0,
            r.activities@.len() == 0,
            r.information_exchanges@.len() == 0,
    {
        OperationalView {
            mission_areas: Vec::new(),
            activities: Vec::new(),
            information_exchanges: Vec::new(),
        }
    }

    /// Add a mission area.
    pub fn add_mission_area(self, mission: MissionArea) -> (r: Self)
        ensures
            r.mission_areas@ == self.mission_areas@.push(mission),
            r == (OperationalView { mission_areas: r.mission_areas, ..self }),
    {
        let mut s = self;
        s.mission_areas.push(mission);
        s
    }

    /// Add an operational activity.
    pub fn add_activity(self, activity: OperationalActivity) -> (r: Self)
        ensures
            r.activities@ == self.activities@.push(activity),
            r == (OperationalView { activities: r.activities, ..self }),
    {
        let mut s = self;
        s.activities.push(activity);
        s
    }

    /// Add an information exchange.
    pub fn add_information_exchange(self, exchange: InformationExchange) -> (r: Self)
        ensures
            r.information_exchanges@ == self.information_exchanges@.push(exchange),
            r == (OperationalView { information_exchanges: r.information_exchanges, ..self }),
    {
        let mut s = self;
        s.information_exchanges.push(exchange);
        s
    }
}

impl Default for OperationalView {
    fn default() -> (r: Self)
        ensures
            r.mission_areas@.len() == 0,
            r.activities@.len() == 0,
            r.information_exchanges@.len() == 0,
    {
        Self::new()
    }
}

/// A mission area and the capabilities it needs.
#[derive(Debug, Clone)]
pub struct MissionArea {
    pub id: String,
    pub name: String,
    pub description: Option<String>,
    pub capabilities: Vec<String>,
}

/// An activity performed to reach an operational goal.
#[derive(Debug, Clone)]
pub struct OperationalActivity {
    pub id: String,
    pub name: String,
    pub description: Option<String>,
    pub activity_type: ActivityType,
    pub performers: Vec<String>,
    pub inputs: Vec<String>,
    pub outputs: Vec<String>,
    pub success_criteria: Vec<String>,
    pub resources: HashMap<String, serde_json::Value>,
}

/// How an activity is carried out.
#[derive(Debug, Clone, Copy, PartialEq, Eq, Structural)]
pub enum ActivityType {
    Automated,
    Manual,
    Hybrid,
    Decision,
    Processing,
    Communication,
}

/// Information passed from one activity to another.
#[derive(Debug, Clone)]
pub struct InformationExchange {
    pub id: String,
    pub source: String,
    pub target: String,
    pub information_elements: Vec<String>,
    pub mechanism: String,
}

/// The operational context in which a workflow runs.
#[derive(Debug, Clone)]
pub struct OperationalContext {
    pub id: Uuid,
    pub mission_area: Option<String>,
    pub required_capabilities: Vec<String>,
    /// Resources, by key, each key once.
    pub resources: Vec<(String, serde_json::Value)>,
    /// Constraints, by key, each key once.
    pub constraints: Vec<(String, serde_json::Value)>,
    pub metadata: HashMap<String, serde_json::Value>,
}

impl OperationalContext {
    /// A context with a fresh random id and nothing else.
    pub fn new() -> (r: Self)
        ensures
            r.mission_area is None,
            r.required_capabilities@.len() == 0,
            r.resources@.len() == 0,
            r.constraints@.len() == 0,
            r.metadata@.len() == 0,
    {
        OperationalContext {
            id: new_uuid_v4(),
            mission_area: None,
            required_capabilities: Vec::new(),
            resources: Vec::new(),
            constraints: Vec::new(),
            metadata: HashMap::new(),
        }
    }

    /// Set the mission area.
    pub fn with_mission_area(self, mission: &str) -> (r: Self)
        ensures
            opt_view(r.mission_area) == Some(mission@),
            r == (OperationalContext { mission_area: r.mission_area, ..self }),
    {
        let mut s = self;
        s.mission_area = Some(owned(mission));
        s
    }

    /// Add a required capability.
    pub fn with_capability(self, capability: &str) -> (r: Self)
        ensures
            strings_view(r.required_capabilities@) == strings_view(self.required_capabilities@).push(capability@),
            r == (OperationalContext { required_capabilities: r.required_capabilities, ..self }),
    {
        let mut s = self;
        s.required_capabilities.push(owned(capability));
        proof {
            assert(strings_view(s.required_capabilities@) =~= strings_view(self.required_capabilities@).push(capability@));
        }
        s
    }

    /// Record a resource under `key`, replacing what was there.
    pub fn with_resource(self, key: &str, value: serde_json::Value) -> (r: Self)
        ensures
            r == (OperationalContext { resources: r.resources, ..self }),
            crate::entries::sets_key(self.resources@, r.resources@, key@, value),
    {
        let mut s = self;
        crate::entries::set_key(&mut s.resources, owned(key), value);
        s
    }

    /// Record a constraint under `key`, replacing what was there.
    pub fn with_constraint(self, key: &str, value: serde_json::Value) -> (r: Self)
        ensures
            r == (OperationalContext { constraints: r.constraints, ..self }),
            crate::entries::sets_key(self.constraints@, r.constraints@, key@, value),
    {
        let mut s = self;
        crate::entries::set_key(&mut s.constraints, owned(key), value);
        s
    }
}

impl Default for OperationalContext {
    fn default() -> (r: Self)
        ensures
            r.mission_area is None,
            r.required_capabilities@.len() == 0,
            r.resources@.len() == 0,
            r.constraints@.len() == 0,
            r.metadata@.len() == 0,
    {
        Self::new()
    }
}

impl OperationalActivity {
    /// A processing activity with nothing else set.
    pub fn new(id: &str, name: &str) -> (r: Self)
        ensures
            r.id@ == id@,
            r.name@ == name@,
            r.description is None,
            r.activity_type == ActivityType::Processing,
            r.performers@.len() == 0,
            r.inputs@.len() == 0,
            r.outputs@.len() == 0,
            r.success_criteria@.len() == 0,
            r.resources@.len() == 0,
    {
        OperationalActivity {
            id: owned(id),
            name: owned(name),
            description: None,
            activity_type: ActivityType::Processing,
            performers: Vec::new(),
            inputs: Vec::new(),
            outputs: Vec::new(),
            success_criteria: Vec::new(),
            resources: HashMap::new(),
        }
    }

    /// Set the activity type.
    pub fn with_type(self, activity_type: ActivityType) -> (r: Self)
        ensures
            r == (OperationalActivity { activity_type: activity_type, ..self }),
    {
        let mut s = self;
        s.activity_type = activity_type;
        s
    }

    /// Set the description.
    pub fn with_description(self, desc: &str) -> (r: Self)
        ensures
            opt_view(r.description) == Some(desc@),
            r == (OperationalActivity { description: r.description, ..self }),
    {
        let mut s = self;
        s.description = Some(owned(desc));
        s
    }

    /// Add a performer.
    pub fn add_performer(self, performer: &str) -> (r: Self)
        ensures
            strings_view(r.performers@) == strings_view(self.performers@).push(performer@),
            r == (OperationalActivity { performers: r.performers, ..self }),
    {
        let mut s = self;
        s.performers.push(owned(performer));
        proof {
            assert(strings_view(s.performers@) =~= strings_view(self.performers@).push(performer@));
        }
        s
    }

    /// Add an input.
    pub fn add_input(self, input: &str) -> (r: Self)
        ensures
            strings_view(r.inputs@) == strings_view(self.inputs@).push(input@),
            r == (OperationalActivity { inputs: r.inputs, ..self }),
    {
        let mut s = self;
        s.inputs.push(owned(input));
        proof {
            assert(strings_view(s.inputs@) =~= strings_view(self.inputs@).push(input@));
        }
        s
    }

    /// Add an output.
    pub fn add_output(self, output: &str) -> (r: Self)
        ensures
            strings_view(r.outputs@) == strings_view(self.outputs@).push(output@),
            r == (OperationalActivity { outputs: r.outputs, ..self }),
    {
        let mut s = self;
        s.outputs.push(owned(output));
        proof {
            assert(strings_view(s.outputs@) =~= strings_view(self.outputs@).push(output@));
        }
        s
    }
}

} // verus!
