//! The capability viewpoint: capabilities and how they map to activities.
use vstd::prelude::*;
use crate::text::{opt_view, owned, str_eq, strings_view};

verus! {

/// The capability viewpoint: capabilities and their mappings to activities.
#[derive(Debug, Clone)]
pub struct CapabilityView {
    pub capabilities: Vec<Capability>,
    pub mappings: Vec<CapabilityMapping>,
}

impl CapabilityView {
    /// An empty view.
    pub fn new() -> (r: Self)
        ensures
            r.capabilities@.len() == 0,
            r.mappings@.len() == 0,
    {
        CapabilityView {
            capabilities: Vec::new(),
            mappings: Vec::new(),
        }
    }

    /// Add a capability.
    pub fn add_capability(self, capability: Capability) -> (r: Self)
        ensures
            r.capabilities@ == self.capabilities@.push(capability),
            r == (CapabilityView { capabilities: r.capabilities, ..self }),
    {
        let mut s = self;
        s.capabilities.push(capability);
        s
    }

    /// Add a capability mapping.
    pub fn add_mapping(self, mapping: CapabilityMapping) -> (r: Self)
        ensures
            r.mappings@ == self.mappings@.push(mapping),
            r == (CapabilityView { mappings: r.mappings, ..self }),
    {
        let mut s = self;
        s.mappings.push(mapping);
        s
    }

    /// The first capability with id `id`, if any.
    pub fn get_capability(&self, id: &str) -> (r: Option<&Capability>)
        ensures
            match r {
                Some(c) => exists|i: int|
                    0 <= i < self.capabilities@.len() && self.capabilities@[i] == *c && c.id@ == id@ && forall|k: int|
                        0 <= k < i ==> (#[trigger] self.capabilities@[k]).id@ != id@,
                None => forall|k: int| 0 <= k < self.capabilities@.len() ==> (#[trigger] self.capabilities@[k]).id@ != id@,
            },
    {
        let mut i: usize = 0;
        while i < self.capabilities.len()
            invariant
                i <= self.capabilities.len(),
                forall|k: int| 0 <= k < i ==> (#[trigger] self.capabilities@[k]).id@ != id@,
            decreases self.capabilities.len() - i,
        {
            if str_eq(self.capabilities[i].id.as_str(), id) {
                return Some(&self.capabilities[i]);
            }
            i = i + 1;
        }
        None
    }
}

impl Default for CapabilityView {
    fn default() -> (r: Self)
        ensures
            r.capabilities@.len() == 0,
            r.mappings@.len() == 0,
    {
        Self::new()
    }
}

/// A capability: an ability to achieve an objective.
#[derive(Debug, Clone)]
pub struct Capability {
    pub id: String,
    pub name: String,
    pub description: Option<String>,
    pub capability_type: CapabilityType,
    pub parent_id: Option<String>,
    pub required_resources: Vec<String>,
    /// Metrics, by key, each key once.
    pub metrics: Vec<(String, serde_json::Value)>,
}

/// The kind of a capability.
#[derive(Debug, Clone, Copy, PartialEq, Eq, Structural)]
pub enum CapabilityType {
    Cognitive,
    Physical,
    Information,
    Communication,
    Organizational,
}

/// A link from a capability to an operational activity.
#[derive(Debug, Clone)]
pub struct CapabilityMapping {
    pub capability_id: String,
    pub activity_id: String,
    pub mapping_type: MappingType,
}

/// How a capability relates to an activity.
#[derive(Debug, Clone, Copy, PartialEq, Eq, Structural)]
pub enum MappingType {
    Required,
    Optional,
    Enables,
    Produced,
}

impl Capability {
    /// A capability with no description, parent, resources or metrics.
    pub fn new(id: &str, name: &str, capability_type: CapabilityType) -> (r: Self)
        ensures
            r.id@ == id@,
            r.name@ == name@,
            r.description is None,
            r.capability_type == capability_type,
            r.parent_id is None,
            r.required_resources@.len() == 0,
            r.metrics@.len() == 0,
    {
        Capability {
            id: owned(id),
            name: owned(name),
            description: None,
            capability_type: capability_type,
            parent_id: None,
            required_resources: Vec::new(),
            metrics: Vec::new(),
        }
    }

    /// Set the description.
    pub fn with_description(self, desc: &str) -> (r: Self)
        ensures
            opt_view(r.description) == Some(desc@),
            r == (Capability { description: r.description, ..self }),
    {
        let mut s = self;
        s.description = Some(owned(desc));
        s
    }

    /// Set the parent capability.
    pub fn with_parent(self, parent_id: &str) -> (r: Self)
        ensures
            opt_view(r.parent_id) == Some(parent_id@),
            r == (Capability { parent_id: r.parent_id, ..self }),
    {
        let mut s = self;
        s.parent_id = Some(owned(parent_id));
        s
    }

    /// Add a required resource.
    pub fn add_resource(self, resource: &str) -> (r: Self)
        ensures
            strings_view(r.required_resources@) == strings_view(self.required_resources@).push(resource@),
            r == (Capability { required_resources: r.required_resources, ..self }),
    {
        let mut s = self;
        s.required_resources.push(owned(resource));
        proof {
            assert(strings_view(s.required_resources@) =~= strings_view(self.required_resources@).push(resource@));
        }
        s
    }

    /// Record a metric under `key`, replacing what was there.
    pub fn add_metric(self, key: &str, value: serde_json::Value) -> (r: Self)
        ensures
            r == (Capability { metrics: r.metrics, ..self }),
            crate::entries::sets_key(self.metrics@, r.metrics@, key@, value),
    {
        let mut s = self;
        crate::entries::set_key(&mut s.metrics, owned(key), value);
        s
    }
}

} // verus!
