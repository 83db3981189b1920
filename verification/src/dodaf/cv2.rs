//! CV-2 capability taxonomy: capabilities, their hierarchy, measures and clusters.
use vstd::prelude::*;
use std::collections::HashMap;
use crate::outside::now_rfc3339;
use crate::text::{opt_view, owned, str_eq, strings_view};

verus! {

/// CV-2 capability taxonomy: capabilities organised in a hierarchy.
#[derive(Debug, Clone)]
pub struct CapabilityTaxonomy {
    pub id: String,
    pub name: String,
    pub description: Option<String>,
    pub version: String,
    pub capabilities: Vec<Capability>,
    pub hierarchy: TaxonomyHierarchy,
    pub capability_clusters: Vec<CapabilityCluster>,
    /// Creation time, as RFC 3339 text.
    pub created_at: String,
    pub metadata: HashMap<String, serde_json::Value>,
}

/// A capability: the ability to perform a function.
#[derive(Debug, Clone)]
pub struct Capability {
    pub id: String,
    pub name: String,
    pub description: Option<String>,
    pub capability_type: CapabilityType,
    pub parent_capability: Option<String>,
    pub child_capabilities: Vec<String>,
    /// Level in the hierarchy; 0 is a root.
    pub hierarchy_level: i32,
    pub measures: Vec<CapabilityMeasure>,
    /// Maturity, from 1 to 5.
    pub maturity_level: Option<i32>,
    /// Readiness, in percent.
    pub readiness_level: Option<i32>,
    pub realized_by_operations: Vec<String>,
    pub realized_by_systems: Vec<String>,
    pub realized_by_services: Vec<String>,
    pub properties: HashMap<String, serde_json::Value>,
}

/// Domain and category of a capability.
#[derive(Debug, Clone)]
pub struct CapabilityType {
    pub domain: String,
    pub category: String,
}

/// A measure of capability performance.
#[derive(Debug, Clone)]
pub struct CapabilityMeasure {
    pub id: String,
    pub name: String,
    pub metric: String,
    pub condition: Option<String>,
    pub target_value: Option<String>,
    pub current_value: Option<String>,
}

/// The hierarchy of a taxonomy: its roots and depth.
#[derive(Debug, Clone)]
pub struct TaxonomyHierarchy {
    pub root_nodes: Vec<String>,
    /// Number of levels, one more than the deepest level seen.
    pub levels: i32,
    pub relationships: Vec<HierarchyRelationship>,
}

/// A parent-child link in the capability hierarchy.
#[derive(Debug, Clone)]
pub struct HierarchyRelationship {
    pub parent_id: String,
    pub child_id: String,
    pub relationship_type: HierarchyRelationType,
}

/// How a child capability relates to its parent.
#[derive(Debug, Clone, Copy, PartialEq, Eq, Structural)]
pub enum HierarchyRelationType {
    Composition,
    Decomposition,
    Dependency,
    Specialization,
}

/// A cluster of related capabilities.
#[derive(Debug, Clone)]
pub struct CapabilityCluster {
    pub id: String,
    pub name: String,
    pub members: Vec<String>,
    pub cluster_type: String,
}

impl CapabilityTaxonomy {
    /// An empty version 1.0 taxonomy created now.
    pub fn new(id: &str, name: &str) -> (r: Self)
        ensures
            r.id@ == id@,
            r.name@ == name@,
            r.description is None,
            r.version@ == "1.0"@,
            r.capabilities@.len() == 0,
            r.hierarchy.root_nodes@.len() == 0,
            r.hierarchy.levels == 0,
            r.hierarchy.relationships@.len() == 0,
            r.capability_clusters@.len() == 0,
            r.metadata@.len() == 0,
    {
        CapabilityTaxonomy {
            id: owned(id),
            name: owned(name),
            description: None,
            version: owned("1.0"),
            capabilities: Vec::new(),
            hierarchy: TaxonomyHierarchy { root_nodes: Vec::new(), levels: 0, relationships: Vec::new() },
            capability_clusters: Vec::new(),
            created_at: now_rfc3339(),
            metadata: HashMap::new(),
        }
    }

    /// Set the description.
    pub fn with_description(self, desc: &str) -> (r: Self)
        ensures
            opt_view(r.description) == Some(desc@),
            r == (CapabilityTaxonomy { description: r.description, ..self }),
    {
        let mut s = self;
        s.description = Some(owned(desc));
        s
    }

    /// Add a capability: a capability without a parent becomes a root, and the
    /// hierarchy grows to hold its level.
    pub fn add_capability(self, capability: Capability) -> (r: Self)
        requires
            capability.hierarchy_level < i32::MAX,
        ensures
            r.capabilities@ == self.capabilities@.push(capability),
            strings_view(r.hierarchy.root_nodes@) == if capability.parent_capability is None {
                strings_view(self.hierarchy.root_nodes@).push(capability.id@)
            } else {
                strings_view(self.hierarchy.root_nodes@)
            },
            r.hierarchy.levels == if self.hierarchy.levels >= capability.hierarchy_level + 1 {
                self.hierarchy.levels as int
            } else {
                capability.hierarchy_level + 1
            },
            r.hierarchy.relationships == self.hierarchy.relationships,
            r == (CapabilityTaxonomy { capabilities: r.capabilities, hierarchy: r.hierarchy, ..self }),
    {
        let mut s = self;
        if capability.parent_capability.is_none() {
            s.hierarchy.root_nodes.push(owned(capability.id.as_str()));
            proof {
                assert(strings_view(s.hierarchy.root_nodes@) =~= strings_view(self.hierarchy.root_nodes@).push(
                    capability.id@,
                ));
            }
        }
        let next = capability.hierarchy_level + 1;
        if next > s.hierarchy.levels {
            s.hierarchy.levels = next;
        }
        s.capabilities.push(capability);
        s
    }

    /// Add a cluster.
    pub fn add_cluster(self, cluster: CapabilityCluster) -> (r: Self)
        ensures
            r.capability_clusters@ == self.capability_clusters@.push(cluster),
            r == (CapabilityTaxonomy { capability_clusters: r.capability_clusters, ..self }),
    {
        let mut s = self;
        s.capability_clusters.push(cluster);
        s
    }

    /// The capabilities of domain `domain`, in order.
    pub fn get_capabilities_by_domain(&self, domain: &str) -> (r: Vec<&Capability>)
        ensures
            r@.map_values(|c: &Capability| *c) == in_domain(self.capabilities@, domain@),
    {
        let mut r: Vec<&Capability> = Vec::new();
        let mut i: usize = 0;
        while i < self.capabilities.len()
            invariant
                i <= self.capabilities.len(),
                r@.map_values(|c: &Capability| *c) == in_domain(self.capabilities@.take(i as int), domain@),
            decreases self.capabilities.len() - i,
        {
            assert(self.capabilities@.take(i + 1).drop_last() =~= self.capabilities@.take(i as int));
            if str_eq(self.capabilities[i].capability_type.domain.as_str(), domain) {
                r.push(&self.capabilities[i]);
            }
            assert(r@.map_values(|c: &Capability| *c) =~= in_domain(self.capabilities@.take(i + 1), domain@));
            i = i + 1;
        }
        assert(self.capabilities@.take(self.capabilities.len() as int) =~= self.capabilities@);
        r
    }

    /// The capabilities of category `category`, in order.
    pub fn get_capabilities_by_category(&self, category: &str) -> (r: Vec<&Capability>)
        ensures
            r@.map_values(|c: &Capability| *c) == in_category(self.capabilities@, category@),
    {
        let mut r: Vec<&Capability> = Vec::new();
        let mut i: usize = 0;
        while i < self.capabilities.len()
            invariant
                i <= self.capabilities.len(),
                r@.map_values(|c: &Capability| *c) == in_category(self.capabilities@.take(i as int), category@),
            decreases self.capabilities.len() - i,
        {
            assert(self.capabilities@.take(i + 1).drop_last() =~= self.capabilities@.take(i as int));
            if str_eq(self.capabilities[i].capability_type.category.as_str(), category) {
                r.push(&self.capabilities[i]);
            }
            assert(r@.map_values(|c: &Capability| *c) =~= in_category(self.capabilities@.take(i + 1), category@));
            i = i + 1;
        }
        assert(self.capabilities@.take(self.capabilities.len() as int) =~= self.capabilities@);
        r
    }

    /// The capabilities whose parent is `capability_id`, in order.
    pub fn get_children(&self, capability_id: &str) -> (r: Vec<&Capability>)
        ensures
            r@.map_values(|c: &Capability| *c) == children_of(self.capabilities@, capability_id@),
    {
        let mut r: Vec<&Capability> = Vec::new();
        let mut i: usize = 0;
        while i < self.capabilities.len()
            invariant
                i <= self.capabilities.len(),
                r@.map_values(|c: &Capability| *c) == children_of(self.capabilities@.take(i as int), capability_id@),
            decreases self.capabilities.len() - i,
        {
            assert(self.capabilities@.take(i + 1).drop_last() =~= self.capabilities@.take(i as int));
            if is_some_eq(&self.capabilities[i].parent_capability, capability_id) {
                r.push(&self.capabilities[i]);
            }
            assert(r@.map_values(|c: &Capability| *c) =~= children_of(self.capabilities@.take(i + 1), capability_id@));
            i = i + 1;
        }
        assert(self.capabilities@.take(self.capabilities.len() as int) =~= self.capabilities@);
        r
    }

    /// The capabilities without a parent, in order.
    pub fn get_root_capabilities(&self) -> (r: Vec<&Capability>)
        ensures
            r@.map_values(|c: &Capability| *c) == roots(self.capabilities@),
    {
        let mut r: Vec<&Capability> = Vec::new();
        let mut i: usize = 0;
        while i < self.capabilities.len()
            invariant
                i <= self.capabilities.len(),
                r@.map_values(|c: &Capability| *c) == roots(self.capabilities@.take(i as int)),
            decreases self.capabilities.len() - i,
        {
            assert(self.capabilities@.take(i + 1).drop_last() =~= self.capabilities@.take(i as int));
            if self.capabilities[i].parent_capability.is_none() {
                r.push(&self.capabilities[i]);
            }
            assert(r@.map_values(|c: &Capability| *c) =~= roots(self.capabilities@.take(i + 1)));
            i = i + 1;
        }
        assert(self.capabilities@.take(self.capabilities.len() as int) =~= self.capabilities@);
        r
    }
}

/// Whether `o` holds a string equal to `s`.
fn is_some_eq(o: &Option<String>, s: &str) -> (r: bool)
    ensures
        r == (opt_view(*o) == Some(s@)),
{
    match o {
        Some(x) => str_eq(x.as_str(), s),
        None => false,
    }
}

impl Capability {
    /// A root capability of the given domain and category, with nothing else set.
    pub fn new(id: &str, name: &str, domain: &str, category: &str) -> (r: Self)
        ensures
            r.id@ == id@,
            r.name@ == name@,
            r.description is None,
            r.capability_type.domain@ == domain@,
            r.capability_type.category@ == category@,
            r.parent_capability is None,
            r.child_capabilities@.len() == 0,
            r.hierarchy_level == 0,
            r.measures@.len() == 0,
            r.maturity_level is None,
            r.readiness_level is None,
            r.realized_by_operations@.len() == 0,
            r.realized_by_systems@.len() == 0,
            r.realized_by_services@.len() == 0,
            r.properties@.len() == 0,
    {
        Capability {
            id: owned(id),
            name: owned(name),
            description: None,
            capability_type: CapabilityType { domain: owned(domain), category: owned(category) },
            parent_capability: None,
            child_capabilities: Vec::new(),
            hierarchy_level: 0,
            measures: Vec::new(),
            maturity_level: None,
            readiness_level: None,
            realized_by_operations: Vec::new(),
            realized_by_systems: Vec::new(),
            realized_by_services: Vec::new(),
            properties: HashMap::new(),
        }
    }

    /// Set the description.
    pub fn with_description(self, desc: &str) -> (r: Self)
        ensures
            opt_view(r.description) == Some(desc@),
            r == (Capability { description: r.description, ..self }),
    {
        let mut s = self;
        s.description = Some(owned(desc));
        s
    }

    /// Set the parent capability and the level in the hierarchy.
    pub fn with_parent(self, parent_id: &str, level: i32) -> (r: Self)
        ensures
            opt_view(r.parent_capability) == Some(parent_id@),
            r == (Capability { parent_capability: r.parent_capability, hierarchy_level: level, ..self }),
    {
        let mut s = self;
        s.parent_capability = Some(owned(parent_id));
        s.hierarchy_level = level;
        s
    }

    /// Add a child capability.
    pub fn add_child(self, child_id: &str) -> (r: Self)
        ensures
            strings_view(r.child_capabilities@) == strings_view(self.child_capabilities@).push(child_id@),
            r == (Capability { child_capabilities: r.child_capabilities, ..self }),
    {
        let mut s = self;
        s.child_capabilities.push(owned(child_id));
        proof {
            assert(strings_view(s.child_capabilities@) =~= strings_view(self.child_capabilities@).push(child_id@));
        }
        s
    }

    /// Set the maturity level (1 to 5).
    pub fn with_maturity_level(self, level: i32) -> (r: Self)
        ensures
            r == (Capability { maturity_level: Some(level), ..self }),
    {
        let mut s = self;
        s.maturity_level = Some(level);
        s
    }

    /// Set the readiness level (percent).
    pub fn with_readiness_level(self, level: i32) -> (r: Self)
        ensures
            r == (Capability { readiness_level: Some(level), ..self }),
    {
        let mut s = self;
        s.readiness_level = Some(level);
        s
    }

    /// Add a measure.
    pub fn add_measure(self, measure: CapabilityMeasure) -> (r: Self)
        ensures
            r.measures@ == self.measures@.push(measure),
            r == (Capability { measures: r.measures, ..self }),
    {
        let mut s = self;
        s.measures.push(measure);
        s
    }

    /// Add an operation realising this capability.
    pub fn add_realizing_operation(self, operation_id: &str) -> (r: Self)
        ensures
            strings_view(r.realized_by_operations@) == strings_view(self.realized_by_operations@).push(operation_id@),
            r == (Capability { realized_by_operations: r.realized_by_operations, ..self }),
    {
        let mut s = self;
        s.realized_by_operations.push(owned(operation_id));
        proof {
            assert(strings_view(s.realized_by_operations@) =~= strings_view(self.realized_by_operations@).push(operation_id@));
        }
        s
    }

    /// Add a system realising this capability.
    pub fn add_realizing_system(self, system_id: &str) -> (r: Self)
        ensures
            strings_view(r.realized_by_systems@) == strings_view(self.realized_by_systems@).push(system_id@),
            r == (Capability { realized_by_systems: r.realized_by_systems, ..self }),
    {
        let mut s = self;
        s.realized_by_systems.push(owned(system_id));
        proof {
            assert(strings_view(s.realized_by_systems@) =~= strings_view(self.realized_by_systems@).push(system_id@));
        }
        s
    }

    /// Add a service realising this capability.
    pub fn add_realizing_service(self, service_id: &str) -> (r: Self)
        ensures
            strings_view(r.realized_by_services@) == strings_view(self.realized_by_services@).push(service_id@),
            r == (Capability { realized_by_services: r.realized_by_services, ..self }),
    {
        let mut s = self;
        s.realized_by_services.push(owned(service_id));
        proof {
            assert(strings_view(s.realized_by_services@) =~= strings_view(self.realized_by_services@).push(service_id@));
        }
        s
    }

    /// How many operations, systems and services realise this capability.
    pub fn realization_count(&self) -> (r: usize)
        requires
            self.realized_by_operations@.len() + self.realized_by_systems@.len() + self.realized_by_services@.len()
                <= usize::MAX,
        ensures
            r == self.realized_by_operations@.len() + self.realized_by_systems@.len() + self.realized_by_services@.len(),
    {
        self.realized_by_operations.len() + self.realized_by_systems.len() + self.realized_by_services.len()
    }
}

impl CapabilityMeasure {
    /// A measure with no condition, target or current value.
    pub fn new(id: &str, name: &str, metric: &str) -> (r: Self)
        ensures
            r.id@ == id@,
            r.name@ == name@,
            r.metric@ == metric@,
            r.condition is None,
            r.target_value is None,
            r.current_value is None,
    {
        CapabilityMeasure {
            id: owned(id),
            name: owned(name),
            metric: owned(metric),
            condition: None,
            target_value: None,
            current_value: None,
        }
    }

    /// Set the environmental condition.
    pub fn with_condition(self, condition: &str) -> (r: Self)
        ensures
            opt_view(r.condition) == Some(condition@),
            r == (CapabilityMeasure { condition: r.condition, ..self }),
    {
        let mut s = self;
        s.condition = Some(owned(condition));
        s
    }

    /// Set the target value.
    pub fn with_target(self, target: &str) -> (r: Self)
        ensures
            opt_view(r.target_value) == Some(target@),
            r == (CapabilityMeasure { target_value: r.target_value, ..self }),
    {
        let mut s = self;
        s.target_value = Some(owned(target));
        s
    }

    /// Set the current value.
    pub fn with_current(self, current: &str) -> (r: Self)
        ensures
            opt_view(r.current_value) == Some(current@),
            r == (CapabilityMeasure { current_value: r.current_value, ..self }),
    {
        let mut s = self;
        s.current_value = Some(owned(current));
        s
    }
}

impl CapabilityCluster {
    /// A cluster with no members.
    pub fn new(id: &str, name: &str, cluster_type: &str) -> (r: Self)
        ensures
            r.id@ == id@,
            r.name@ == name@,
            r.members@.len() == 0,
            r.cluster_type@ == cluster_type@,
    {
        CapabilityCluster {
            id: owned(id),
            name: owned(name),
            members: Vec::new(),
            cluster_type: owned(cluster_type),
        }
    }

    /// Add a member capability.
    pub fn add_member(self, capability_id: &str) -> (r: Self)
        ensures
            strings_view(r.members@) == strings_view(self.members@).push(capability_id@),
            r == (CapabilityCluster { members: r.members, ..self }),
    {
        let mut s = self;
        s.members.push(owned(capability_id));
        proof {
            assert(strings_view(s.members@) =~= strings_view(self.members@).push(capability_id@));
        }
        s
    }
}

/// The capabilities of `cs` whose domain is `domain`, in order.
pub open spec fn in_domain(cs: Seq<Capability>, domain: Seq<char>) -> Seq<Capability>
    decreases cs.len(),
{
    if cs.len() == 0 {
        Seq::empty()
    } else {
        in_domain(cs.drop_last(), domain) + if cs.last().capability_type.domain@ == domain {
            seq![cs.last()]
        } else {
            Seq::empty()
        }
    }
}

/// The capabilities of `cs` whose category is `category`, in order.
pub open spec fn in_category(cs: Seq<Capability>, category: Seq<char>) -> Seq<Capability>
    decreases cs.len(),
{
    if cs.len() == 0 {
        Seq::empty()
    } else {
        in_category(cs.drop_last(), category) + if cs.last().capability_type.category@ == category {
            seq![cs.last()]
        } else {
            Seq::empty()
        }
    }
}

/// The capabilities of `cs` whose parent is `capability_id`, in order.
pub open spec fn children_of(cs: Seq<Capability>, capability_id: Seq<char>) -> Seq<Capability>
    decreases cs.len(),
{
    if cs.len() == 0 {
        Seq::empty()
    } else {
        children_of(cs.drop_last(), capability_id) + if opt_view(cs.last().parent_capability) == Some(capability_id) {
            seq![cs.last()]
        } else {
            Seq::empty()
        }
    }
}

/// The capabilities of `cs` without a parent, in order.
pub open spec fn roots(cs: Seq<Capability>) -> Seq<Capability>
    decreases cs.len(),
{
    if cs.len() == 0 {
        Seq::empty()
    } else {
        roots(cs.drop_last()) + if cs.last().parent_capability is None {
            seq![cs.last()]
        } else {
            Seq::empty()
        }
    }
}

} // verus!
