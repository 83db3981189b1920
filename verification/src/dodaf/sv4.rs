//! SV-4 systems functionality: functions, flows and functional hierarchies.
use vstd::prelude::*;
use std::collections::HashMap;
use crate::outside::now_rfc3339;
use crate::text::{opt_view, owned, str_eq, strings_view};
use crate::entries::{find_key, first_key_at, keys_unique};

verus! {

/// SV-4 systems functionality description: system functions and the flows between them.
#[derive(Debug, Clone)]
pub struct SystemsFunctionalityDescription {
    pub id: String,
    pub name: String,
    pub description: Option<String>,
    pub version: String,
    pub functions: Vec<SystemFunction>,
    pub function_flows: Vec<FunctionFlow>,
    pub data_flows: Vec<FunctionDataFlow>,
    pub functional_hierarchies: Vec<FunctionalHierarchy>,
    /// Creation time, as RFC 3339 text.
    pub created_at: String,
    pub metadata: HashMap<String, serde_json::Value>,
}

/// A function that a system performs.
#[derive(Debug, Clone)]
pub struct SystemFunction {
    pub id: String,
    pub name: String,
    pub description: Option<String>,
    pub function_type: FunctionType,
    pub belongs_to_system: String,
    pub inputs: Vec<String>,
    pub outputs: Vec<String>,
    pub allocated_to: Vec<String>,
    pub parent_function: Option<String>,
    pub child_functions: Vec<String>,
    pub properties: HashMap<String, serde_json::Value>,
}

/// The kind of a system function.
#[derive(Debug, Clone, Copy, PartialEq, Eq, Structural)]
pub enum FunctionType {
    Primary,
    Supporting,
    Enabling,
    Operational,
    Maintenance,
    Management,
}

/// A flow of control between two functions.
#[derive(Debug, Clone)]
pub struct FunctionFlow {
    pub id: String,
    pub source_function: String,
    pub target_function: String,
    pub flow_type: String,
}

/// A flow of data between two functions.
#[derive(Debug, Clone)]
pub struct FunctionDataFlow {
    pub id: String,
    pub name: Option<String>,
    pub source_function: String,
    pub target_function: String,
    pub data_elements: Vec<String>,
    pub timing: Option<String>,
}

/// A hierarchy of functions under a root function, level by level.
#[derive(Debug, Clone)]
pub struct FunctionalHierarchy {
    pub root_function: String,
    pub levels: Vec<HierarchyLevel>,
}

/// One level of a functional hierarchy.
#[derive(Debug, Clone)]
pub struct HierarchyLevel {
    pub level: i32,
    pub functions: Vec<String>,
    /// The children of each parent function, each parent once.
    pub parent_functions: Vec<(String, Vec<String>)>,
}

impl SystemsFunctionalityDescription {
    /// An empty version 1.0 description created now.
    pub fn new(id: &str, name: &str) -> (r: Self)
        ensures
            r.id@ == id@,
            r.name@ == name@,
            r.description is None,
            r.version@ == "1.0"@,
            r.functions@.len() == 0,
            r.function_flows@.len() == 0,
            r.data_flows@.len() == 0,
            r.functional_hierarchies@.len() == 0,
            r.metadata@.len() == 0,
    {
        SystemsFunctionalityDescription {
            id: owned(id),
            name: owned(name),
            description: None,
            version: owned("1.0"),
            functions: Vec::new(),
            function_flows: Vec::new(),
            data_flows: Vec::new(),
            functional_hierarchies: Vec::new(),
            created_at: now_rfc3339(),
            metadata: HashMap::new(),
        }
    }

    /// Set the description.
    pub fn with_description(self, desc: &str) -> (r: Self)
        ensures
            opt_view(r.description) == Some(desc@),
            r == (SystemsFunctionalityDescription { description: r.description, ..self }),
    {
        let mut s = self;
        s.description = Some(owned(desc));
        s
    }

    /// Add a function.
    pub fn add_function(self, function: SystemFunction) -> (r: Self)
        ensures
            r.functions@ == self.functions@.push(function),
            r == (SystemsFunctionalityDescription { functions: r.functions, ..self }),
    {
        let mut s = self;
        s.functions.push(function);
        s
    }

    /// Add a control flow.
    pub fn add_function_flow(self, flow: FunctionFlow) -> (r: Self)
        ensures
            r.function_flows@ == self.function_flows@.push(flow),
            r == (SystemsFunctionalityDescription { function_flows: r.function_flows, ..self }),
    {
        let mut s = self;
        s.function_flows.push(flow);
        s
    }

    /// Add a data flow.
    pub fn add_data_flow(self, flow: FunctionDataFlow) -> (r: Self)
        ensures
            r.data_flows@ == self.data_flows@.push(flow),
            r == (SystemsFunctionalityDescription { data_flows: r.data_flows, ..self }),
    {
        let mut s = self;
        s.data_flows.push(flow);
        s
    }

    /// Add a functional hierarchy.
    pub fn add_hierarchy(self, hierarchy: FunctionalHierarchy) -> (r: Self)
        ensures
            r.functional_hierarchies@ == self.functional_hierarchies@.push(hierarchy),
            r == (SystemsFunctionalityDescription { functional_hierarchies: r.functional_hierarchies, ..self }),
    {
        let mut s = self;
        s.functional_hierarchies.push(hierarchy);
        s
    }

    /// The functions of system `system_id`, in order.
    pub fn get_system_functions(&self, system_id: &str) -> (r: Vec<&SystemFunction>)
        ensures
            r@.map_values(|c: &SystemFunction| *c) == functions_of(self.functions@, system_id@),
    {
        let mut r: Vec<&SystemFunction> = Vec::new();
        let mut i: usize = 0;
        while i < self.functions.len()
            invariant
                i <= self.functions.len(),
                r@.map_values(|c: &SystemFunction| *c) == functions_of(self.functions@.take(i as int), system_id@),
            decreases self.functions.len() - i,
        {
            assert(self.functions@.take(i + 1).drop_last() =~= self.functions@.take(i as int));
            if str_eq(self.functions[i].belongs_to_system.as_str(), system_id) {
                r.push(&self.functions[i]);
            }
            assert(r@.map_values(|c: &SystemFunction| *c) =~= functions_of(self.functions@.take(i + 1), system_id@));
            i = i + 1;
        }
        assert(self.functions@.take(self.functions.len() as int) =~= self.functions@);
        r
    }

    /// The data flows out of function `function_id`, in order.
    pub fn get_function_outputs(&self, function_id: &str) -> (r: Vec<&FunctionDataFlow>)
        ensures
            r@.map_values(|c: &FunctionDataFlow| *c) == flows_from(self.data_flows@, function_id@),
    {
        let mut r: Vec<&FunctionDataFlow> = Vec::new();
        let mut i: usize = 0;
        while i < self.data_flows.len()
            invariant
                i <= self.data_flows.len(),
                r@.map_values(|c: &FunctionDataFlow| *c) == flows_from(self.data_flows@.take(i as int), function_id@),
            decreases self.data_flows.len() - i,
        {
            assert(self.data_flows@.take(i + 1).drop_last() =~= self.data_flows@.take(i as int));
            if str_eq(self.data_flows[i].source_function.as_str(), function_id) {
                r.push(&self.data_flows[i]);
            }
            assert(r@.map_values(|c: &FunctionDataFlow| *c) =~= flows_from(self.data_flows@.take(i + 1), function_id@));
            i = i + 1;
        }
        assert(self.data_flows@.take(self.data_flows.len() as int) =~= self.data_flows@);
        r
    }

    /// The data flows into function `function_id`, in order.
    pub fn get_function_inputs(&self, function_id: &str) -> (r: Vec<&FunctionDataFlow>)
        ensures
            r@.map_values(|c: &FunctionDataFlow| *c) == flows_into(self.data_flows@, function_id@),
    {
        let mut r: Vec<&FunctionDataFlow> = Vec::new();
        let mut i: usize = 0;
        while i < self.data_flows.len()
            invariant
                i <= self.data_flows.len(),
                r@.map_values(|c: &FunctionDataFlow| *c) == flows_into(self.data_flows@.take(i as int), function_id@),
            decreases self.data_flows.len() - i,
        {
            assert(self.data_flows@.take(i + 1).drop_last() =~= self.data_flows@.take(i as int));
            if str_eq(self.data_flows[i].target_function.as_str(), function_id) {
                r.push(&self.data_flows[i]);
            }
            assert(r@.map_values(|c: &FunctionDataFlow| *c) =~= flows_into(self.data_flows@.take(i + 1), function_id@));
            i = i + 1;
        }
        assert(self.data_flows@.take(self.data_flows.len() as int) =~= self.data_flows@);
        r
    }
}

impl SystemFunction {
    /// A function of system `system_id` with no inputs, outputs, allocations or relatives.
    pub fn new(id: &str, name: &str, function_type: FunctionType, system_id: &str) -> (r: Self)
        ensures
            r.id@ == id@,
            r.name@ == name@,
            r.description is None,
            r.function_type == function_type,
            r.belongs_to_system@ == system_id@,
            r.inputs@.len() == 0,
            r.outputs@.len() == 0,
            r.allocated_to@.len() == 0,
            r.parent_function is None,
            r.child_functions@.len() == 0,
            r.properties@.len() == 0,
    {
        SystemFunction {
            id: owned(id),
            name: owned(name),
            description: None,
            function_type: function_type,
            belongs_to_system: owned(system_id),
            inputs: Vec::new(),
            outputs: Vec::new(),
            allocated_to: Vec::new(),
            parent_function: None,
            child_functions: Vec::new(),
            properties: HashMap::new(),
        }
    }

    /// Set the description.
    pub fn with_description(self, desc: &str) -> (r: Self)
        ensures
            opt_view(r.description) == Some(desc@),
            r == (SystemFunction { description: r.description, ..self }),
    {
        let mut s = self;
        s.description = Some(owned(desc));
        s
    }

    /// Add an input data element.
    pub fn add_input(self, data_element_id: &str) -> (r: Self)
        ensures
            strings_view(r.inputs@) == strings_view(self.inputs@).push(data_element_id@),
            r == (SystemFunction { inputs: r.inputs, ..self }),
    {
        let mut s = self;
        s.inputs.push(owned(data_element_id));
        proof {
            assert(strings_view(s.inputs@) =~= strings_view(self.inputs@).push(data_element_id@));
        }
        s
    }

    /// Add an output data element.
    pub fn add_output(self, data_element_id: &str) -> (r: Self)
        ensures
            strings_view(r.outputs@) == strings_view(self.outputs@).push(data_element_id@),
            r == (SystemFunction { outputs: r.outputs, ..self }),
    {
        let mut s = self;
        s.outputs.push(owned(data_element_id));
        proof {
            assert(strings_view(s.outputs@) =~= strings_view(self.outputs@).push(data_element_id@));
        }
        s
    }

    /// Add a child function.
    pub fn add_child_function(self, child_id: &str) -> (r: Self)
        ensures
            strings_view(r.child_functions@) == strings_view(self.child_functions@).push(child_id@),
            r == (SystemFunction { child_functions: r.child_functions, ..self }),
    {
        let mut s = self;
        s.child_functions.push(owned(child_id));
        proof {
            assert(strings_view(s.child_functions@) =~= strings_view(self.child_functions@).push(child_id@));
        }
        s
    }

    /// Set the parent function.
    pub fn with_parent(self, parent_id: &str) -> (r: Self)
        ensures
            opt_view(r.parent_function) == Some(parent_id@),
            r == (SystemFunction { parent_function: r.parent_function, ..self }),
    {
        let mut s = self;
        s.parent_function = Some(owned(parent_id));
        s
    }

    /// Allocate the function to a system.
    pub fn allocate_to_system(self, system_id: &str) -> (r: Self)
        ensures
            strings_view(r.allocated_to@) == strings_view(self.allocated_to@).push(system_id@),
            r == (SystemFunction { allocated_to: r.allocated_to, ..self }),
    {
        let mut s = self;
        s.allocated_to.push(owned(system_id));
        proof {
            assert(strings_view(s.allocated_to@) =~= strings_view(self.allocated_to@).push(system_id@));
        }
        s
    }

    /// The numbers of inputs and outputs.
    pub fn arity(&self) -> (r: (usize, usize))
        ensures
            r.0 == self.inputs@.len(),
            r.1 == self.outputs@.len(),
    {
        (self.inputs.len(), self.outputs.len())
    }
}

impl FunctionFlow {
    /// A control flow from `source` to `target`.
    pub fn new(id: &str, source: &str, target: &str) -> (r: Self)
        ensures
            r.id@ == id@,
            r.source_function@ == source@,
            r.target_function@ == target@,
            r.flow_type@ == "control"@,
    {
        FunctionFlow {
            id: owned(id),
            source_function: owned(source),
            target_function: owned(target),
            flow_type: owned("control"),
        }
    }

    /// Set the flow type.
    pub fn with_flow_type(self, flow_type: &str) -> (r: Self)
        ensures
            r.flow_type@ == flow_type@,
            r == (FunctionFlow { flow_type: r.flow_type, ..self }),
    {
        let mut s = self;
        s.flow_type = owned(flow_type);
        s
    }
}

impl FunctionDataFlow {
    /// A data flow from `source` to `target` with no name, data or timing.
    pub fn new(id: &str, source: &str, target: &str) -> (r: Self)
        ensures
            r.id@ == id@,
            r.name is None,
            r.source_function@ == source@,
            r.target_function@ == target@,
            r.data_elements@.len() == 0,
            r.timing is None,
    {
        FunctionDataFlow {
            id: owned(id),
            name: None,
            source_function: owned(source),
            target_function: owned(target),
            data_elements: Vec::new(),
            timing: None,
        }
    }

    /// Set the name.
    pub fn with_name(self, name: &str) -> (r: Self)
        ensures
            opt_view(r.name) == Some(name@),
            r == (FunctionDataFlow { name: r.name, ..self }),
    {
        let mut s = self;
        s.name = Some(owned(name));
        s
    }

    /// Add a data element.
    pub fn add_data_element(self, element_id: &str) -> (r: Self)
        ensures
            strings_view(r.data_elements@) == strings_view(self.data_elements@).push(element_id@),
            r == (FunctionDataFlow { data_elements: r.data_elements, ..self }),
    {
        let mut s = self;
        s.data_elements.push(owned(element_id));
        proof {
            assert(strings_view(s.data_elements@) =~= strings_view(self.data_elements@).push(element_id@));
        }
        s
    }

    /// Set the timing.
    pub fn with_timing(self, timing: &str) -> (r: Self)
        ensures
            opt_view(r.timing) == Some(timing@),
            r == (FunctionDataFlow { timing: r.timing, ..self }),
    {
        let mut s = self;
        s.timing = Some(owned(timing));
        s
    }
}

impl FunctionalHierarchy {
    /// A hierarchy under `root_function` with one empty level 0.
    pub fn new(root_function: &str) -> (r: Self)
        ensures
            r.root_function@ == root_function@,
            r.levels@.len() == 1,
            r.levels@[0].level == 0,
            r.levels@[0].functions@.len() == 0,
            r.levels@[0].parent_functions@.len() == 0,
    {
        FunctionalHierarchy {
            root_function: owned(root_function),
            levels: vec![HierarchyLevel { level: 0, functions: Vec::new(), parent_functions: Vec::new() }],
        }
    }

    /// Add a level.
    pub fn add_level(self, level: HierarchyLevel) -> (r: Self)
        ensures
            r.levels@ == self.levels@.push(level),
            r == (FunctionalHierarchy { levels: r.levels, ..self }),
    {
        let mut s = self;
        s.levels.push(level);
        s
    }

    /// The deepest level number, or 0 when there are no levels.
    pub fn max_depth(&self) -> (r: i32)
        ensures
            r == max_level(self.levels@),
    {
        let mut best: Option<i32> = None;
        let mut i: usize = 0;
        while i < self.levels.len()
            invariant
                i <= self.levels.len(),
                best == max_level_opt(self.levels@.take(i as int)),
            decreases self.levels.len() - i,
        {
            assert(self.levels@.take(i + 1).drop_last() =~= self.levels@.take(i as int));
            let l = self.levels[i].level;
            best = match best {
                Some(b) => if l >= b { Some(l) } else { Some(b) },
                None => Some(l),
            };
            i = i + 1;
        }
        assert(self.levels@.take(self.levels.len() as int) =~= self.levels@);
        match best {
            Some(b) => b,
            None => 0,
        }
    }
}

/// `new` is `old` with `child` added under `parent`: after the children of
/// the first entry for `parent`, or in a new last entry when there is none.
pub open spec fn appends_child(
    old: Seq<(String, Vec<String>)>,
    new: Seq<(String, Vec<String>)>,
    parent: Seq<char>,
    child: Seq<char>,
) -> bool {
    if exists|i: int| first_key_at(old, parent, i) {
        let i = choose|i: int| first_key_at(old, parent, i);
        &&& new.len() == old.len()
        &&& new[i].0@ == parent
        &&& strings_view(new[i].1@) == strings_view(old[i].1@).push(child)
        &&& forall|j: int| 0 <= j < old.len() && j != i ==> new[j] == old[j]
    } else {
        &&& new.len() == old.len() + 1
        &&& new.take(old.len() as int) == old
        &&& new.last().0@ == parent
        &&& strings_view(new.last().1@) == seq![child]
    }
}

proof fn lemma_first_key_unique(es: Seq<(String, Vec<String>)>, k: Seq<char>, i: int, j: int)
    requires
        first_key_at(es, k, i),
        first_key_at(es, k, j),
    ensures
        i == j,
{
    if i < j {
        assert(es[i].0@ != k);
    } else if j < i {
        assert(es[j].0@ != k);
    }
}

fn copy_texts(v: &Vec<String>) -> (r: Vec<String>)
    ensures
        strings_view(r@) == strings_view(v@),
{
    let mut r: Vec<String> = Vec::new();
    let mut i: usize = 0;
    while i < v.len()
        invariant
            i <= v.len(),
            r@.len() == i,
            forall|j: int| 0 <= j < i ==> (#[trigger] r@[j])@ == v@[j]@,
        decreases v.len() - i,
    {
        r.push(owned(v[i].as_str()));
        i = i + 1;
    }
    assert(strings_view(r@) =~= strings_view(v@));
    r
}

impl HierarchyLevel {
    /// An empty level numbered `level`.
    pub fn new(level: i32) -> (r: Self)
        ensures
            r.level == level,
            r.functions@.len() == 0,
            r.parent_functions@.len() == 0,
            keys_unique(r.parent_functions@),
    {
        HierarchyLevel {
            level: level,
            functions: Vec::new(),
            parent_functions: Vec::new(),
        }
    }

    /// Add a function on this level.
    pub fn add_function(self, function_id: &str) -> (r: Self)
        ensures
            strings_view(r.functions@) == strings_view(self.functions@).push(function_id@),
            r == (HierarchyLevel { functions: r.functions, ..self }),
    {
        let mut s = self;
        s.functions.push(owned(function_id));
        proof {
            assert(strings_view(s.functions@) =~= strings_view(self.functions@).push(function_id@));
        }
        s
    }

    /// Record `child` under `parent`, after the children `parent` already
    /// has; a parent with no entry gets one, at the end, holding `child`.
    pub fn add_relationship(self, parent: &str, child: &str) -> (r: Self)
        ensures
            r == (HierarchyLevel { parent_functions: r.parent_functions, ..self }),
            appends_child(self.parent_functions@, r.parent_functions@, parent@, child@),
            keys_unique(self.parent_functions@) ==> keys_unique(r.parent_functions@),
    {
        let mut s = self;
        let ghost before = s.parent_functions@;
        match find_key(&s.parent_functions, parent) {
            Some(i) => {
                let mut kids = copy_texts(&s.parent_functions[i].1);
                kids.push(owned(child));
                proof {
                    assert(strings_view(kids@) =~= strings_view(before[i as int].1@).push(child@));
                    let f = choose|f: int| first_key_at(before, parent@, f);
                    lemma_first_key_unique(before, parent@, i as int, f);
                }
                s.parent_functions.set(i, (owned(parent), kids));
                proof {
                    if keys_unique(before) {
                        assert forall|a: int, b: int| 0 <= a < b < s.parent_functions@.len() implies
                            (#[trigger] s.parent_functions@[a]).0@ != (#[trigger] s.parent_functions@[b]).0@ by {
                            if a == i as int {
                                assert(before[b].0@ != before[a].0@);
                            } else if b == i as int {
                                assert(before[a].0@ != before[b].0@);
                            }
                        }
                    }
                }
            },
            None => {
                let mut kids: Vec<String> = Vec::new();
                kids.push(owned(child));
                proof {
                    assert(strings_view(kids@) =~= seq![child@]);
                    assert(!exists|f: int| first_key_at(before, parent@, f));
                }
                s.parent_functions.push((owned(parent), kids));
                assert(s.parent_functions@.take(before.len() as int) =~= before);
            },
        }
        s
    }
}

/// The largest level number of `ls`, or none for no levels.
pub open spec fn max_level_opt(ls: Seq<HierarchyLevel>) -> Option<i32>
    decreases ls.len(),
{
    if ls.len() == 0 {
        None
    } else {
        match max_level_opt(ls.drop_last()) {
            Some(b) => if ls.last().level >= b { Some(ls.last().level) } else { Some(b) },
            None => Some(ls.last().level),
        }
    }
}

/// The largest level number of `ls`, or 0 for no levels.
pub open spec fn max_level(ls: Seq<HierarchyLevel>) -> i32 {
    match max_level_opt(ls) {
        Some(b) => b,
        None => 0,
    }
}
/// The functions of `cs` that belong to system `system_id`, in order.
pub open spec fn functions_of(cs: Seq<SystemFunction>, system_id: Seq<char>) -> Seq<SystemFunction>
    decreases cs.len(),
{
    if cs.len() == 0 {
        Seq::empty()
    } else {
        functions_of(cs.drop_last(), system_id) + if cs.last().belongs_to_system@ == system_id {
            seq![cs.last()]
        } else {
            Seq::empty()
        }
    }
}

/// The data flows of `cs` whose source is `function_id`, in order.
pub open spec fn flows_from(cs: Seq<FunctionDataFlow>, function_id: Seq<char>) -> Seq<FunctionDataFlow>
    decreases cs.len(),
{
    if cs.len() == 0 {
        Seq::empty()
    } else {
        flows_from(cs.drop_last(), function_id) + if cs.last().source_function@ == function_id {
            seq![cs.last()]
        } else {
            Seq::empty()
        }
    }
}

/// The data flows of `cs` whose target is `function_id`, in order.
pub open spec fn flows_into(cs: Seq<FunctionDataFlow>, function_id: Seq<char>) -> Seq<FunctionDataFlow>
    decreases cs.len(),
{
    if cs.len() == 0 {
        Seq::empty()
    } else {
        flows_into(cs.drop_last(), function_id) + if cs.last().target_function@ == function_id {
            seq![cs.last()]
        } else {
            Seq::empty()
        }
    }
}

} // verus!
