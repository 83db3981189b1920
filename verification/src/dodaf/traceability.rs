//! Traceability between requirements, capabilities, activities, systems and
//! the other elements of an architecture.
use vstd::prelude::*;
use std::collections::HashMap;
use crate::outside::new_uuid_v4_text;
use crate::text::{opt_view, owned, str_eq};

verus! {

/// A traceability link from one element to another.
#[derive(Debug, Clone, PartialEq)]
pub struct TraceabilityLink {
    pub id: String,
    pub source: TraceabilityElement,
    pub target: TraceabilityElement,
    pub link_type: LinkType,
    pub rationale: Option<String>,
    pub metadata: HashMap<String, String>,
}

/// An element that can be traced.
#[derive(Debug, Clone, PartialEq)]
pub struct TraceabilityElement {
    pub id: String,
    pub element_type: ElementType,
    pub name: String,
    pub description: Option<String>,
}

/// The content of an element, as plain text.
pub struct ElementView {
    pub id: Seq<char>,
    pub element_type: ElementType,
    pub name: Seq<char>,
    pub description: Option<Seq<char>>,
}

impl View for TraceabilityElement {
    type V = ElementView;

    open spec fn view(&self) -> ElementView {
        ElementView {
            id: self.id@,
            element_type: self.element_type,
            name: self.name@,
            description: opt_view(self.description),
        }
    }
}

/// The kind of a traceable element.
#[derive(Debug, Clone, Copy, PartialEq, Eq, Structural)]
pub enum ElementType {
    /// A requirement.
    Requirement,
    /// A capability (CV-2, CV-6).
    Capability,
    /// An operational activity (OV-5).
    OperationalActivity,
    /// A system (SV-1).
    System,
    /// A service (SvcV-1).
    Service,
    /// A standard.
    Standard,
    /// A system function (SV-4).
    SystemFunction,
    /// A data element (OV-7, DIV-2).
    DataElement,
    /// A performance parameter.
    PerformanceParameter,
    /// A test case.
    TestCase,
    /// A risk.
    Risk,
}

/// The kind of a traceability link.
#[derive(Debug, Clone, Copy, PartialEq, Eq, Structural)]
pub enum LinkType {
    /// Implements or realises.
    Implements,
    /// Derives from.
    DerivesFrom,
    /// Depends on.
    DependsOn,
    /// Verifies or validates.
    Verifies,
    /// Allocates to.
    AllocatesTo,
    /// Traces to.
    TracesTo,
    /// Refines.
    Refines,
    /// Satisfies.
    Satisfies,
    /// Conflicts with.
    ConflictsWith,
    /// Supports.
    Supports,
}

/// A traceability matrix: elements, each registered once under its id, and
/// the links between them.
#[derive(Debug, Clone)]
pub struct TraceabilityMatrix {
    pub name: String,
    pub description: Option<String>,
    pub links: Vec<TraceabilityLink>,
    /// The registered elements, in the order they were first registered.
    pub elements: Vec<TraceabilityElement>,
}

/// No two elements of `es` share an id.
pub open spec fn unique_ids(es: Seq<TraceabilityElement>) -> bool {
    forall|i: int, j: int| 0 <= i < j < es.len() ==> (#[trigger] es[i]).id@ != (#[trigger] es[j]).id@
}

/// The elements of `es` by id.
pub open spec fn element_map(es: Seq<TraceabilityElement>) -> Map<Seq<char>, ElementView>
    decreases es.len(),
{
    if es.len() == 0 {
        Map::empty()
    } else {
        element_map(es.drop_last()).insert(es.last().id@, es.last()@)
    }
}

/// `m` with `e` registered under its id, unless an element is registered there already.
pub open spec fn register(m: Map<Seq<char>, ElementView>, e: ElementView) -> Map<Seq<char>, ElementView> {
    if m.contains_key(e.id) {
        m
    } else {
        m.insert(e.id, e)
    }
}

/// Some link of `ls` starts or ends at `id`.
pub open spec fn linked(ls: Seq<TraceabilityLink>, id: Seq<char>) -> bool {
    exists|i: int| 0 <= i < ls.len() && ((#[trigger] ls[i]).source.id@ == id || ls[i].target.id@ == id)
}

/// Every link's two ends are registered elements.
pub open spec fn ends_registered(ls: Seq<TraceabilityLink>, m: Map<Seq<char>, ElementView>) -> bool {
    forall|i: int| 0 <= i < ls.len() ==> m.contains_key((#[trigger] ls[i]).source.id@) && m.contains_key(ls[i].target.id@)
}

proof fn lemma_element_map_keys(es: Seq<TraceabilityElement>, k: Seq<char>)
    ensures
        element_map(es).contains_key(k) <==> exists|i: int| 0 <= i < es.len() && (#[trigger] es[i]).id@ == k,
    decreases es.len(),
{
    if es.len() > 0 {
        lemma_element_map_keys(es.drop_last(), k);
        if element_map(es.drop_last()).contains_key(k) {
            let i = choose|i: int| 0 <= i < es.drop_last().len() && (#[trigger] es.drop_last()[i]).id@ == k;
            assert(es[i] == es.drop_last()[i]);
        }
        assert forall|i: int| 0 <= i < es.len() - 1 implies #[trigger] es[i] == es.drop_last()[i] by {}
    }
}

proof fn lemma_element_map_update(es: Seq<TraceabilityElement>, i: int, e: TraceabilityElement)
    requires
        unique_ids(es),
        0 <= i < es.len(),
        es[i].id@ == e.id@,
    ensures
        element_map(es.update(i, e)) == element_map(es).insert(e.id@, e@),
    decreases es.len(),
{
    if i == es.len() - 1 {
        assert(es.update(i, e).drop_last() =~= es.drop_last());
    } else {
        let d = es.drop_last();
        assert(unique_ids(d)) by {
            assert forall|a: int, b: int| 0 <= a < b < d.len() implies (#[trigger] d[a]).id@ != (#[trigger] d[b]).id@ by {
                assert(d[a] == es[a] && d[b] == es[b]);
            }
        }
        assert(d[i] == es[i]);
        lemma_element_map_update(d, i, e);
        assert(es.update(i, e).drop_last() =~= d.update(i, e));
        assert(es.update(i, e).last() == es.last());
        assert(es.last().id@ != e.id@) by {
            assert(es[i].id@ != es[es.len() - 1].id@);
        }
        assert(element_map(es.update(i, e)) =~= element_map(es).insert(e.id@, e@));
    }
}

impl TraceabilityMatrix {
    /// Whether an element is registered under `id`.
    pub fn has_element(&self, id: &str) -> (r: bool)
        ensures
            r == element_map(self.elements@).contains_key(id@),
    {
        let mut i: usize = 0;
        while i < self.elements.len()
            invariant
                i <= self.elements.len(),
                forall|k: int| 0 <= k < i ==> (#[trigger] self.elements@[k]).id@ != id@,
            decreases self.elements.len() - i,
        {
            if str_eq(self.elements[i].id.as_str(), id) {
                proof {
                    lemma_element_map_keys(self.elements@, id@);
                    assert(self.elements@[i as int].id@ == id@);
                }
                return true;
            }
            i = i + 1;
        }
        proof {
            lemma_element_map_keys(self.elements@, id@);
        }
        false
    }

    /// Whether some link starts or ends at `id`.
    fn is_linked(&self, id: &str) -> (r: bool)
        ensures
            r == linked(self.links@, id@),
    {
        let mut i: usize = 0;
        while i < self.links.len()
            invariant
                i <= self.links.len(),
                forall|k: int|
                    0 <= k < i ==> (#[trigger] self.links@[k]).source.id@ != id@ && self.links@[k].target.id@ != id@,
            decreases self.links.len() - i,
        {
            if str_eq(self.links[i].source.id.as_str(), id) || str_eq(self.links[i].target.id.as_str(), id) {
                assert(self.links@[i as int].source.id@ == id@ || self.links@[i as int].target.id@ == id@);
                return true;
            }
            i = i + 1;
        }
        false
    }

    /// An empty matrix named `name`.
    pub fn new(name: &str) -> (r: Self)
        ensures
            r.name@ == name@,
            r.description is None,
            r.links@.len() == 0,
            r.elements@.len() == 0,
    {
        TraceabilityMatrix { name: owned(name), description: None, links: Vec::new(), elements: Vec::new() }
    }

    /// Register `element` under its id, replacing any element registered there.
    pub fn add_element(&mut self, element: TraceabilityElement)
        requires
            unique_ids(old(self).elements@),
        ensures
            unique_ids(final(self).elements@),
            element_map(final(self).elements@) == element_map(old(self).elements@).insert(element.id@, element@),
            final(self).links == old(self).links,
            final(self).name == old(self).name,
            final(self).description == old(self).description,
            ends_registered(old(self).links@, element_map(old(self).elements@)) ==> ends_registered(
                final(self).links@,
                element_map(final(self).elements@),
            ),
    {
        let ghost es = self.elements@;
        let ghost eid = element.id@;
        let ghost ev = element@;
        let mut i: usize = 0;
        while i < self.elements.len()
            invariant
                i <= self.elements.len(),
                self.elements@ == es,
                es == old(self).elements@,
                unique_ids(es),
                self.links == old(self).links,
                self.name == old(self).name,
                self.description == old(self).description,
                element.id@ == eid,
                forall|k: int| 0 <= k < i ==> (#[trigger] es[k]).id@ != eid,
            decreases self.elements.len() - i,
        {
            if str_eq(self.elements[i].id.as_str(), element.id.as_str()) {
                proof {
                    lemma_element_map_update(es, i as int, element);
                }
                self.elements.set(i, element);
                proof {
                    assert forall|a: int, b: int| 0 <= a < b < self.elements@.len() implies (
                    #[trigger] self.elements@[a]).id@ != (#[trigger] self.elements@[b]).id@ by {
                        assert(es[a].id@ != es[b].id@);
                    }
                    lemma_registered_grows(old(self).links@, element_map(es), element_map(self.elements@));
                }
                return;
            }
            i = i + 1;
        }
        self.elements.push(element);
        proof {
            assert(self.elements@.drop_last() =~= es);
            assert forall|a: int, b: int| 0 <= a < b < self.elements@.len() implies (
            #[trigger] self.elements@[a]).id@ != (#[trigger] self.elements@[b]).id@ by {
                if b < es.len() {
                    assert(es[a].id@ != es[b].id@);
                } else {
                    assert(self.elements@[a] == es[a]);
                }
            }
            lemma_registered_grows(old(self).links@, element_map(es), element_map(self.elements@));
        }
    }

    /// Add `link`, first registering its source and then its target if no
    /// element is registered under their ids.
    pub fn add_link(&mut self, link: TraceabilityLink)
        requires
            unique_ids(old(self).elements@),
        ensures
            unique_ids(final(self).elements@),
            final(self).links@ == old(self).links@.push(link),
            element_map(final(self).elements@) == register(
                register(element_map(old(self).elements@), link.source@),
                link.target@,
            ),
            final(self).name == old(self).name,
            final(self).description == old(self).description,
            ends_registered(old(self).links@, element_map(old(self).elements@)) ==> ends_registered(
                final(self).links@,
                element_map(final(self).elements@),
            ),
    {
        let ghost m0 = element_map(self.elements@);
        if !self.has_element(link.source.id.as_str()) {
            let e = copy_element(&link.source);
            self.push_new(e);
        }
        let ghost m1 = element_map(self.elements@);
        assert(m1 == register(m0, link.source@));
        if !self.has_element(link.target.id.as_str()) {
            let e = copy_element(&link.target);
            self.push_new(e);
        }
        let ghost m2 = element_map(self.elements@);
        assert(m2 == register(m1, link.target@));
        let ghost before = self.links@;
        self.links.push(link);
        proof {
            assert(m2.contains_key(link.source.id@));
            assert(m2.contains_key(link.target.id@));
            if ends_registered(old(self).links@, m0) {
                assert forall|i: int| 0 <= i < self.links@.len() implies m2.contains_key(
                    (#[trigger] self.links@[i]).source.id@,
                ) && m2.contains_key(self.links@[i].target.id@) by {
                    if i < before.len() {
                        assert(self.links@[i] == before[i]);
                        assert(m0.contains_key(before[i].source.id@));
                        assert(m0.contains_key(before[i].target.id@));
                    }
                }
            }
        }
    }

    /// Register an element whose id is not registered yet.
    fn push_new(&mut self, e: TraceabilityElement)
        requires
            unique_ids(old(self).elements@),
            !element_map(old(self).elements@).contains_key(e.id@),
        ensures
            unique_ids(final(self).elements@),
            element_map(final(self).elements@) == element_map(old(self).elements@).insert(e.id@, e@),
            final(self).links == old(self).links,
            final(self).name == old(self).name,
            final(self).description == old(self).description,
    {
        let ghost es = self.elements@;
        proof {
            lemma_element_map_keys(es, e.id@);
        }
        self.elements.push(e);
        proof {
            assert(self.elements@.drop_last() =~= es);
            assert forall|a: int, b: int| 0 <= a < b < self.elements@.len() implies (
            #[trigger] self.elements@[a]).id@ != (#[trigger] self.elements@[b]).id@ by {
                if b < es.len() {
                    assert(es[a].id@ != es[b].id@);
                } else {
                    assert(self.elements@[a] == es[a]);
                }
            }
        }
    }

    /// The links whose source is `source_id`, in order.
    pub fn get_links_from(&self, source_id: &str) -> (r: Vec<&TraceabilityLink>)
        ensures
            r@.map_values(|c: &TraceabilityLink| *c) == links_from(self.links@, source_id@),
    {
        let mut r: Vec<&TraceabilityLink> = Vec::new();
        let mut i: usize = 0;
        while i < self.links.len()
            invariant
                i <= self.links.len(),
                r@.map_values(|c: &TraceabilityLink| *c) == links_from(self.links@.take(i as int), source_id@),
            decreases self.links.len() - i,
        {
            assert(self.links@.take(i + 1).drop_last() =~= self.links@.take(i as int));
            if str_eq(self.links[i].source.id.as_str(), source_id) {
                r.push(&self.links[i]);
            }
            assert(r@.map_values(|c: &TraceabilityLink| *c) =~= links_from(self.links@.take(i + 1), source_id@));
            i = i + 1;
        }
        assert(self.links@.take(self.links.len() as int) =~= self.links@);
        r
    }

    /// The links whose target is `target_id`, in order.
    pub fn get_links_to(&self, target_id: &str) -> (r: Vec<&TraceabilityLink>)
        ensures
            r@.map_values(|c: &TraceabilityLink| *c) == links_to(self.links@, target_id@),
    {
        let mut r: Vec<&TraceabilityLink> = Vec::new();
        let mut i: usize = 0;
        while i < self.links.len()
            invariant
                i <= self.links.len(),
                r@.map_values(|c: &TraceabilityLink| *c) == links_to(self.links@.take(i as int), target_id@),
            decreases self.links.len() - i,
        {
            assert(self.links@.take(i + 1).drop_last() =~= self.links@.take(i as int));
            if str_eq(self.links[i].target.id.as_str(), target_id) {
                r.push(&self.links[i]);
            }
            assert(r@.map_values(|c: &TraceabilityLink| *c) =~= links_to(self.links@.take(i + 1), target_id@));
            i = i + 1;
        }
        assert(self.links@.take(self.links.len() as int) =~= self.links@);
        r
    }

    /// The links of type `link_type`, in order.
    pub fn get_links_by_type(&self, link_type: LinkType) -> (r: Vec<&TraceabilityLink>)
        ensures
            r@.map_values(|c: &TraceabilityLink| *c) == links_of_type(self.links@, link_type),
    {
        let mut r: Vec<&TraceabilityLink> = Vec::new();
        let mut i: usize = 0;
        while i < self.links.len()
            invariant
                i <= self.links.len(),
                r@.map_values(|c: &TraceabilityLink| *c) == links_of_type(self.links@.take(i as int), link_type),
            decreases self.links.len() - i,
        {
            assert(self.links@.take(i + 1).drop_last() =~= self.links@.take(i as int));
            if self.links[i].link_type == link_type {
                r.push(&self.links[i]);
            }
            assert(r@.map_values(|c: &TraceabilityLink| *c) =~= links_of_type(self.links@.take(i + 1), link_type));
            i = i + 1;
        }
        assert(self.links@.take(self.links.len() as int) =~= self.links@);
        r
    }

    /// The elements that implement capability `capability_id`, one per link, in order.
    pub fn get_capability_implementations(&self, capability_id: &str) -> (r: Vec<&TraceabilityElement>)
        ensures
            r@.map_values(|e: &TraceabilityElement| *e) == implementers(self.links@, capability_id@),
    {
        let mut r: Vec<&TraceabilityElement> = Vec::new();
        let mut i: usize = 0;
        while i < self.links.len()
            invariant
                i <= self.links.len(),
                r@.map_values(|e: &TraceabilityElement| *e) == implementers(self.links@.take(i as int), capability_id@),
            decreases self.links.len() - i,
        {
            assert(self.links@.take(i + 1).drop_last() =~= self.links@.take(i as int));
            let link = &self.links[i];
            if str_eq(link.target.id.as_str(), capability_id) && link.target.element_type == ElementType::Capability && link.link_type == LinkType::Implements {
                r.push(&link.source);
            }
            assert(r@.map_values(|e: &TraceabilityElement| *e) =~= implementers(self.links@.take(i + 1), capability_id@));
            i = i + 1;
        }
        assert(self.links@.take(self.links.len() as int) =~= self.links@);
        r
    }

    /// The elements that activity `activity_id` satisfies, one per link, in order.
    pub fn get_satisfied_requirements(&self, activity_id: &str) -> (r: Vec<&TraceabilityElement>)
        ensures
            r@.map_values(|e: &TraceabilityElement| *e) == satisfied_by(self.links@, activity_id@),
    {
        let mut r: Vec<&TraceabilityElement> = Vec::new();
        let mut i: usize = 0;
        while i < self.links.len()
            invariant
                i <= self.links.len(),
                r@.map_values(|e: &TraceabilityElement| *e) == satisfied_by(self.links@.take(i as int), activity_id@),
            decreases self.links.len() - i,
        {
            assert(self.links@.take(i + 1).drop_last() =~= self.links@.take(i as int));
            let link = &self.links[i];
            if str_eq(link.source.id.as_str(), activity_id) && link.link_type == LinkType::Satisfies {
                r.push(&link.target);
            }
            assert(r@.map_values(|e: &TraceabilityElement| *e) =~= satisfied_by(self.links@.take(i + 1), activity_id@));
            i = i + 1;
        }
        assert(self.links@.take(self.links.len() as int) =~= self.links@);
        r
    }

    /// The elements that no link starts or ends at, in the order they were added.
    pub fn find_orphaned_elements(&self) -> (r: Vec<&TraceabilityElement>)
        ensures
            r@.map_values(|c: &TraceabilityElement| *c) == orphans_among(self.elements@, self.links@),
    {
        let mut r: Vec<&TraceabilityElement> = Vec::new();
        let mut i: usize = 0;
        while i < self.elements.len()
            invariant
                i <= self.elements.len(),
                r@.map_values(|c: &TraceabilityElement| *c) == orphans_among(self.elements@.take(i as int), self.links@),
            decreases self.elements.len() - i,
        {
            assert(self.elements@.take(i + 1).drop_last() =~= self.elements@.take(i as int));
            if !self.is_linked(self.elements[i].id.as_str()) {
                r.push(&self.elements[i]);
            }
            assert(r@.map_values(|c: &TraceabilityElement| *c) =~= orphans_among(self.elements@.take(i + 1), self.links@));
            i = i + 1;
        }
        assert(self.elements@.take(self.elements.len() as int) =~= self.elements@);
        r
    }
}

/// How many of `es` are of kind `t`.
pub open spec fn count_of_kind(es: Seq<TraceabilityElement>, t: ElementType) -> nat
    decreases es.len(),
{
    if es.len() == 0 {
        0
    } else {
        count_of_kind(es.drop_last(), t) + (if es.last().element_type == t { 1nat } else { 0nat })
    }
}

/// The ids of the elements of kind `t` that links of kind `k` among `ls` lead to.
pub open spec fn target_ids(ls: Seq<TraceabilityLink>, t: ElementType, k: LinkType) -> Set<Seq<char>> {
    Set::new(
        |id: Seq<char>|
            exists|i: int|
                0 <= i < ls.len() && (#[trigger] ls[i]).target.element_type == t && ls[i].link_type == k
                    && ls[i].target.id@ == id,
    )
}

/// The counts behind a coverage report: elements, links, requirements and
/// the distinct requirements satisfied, capabilities and the distinct
/// capabilities implemented, and elements with no link.
#[derive(Debug, Clone, Copy)]
pub struct CoverageCounts {
    pub total_elements: usize,
    pub total_links: usize,
    pub total_requirements: usize,
    pub satisfied_requirements: usize,
    pub total_capabilities: usize,
    pub implemented_capabilities: usize,
    pub orphaned_elements: usize,
}

fn count_elements_of_kind(es: &Vec<TraceabilityElement>, t: ElementType) -> (n: usize)
    ensures
        n == count_of_kind(es@, t),
{
    let mut n: usize = 0;
    let mut i: usize = 0;
    while i < es.len()
        invariant
            i <= es.len(),
            n == count_of_kind(es@.take(i as int), t),
            n <= i,
        decreases es.len() - i,
    {
        assert(es@.take(i + 1).drop_last() =~= es@.take(i as int));
        if es[i].element_type == t {
            n = n + 1;
        }
        i = i + 1;
    }
    assert(es@.take(es.len() as int) =~= es@);
    n
}

fn has_text(seen: &Vec<String>, id: &str) -> (b: bool)
    ensures
        b == crate::text::strings_view(seen@).contains(id@),
{
    let mut j: usize = 0;
    while j < seen.len()
        invariant
            j <= seen.len(),
            forall|k: int| 0 <= k < j ==> (#[trigger] seen@[k])@ != id@,
        decreases seen.len() - j,
    {
        if str_eq(seen[j].as_str(), id) {
            assert(crate::text::strings_view(seen@)[j as int] == id@);
            return true;
        }
        j = j + 1;
    }
    proof {
        if crate::text::strings_view(seen@).contains(id@) {
            let k = choose|k: int| 0 <= k < crate::text::strings_view(seen@).len() && crate::text::strings_view(seen@)[k] == id@;
            assert(seen@[k]@ == id@);
        }
    }
    false
}

fn distinct_targets(ls: &Vec<TraceabilityLink>, t: ElementType, k: LinkType) -> (n: usize)
    ensures
        n == target_ids(ls@, t, k).len(),
{
    let mut seen: Vec<String> = Vec::new();
    let mut i: usize = 0;
    while i < ls.len()
        invariant
            i <= ls.len(),
            seen@.len() <= i,
            crate::text::strings_view(seen@).no_duplicates(),
            crate::text::strings_view(seen@).to_set() == target_ids(ls@.take(i as int), t, k),
        decreases ls.len() - i,
    {
        let ghost before = crate::text::strings_view(seen@);
        let ghost pre = ls@.take(i as int);
        let ghost post = ls@.take(i + 1);
        let l = &ls[i];
        if l.target.element_type == t && l.link_type == k && !has_text(&seen, l.target.id.as_str()) {
            seen.push(owned(l.target.id.as_str()));
            assert(crate::text::strings_view(seen@) =~= before.push(l.target.id@));
            assert(crate::text::strings_view(seen@).to_set() =~= target_ids(post, t, k)) by {
                assert forall|id: Seq<char>| target_ids(post, t, k).contains(id) implies crate::text::strings_view(seen@).to_set().contains(id) by {
                    let m = choose|m: int| 0 <= m < post.len() && (#[trigger] post[m]).target.element_type == t && post[m].link_type == k && post[m].target.id@ == id;
                    if m < i {
                        assert(pre[m] == post[m]);
                        assert(target_ids(pre, t, k).contains(id));
                        assert(before.to_set().contains(id));
                        let q = choose|q: int| 0 <= q < before.len() && before[q] == id;
                        assert(crate::text::strings_view(seen@)[q] == id);
                    } else {
                        assert(crate::text::strings_view(seen@)[before.len() as int] == id);
                    }
                }
                assert forall|id: Seq<char>| crate::text::strings_view(seen@).to_set().contains(id) implies target_ids(post, t, k).contains(id) by {
                    if before.to_set().contains(id) {
                        let m = choose|m: int| 0 <= m < pre.len() && (#[trigger] pre[m]).target.element_type == t && pre[m].link_type == k && pre[m].target.id@ == id;
                        assert(post[m] == pre[m]);
                    } else {
                        let q = choose|q: int| 0 <= q < crate::text::strings_view(seen@).len() && crate::text::strings_view(seen@)[q] == id;
                        assert(q == before.len());
                        assert(post[i as int] == ls@[i as int]);
                    }
                }
            }
        } else {
            assert(crate::text::strings_view(seen@).to_set() =~= target_ids(post, t, k)) by {
                assert forall|id: Seq<char>| target_ids(post, t, k).contains(id) implies target_ids(pre, t, k).contains(id) by {
                    let m = choose|m: int| 0 <= m < post.len() && (#[trigger] post[m]).target.element_type == t && post[m].link_type == k && post[m].target.id@ == id;
                    if m < i {
                        assert(pre[m] == post[m]);
                    } else {
                        assert(post[m] == ls@[i as int]);
                        assert(before.contains(id));
                    }
                }
                assert forall|id: Seq<char>| target_ids(pre, t, k).contains(id) implies target_ids(post, t, k).contains(id) by {
                    let m = choose|m: int| 0 <= m < pre.len() && (#[trigger] pre[m]).target.element_type == t && pre[m].link_type == k && pre[m].target.id@ == id;
                    assert(post[m] == pre[m]);
                }
            }
        }
        i = i + 1;
    }
    assert(ls@.take(ls.len() as int) =~= ls@);
    proof {
        crate::text::strings_view(seen@).unique_seq_to_set();
    }
    seen.len()
}

impl TraceabilityMatrix {
    /// The counts behind this matrix's coverage report.
    pub fn coverage_counts(&self) -> (r: CoverageCounts)
        ensures
            r.total_elements == self.elements@.len(),
            r.total_links == self.links@.len(),
            r.total_requirements == count_of_kind(self.elements@, ElementType::Requirement),
            r.satisfied_requirements == target_ids(self.links@, ElementType::Requirement, LinkType::Satisfies).len(),
            r.total_capabilities == count_of_kind(self.elements@, ElementType::Capability),
            r.implemented_capabilities == target_ids(self.links@, ElementType::Capability, LinkType::Implements).len(),
            r.orphaned_elements == orphans_among(self.elements@, self.links@).len(),
    {
        let orphans = self.find_orphaned_elements();
        CoverageCounts {
            total_elements: self.elements.len(),
            total_links: self.links.len(),
            total_requirements: count_elements_of_kind(&self.elements, ElementType::Requirement),
            satisfied_requirements: distinct_targets(&self.links, ElementType::Requirement, LinkType::Satisfies),
            total_capabilities: count_elements_of_kind(&self.elements, ElementType::Capability),
            implemented_capabilities: distinct_targets(&self.links, ElementType::Capability, LinkType::Implements),
            orphaned_elements: orphans.len(),
        }
    }
}

/// A registration that only adds keys keeps every link's ends registered.
proof fn lemma_registered_grows(ls: Seq<TraceabilityLink>, a: Map<Seq<char>, ElementView>, b: Map<Seq<char>, ElementView>)
    requires
        a.dom().subset_of(b.dom()),
    ensures
        ends_registered(ls, a) ==> ends_registered(ls, b),
{
}

/// A copy of `e`, field by field.
fn copy_element(e: &TraceabilityElement) -> (r: TraceabilityElement)
    ensures
        r@ == e@,
{
    let description = match &e.description {
        Some(d) => Some(owned(d.as_str())),
        None => None,
    };
    TraceabilityElement {
        id: owned(e.id.as_str()),
        element_type: e.element_type,
        name: owned(e.name.as_str()),
        description,
    }
}

/// Builds a traceability link step by step.
pub struct TraceabilityLinkBuilder {
    link: TraceabilityLink,
}

impl TraceabilityLinkBuilder {
    /// The link being built.
    pub closed spec fn spec_link(&self) -> TraceabilityLink {
        self.link
    }

    /// A link from `source` with a fresh random id (a 36-character UUID), of type TracesTo, to a
    /// placeholder requirement with empty id and name.
    pub fn from(source: TraceabilityElement) -> (b: Self)
        ensures
            b.spec_link().source == source,
            b.spec_link().target@ == (ElementView {
                id: Seq::empty(),
                element_type: ElementType::Requirement,
                name: Seq::empty(),
                description: None,
            }),
            b.spec_link().link_type == LinkType::TracesTo,
            b.spec_link().rationale is None,
            b.spec_link().metadata@.len() == 0,
            b.spec_link().id@.len() == 36,
    {
        TraceabilityLinkBuilder {
            link: TraceabilityLink {
                id: new_uuid_v4_text(),
                source,
                target: TraceabilityElement {
                    id: String::new(),
                    element_type: ElementType::Requirement,
                    name: String::new(),
                    description: None,
                },
                link_type: LinkType::TracesTo,
                rationale: None,
                metadata: HashMap::new(),
            },
        }
    }

    /// Set the target.
    pub fn to(self, target: TraceabilityElement) -> (b: Self)
        ensures
            b.spec_link() == (TraceabilityLink { target, ..self.spec_link() }),
    {
        let mut l = self.link;
        l.target = target;
        TraceabilityLinkBuilder { link: l }
    }

    /// Set the link type.
    pub fn link_type(self, link_type: LinkType) -> (b: Self)
        ensures
            b.spec_link() == (TraceabilityLink { link_type, ..self.spec_link() }),
    {
        let mut l = self.link;
        l.link_type = link_type;
        TraceabilityLinkBuilder { link: l }
    }

    /// Set the rationale.
    pub fn rationale(self, rationale: &str) -> (b: Self)
        ensures
            opt_view(b.spec_link().rationale) == Some(rationale@),
            b.spec_link() == (TraceabilityLink { rationale: b.spec_link().rationale, ..self.spec_link() }),
    {
        let mut l = self.link;
        l.rationale = Some(owned(rationale));
        TraceabilityLinkBuilder { link: l }
    }

    /// The link.
    pub fn build(self) -> (l: TraceabilityLink)
        ensures
            l == self.spec_link(),
    {
        self.link
    }
}

/// The links of `ls` whose source has id `source_id`, in order.
pub open spec fn links_from(cs: Seq<TraceabilityLink>, source_id: Seq<char>) -> Seq<TraceabilityLink>
    decreases cs.len(),
{
    if cs.len() == 0 {
        Seq::empty()
    } else {
        links_from(cs.drop_last(), source_id) + if cs.last().source.id@ == source_id {
            seq![cs.last()]
        } else {
            Seq::empty()
        }
    }
}

/// The links of `ls` whose target has id `target_id`, in order.
pub open spec fn links_to(cs: Seq<TraceabilityLink>, target_id: Seq<char>) -> Seq<TraceabilityLink>
    decreases cs.len(),
{
    if cs.len() == 0 {
        Seq::empty()
    } else {
        links_to(cs.drop_last(), target_id) + if cs.last().target.id@ == target_id {
            seq![cs.last()]
        } else {
            Seq::empty()
        }
    }
}

/// The links of `ls` of type `t`, in order.
pub open spec fn links_of_type(ls: Seq<TraceabilityLink>, t: LinkType) -> Seq<TraceabilityLink>
    decreases ls.len(),
{
    if ls.len() == 0 {
        Seq::empty()
    } else {
        links_of_type(ls.drop_last(), t) + if ls.last().link_type == t {
            seq![ls.last()]
        } else {
            Seq::empty()
        }
    }
}

/// The sources of the links of `ls` that implement the capability `capability_id`, in order.
pub open spec fn implementers(ls: Seq<TraceabilityLink>, capability_id: Seq<char>) -> Seq<TraceabilityElement>
    decreases ls.len(),
{
    if ls.len() == 0 {
        Seq::empty()
    } else {
        implementers(ls.drop_last(), capability_id) + if (ls.last().target.id@ == capability_id && ls.last().target.element_type == ElementType::Capability && ls.last().link_type == LinkType::Implements) {
            seq![ls.last().source]
        } else {
            Seq::empty()
        }
    }
}

/// The targets of the links of `ls` by which `activity_id` satisfies something, in order.
pub open spec fn satisfied_by(ls: Seq<TraceabilityLink>, activity_id: Seq<char>) -> Seq<TraceabilityElement>
    decreases ls.len(),
{
    if ls.len() == 0 {
        Seq::empty()
    } else {
        satisfied_by(ls.drop_last(), activity_id) + if (ls.last().source.id@ == activity_id && ls.last().link_type == LinkType::Satisfies) {
            seq![ls.last().target]
        } else {
            Seq::empty()
        }
    }
}

/// The elements of `cs` that no link of `ls` starts or ends at, in order.
pub open spec fn orphans_among(cs: Seq<TraceabilityElement>, ls: Seq<TraceabilityLink>) -> Seq<TraceabilityElement>
    decreases cs.len(),
{
    if cs.len() == 0 {
        Seq::empty()
    } else {
        orphans_among(cs.drop_last(), ls) + if !linked(ls, cs.last().id@) {
            seq![cs.last()]
        } else {
            Seq::empty()
        }
    }
}


/// What `get_capability_implementations` returns for capability
/// `capability_id`: each element is the source of an Implements link whose
/// target is that capability, and the source of every such link is returned.
pub proof fn lemma_implementers_are_sources(ls: Seq<TraceabilityLink>, capability_id: Seq<char>)
    ensures
        forall|k: int| 0 <= k < implementers(ls, capability_id).len() ==> exists|j: int|
            0 <= j < ls.len() && ls[j].link_type == LinkType::Implements && ls[j].target.id@ == capability_id
                && ls[j].target.element_type == ElementType::Capability && #[trigger] implementers(ls, capability_id)[k]
                == ls[j].source,
        forall|j: int|
            0 <= j < ls.len() && (#[trigger] ls[j]).link_type == LinkType::Implements && ls[j].target.id@
                == capability_id && ls[j].target.element_type == ElementType::Capability ==> implementers(
                ls,
                capability_id,
            ).contains(ls[j].source),
    decreases ls.len(),
{
    if ls.len() > 0 {
        let pre = ls.drop_last();
        lemma_implementers_are_sources(pre, capability_id);
        let a = implementers(pre, capability_id);
        let r = implementers(ls, capability_id);
        assert forall|k: int| 0 <= k < r.len() implies exists|j: int|
            0 <= j < ls.len() && ls[j].link_type == LinkType::Implements && ls[j].target.id@ == capability_id
                && ls[j].target.element_type == ElementType::Capability && #[trigger] r[k] == ls[j].source by {
            if k < a.len() {
                assert(r[k] == a[k]);
                let j = choose|j: int|
                    0 <= j < pre.len() && pre[j].link_type == LinkType::Implements && pre[j].target.id@ == capability_id
                        && pre[j].target.element_type == ElementType::Capability && #[trigger] a[k] == pre[j].source;
                assert(pre[j] == ls[j]);
            } else {
                assert(r[k] == ls.last().source);
                assert(ls[ls.len() - 1] == ls.last());
            }
        }
        assert forall|j: int|
            0 <= j < ls.len() && (#[trigger] ls[j]).link_type == LinkType::Implements && ls[j].target.id@
                == capability_id && ls[j].target.element_type == ElementType::Capability implies r.contains(ls[j].source) by {
            if j < pre.len() {
                assert(pre[j] == ls[j]);
                assert(a.contains(pre[j].source));
                let k = choose|k: int| 0 <= k < a.len() && a[k] == pre[j].source;
                assert(r[k] == a[k]);
            } else {
                assert(r[a.len() as int] == ls.last().source);
            }
        }
    }
}


/// The links found of type `t` are exactly the links of that type.
pub proof fn lemma_links_of_type_have_it(cs: Seq<TraceabilityLink>, t: LinkType)
    ensures
        forall|k: int| 0 <= k < links_of_type(cs, t).len() ==> exists|j: int| #![trigger cs[j]]
            0 <= j < cs.len() && cs[j].link_type == t && #[trigger] links_of_type(cs, t)[k] == cs[j],
        forall|j: int| #![trigger cs[j]] 0 <= j < cs.len() && cs[j].link_type == t ==> links_of_type(cs, t).contains(cs[j]),
    decreases cs.len(),
{
    if cs.len() > 0 {
        let pre = cs.drop_last();
        lemma_links_of_type_have_it(pre, t);
        let a = links_of_type(pre, t);
        let r = links_of_type(cs, t);
        assert forall|k: int| 0 <= k < r.len() implies exists|j: int| #![trigger cs[j]]
            0 <= j < cs.len() && cs[j].link_type == t && #[trigger] r[k] == cs[j] by {
            if k < a.len() {
                assert(r[k] == a[k]);
                assert(exists|j: int| #![trigger pre[j]] 0 <= j < pre.len() && pre[j].link_type == t && a[k] == pre[j]);
                let j = choose|j: int| #![trigger pre[j]] 0 <= j < pre.len() && pre[j].link_type == t && a[k] == pre[j];
                assert(r[k] == cs[j]);
                assert(pre[j] == cs[j]);
            } else {
                assert(cs[cs.len() - 1] == cs.last());
                assert(r[k] == r[a.len() as int]);
            }
        }
        assert forall|j: int| #![trigger cs[j]] 0 <= j < cs.len() && cs[j].link_type == t implies r.contains(cs[j]) by {
            if j < pre.len() {
                assert(pre[j] == cs[j]);
                assert(a.contains(pre[j]));
                let k = choose|k: int| 0 <= k < a.len() && a[k] == pre[j];
                assert(r[k] == a[k]);
            } else {
                assert(cs[j] == cs.last());
                assert(r[a.len() as int] == cs.last());
            }
        }
    }
}

/// What `activity_id` satisfies: each element returned is the target of a Satisfies link from that activity, and the target of every such link is returned.
pub proof fn lemma_satisfied_are_targets(cs: Seq<TraceabilityLink>, activity_id: Seq<char>)
    ensures
        forall|k: int| 0 <= k < satisfied_by(cs, activity_id).len() ==> exists|j: int| #![trigger cs[j]]
            0 <= j < cs.len() && (cs[j].source.id@ == activity_id && cs[j].link_type == LinkType::Satisfies) && #[trigger] satisfied_by(cs, activity_id)[k] == cs[j].target,
        forall|j: int| #![trigger cs[j]] 0 <= j < cs.len() && (cs[j].source.id@ == activity_id && cs[j].link_type == LinkType::Satisfies) ==> satisfied_by(cs, activity_id).contains(cs[j].target),
    decreases cs.len(),
{
    if cs.len() > 0 {
        let pre = cs.drop_last();
        lemma_satisfied_are_targets(pre, activity_id);
        let a = satisfied_by(pre, activity_id);
        let r = satisfied_by(cs, activity_id);
        assert forall|k: int| 0 <= k < r.len() implies exists|j: int| #![trigger cs[j]]
            0 <= j < cs.len() && (cs[j].source.id@ == activity_id && cs[j].link_type == LinkType::Satisfies) && #[trigger] r[k] == cs[j].target by {
            if k < a.len() {
                assert(r[k] == a[k]);
                assert(exists|j: int| #![trigger pre[j]] 0 <= j < pre.len() && (pre[j].source.id@ == activity_id && pre[j].link_type == LinkType::Satisfies) && a[k] == pre[j].target);
                let j = choose|j: int| #![trigger pre[j]] 0 <= j < pre.len() && (pre[j].source.id@ == activity_id && pre[j].link_type == LinkType::Satisfies) && a[k] == pre[j].target;
                assert(r[k] == cs[j].target);
                assert(pre[j] == cs[j]);
            } else {
                assert(cs[cs.len() - 1] == cs.last());
                assert(r[k] == r[a.len() as int]);
            }
        }
        assert forall|j: int| #![trigger cs[j]] 0 <= j < cs.len() && (cs[j].source.id@ == activity_id && cs[j].link_type == LinkType::Satisfies) implies r.contains(cs[j].target) by {
            if j < pre.len() {
                assert(pre[j] == cs[j]);
                assert(a.contains(pre[j].target));
                let k = choose|k: int| 0 <= k < a.len() && a[k] == pre[j].target;
                assert(r[k] == a[k]);
            } else {
                assert(cs[j] == cs.last());
                assert(r[a.len() as int] == cs.last().target);
            }
        }
    }
}

/// The orphans among `cs` are exactly its elements that no link of `ls` starts or ends at.
pub proof fn lemma_orphans_are_unlinked(cs: Seq<TraceabilityElement>, ls: Seq<TraceabilityLink>)
    ensures
        forall|k: int| 0 <= k < orphans_among(cs, ls).len() ==> exists|j: int| #![trigger cs[j]]
            0 <= j < cs.len() && !linked(ls, cs[j].id@) && #[trigger] orphans_among(cs, ls)[k] == cs[j],
        forall|j: int| #![trigger cs[j]] 0 <= j < cs.len() && !linked(ls, cs[j].id@) ==> orphans_among(cs, ls).contains(cs[j]),
    decreases cs.len(),
{
    if cs.len() > 0 {
        let pre = cs.drop_last();
        lemma_orphans_are_unlinked(pre, ls);
        let a = orphans_among(pre, ls);
        let r = orphans_among(cs, ls);
        assert forall|k: int| 0 <= k < r.len() implies exists|j: int| #![trigger cs[j]]
            0 <= j < cs.len() && !linked(ls, cs[j].id@) && #[trigger] r[k] == cs[j] by {
            if k < a.len() {
                assert(r[k] == a[k]);
                assert(exists|j: int| #![trigger pre[j]] 0 <= j < pre.len() && !linked(ls, pre[j].id@) && a[k] == pre[j]);
                let j = choose|j: int| #![trigger pre[j]] 0 <= j < pre.len() && !linked(ls, pre[j].id@) && a[k] == pre[j];
                assert(r[k] == cs[j]);
                assert(pre[j] == cs[j]);
            } else {
                assert(cs[cs.len() - 1] == cs.last());
                assert(r[k] == r[a.len() as int]);
            }
        }
        assert forall|j: int| #![trigger cs[j]] 0 <= j < cs.len() && !linked(ls, cs[j].id@) implies r.contains(cs[j]) by {
            if j < pre.len() {
                assert(pre[j] == cs[j]);
                assert(a.contains(pre[j]));
                let k = choose|k: int| 0 <= k < a.len() && a[k] == pre[j];
                assert(r[k] == a[k]);
            } else {
                assert(cs[j] == cs.last());
                assert(r[a.len() as int] == cs.last());
            }
        }
    }
}

} // verus!
