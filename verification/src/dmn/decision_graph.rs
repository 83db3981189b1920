//! Decision graphs: decisions, input data and knowledge models, and the
//! requirements (dependencies) between them, kept free of cycles.
use vstd::prelude::*;
use crate::text::{concat2, concat3, concat5, owned, str_eq, strings_view};
use super::errors::{DmnError, DmnResult, dmn_error_detail};

verus! {

/// A node of a decision graph.
#[derive(Debug, Clone)]
pub enum DecisionNode {
    /// A decision that depends on inputs and other decisions.
    Decision { id: String, name: String, description: Option<String> },
    /// A source of input data.
    InputData { id: String, name: String, description: Option<String> },
    /// A business knowledge model.
    BusinessKnowledge { id: String, name: String, description: Option<String> },
}

/// The id of a node.
pub open spec fn node_id(n: DecisionNode) -> Seq<char> {
    match n {
        DecisionNode::Decision { id, .. } => id@,
        DecisionNode::InputData { id, .. } => id@,
        DecisionNode::BusinessKnowledge { id, .. } => id@,
    }
}

/// The name of a node.
pub open spec fn node_name(n: DecisionNode) -> Seq<char> {
    match n {
        DecisionNode::Decision { name, .. } => name@,
        DecisionNode::InputData { name, .. } => name@,
        DecisionNode::BusinessKnowledge { name, .. } => name@,
    }
}

/// The kind of a node, as text.
pub open spec fn node_kind(n: DecisionNode) -> Seq<char> {
    match n {
        DecisionNode::Decision { .. } => "decision"@,
        DecisionNode::InputData { .. } => "input_data"@,
        DecisionNode::BusinessKnowledge { .. } => "business_knowledge"@,
    }
}

impl DecisionNode {
    /// The node's id.
    pub fn id(&self) -> (r: &str)
        ensures
            r@ == node_id(*self),
    {
        match self {
            DecisionNode::Decision { id, .. } => id.as_str(),
            DecisionNode::InputData { id, .. } => id.as_str(),
            DecisionNode::BusinessKnowledge { id, .. } => id.as_str(),
        }
    }

    /// The node's name.
    pub fn name(&self) -> (r: &str)
        ensures
            r@ == node_name(*self),
    {
        match self {
            DecisionNode::Decision { name, .. } => name.as_str(),
            DecisionNode::InputData { name, .. } => name.as_str(),
            DecisionNode::BusinessKnowledge { name, .. } => name.as_str(),
        }
    }

    /// The node's kind: `decision`, `input_data` or `business_knowledge`.
    pub fn node_type(&self) -> (r: &str)
        ensures
            r@ == node_kind(*self),
    {
        match self {
            DecisionNode::Decision { .. } => "decision",
            DecisionNode::InputData { .. } => "input_data",
            DecisionNode::BusinessKnowledge { .. } => "business_knowledge",
        }
    }
}

/// A requirement: the target node depends on the source node.
#[derive(Debug, Clone, PartialEq, Eq)]
pub struct Requirement {
    pub source_id: String,
    pub target_id: String,
}

/// Two requirements join the same nodes.
pub open spec fn same_requirement(x: Requirement, y: Requirement) -> bool {
    x.source_id@ == y.source_id@ && x.target_id@ == y.target_id@
}

/// Some requirement of `reqs` joins the same nodes as `r`.
pub open spec fn has_requirement(reqs: Seq<Requirement>, r: Requirement) -> bool {
    exists|j: int| 0 <= j < reqs.len() && same_requirement(#[trigger] reqs[j], r)
}

/// Some requirement says that `b` depends on `a`.
pub open spec fn has_edge(reqs: Seq<Requirement>, a: Seq<char>, b: Seq<char>) -> bool {
    exists|j: int| 0 <= j < reqs.len() && (#[trigger] reqs[j]).source_id@ == a && reqs[j].target_id@ == b
}

/// `p` is a walk along requirements, from sources to targets.
pub open spec fn is_path(reqs: Seq<Requirement>, p: Seq<Seq<char>>) -> bool {
    &&& p.len() >= 1
    &&& forall|i: int| 0 <= i < p.len() - 1 ==> has_edge(reqs, #[trigger] p[i], p[i + 1])
}

/// `b` can be reached from `a` by following requirements (in zero or more steps).
pub open spec fn reaches(reqs: Seq<Requirement>, a: Seq<char>, b: Seq<char>) -> bool {
    exists|p: Seq<Seq<char>>| #[trigger] is_path(reqs, p) && p[0] == a && p.last() == b
}

/// No requirement closes a cycle: the target of a requirement never leads
/// back to its source.
pub open spec fn acyclic(reqs: Seq<Requirement>) -> bool {
    forall|a: Seq<char>, b: Seq<char>| #[trigger] has_edge(reqs, a, b) ==> !reaches(reqs, b, a)
}

/// Some node of `nodes` has the id `id`.
pub open spec fn has_node(nodes: Seq<DecisionNode>, id: Seq<char>) -> bool {
    exists|k: int| 0 <= k < nodes.len() && node_id(#[trigger] nodes[k]) == id
}

/// A graph of decision nodes and the requirements between them.
#[derive(Debug, Clone)]
pub struct DecisionGraph {
    /// The graph's id.
    pub id: String,
    nodes: Vec<DecisionNode>,
    requirements: Vec<Requirement>,
}

pub proof fn lemma_path_extend(reqs: Seq<Requirement>, a: Seq<char>, b: Seq<char>, c: Seq<char>)
    requires
        reaches(reqs, a, b),
        has_edge(reqs, b, c),
    ensures
        reaches(reqs, a, c),
{
    let p = choose|p: Seq<Seq<char>>| #[trigger] is_path(reqs, p) && p[0] == a && p.last() == b;
    let q = p.push(c);
    assert forall|i: int| 0 <= i < q.len() - 1 implies has_edge(reqs, #[trigger] q[i], q[i + 1]) by {
        if i < p.len() - 1 {
            assert(q[i] == p[i] && q[i + 1] == p[i + 1]);
        } else {
            assert(q[i] == b && q[i + 1] == c);
        }
    }
    assert(is_path(reqs, q));
}

pub proof fn lemma_reaches_refl(reqs: Seq<Requirement>, a: Seq<char>)
    ensures
        reaches(reqs, a, a),
{
    let p = seq![a];
    assert(is_path(reqs, p));
}

pub proof fn lemma_path_concat(reqs: Seq<Requirement>, a: Seq<char>, b: Seq<char>, c: Seq<char>)
    requires
        reaches(reqs, a, b),
        reaches(reqs, b, c),
    ensures
        reaches(reqs, a, c),
{
    let q = choose|q: Seq<Seq<char>>| #[trigger] is_path(reqs, q) && q[0] == b && q.last() == c;
    lemma_concat_walk(reqs, a, q, q.len() as int);
}

proof fn lemma_concat_walk(reqs: Seq<Requirement>, a: Seq<char>, q: Seq<Seq<char>>, n: int)
    requires
        is_path(reqs, q),
        1 <= n <= q.len(),
        reaches(reqs, a, q[0]),
    ensures
        reaches(reqs, a, q[n - 1]),
    decreases n,
{
    if n > 1 {
        lemma_concat_walk(reqs, a, q, n - 1);
        assert(has_edge(reqs, q[n - 2], q[n - 1]));
        lemma_path_extend(reqs, a, q[n - 2], q[n - 1]);
    }
}

/// Adding requirement `s -> t`: a walk in the larger graph is either a walk
/// in the old one or passes through the new requirement.
proof fn lemma_walk_after_add(
    reqs: Seq<Requirement>,
    r: Requirement,
    p: Seq<Seq<char>>,
    n: int,
)
    requires
        is_path(reqs.push(r), p),
        1 <= n <= p.len(),
    ensures
        reaches(reqs, p[0], p[n - 1]) || (reaches(reqs, p[0], r.source_id@) && reaches(
            reqs,
            r.target_id@,
            p[n - 1],
        )),
    decreases n,
{
    let big = reqs.push(r);
    if n == 1 {
        lemma_reaches_refl(reqs, p[0]);
    } else {
        lemma_walk_after_add(reqs, r, p, n - 1);
        let x = p[n - 2];
        let y = p[n - 1];
        assert(has_edge(big, x, y));
        let j = choose|j: int| 0 <= j < big.len() && (#[trigger] big[j]).source_id@ == x && big[j].target_id@ == y;
        if j < reqs.len() {
            assert(reqs[j] == big[j]);
            assert(has_edge(reqs, x, y));
            if reaches(reqs, p[0], x) {
                lemma_path_extend(reqs, p[0], x, y);
            } else {
                lemma_path_extend(reqs, r.target_id@, x, y);
            }
        } else {
            assert(big[j] == r);
            lemma_reaches_refl(reqs, r.target_id@);
            if reaches(reqs, p[0], x) {
            } else {
                lemma_path_concat(reqs, p[0], r.source_id@, r.source_id@);
            }
        }
    }
}

proof fn lemma_reaches_after_add(reqs: Seq<Requirement>, r: Requirement, a: Seq<char>, b: Seq<char>)
    requires
        reaches(reqs.push(r), a, b),
    ensures
        reaches(reqs, a, b) || (reaches(reqs, a, r.source_id@) && reaches(reqs, r.target_id@, b)),
{
    let p = choose|p: Seq<Seq<char>>| #[trigger] is_path(reqs.push(r), p) && p[0] == a && p.last() == b;
    lemma_walk_after_add(reqs, r, p, p.len() as int);
}

/// A requirement `s -> t` keeps a graph acyclic when `s` cannot be reached from `t`.
pub proof fn lemma_add_keeps_acyclic(reqs: Seq<Requirement>, r: Requirement)
    requires
        acyclic(reqs),
        !reaches(reqs, r.target_id@, r.source_id@),
    ensures
        acyclic(reqs.push(r)),
{
    let big = reqs.push(r);
    assert forall|a: Seq<char>, b: Seq<char>| #[trigger] has_edge(big, a, b) implies !reaches(big, b, a) by {
        if reaches(big, b, a) {
            lemma_reaches_after_add(reqs, r, b, a);
            let j = choose|j: int| 0 <= j < big.len() && (#[trigger] big[j]).source_id@ == a && big[j].target_id@ == b;
            if j < reqs.len() {
                assert(reqs[j] == big[j]);
                assert(has_edge(reqs, a, b));
                if reaches(reqs, b, a) {
                } else {
                    // t ~> a -> b ~> s
                    lemma_path_extend(reqs, r.target_id@, a, b);
                    lemma_path_concat(reqs, r.target_id@, b, r.source_id@);
                }
            } else {
                assert(big[j] == r);
                if reaches(reqs, b, a) {
                } else {
                }
            }
        }
    }
}

impl DecisionGraph {
    /// The graph's id.
    pub closed spec fn graph_id(&self) -> String {
        self.id
    }

    /// The nodes of the graph, in the order they were added.
    pub closed spec fn node_seq(&self) -> Seq<DecisionNode> {
        self.nodes@
    }

    /// The requirements of the graph, in the order they were added.
    pub closed spec fn req_seq(&self) -> Seq<Requirement> {
        self.requirements@
    }

    /// Node ids are unique, requirements connect existing nodes, are not
    /// repeated, and form no cycle.
    pub open spec fn wf(&self) -> bool {
        &&& forall|i: int, j: int|
            0 <= i < j < self.node_seq().len() ==> node_id(#[trigger] self.node_seq()[i]) != node_id(
                #[trigger] self.node_seq()[j],
            )
        &&& forall|j: int|
            0 <= j < self.req_seq().len() ==> has_node(self.node_seq(), (#[trigger] self.req_seq()[j]).source_id@)
                && has_node(self.node_seq(), self.req_seq()[j].target_id@)
        &&& forall|i: int, j: int|
            0 <= i < j < self.req_seq().len() ==> !same_requirement(
                #[trigger] self.req_seq()[i],
                #[trigger] self.req_seq()[j],
            )
        &&& acyclic(self.req_seq())
    }

    /// An empty graph with id `id`.
    pub fn new(id: &str) -> (g: Self)
        ensures
            g.wf(),
            g.graph_id()@ == id@,
            g.node_seq().len() == 0,
            g.req_seq().len() == 0,
    {
        DecisionGraph { id: owned(id), nodes: Vec::new(), requirements: Vec::new() }
    }

    fn find(&self, id: &str) -> (r: Option<usize>)
        ensures
            match r {
                Some(k) => k < self.node_seq().len() && node_id(self.node_seq()[k as int]) == id@,
                None => !has_node(self.node_seq(), id@),
            },
    {
        let mut k: usize = 0;
        while k < self.nodes.len()
            invariant
                k <= self.nodes.len(),
                forall|j: int| 0 <= j < k ==> node_id(#[trigger] self.nodes@[j]) != id@,
            decreases self.nodes.len() - k,
        {
            if str_eq(self.nodes[k].id(), id) {
                return Some(k);
            }
            k = k + 1;
        }
        None
    }

    /// Add a node; refused when a node with the same id is already there.
    pub fn add_node(&mut self, node: DecisionNode) -> (r: DmnResult<()>)
        requires
            old(self).wf(),
        ensures
            final(self).wf(),
            final(self).graph_id() == old(self).graph_id(),
            final(self).req_seq() == old(self).req_seq(),
            match r {
                Ok(()) => !has_node(old(self).node_seq(), node_id(node)) && final(self).node_seq()
                    == old(self).node_seq().push(node),
                Err(e) => has_node(old(self).node_seq(), node_id(node)) && final(self).node_seq()
                    == old(self).node_seq() && e is InvalidDecisionGraph && dmn_error_detail(e) == "Node "@
                    + node_id(node) + " already exists"@,
            },
            final(self).node_seq() == node_added(old(self).node_seq(), node),
    {
        if self.find(node.id()).is_some() {
            let msg = concat3("Node ", node.id(), " already exists");
            return Err(DmnError::InvalidDecisionGraph(msg));
        }
        let ghost old_nodes = self.nodes@;
        self.nodes.push(node);
        proof {
            assert forall|j: int| 0 <= j < self.req_seq().len() implies has_node(
                self.node_seq(),
                (#[trigger] self.req_seq()[j]).source_id@,
            ) && has_node(self.node_seq(), self.req_seq()[j].target_id@) by {
                let a = choose|k: int| 0 <= k < old_nodes.len() && node_id(#[trigger] old_nodes[k]) == self.req_seq()[j].source_id@;
                let b = choose|k: int| 0 <= k < old_nodes.len() && node_id(#[trigger] old_nodes[k]) == self.req_seq()[j].target_id@;
                assert(self.node_seq()[a] == old_nodes[a]);
                assert(self.node_seq()[b] == old_nodes[b]);
            }
        }
        Ok(())
    }

    /// The node with id `id`, if any.
    pub fn get_node(&self, id: &str) -> (r: Option<&DecisionNode>)
        ensures
            match r {
                Some(n) => self.node_seq().contains(*n) && node_id(*n) == id@,
                None => !has_node(self.node_seq(), id@),
            },
    {
        match self.find(id) {
            Some(k) => Some(&self.nodes[k]),
            None => None,
        }
    }

    /// All nodes, in the order they were added.
    pub fn nodes(&self) -> (r: &[DecisionNode])
        ensures
            r@ == self.node_seq(),
    {
        self.nodes.as_slice()
    }

    /// All requirements, in the order they were added.
    pub fn requirements(&self) -> (r: &[Requirement])
        ensures
            r@ == self.req_seq(),
    {
        self.requirements.as_slice()
    }

    fn contains_requirement(&self, req: &Requirement) -> (r: bool)
        ensures
            r == has_requirement(self.req_seq(), *req),
    {
        let mut j: usize = 0;
        while j < self.requirements.len()
            invariant
                j <= self.requirements.len(),
                forall|k: int| 0 <= k < j ==> !same_requirement(#[trigger] self.requirements@[k], *req),
            decreases self.requirements.len() - j,
        {
            let r = &self.requirements[j];
            if r.source_id == req.source_id && r.target_id == req.target_id {
                assert(same_requirement(self.requirements@[j as int], *req));
                return true;
            }
            j = j + 1;
        }
        false
    }

    /// Whether requirement `source -> target` would close a cycle: whether
    /// `source` is `target` or can be reached from it.
    /// Push the index of every node that depends on node `u`.
    fn push_successors(&self, u: usize, stack: &mut Vec<usize>, Ghost(target): Ghost<Seq<char>>)
        requires
            self.wf(),
            u < self.node_seq().len(),
            reaches(self.req_seq(), target, node_id(self.node_seq()[u as int])),
            forall|k: int| 0 <= k < old(stack)@.len() ==> (#[trigger] old(stack)@[k]) < self.node_seq().len(),
            forall|k: int|
                0 <= k < old(stack)@.len() ==> reaches(
                    self.req_seq(),
                    target,
                    node_id(self.node_seq()[#[trigger] old(stack)@[k] as int]),
                ),
        ensures
            final(stack)@.len() >= old(stack)@.len(),
            forall|k: int| 0 <= k < old(stack)@.len() ==> #[trigger] final(stack)@[k] == old(stack)@[k],
            forall|k: int| 0 <= k < final(stack)@.len() ==> (#[trigger] final(stack)@[k]) < self.node_seq().len(),
            forall|k: int|
                0 <= k < final(stack)@.len() ==> reaches(
                    self.req_seq(),
                    target,
                    node_id(self.node_seq()[#[trigger] final(stack)@[k] as int]),
                ),
            forall|jj: int|
                0 <= jj < self.req_seq().len() && #[trigger] self.req_seq()[jj].source_id@ == node_id(
                    self.node_seq()[u as int],
                ) ==> exists|m: int|
                    0 <= m < self.node_seq().len() && node_id(self.node_seq()[m]) == self.req_seq()[jj].target_id@
                        && on_stack(final(stack)@, m),
    {
        let ghost g = self.req_seq();
        let ghost ns = self.node_seq();
        let ghost n = ns.len();
        let ghost base = stack@;
        let mut j: usize = 0;
        while j < self.requirements.len()
            invariant
                self.wf(),
                g == self.req_seq(),
                ns == self.node_seq(),
                n == ns.len(),
                u < n,
                j <= g.len(),
                reaches(g, target, node_id(ns[u as int])),
                stack@.len() >= base.len(),
                forall|k: int| 0 <= k < base.len() ==> #[trigger] stack@[k] == base[k],
                forall|k: int| 0 <= k < stack@.len() ==> (#[trigger] stack@[k]) < n,
                forall|k: int| 0 <= k < stack@.len() ==> reaches(g, target, node_id(ns[#[trigger] stack@[k] as int])),
                forall|jj: int|
                    0 <= jj < j && #[trigger] g[jj].source_id@ == node_id(ns[u as int]) ==> exists|m: int|
                        0 <= m < n && node_id(ns[m]) == g[jj].target_id@ && on_stack(stack@, m),
            decreases g.len() - j,
        {
            let r = &self.requirements[j];
            if str_eq(r.source_id.as_str(), self.nodes[u].id()) {
                match self.find(r.target_id.as_str()) {
                    Some(m) => {
                        proof {
                            assert(has_edge(g, node_id(ns[u as int]), node_id(ns[m as int])));
                            lemma_path_extend(g, target, node_id(ns[u as int]), node_id(ns[m as int]));
                        }
                        let ghost prev = stack@;
                        stack.push(m);
                        assert(stack@[prev.len() as int] == m);
                        assert forall|jj: int|
                            0 <= jj < j && #[trigger] g[jj].source_id@ == node_id(ns[u as int]) implies exists|mm: int|
                                0 <= mm < n && node_id(ns[mm]) == g[jj].target_id@ && on_stack(stack@, mm) by {
                            let mm = choose|mm: int| 0 <= mm < n && node_id(ns[mm]) == g[jj].target_id@ && on_stack(prev, mm);
                            let q = choose|q: int| 0 <= q < prev.len() && prev[q] as int == mm;
                            assert(0 <= q < stack@.len() && stack@[q] as int == mm);
                            assert(on_stack(stack@, mm));
                        }
                        assert(on_stack(stack@, m as int));
                    },
                    None => {
                        assert(has_node(ns, g[j as int].target_id@));
                    },
                }
            }
            j = j + 1;
        }
    }

    /// Whether requirement `source -> target` would close a cycle: whether
    /// `source` is `target` or can be reached from it.
    fn would_create_cycle(&self, source_id: &str, target_id: &str) -> (r: bool)
        requires
            self.wf(),
            has_node(self.node_seq(), target_id@),
        ensures
            r == reaches(self.req_seq(), target_id@, source_id@),
    {
        let n = self.nodes.len();
        let ghost g = self.req_seq();
        let ghost ns = self.node_seq();
        let start = match self.find(target_id) {
            Some(k) => k,
            None => {
                assert(false);
                0
            },
        };
        let mut visited: Vec<bool> = Vec::new();
        let mut i: usize = 0;
        while i < n
            invariant
                i <= n,
                n == ns.len(),
                visited@.len() == i,
                forall|k: int| 0 <= k < i ==> !visited@[k],
            decreases n - i,
        {
            visited.push(false);
            i = i + 1;
        }
        let mut stack: Vec<usize> = Vec::new();
        stack.push(start);
        let ghost mut marked: nat = 0;
        proof {
            lemma_reaches_refl(g, target_id@);
            assert(stack@[0] == start);
            assert(on_stack(stack@, start as int));
            lemma_count_true_none(visited@);
            reveal(stack_ok);
            reveal(seen_ok);
            reveal(closed);
        }
        loop
            invariant
                self.wf(),
                g == self.req_seq(),
                ns == self.node_seq(),
                n == ns.len(),
                visited@.len() == n,
                start < n,
                node_id(ns[start as int]) == target_id@,
                stack_ok(ns, g, target_id@, stack@),
                seen_ok(ns, g, target_id@, source_id@, visited@),
                closed(ns, g, visited@, stack@),
                visited@[start as int] || on_stack(stack@, start as int),
                marked <= n,
                marked == count_true(visited@),
            ensures
                visited@.len() == n,
                visited@[start as int],
                seen_ok(ns, g, target_id@, source_id@, visited@),
                closed(ns, g, visited@, Seq::empty()),
            decreases n - marked, stack@.len(),
        {
            let ghost full_stack = stack@;
            match stack.pop() {
                None => {
                    assert(stack@ =~= Seq::<usize>::empty());
                    break;
                },
                Some(u) => {
                    assert(full_stack =~= stack@.push(u));
                    proof {
                        lemma_pop(ns, g, target_id@, visited@, full_stack, stack@, u);
                    }
                    if visited[u] {
                        proof {
                            lemma_pop_seen(ns, g, visited@, full_stack, stack@, u);
                            if !visited@[start as int] {
                                lemma_contains_after_pop(full_stack, stack@, u, start as int);
                            }
                        }
                        continue;
                    }
                    let ghost before = visited@;
                    visited.set(u, true);
                    proof {
                        lemma_count_true_set(before, u as int);
                        marked = marked + 1;
                        reveal(stack_ok);
                    }
                    if str_eq(self.nodes[u].id(), source_id) {
                        proof {
                            reveal(stack_ok);
                        }
                        return true;
                    }
                    let ghost base = stack@;
                    self.push_successors(u, &mut stack, Ghost(target_id@));
                    proof {
                        lemma_expand(ns, g, target_id@, source_id@, before, visited@, full_stack, base, stack@, u);
                        if !visited@[start as int] {
                            lemma_contains_after_pop(full_stack, base, u, start as int);
                            let q = choose|q: int| 0 <= q < base.len() && base[q] as int == start as int;
                            assert(stack@[q] == start);
                        }
                    }
                },
            }
        }
        proof {
            reveal(seen_ok);
            reveal(closed);
            lemma_closed_set_covers(self, visited@, target_id@, source_id@, start as int);
        }
        false
    }
}

/// Index `m` is on `stack`.
pub open spec fn on_stack(stack: Seq<usize>, m: int) -> bool {
    exists|q: int| 0 <= q < stack.len() && stack[q] as int == m
}

/// The requirements among `reqs` whose target is `t`, in order.
pub open spec fn reqs_into(reqs: Seq<Requirement>, t: Seq<char>) -> Seq<Requirement>
    decreases reqs.len(),
{
    if reqs.len() == 0 {
        Seq::empty()
    } else {
        reqs_into(reqs.drop_last(), t) + if reqs.last().target_id@ == t {
            seq![reqs.last()]
        } else {
            Seq::empty()
        }
    }
}

/// The ids of the nodes that depend on `id`, one per requirement, in order.
pub open spec fn dependent_ids(reqs: Seq<Requirement>, id: Seq<char>) -> Seq<Seq<char>>
    decreases reqs.len(),
{
    if reqs.len() == 0 {
        Seq::empty()
    } else {
        dependent_ids(reqs.drop_last(), id) + if reqs.last().source_id@ == id {
            seq![reqs.last().target_id@]
        } else {
            Seq::empty()
        }
    }
}

/// The ids of the nodes that `id` depends on, one per requirement, in order.
pub open spec fn dependency_ids(reqs: Seq<Requirement>, id: Seq<char>) -> Seq<Seq<char>>
    decreases reqs.len(),
{
    if reqs.len() == 0 {
        Seq::empty()
    } else {
        dependency_ids(reqs.drop_last(), id) + if reqs.last().target_id@ == id {
            seq![reqs.last().source_id@]
        } else {
            Seq::empty()
        }
    }
}

/// `order` lists every node id exactly once, each after all that it depends on.
pub open spec fn is_topological_order(ns: Seq<DecisionNode>, reqs: Seq<Requirement>, order: Seq<Seq<char>>) -> bool {
    &&& order.len() == ns.len()
    &&& forall|i: int, j: int| 0 <= i < j < order.len() ==> #[trigger] order[i] != #[trigger] order[j]
    &&& forall|i: int| 0 <= i < order.len() ==> has_node(ns, #[trigger] order[i])
    &&& forall|i: int, j: int|
        0 <= i < order.len() && 0 <= j < order.len() && has_edge(reqs, #[trigger] order[i], #[trigger] order[j])
            ==> i < j
}

impl DecisionGraph {
    /// Add the requirement that `target_id` depends on `source_id`; refused
    /// when either node is missing or when it would close a cycle. Adding a
    /// requirement that is already there changes nothing.
    pub fn add_requirement(&mut self, source_id: String, target_id: String) -> (r: DmnResult<()>)
        requires
            old(self).wf(),
        ensures
            final(self).wf(),
            final(self).graph_id() == old(self).graph_id(),
            final(self).node_seq() == old(self).node_seq(),
            !has_node(old(self).node_seq(), source_id@) ==> (r matches Err(e) && e is InvalidDecisionGraph
                && dmn_error_detail(e) == "Source node "@ + source_id@ + " not found"@),
            has_node(old(self).node_seq(), source_id@) && !has_node(old(self).node_seq(), target_id@)
                ==> (r matches Err(e) && e is InvalidDecisionGraph && dmn_error_detail(e) == "Target node "@
                + target_id@ + " not found"@),
            has_node(old(self).node_seq(), source_id@) && has_node(old(self).node_seq(), target_id@)
                && reaches(old(self).req_seq(), target_id@, source_id@) ==> (r matches Err(e)
                && e is CircularDependency && dmn_error_detail(e) == "Adding requirement "@ + source_id@
                + " -> "@ + target_id@ + " would create a cycle"@),
            r is Ok <==> (has_node(old(self).node_seq(), source_id@) && has_node(
                old(self).node_seq(),
                target_id@,
            ) && !reaches(old(self).req_seq(), target_id@, source_id@)),
            r is Ok ==> has_edge(final(self).req_seq(), source_id@, target_id@),
            r is Ok ==> final(self).req_seq() == if has_requirement(
                old(self).req_seq(),
                Requirement { source_id, target_id },
            ) {
                old(self).req_seq()
            } else {
                old(self).req_seq().push(Requirement { source_id, target_id })
            },
            r is Err ==> final(self).req_seq() == old(self).req_seq(),
    {
        if self.find(source_id.as_str()).is_none() {
            return Err(DmnError::InvalidDecisionGraph(concat3("Source node ", source_id.as_str(), " not found")));
        }
        if self.find(target_id.as_str()).is_none() {
            return Err(DmnError::InvalidDecisionGraph(concat3("Target node ", target_id.as_str(), " not found")));
        }
        if self.would_create_cycle(source_id.as_str(), target_id.as_str()) {
            let mut msg = concat5("Adding requirement ", source_id.as_str(), " -> ", target_id.as_str(), " would create a cycle");
            return Err(DmnError::CircularDependency(msg));
        }
        let req = Requirement { source_id, target_id };
        let ghost rq = req;
        if !self.contains_requirement(&req) {
            let ghost old_reqs = self.requirements@;
            self.requirements.push(req);
            proof {
                lemma_add_keeps_acyclic(old_reqs, rq);
                assert(self.requirements@ == old_reqs.push(rq));
                assert(self.requirements@[old_reqs.len() as int] == rq);
            }
        } else {
            proof {
                let j = choose|j: int| 0 <= j < self.req_seq().len() && same_requirement(#[trigger] self.req_seq()[j], rq);
                assert(self.req_seq()[j].source_id@ == rq.source_id@);
            }
        }
        Ok(())
    }

    /// The requirements whose target is `target_id`, in order.
    pub fn requirements_for(&self, target_id: &str) -> (r: Vec<&Requirement>)
        ensures
            r@.map_values(|x: &Requirement| *x) == reqs_into(self.req_seq(), target_id@),
    {
        let mut r: Vec<&Requirement> = Vec::new();
        let mut j: usize = 0;
        while j < self.requirements.len()
            invariant
                j <= self.requirements.len(),
                r@.map_values(|x: &Requirement| *x) == reqs_into(self.req_seq().take(j as int), target_id@),
            decreases self.requirements.len() - j,
        {
            assert(self.req_seq().take(j + 1).drop_last() =~= self.req_seq().take(j as int));
            let ghost before = r@;
            if str_eq(self.requirements[j].target_id.as_str(), target_id) {
                r.push(&self.requirements[j]);
            }
            assert(r@.map_values(|x: &Requirement| *x) =~= reqs_into(self.req_seq().take(j + 1), target_id@));
            j = j + 1;
        }
        assert(self.req_seq().take(self.requirements.len() as int) =~= self.req_seq());
        r
    }

    /// The node with index `k` of the node list, found by id.
    fn node_by_id(&self, id: &str) -> (r: &DecisionNode)
        requires
            self.wf(),
            has_node(self.node_seq(), id@),
        ensures
            self.node_seq().contains(*r),
            node_id(*r) == id@,
    {
        match self.find(id) {
            Some(k) => &self.nodes[k],
            None => {
                assert(false);
                &self.nodes[0]
            },
        }
    }

    /// The nodes that depend on `node_id`, one per requirement, in order.
    pub fn dependents(&self, node_id_: &str) -> (r: Vec<&DecisionNode>)
        requires
            self.wf(),
        ensures
            r@.map_values(|x: &DecisionNode| node_id(*x)) == dependent_ids(self.req_seq(), node_id_@),
            forall|i: int| 0 <= i < r@.len() ==> self.node_seq().contains(*#[trigger] r@[i]),
    {
        let mut r: Vec<&DecisionNode> = Vec::new();
        let mut j: usize = 0;
        while j < self.requirements.len()
            invariant
                self.wf(),
                j <= self.requirements.len(),
                r@.map_values(|x: &DecisionNode| node_id(*x)) == dependent_ids(self.req_seq().take(j as int), node_id_@),
                forall|i: int| 0 <= i < r@.len() ==> self.node_seq().contains(*#[trigger] r@[i]),
            decreases self.requirements.len() - j,
        {
            assert(self.req_seq().take(j + 1).drop_last() =~= self.req_seq().take(j as int));
            if str_eq(self.requirements[j].source_id.as_str(), node_id_) {
                assert(self.req_seq()[j as int] == self.requirements@[j as int]);
                let n = self.node_by_id(self.requirements[j].target_id.as_str());
                r.push(n);
            }
            assert(r@.map_values(|x: &DecisionNode| node_id(*x)) =~= dependent_ids(self.req_seq().take(j + 1), node_id_@));
            j = j + 1;
        }
        assert(self.req_seq().take(self.requirements.len() as int) =~= self.req_seq());
        r
    }

    /// The nodes that `node_id` depends on, one per requirement, in order.
    pub fn dependencies(&self, node_id_: &str) -> (r: Vec<&DecisionNode>)
        requires
            self.wf(),
        ensures
            r@.map_values(|x: &DecisionNode| node_id(*x)) == dependency_ids(self.req_seq(), node_id_@),
            forall|i: int| 0 <= i < r@.len() ==> self.node_seq().contains(*#[trigger] r@[i]),
    {
        let mut r: Vec<&DecisionNode> = Vec::new();
        let mut j: usize = 0;
        while j < self.requirements.len()
            invariant
                self.wf(),
                j <= self.requirements.len(),
                r@.map_values(|x: &DecisionNode| node_id(*x)) == dependency_ids(self.req_seq().take(j as int), node_id_@),
                forall|i: int| 0 <= i < r@.len() ==> self.node_seq().contains(*#[trigger] r@[i]),
            decreases self.requirements.len() - j,
        {
            assert(self.req_seq().take(j + 1).drop_last() =~= self.req_seq().take(j as int));
            if str_eq(self.requirements[j].target_id.as_str(), node_id_) {
                assert(self.req_seq()[j as int] == self.requirements@[j as int]);
                let n = self.node_by_id(self.requirements[j].source_id.as_str());
                r.push(n);
            }
            assert(r@.map_values(|x: &DecisionNode| node_id(*x)) =~= dependency_ids(self.req_seq().take(j + 1), node_id_@));
            j = j + 1;
        }
        assert(self.req_seq().take(self.requirements.len() as int) =~= self.req_seq());
        r
    }
}

/// Number of entries equal to `x`.
pub open spec fn count_eq(v: Seq<u8>, x: u8) -> nat
    decreases v.len(),
{
    if v.len() == 0 {
        0
    } else {
        count_eq(v.drop_last(), x) + if v.last() == x { 1nat } else { 0nat }
    }
}

proof fn lemma_count_eq_update(v: Seq<u8>, i: int, y: u8, x: u8)
    requires
        0 <= i < v.len(),
    ensures
        count_eq(v.update(i, y), x) == count_eq(v, x) - (if v[i] == x { 1int } else { 0int }) + (if y == x {
            1int
        } else {
            0int
        }),
    decreases v.len(),
{
    if i == v.len() - 1 {
        assert(v.update(i, y).drop_last() =~= v.drop_last());
    } else {
        lemma_count_eq_update(v.drop_last(), i, y, x);
        assert(v.update(i, y).drop_last() =~= v.drop_last().update(i, y));
    }
}

proof fn lemma_count_eq_all(v: Seq<u8>, x: u8)
    requires
        forall|k: int| 0 <= k < v.len() ==> v[k] == x,
    ensures
        count_eq(v, x) == v.len(),
    decreases v.len(),
{
    if v.len() > 0 {
        lemma_count_eq_all(v.drop_last(), x);
    }
}

/// The marks of a depth-first walk: 0 unseen, 1 in progress, 2 done.
pub open spec fn marks_ok(n: nat, state: Seq<u8>) -> bool {
    state.len() == n && forall|k: int| 0 <= k < state.len() ==> #[trigger] state[k] <= 2
}

/// The nodes in progress are exactly those of `chain`, and each of them
/// depends on the one after it... that is, each chain entry after the first
/// is a dependency of the entry before it.
#[verifier::opaque]
pub open spec fn chain_ok(ns: Seq<DecisionNode>, g: Seq<Requirement>, state: Seq<u8>, chain: Seq<int>) -> bool {
    &&& forall|i: int| 0 <= i < chain.len() ==> 0 <= #[trigger] chain[i] < state.len() && state[chain[i]] == 1
    &&& forall|k: int| 0 <= k < state.len() && #[trigger] state[k] == 1 ==> exists|i: int| 0 <= i < chain.len() && chain[i] == k
    &&& forall|i: int|
        0 <= i < chain.len() - 1 ==> has_edge(g, node_id(ns[#[trigger] chain[i + 1]]), node_id(ns[chain[i]]))
}

/// Some node that is done has id `id`.
pub open spec fn id_done(ns: Seq<DecisionNode>, state: Seq<u8>, id: Seq<char>) -> bool {
    exists|k: int| 0 <= k < state.len() && state[k] == 2 && node_id(ns[k]) == id
}

/// `id` occurs in `out` before position `i`.
pub open spec fn listed_before(out: Seq<Seq<char>>, i: int, id: Seq<char>) -> bool {
    exists|j: int| 0 <= j < i && out[j] == id
}

/// `out` lists the ids of the done nodes, each once, each after what it depends on.
#[verifier::opaque]
pub open spec fn out_ok(ns: Seq<DecisionNode>, g: Seq<Requirement>, state: Seq<u8>, out: Seq<Seq<char>>) -> bool {
    &&& out.len() == count_eq(state, 2)
    &&& forall|i: int| 0 <= i < out.len() ==> #[trigger] id_done(ns, state, out[i])
    &&& forall|k: int|
        0 <= k < state.len() && #[trigger] state[k] == 2 ==> listed_before(out, out.len() as int, node_id(ns[k]))
    &&& forall|i: int, j: int| 0 <= i < j < out.len() ==> #[trigger] out[i] != #[trigger] out[j]
    &&& forall|i: int, jj: int|
        0 <= i < out.len() && 0 <= jj < g.len() && #[trigger] g[jj].target_id@ == #[trigger] out[i]
            ==> listed_before(out, i, g[jj].source_id@)
}

proof fn lemma_chain_reaches(ns: Seq<DecisionNode>, g: Seq<Requirement>, state: Seq<u8>, chain: Seq<int>, i: int, j: int)
    requires
        chain_ok(ns, g, state, chain),
        0 <= i <= j < chain.len(),
    ensures
        reaches(g, node_id(ns[chain[j]]), node_id(ns[chain[i]])),
    decreases j - i,
{
    if i == j {
        lemma_reaches_refl(g, node_id(ns[chain[i]]));
    } else {
        lemma_chain_reaches(ns, g, state, chain, i + 1, j);
        reveal(chain_ok);
        assert(has_edge(g, node_id(ns[chain[i + 1]]), node_id(ns[chain[i]])));
        lemma_path_extend(g, node_id(ns[chain[j]]), node_id(ns[chain[i + 1]]), node_id(ns[chain[i]]));
    }
}

impl DecisionGraph {
    /// Depth-first walk from node `u`: finish everything `u` depends on, then `u`.
    fn visit(&self, u: usize, state: &mut Vec<u8>, sorted: &mut Vec<String>, Ghost(chain): Ghost<Seq<int>>) -> (r:
        DmnResult<()>)
        requires
            self.wf(),
            u < self.node_seq().len(),
            marks_ok(self.node_seq().len(), old(state)@),
            chain_ok(self.node_seq(), self.req_seq(), old(state)@, chain),
            out_ok(self.node_seq(), self.req_seq(), old(state)@, strings_view(old(sorted)@)),
            chain.len() > 0 ==> has_edge(self.req_seq(), node_id(self.node_seq()[u as int]), node_id(self.node_seq()[chain.last()])),
        ensures
            r is Ok,
            marks_ok(self.node_seq().len(), final(state)@),
            chain_ok(self.node_seq(), self.req_seq(), final(state)@, chain),
            out_ok(self.node_seq(), self.req_seq(), final(state)@, strings_view(final(sorted)@)),
            final(state)@[u as int] == 2,
            marks_follow(old(state)@, final(state)@),
            count_eq(final(state)@, 0) <= count_eq(old(state)@, 0),
        decreases count_eq(old(state)@, 0),
    {
        let ghost ns = self.node_seq();
        let ghost g = self.req_seq();
        proof { reveal(marks_ok); }
        if state[u] == 2 {
            return Ok(());
        }
        if state[u] == 1 {
            proof {
                reveal(chain_ok);
                let i = choose|i: int| 0 <= i < chain.len() && chain[i] == u as int;
                lemma_chain_reaches(ns, g, old(state)@, chain, i, chain.len() - 1);
                assert(has_edge(g, node_id(ns[u as int]), node_id(ns[chain.last()])));
                assert(false);
            }
            return Err(DmnError::CircularDependency(concat2("Circular dependency detected at ", self.nodes[u].id())));
        }
        let ghost s0 = state@;
        state.set(u, 1);
        let ghost s1 = state@;
        let ghost chain1 = chain.push(u as int);
        proof {
            lemma_count_eq_update(s0, u as int, 1, 0);
            lemma_chain_push(ns, g, s0, s1, chain, u as int);
            lemma_out_same_done(ns, g, s0, s1, strings_view(sorted@));
            assert forall|k: int| 0 <= k < s1.len() implies #[trigger] s1[k] <= 2 by {
                if k != u {
                    assert(s1[k] == s0[k]);
                }
            }
        }
        let uid = self.nodes[u].id();
        let mut j: usize = 0;
        while j < self.requirements.len()
            invariant
                self.wf(),
                ns == self.node_seq(),
                g == self.req_seq(),
                u < ns.len(),
                j <= g.len(),
                uid@ == node_id(ns[u as int]),
                marks_ok(ns.len(), state@),
                chain_ok(ns, g, state@, chain1),
                out_ok(ns, g, state@, strings_view(sorted@)),
                state@[u as int] == 1,
                chain1 == chain.push(u as int),
                forall|i: int| 0 <= i < chain.len() ==> #[trigger] chain[i] != u as int,
                marks_follow(s1, state@),
                count_eq(state@, 0) < count_eq(old(state)@, 0),
                s1 == old(state)@.update(u as int, 1),
                forall|jj: int|
                    0 <= jj < j && (#[trigger] g[jj]).target_id@ == node_id(ns[u as int]) ==> id_done(
                        ns,
                        state@,
                        g[jj].source_id@,
                    ),
            decreases g.len() - j,
        {
            if str_eq(self.requirements[j].target_id.as_str(), uid) {
                let d = match self.find(self.requirements[j].source_id.as_str()) {
                    Some(d) => d,
                    None => {
                        assert(has_node(ns, g[j as int].source_id@));
                        0
                    },
                };
                let ghost sb = state@;
                proof {
                    reveal(chain_ok);
                    assert(has_edge(g, node_id(ns[d as int]), node_id(ns[u as int])));
                    assert(chain1.last() == u as int);
                }
                let res = self.visit(d, state, sorted, Ghost(chain1));
                proof {
                    assert forall|jj: int|
                        0 <= jj < j + 1 && (#[trigger] g[jj]).target_id@ == node_id(ns[u as int]) implies id_done(
                        ns,
                        state@,
                        g[jj].source_id@,
                    ) by {
                        if jj < j {
                            assert(id_done(ns, sb, g[jj].source_id@));
                            let k = choose|k: int| 0 <= k < sb.len() && sb[k] == 2 && node_id(ns[k]) == g[jj].source_id@;
                            assert(state@[k] == 2);
                        } else {
                            assert(state@[d as int] == 2);
                        }
                    }
                    lemma_marks_trans(s1, sb, state@);
                }
            }
            j = j + 1;
        }
        let ghost s2 = state@;
        state.set(u, 2);
        let ghost old_out = strings_view(sorted@);
        sorted.push(owned(uid));
        proof {
            assert(strings_view(sorted@) == old_out.push(node_id(ns[u as int])));
            lemma_count_eq_update(s2, u as int, 2, 0);
            lemma_chain_pop(ns, g, s2, state@, chain, u as int);
            assert forall|k: int| 0 <= k < ns.len() && node_id(#[trigger] ns[k]) == node_id(ns[u as int]) implies k
                == u as int by {
                if k < u {
                    assert(node_id(ns[k]) != node_id(ns[u as int]));
                } else if k > u {
                    assert(node_id(ns[u as int]) != node_id(ns[k]));
                }
            }
            lemma_out_push(ns, g, s2, state@, old_out, strings_view(sorted@), u as int);
            assert forall|k: int| 0 <= k < state@.len() implies #[trigger] state@[k] <= 2 by {
                if k != u {
                    assert(state@[k] == s2[k]);
                }
            }
            assert forall|k: int| 0 <= k < s0.len() && s0[k] != 0 implies #[trigger] state@[k] == s0[k] by {
                assert(k != u);
                assert(s1[k] == s0[k]);
                assert(s2[k] == s1[k]);
            }
            assert forall|k: int| 0 <= k < s0.len() && s0[k] == 0 implies #[trigger] state@[k] == 0 || state@[k] == 2 by {
                if k != u {
                    assert(s1[k] == 0);
                    assert(s2[k] == 0 || s2[k] == 2);
                }
            }
        }
        Ok(())
    }

    /// Every node id once, each after every node it depends on.
    pub fn topological_sort(&self) -> (r: DmnResult<Vec<String>>)
        requires
            self.wf(),
        ensures
            r matches Ok(order) && is_topological_order(self.node_seq(), self.req_seq(), strings_view(order@)),
            r matches Ok(order) && strings_view(order@).to_set() == node_ids(self.node_seq()).to_set(),
    {
        let n = self.nodes.len();
        let ghost ns = self.node_seq();
        let ghost g = self.req_seq();
        let mut state: Vec<u8> = Vec::new();
        let mut i: usize = 0;
        while i < n
            invariant
                i <= n,
                n == ns.len(),
                state@.len() == i,
                forall|k: int| 0 <= k < i ==> state@[k] == 0,
            decreases n - i,
        {
            state.push(0);
            i = i + 1;
        }
        let mut sorted: Vec<String> = Vec::new();
        proof {
            reveal(marks_ok);
            reveal(chain_ok);
            reveal(out_ok);
            lemma_count_eq_all(state@, 0);
            assert(count_eq(state@, 2) == 0) by {
                lemma_count_eq_zero(state@, 2);
            }
            assert(strings_view(sorted@) =~= Seq::<Seq<char>>::empty());
        }
        let mut k: usize = 0;
        while k < n
            invariant
                self.wf(),
                ns == self.node_seq(),
                g == self.req_seq(),
                n == ns.len(),
                k <= n,
                marks_ok(n as nat, state@),
                chain_ok(ns, g, state@, Seq::empty()),
                out_ok(ns, g, state@, strings_view(sorted@)),
                forall|m: int| 0 <= m < k ==> #[trigger] state@[m] == 2,
            decreases n - k,
        {
            let ghost before = state@;
            let res = self.visit(k, &mut state, &mut sorted, Ghost(Seq::empty()));
            proof {
                assert forall|m: int| 0 <= m < k + 1 implies #[trigger] state@[m] == 2 by {
                    if m < k {
                        assert(before[m] == 2);
                    }
                }
            }
            k = k + 1;
        }
        proof {
            reveal(marks_ok);
            reveal(out_ok);
            lemma_count_eq_all(state@, 2);
            let out = strings_view(sorted@);
            assert forall|i: int| 0 <= i < out.len() implies has_node(ns, #[trigger] out[i]) by {
                assert(id_done(ns, state@, out[i]));
                let m = choose|m: int| 0 <= m < state@.len() && state@[m] == 2 && node_id(ns[m]) == out[i];
                assert(node_id(ns[m]) == out[i]);
            }
            assert forall|i: int, j: int|
                0 <= i < out.len() && 0 <= j < out.len() && has_edge(g, #[trigger] out[i], #[trigger] out[j]) implies i < j by {
                let jj = choose|jj: int| 0 <= jj < g.len() && (#[trigger] g[jj]).source_id@ == out[i] && g[jj].target_id@ == out[j];
                assert(listed_before(out, j, g[jj].source_id@));
                let j2 = choose|j2: int| 0 <= j2 < j && out[j2] == g[jj].source_id@;
                if j2 != i {
                    if j2 < i {
                        assert(out[j2] != out[i]);
                    } else {
                        assert(out[i] != out[j2]);
                    }
                }
            }
        }
        proof {
            lemma_topological_order_lists_every_node(self.node_seq(), self.req_seq(), strings_view(sorted@));
        }
        Ok(sorted)
    }

    /// Check that every requirement joins existing nodes and that the graph
    /// has no cycle (which always holds of a graph built by this type).
    pub fn validate(&self) -> (r: DmnResult<()>)
        requires
            self.wf(),
        ensures
            r is Ok,
    {
        let mut j: usize = 0;
        while j < self.requirements.len()
            invariant
                self.wf(),
                j <= self.requirements.len(),
            decreases self.requirements.len() - j,
        {
            if self.find(self.requirements[j].source_id.as_str()).is_none() {
                assert(has_node(self.node_seq(), self.req_seq()[j as int].source_id@));
                return Err(DmnError::InvalidDecisionGraph(concat3("Source node ", self.requirements[j].source_id.as_str(), " not found")));
            }
            if self.find(self.requirements[j].target_id.as_str()).is_none() {
                assert(has_node(self.node_seq(), self.req_seq()[j as int].target_id@));
                return Err(DmnError::InvalidDecisionGraph(concat3("Target node ", self.requirements[j].target_id.as_str(), " not found")));
            }
            j = j + 1;
        }
        let sorted = self.topological_sort();
        match sorted {
            Ok(_) => Ok(()),
            Err(e) => Err(e),
        }
    }
}



/// A requirement diagram: a named view of a decision graph.
#[derive(Debug, Clone)]
pub struct RequirementDiagram {
    pub id: String,
    pub name: String,
    pub description: Option<String>,
    pub graph: DecisionGraph,
}

impl RequirementDiagram {
    /// A diagram with an empty graph named `default`.
    pub fn new(id: &str, name: &str) -> (r: Self)
        ensures
            r.id@ == id@,
            r.name@ == name@,
            r.description is None,
            r.graph.wf(),
            r.graph.graph_id()@ == "default"@,
            r.graph.node_seq().len() == 0,
            r.graph.req_seq().len() == 0,
    {
        RequirementDiagram {
            id: owned(id),
            name: owned(name),
            description: None,
            graph: DecisionGraph::new("default"),
        }
    }

    /// Check the diagram's graph; a graph built by its own operations always passes.
    pub fn validate(&self) -> (r: DmnResult<()>)
        requires
            self.graph.wf(),
        ensures
            r is Ok,
    {
        self.graph.validate()
    }
}

/// Marks only move from unseen to done, across two steps.
pub open spec fn marks_follow(a: Seq<u8>, b: Seq<u8>) -> bool {
    &&& a.len() == b.len()
    &&& forall|k: int| 0 <= k < a.len() && a[k] != 0 ==> #[trigger] b[k] == a[k]
    &&& forall|k: int| 0 <= k < a.len() && a[k] == 0 ==> #[trigger] b[k] == 0 || b[k] == 2
}

proof fn lemma_marks_trans(a: Seq<u8>, b: Seq<u8>, c: Seq<u8>)
    requires
        marks_follow(a, b),
        marks_follow(b, c),
    ensures
        marks_follow(a, c),
{
    assert forall|k: int| 0 <= k < a.len() && a[k] != 0 implies #[trigger] c[k] == a[k] by {
        assert(b[k] == a[k]);
    }
    assert forall|k: int| 0 <= k < a.len() && a[k] == 0 implies #[trigger] c[k] == 0 || c[k] == 2 by {
        assert(b[k] == 0 || b[k] == 2);
    }
}

proof fn lemma_count_eq_same(a: Seq<u8>, b: Seq<u8>, x: u8)
    requires
        a.len() == b.len(),
        forall|k: int| 0 <= k < a.len() ==> (a[k] == x) == (#[trigger] b[k] == x),
    ensures
        count_eq(a, x) == count_eq(b, x),
    decreases a.len(),
{
    if a.len() > 0 {
        lemma_count_eq_same(a.drop_last(), b.drop_last(), x);
        assert(a.last() == a[a.len() - 1] && b.last() == b[b.len() - 1]);
    }
}

/// What is done stays the same, so the list of done nodes stays right.
proof fn lemma_out_same_done(ns: Seq<DecisionNode>, g: Seq<Requirement>, a: Seq<u8>, b: Seq<u8>, out: Seq<Seq<char>>)
    requires
        a.len() == b.len(),
        forall|k: int| 0 <= k < a.len() ==> (a[k] == 2) == (#[trigger] b[k] == 2),
        out_ok(ns, g, a, out),
    ensures
        out_ok(ns, g, b, out),
{
    reveal(out_ok);
    lemma_count_eq_same(a, b, 2);
    assert forall|i: int| 0 <= i < out.len() implies #[trigger] id_done(ns, b, out[i]) by {
        assert(id_done(ns, a, out[i]));
        let k = choose|k: int| 0 <= k < a.len() && a[k] == 2 && node_id(ns[k]) == out[i];
        assert(b[k] == 2);
    }
    assert forall|k: int| 0 <= k < b.len() && #[trigger] b[k] == 2 implies listed_before(
        out,
        out.len() as int,
        node_id(ns[k]),
    ) by {
        assert(a[k] == 2);
    }
}

/// Starting `u` pushes it on the chain of nodes in progress.
proof fn lemma_chain_push(ns: Seq<DecisionNode>, g: Seq<Requirement>, s0: Seq<u8>, s1: Seq<u8>, chain: Seq<int>, u: int)
    requires
        0 <= u < s0.len(),
        s0[u] == 0,
        s1 == s0.update(u, 1),
        chain_ok(ns, g, s0, chain),
        chain.len() > 0 ==> has_edge(g, node_id(ns[u]), node_id(ns[chain.last()])),
    ensures
        chain_ok(ns, g, s1, chain.push(u)),
        forall|i: int| 0 <= i < chain.len() ==> #[trigger] chain[i] != u,
{
    let chain1 = chain.push(u);
    reveal(chain_ok);
    assert forall|k: int| 0 <= k < s1.len() && #[trigger] s1[k] == 1 implies exists|i: int|
        0 <= i < chain1.len() && chain1[i] == k by {
        if k == u {
            assert(chain1[chain.len() as int] == k);
        } else {
            assert(s0[k] == 1);
            let i = choose|i: int| 0 <= i < chain.len() && chain[i] == k;
            assert(chain1[i] == k);
        }
    }
    assert forall|i: int| 0 <= i < chain1.len() - 1 implies has_edge(
        g,
        node_id(ns[#[trigger] chain1[i + 1]]),
        node_id(ns[chain1[i]]),
    ) by {
        if i < chain.len() - 1 {
            assert(chain1[i + 1] == chain[i + 1] && chain1[i] == chain[i]);
        } else {
            assert(chain1[i] == chain.last());
        }
    }
    assert forall|i: int| 0 <= i < chain1.len() implies 0 <= #[trigger] chain1[i] < s1.len() && s1[chain1[i]] == 1 by {
        if i < chain.len() {
            assert(chain1[i] == chain[i]);
        }
    }
    assert forall|i: int| 0 <= i < chain.len() implies #[trigger] chain[i] != u by {
        assert(s0[chain[i]] == 1);
    }
}

/// Finishing `u`, the last node in progress, pops it off the chain.
proof fn lemma_chain_pop(ns: Seq<DecisionNode>, g: Seq<Requirement>, s2: Seq<u8>, s3: Seq<u8>, chain: Seq<int>, u: int)
    requires
        0 <= u < s2.len(),
        s3 == s2.update(u, 2),
        chain_ok(ns, g, s2, chain.push(u)),
        forall|i: int| 0 <= i < chain.len() ==> #[trigger] chain[i] != u,
    ensures
        chain_ok(ns, g, s3, chain),
{
    let chain1 = chain.push(u);
    reveal(chain_ok);
    assert forall|k: int| 0 <= k < s3.len() && #[trigger] s3[k] == 1 implies exists|i: int|
        0 <= i < chain.len() && chain[i] == k by {
        assert(k != u);
        assert(s2[k] == 1);
        let i = choose|i: int| 0 <= i < chain1.len() && chain1[i] == k;
        assert(i != chain.len());
        assert(chain[i] == k);
    }
    assert forall|i: int| 0 <= i < chain.len() implies 0 <= #[trigger] chain[i] < s3.len() && s3[chain[i]] == 1 by {
        assert(chain1[i] == chain[i]);
        assert(s2[chain1[i]] == 1);
    }
    assert forall|i: int| 0 <= i < chain.len() - 1 implies has_edge(
        g,
        node_id(ns[#[trigger] chain[i + 1]]),
        node_id(ns[chain[i]]),
    ) by {
        assert(chain1[i + 1] == chain[i + 1] && chain1[i] == chain[i]);
    }
}

/// Finishing `u` appends its id, after everything it depends on.
#[verifier::rlimit(40)]
proof fn lemma_out_push(
    ns: Seq<DecisionNode>,
    g: Seq<Requirement>,
    s2: Seq<u8>,
    s3: Seq<u8>,
    old_out: Seq<Seq<char>>,
    out: Seq<Seq<char>>,
    u: int,
)
    requires
        s2.len() == ns.len(),
        0 <= u < s2.len(),
        s2[u] == 1,
        s3 == s2.update(u, 2),
        out_ok(ns, g, s2, old_out),
        out == old_out.push(node_id(ns[u])),
        forall|k: int| 0 <= k < ns.len() && node_id(#[trigger] ns[k]) == node_id(ns[u]) ==> k == u,
        forall|jj: int|
            0 <= jj < g.len() && (#[trigger] g[jj]).target_id@ == node_id(ns[u]) ==> id_done(ns, s2, g[jj].source_id@),
    ensures
        out_ok(ns, g, s3, out),
{
    reveal(out_ok);
    lemma_count_eq_update(s2, u, 2, 2);
    assert forall|i: int| 0 <= i < old_out.len() implies #[trigger] old_out[i] != node_id(ns[u]) by {
        assert(id_done(ns, s2, old_out[i]));
        let k = choose|k: int| 0 <= k < s2.len() && s2[k] == 2 && node_id(ns[k]) == old_out[i];
        assert(k != u);
    }
    assert forall|i: int| 0 <= i < out.len() implies #[trigger] id_done(ns, s3, out[i]) by {
        if i < old_out.len() {
            assert(out[i] == old_out[i]);
            assert(id_done(ns, s2, old_out[i]));
            let k = choose|k: int| 0 <= k < s2.len() && s2[k] == 2 && node_id(ns[k]) == old_out[i];
            assert(s3[k] == 2);
        } else {
            assert(s3[u] == 2);
        }
    }
    assert forall|k: int| 0 <= k < s3.len() && #[trigger] s3[k] == 2 implies listed_before(
        out,
        out.len() as int,
        node_id(ns[k]),
    ) by {
        if k == u {
            assert(out[old_out.len() as int] == node_id(ns[k]));
        } else {
            assert(s2[k] == 2);
            assert(listed_before(old_out, old_out.len() as int, node_id(ns[k])));
            let i = choose|i: int| 0 <= i < old_out.len() && old_out[i] == node_id(ns[k]);
            assert(out[i] == old_out[i]);
        }
    }
    assert forall|i: int, j2: int| 0 <= i < j2 < out.len() implies #[trigger] out[i] != #[trigger] out[j2] by {
        if j2 < old_out.len() {
            assert(out[i] == old_out[i] && out[j2] == old_out[j2]);
        } else {
            assert(out[i] == old_out[i]);
        }
    }
    assert forall|i: int, jj: int|
        0 <= i < out.len() && 0 <= jj < g.len() && #[trigger] g[jj].target_id@ == #[trigger] out[i] implies listed_before(
        out,
        i,
        g[jj].source_id@,
    ) by {
        if i < old_out.len() {
            assert(out[i] == old_out[i]);
            assert(listed_before(old_out, i, g[jj].source_id@));
            let j2 = choose|j2: int| 0 <= j2 < i && old_out[j2] == g[jj].source_id@;
            assert(out[j2] == old_out[j2]);
        } else {
            assert(id_done(ns, s2, g[jj].source_id@));
            let k = choose|k: int| 0 <= k < s2.len() && s2[k] == 2 && node_id(ns[k]) == g[jj].source_id@;
            assert(listed_before(old_out, old_out.len() as int, node_id(ns[k])));
            let j2 = choose|j2: int| 0 <= j2 < old_out.len() && old_out[j2] == node_id(ns[k]);
            assert(out[j2] == old_out[j2]);
        }
    }
}

proof fn lemma_count_eq_zero(v: Seq<u8>, x: u8)
    requires
        forall|k: int| 0 <= k < v.len() ==> v[k] != x,
    ensures
        count_eq(v, x) == 0,
    decreases v.len(),
{
    if v.len() > 0 {
        lemma_count_eq_zero(v.drop_last(), x);
    }
}

/// Every stacked index is a node that can be reached from `target`.
#[verifier::opaque]
pub open spec fn stack_ok(ns: Seq<DecisionNode>, g: Seq<Requirement>, target: Seq<char>, stack: Seq<usize>) -> bool {
    forall|k: int|
        0 <= k < stack.len() ==> (#[trigger] stack[k]) < ns.len() && reaches(g, target, node_id(ns[stack[k] as int]))
}

/// Every seen node can be reached from `target` and is not `source`.
#[verifier::opaque]
pub open spec fn seen_ok(
    ns: Seq<DecisionNode>,
    g: Seq<Requirement>,
    target: Seq<char>,
    source: Seq<char>,
    visited: Seq<bool>,
) -> bool {
    forall|k: int|
        0 <= k < visited.len() && #[trigger] visited[k] ==> reaches(g, target, node_id(ns[k])) && node_id(ns[k])
            != source
}

/// What a seen node leads to has been seen or is on the stack.
#[verifier::opaque]
pub open spec fn closed(ns: Seq<DecisionNode>, g: Seq<Requirement>, visited: Seq<bool>, stack: Seq<usize>) -> bool {
    forall|k: int, j: int|
        0 <= k < visited.len() && #[trigger] visited[k] && 0 <= j < g.len() && #[trigger] g[j].source_id@
            == node_id(ns[k]) ==> exists|m: int|
            0 <= m < visited.len() && node_id(ns[m]) == g[j].target_id@ && (visited[m] || on_stack(stack, m))
}

proof fn lemma_contains_after_pop(full: Seq<usize>, rest: Seq<usize>, u: usize, x: int)
    requires
        full == rest.push(u),
        on_stack(full, x),
        x != u as int,
    ensures
        on_stack(rest, x),
{
    let q = choose|q: int| 0 <= q < full.len() && full[q] as int == x;
    assert(rest[q] as int == x);
}

proof fn lemma_pop(
    ns: Seq<DecisionNode>,
    g: Seq<Requirement>,
    target: Seq<char>,
    visited: Seq<bool>,
    full: Seq<usize>,
    rest: Seq<usize>,
    u: usize,
)
    requires
        stack_ok(ns, g, target, full),
        full == rest.push(u),
    ensures
        stack_ok(ns, g, target, rest),
        u < ns.len(),
        reaches(g, target, node_id(ns[u as int])),
{
    reveal(stack_ok);
    assert(full[full.len() - 1] == u);
    assert forall|k: int| 0 <= k < rest.len() implies (#[trigger] rest[k]) < ns.len() && reaches(
        g,
        target,
        node_id(ns[rest[k] as int]),
    ) by {
        assert(rest[k] == full[k]);
    }
}

proof fn lemma_pop_seen(
    ns: Seq<DecisionNode>,
    g: Seq<Requirement>,
    visited: Seq<bool>,
    full: Seq<usize>,
    rest: Seq<usize>,
    u: usize,
)
    requires
        closed(ns, g, visited, full),
        full == rest.push(u),
        0 <= u < visited.len(),
        visited[u as int],
    ensures
        closed(ns, g, visited, rest),
{
    reveal(closed);
    assert forall|k: int, j: int|
        0 <= k < visited.len() && #[trigger] visited[k] && 0 <= j < g.len() && #[trigger] g[j].source_id@
            == node_id(ns[k]) implies exists|m: int|
            0 <= m < visited.len() && node_id(ns[m]) == g[j].target_id@ && (visited[m] || on_stack(rest, m)) by {
        let m = choose|m: int|
            0 <= m < visited.len() && node_id(ns[m]) == g[j].target_id@ && (visited[m] || on_stack(full, m));
        if !visited[m] {
            lemma_contains_after_pop(full, rest, u, m);
        }
    }
}

proof fn lemma_expand(
    ns: Seq<DecisionNode>,
    g: Seq<Requirement>,
    target: Seq<char>,
    source: Seq<char>,
    before: Seq<bool>,
    visited: Seq<bool>,
    full: Seq<usize>,
    base: Seq<usize>,
    stack: Seq<usize>,
    u: usize,
)
    requires
        closed(ns, g, before, full),
        seen_ok(ns, g, target, source, before),
        before.len() == ns.len(),
        u < before.len(),
        visited == before.update(u as int, true),
        reaches(g, target, node_id(ns[u as int])),
        node_id(ns[u as int]) != source,
        full == base.push(u),
        stack.len() >= base.len(),
        forall|k: int| 0 <= k < base.len() ==> #[trigger] stack[k] == base[k],
        forall|jj: int|
            0 <= jj < g.len() && #[trigger] g[jj].source_id@ == node_id(ns[u as int]) ==> exists|m: int|
                0 <= m < ns.len() && node_id(ns[m]) == g[jj].target_id@ && on_stack(stack, m),
    ensures
        closed(ns, g, visited, stack),
        seen_ok(ns, g, target, source, visited),
{
    reveal(closed);
    reveal(seen_ok);
    assert forall|k: int, j: int|
        0 <= k < visited.len() && #[trigger] visited[k] && 0 <= j < g.len() && #[trigger] g[j].source_id@
            == node_id(ns[k]) implies exists|m: int|
            0 <= m < visited.len() && node_id(ns[m]) == g[j].target_id@ && (visited[m] || on_stack(stack, m)) by {
        if k == u as int {
            let m = choose|m: int| 0 <= m < ns.len() && node_id(ns[m]) == g[j].target_id@ && on_stack(stack, m);
            assert(node_id(ns[m]) == g[j].target_id@ && on_stack(stack, m));
        } else {
            assert(before[k]);
            let m = choose|m: int|
                0 <= m < before.len() && node_id(ns[m]) == g[j].target_id@ && (before[m] || on_stack(full, m));
            if before[m] {
                assert(visited[m]);
            } else if m == u as int {
                assert(visited[m]);
            } else {
                lemma_contains_after_pop(full, base, u, m);
                let q = choose|q: int| 0 <= q < base.len() && base[q] as int == m;
                assert(stack[q] as int == m);
            }
        }
    }
    assert forall|k: int|
        0 <= k < visited.len() && #[trigger] visited[k] implies reaches(g, target, node_id(ns[k])) && node_id(ns[k])
            != source by {
        if k != u as int {
            assert(before[k]);
        }
    }
}

/// Number of `true` entries.
pub open spec fn count_true(v: Seq<bool>) -> nat
    decreases v.len(),
{
    if v.len() == 0 {
        0
    } else {
        count_true(v.drop_last()) + if v.last() { 1nat } else { 0nat }
    }
}

proof fn lemma_count_true_set(v: Seq<bool>, i: int)
    requires
        0 <= i < v.len(),
        !v[i],
    ensures
        count_true(v.update(i, true)) == count_true(v) + 1,
        count_true(v) < v.len(),
    decreases v.len(),
{
    if i == v.len() - 1 {
        assert(v.update(i, true).drop_last() =~= v.drop_last());
        lemma_count_true_le(v.drop_last());
    } else {
        lemma_count_true_set(v.drop_last(), i);
        assert(v.update(i, true).drop_last() =~= v.drop_last().update(i, true));
    }
}

proof fn lemma_count_true_none(v: Seq<bool>)
    requires
        forall|k: int| 0 <= k < v.len() ==> !v[k],
    ensures
        count_true(v) == 0,
    decreases v.len(),
{
    if v.len() > 0 {
        lemma_count_true_none(v.drop_last());
    }
}

proof fn lemma_count_true_le(v: Seq<bool>)
    ensures
        count_true(v) <= v.len(),
    decreases v.len(),
{
    if v.len() > 0 {
        lemma_count_true_le(v.drop_last());
    }
}

proof fn lemma_closed_set_covers(
    g: &DecisionGraph,
    visited: Seq<bool>,
    target: Seq<char>,
    source: Seq<char>,
    start: int,
)
    requires
        g.wf(),
        visited.len() == g.node_seq().len(),
        0 <= start < visited.len(),
        node_id(g.node_seq()[start]) == target,
        visited[start],
        forall|k: int| 0 <= k < visited.len() && #[trigger] visited[k] ==> node_id(g.node_seq()[k]) != source,
        forall|k: int, j: int|
            0 <= k < visited.len() && #[trigger] visited[k] && 0 <= j < g.req_seq().len()
                && #[trigger] g.req_seq()[j].source_id@ == node_id(g.node_seq()[k]) ==> exists|m: int|
                0 <= m < visited.len() && node_id(g.node_seq()[m]) == g.req_seq()[j].target_id@ && visited[m],
    ensures
        !reaches(g.req_seq(), target, source),
{
    if reaches(g.req_seq(), target, source) {
        let p = choose|p: Seq<Seq<char>>| #[trigger] is_path(g.req_seq(), p) && p[0] == target && p.last() == source;
        lemma_walk_stays_visited(g, visited, p, p.len() as int, start);
    }
}

proof fn lemma_walk_stays_visited(g: &DecisionGraph, visited: Seq<bool>, p: Seq<Seq<char>>, n: int, start: int)
    requires
        g.wf(),
        visited.len() == g.node_seq().len(),
        is_path(g.req_seq(), p),
        1 <= n <= p.len(),
        0 <= start < visited.len(),
        node_id(g.node_seq()[start]) == p[0],
        visited[start],
        forall|k: int, j: int|
            0 <= k < visited.len() && #[trigger] visited[k] && 0 <= j < g.req_seq().len()
                && #[trigger] g.req_seq()[j].source_id@ == node_id(g.node_seq()[k]) ==> exists|m: int|
                0 <= m < visited.len() && node_id(g.node_seq()[m]) == g.req_seq()[j].target_id@ && visited[m],
    ensures
        exists|m: int| 0 <= m < visited.len() && visited[m] && node_id(g.node_seq()[m]) == p[n - 1],
    decreases n,
{
    if n == 1 {
        assert(visited[start]);
    } else {
        lemma_walk_stays_visited(g, visited, p, n - 1, start);
        let k = choose|m: int| 0 <= m < visited.len() && visited[m] && node_id(g.node_seq()[m]) == p[n - 2];
        assert(has_edge(g.req_seq(), p[n - 2], p[n - 1]));
        let j = choose|j: int| 0 <= j < g.req_seq().len() && (#[trigger] g.req_seq()[j]).source_id@ == p[n - 2] && g.req_seq()[j].target_id@ == p[n - 1];
        assert(visited[k] && g.req_seq()[j].source_id@ == node_id(g.node_seq()[k]));
    }
}


/// The ids of nodes, in order.
pub open spec fn node_ids(ns: Seq<DecisionNode>) -> Seq<Seq<char>> {
    ns.map_values(|n: DecisionNode| node_id(n))
}

/// A topological order of a graph whose node ids are distinct lists every
/// node id: together with its length and its distinct entries, it is a
/// permutation of the graph's node ids.
pub proof fn lemma_topological_order_lists_every_node(
    ns: Seq<DecisionNode>,
    reqs: Seq<Requirement>,
    order: Seq<Seq<char>>,
)
    requires
        forall|i: int, j: int| 0 <= i < j < ns.len() ==> node_id(#[trigger] ns[i]) != node_id(#[trigger] ns[j]),
        is_topological_order(ns, reqs, order),
    ensures
        forall|k: int| 0 <= k < ns.len() ==> order.contains(node_id(#[trigger] ns[k])),
        order.to_set() == node_ids(ns).to_set(),
{
    let ids = node_ids(ns);
    assert(ids.no_duplicates()) by {
        assert forall|i: int, j: int| 0 <= i < ids.len() && 0 <= j < ids.len() && i != j implies ids[i] != ids[j] by {
            if i < j {
                assert(node_id(ns[i]) != node_id(ns[j]));
            } else {
                assert(node_id(ns[j]) != node_id(ns[i]));
            }
        }
    }
    assert(order.no_duplicates()) by {
        assert forall|i: int, j: int| 0 <= i < order.len() && 0 <= j < order.len() && i != j implies order[i]
            != order[j] by {
            if i < j {
                assert(order[i] != order[j]);
            } else {
                assert(order[j] != order[i]);
            }
        }
    }
    ids.unique_seq_to_set();
    order.unique_seq_to_set();
    let os = order.to_set();
    let is = ids.to_set();
    assert(os.subset_of(is)) by {
        assert forall|x: Seq<char>| os.contains(x) implies is.contains(x) by {
            let i = choose|i: int| 0 <= i < order.len() && order[i] == x;
            assert(has_node(ns, order[i]));
            let k = choose|k: int| 0 <= k < ns.len() && node_id(#[trigger] ns[k]) == order[i];
            assert(ids[k] == x);
        }
    }
    vstd::set_lib::lemma_len_subset(os, is);
    assert forall|k: int| 0 <= k < ns.len() implies order.contains(node_id(#[trigger] ns[k])) by {
        let x = node_id(ns[k]);
        assert(ids[k] == x);
        if !order.contains(x) {
            assert(os.subset_of(is.remove(x))) by {
                assert forall|y: Seq<char>| os.contains(y) implies is.remove(x).contains(y) by {
                    if y == x {
                        let i = choose|i: int| 0 <= i < order.len() && order[i] == y;
                        assert(order.contains(x));
                    }
                }
            }
            vstd::set_lib::lemma_len_subset(os, is.remove(x));
            assert(is.contains(x));
        }
    }
    assert(os =~= is) by {
        assert forall|x: Seq<char>| is.contains(x) implies os.contains(x) by {
            let k = choose|k: int| 0 <= k < ids.len() && ids[k] == x;
            assert(order.contains(node_id(ns[k])));
        }
    }
}


/// The nodes after `add_node(n)` on nodes `ns`: `n` appended when no node
/// has its id, else unchanged.
pub open spec fn node_added(ns: Seq<DecisionNode>, n: DecisionNode) -> Seq<DecisionNode> {
    if has_node(ns, node_id(n)) {
        ns
    } else {
        ns.push(n)
    }
}

/// The nodes of an empty graph after `add_node` of each of `adds` in turn.
pub open spec fn nodes_after(adds: Seq<DecisionNode>) -> Seq<DecisionNode>
    decreases adds.len(),
{
    if adds.len() == 0 {
        Seq::empty()
    } else {
        node_added(nodes_after(adds.drop_last()), adds.last())
    }
}

/// The `j`-th add is the first with its id: no earlier add had that id.
pub open spec fn first_with_its_id(adds: Seq<DecisionNode>, j: int) -> bool {
    forall|i: int| 0 <= i < j ==> node_id(#[trigger] adds[i]) != node_id(adds[j])
}

/// How many of `adds` are the first with their id.
pub open spec fn first_ids_count(adds: Seq<DecisionNode>) -> nat
    decreases adds.len(),
{
    if adds.len() == 0 {
        0
    } else {
        first_ids_count(adds.drop_last()) + if first_with_its_id(adds, adds.len() - 1) {
            1nat
        } else {
            0nat
        }
    }
}

/// Adding nodes one by one to an empty graph: an add succeeds exactly when
/// no earlier add had the node's id; the graph then holds, in order, just the
/// nodes of the adds that succeeded, so as many nodes as successful adds,
/// with distinct ids, and every id that was added.
pub proof fn lemma_nodes_after_adds(adds: Seq<DecisionNode>)
    ensures
        nodes_after(adds).len() == first_ids_count(adds),
        forall|i: int, j: int|
            0 <= i < j < nodes_after(adds).len() ==> node_id(#[trigger] nodes_after(adds)[i]) != node_id(
                #[trigger] nodes_after(adds)[j],
            ),
        forall|j: int| 0 <= j < adds.len() ==> has_node(nodes_after(adds), node_id(#[trigger] adds[j])),
        forall|k: int|
            0 <= k < nodes_after(adds).len() ==> exists|j: int|
                0 <= j < adds.len() && #[trigger] nodes_after(adds)[k] == adds[j] && first_with_its_id(adds, j),
        adds.len() > 0 ==> (!has_node(nodes_after(adds.drop_last()), node_id(adds.last())) <==> first_with_its_id(
            adds,
            adds.len() - 1,
        )),
    decreases adds.len(),
{
    if adds.len() > 0 {
        let pre = adds.drop_last();
        let last = adds.last();
        let n = adds.len() - 1;
        lemma_nodes_after_adds(pre);
        let before = nodes_after(pre);
        assert(has_node(before, node_id(last)) <==> !first_with_its_id(adds, n)) by {
            if has_node(before, node_id(last)) {
                let k = choose|k: int| 0 <= k < before.len() && node_id(#[trigger] before[k]) == node_id(last);
                let j = choose|j: int| 0 <= j < pre.len() && #[trigger] before[k] == pre[j] && first_with_its_id(pre, j);
                assert(adds[j] == pre[j]);
                assert(node_id(adds[j]) == node_id(adds[n]));
            }
            if !first_with_its_id(adds, n) {
                let i = choose|i: int| 0 <= i < n && node_id(#[trigger] adds[i]) == node_id(adds[n]);
                assert(pre[i] == adds[i]);
                assert(has_node(before, node_id(pre[i])));
            }
        }
        let after = nodes_after(adds);
        assert forall|j: int| 0 <= j < pre.len() implies #[trigger] first_with_its_id(pre, j) == first_with_its_id(adds, j) by {
            assert forall|i: int| 0 <= i < j implies pre[i] == adds[i] by {}
            assert(pre[j] == adds[j]);
        }
        if first_with_its_id(adds, n) {
            assert(after == before.push(last));
            assert forall|i: int, j: int| 0 <= i < j < after.len() implies node_id(#[trigger] after[i]) != node_id(
                #[trigger] after[j],
            ) by {
                if j == before.len() {
                    assert(after[i] == before[i]);
                    if node_id(before[i]) == node_id(last) {
                        assert(has_node(before, node_id(last)));
                    }
                } else {
                    assert(after[i] == before[i] && after[j] == before[j]);
                }
            }
            assert forall|k: int| 0 <= k < after.len() implies exists|j: int|
                0 <= j < adds.len() && #[trigger] after[k] == adds[j] && first_with_its_id(adds, j) by {
                if k == before.len() {
                    assert(after[k] == adds[n]);
                } else {
                    assert(after[k] == before[k]);
                    let j = choose|j: int| 0 <= j < pre.len() && #[trigger] before[k] == pre[j] && first_with_its_id(pre, j);
                    assert(adds[j] == pre[j]);
                    assert(first_with_its_id(adds, j));
                }
            }
            assert forall|j: int| 0 <= j < adds.len() implies has_node(after, node_id(#[trigger] adds[j])) by {
                if j == n {
                    assert(node_id(after[before.len() as int]) == node_id(adds[j]));
                } else {
                    assert(adds[j] == pre[j]);
                    assert(has_node(before, node_id(pre[j])));
                    let k = choose|k: int| 0 <= k < before.len() && node_id(#[trigger] before[k]) == node_id(pre[j]);
                    assert(after[k] == before[k]);
                }
            }
        } else {
            assert(after == before);
            assert forall|k: int| 0 <= k < after.len() implies exists|j: int|
                0 <= j < adds.len() && #[trigger] after[k] == adds[j] && first_with_its_id(adds, j) by {
                let j = choose|j: int| 0 <= j < pre.len() && #[trigger] before[k] == pre[j] && first_with_its_id(pre, j);
                assert(adds[j] == pre[j]);
                assert(first_with_its_id(adds, j));
            }
            assert forall|j: int| 0 <= j < adds.len() implies has_node(after, node_id(#[trigger] adds[j])) by {
                if j < n {
                    assert(adds[j] == pre[j]);
                }
            }
        }
    }
}


/// Requirement `j` of `reqs` can be added over the nodes `ns` once those
/// before it are in: both its nodes exist and its target does not already
/// lead to its source.
pub open spec fn requirement_fits(ns: Seq<DecisionNode>, reqs: Seq<Requirement>, j: int) -> bool {
    &&& has_node(ns, reqs[j].source_id@)
    &&& has_node(ns, reqs[j].target_id@)
    &&& !reaches(reqs.take(j), reqs[j].target_id@, reqs[j].source_id@)
}

/// `e` is the error `add_requirement` gives for requirement `j` of `reqs`
/// over the nodes `ns` when it does not fit.
pub open spec fn requirement_error(ns: Seq<DecisionNode>, reqs: Seq<Requirement>, j: int, e: DmnError) -> bool {
    let s = reqs[j].source_id@;
    let t = reqs[j].target_id@;
    if !has_node(ns, s) {
        e is InvalidDecisionGraph && dmn_error_detail(e) == "Source node "@ + s + " not found"@
    } else if !has_node(ns, t) {
        e is InvalidDecisionGraph && dmn_error_detail(e) == "Target node "@ + t + " not found"@
    } else {
        e is CircularDependency && dmn_error_detail(e) == "Adding requirement "@ + s + " -> "@ + t
            + " would create a cycle"@
    }
}

/// `x` and `y` have the same edges.
pub open spec fn same_edges(x: Seq<Requirement>, y: Seq<Requirement>) -> bool {
    forall|a: Seq<char>, b: Seq<char>| has_edge(x, a, b) <==> has_edge(y, a, b)
}

proof fn lemma_same_edges_reach(x: Seq<Requirement>, y: Seq<Requirement>, a: Seq<char>, b: Seq<char>)
    requires
        same_edges(x, y),
    ensures
        reaches(x, a, b) == reaches(y, a, b),
{
    assert forall|p: Seq<Seq<char>>| #[trigger] is_path(x, p) == is_path(y, p) by {
        if is_path(x, p) {
            assert forall|i: int| 0 <= i < p.len() - 1 implies has_edge(y, #[trigger] p[i], p[i + 1]) by {
                assert(has_edge(x, p[i], p[i + 1]));
            }
        }
        if is_path(y, p) {
            assert forall|i: int| 0 <= i < p.len() - 1 implies has_edge(x, #[trigger] p[i], p[i + 1]) by {
                assert(has_edge(y, p[i], p[i + 1]));
            }
        }
    }
    if reaches(x, a, b) {
        let p = choose|p: Seq<Seq<char>>| #[trigger] is_path(x, p) && p[0] == a && p.last() == b;
        assert(is_path(y, p));
    }
    if reaches(y, a, b) {
        let p = choose|p: Seq<Seq<char>>| #[trigger] is_path(y, p) && p[0] == a && p.last() == b;
        assert(is_path(x, p));
    }
}

impl DecisionGraph {
    /// The graph with id `id` made of `nodes` and `requirements`, each added
    /// in order as `add_node` and `add_requirement` would: the first node
    /// whose id an earlier node has, or else the first requirement that does
    /// not fit, is refused with the error those give; otherwise the graph
    /// holds the nodes in order and the requirements' edges.
    pub fn from_parts(id: &str, nodes: Vec<DecisionNode>, requirements: Vec<Requirement>) -> (r: DmnResult<DecisionGraph>)
        ensures
            r is Ok <==> (forall|j: int| 0 <= j < nodes@.len() ==> #[trigger] first_with_its_id(nodes@, j))
                && (forall|j: int| 0 <= j < requirements@.len() ==> #[trigger] requirement_fits(nodes@, requirements@, j)),
            forall|j: int|
                0 <= j < nodes@.len() && !#[trigger] first_with_its_id(nodes@, j) && (forall|i: int|
                    0 <= i < j ==> first_with_its_id(nodes@, i)) ==> (r matches Err(e) && e is InvalidDecisionGraph
                    && dmn_error_detail(e) == "Node "@ + node_id(nodes@[j]) + " already exists"@),
            forall|j: int|
                (forall|k: int| 0 <= k < nodes@.len() ==> first_with_its_id(nodes@, k)) && 0 <= j < requirements@.len()
                    && !#[trigger] requirement_fits(nodes@, requirements@, j) && (forall|i: int|
                    0 <= i < j ==> requirement_fits(nodes@, requirements@, i)) ==> (r matches Err(e)
                    && requirement_error(nodes@, requirements@, j, e)),
            r matches Ok(g) ==> g.wf() && g.graph_id()@ == id@ && g.node_seq() == nodes@ && same_edges(
                g.req_seq(),
                requirements@,
            ),
    {
        let ghost ns = nodes@;
        let ghost rs = requirements@;
        let mut g = DecisionGraph::new(id);
        let mut rest = nodes;
        let n_total = rest.len();
        let mut k: usize = 0;
        while rest.len() > 0
            invariant
                ns == nodes@,
                rs == requirements@,
                ns.len() == n_total,
                g.wf(),
                g.graph_id()@ == id@,
                g.req_seq().len() == 0,
                k + rest@.len() == ns.len(),
                g.node_seq() == ns.take(k as int),
                rest@ == ns.skip(k as int),
                forall|i: int| 0 <= i < k ==> first_with_its_id(ns, i),
            decreases rest@.len(),
        {
            assert(k < ns.len());
            let node = rest.remove(0);
            assert(node == ns[k as int]);
            let ghost before = g.node_seq();
            let ghost prev_rest = rest@;
            match g.add_node(node) {
                Ok(()) => {
                    proof {
                        assert(!has_node(before, node_id(ns[k as int])));
                        assert(first_with_its_id(ns, k as int)) by {
                            assert forall|i: int| 0 <= i < k implies node_id(#[trigger] ns[i]) != node_id(ns[k as int]) by {
                                assert(before[i] == ns[i]);
                            }
                        }
                        assert(g.node_seq() =~= ns.take(k + 1));
                        assert(rest@ =~= ns.skip(k + 1));
                    }
                    k = k + 1;
                },
                Err(e) => {
                    proof {
                        let w = choose|w: int| 0 <= w < before.len() && node_id(#[trigger] before[w]) == node_id(ns[k as int]);
                        assert(before[w] == ns[w]);
                        assert(!first_with_its_id(ns, k as int));
                        assert(!first_with_its_id(nodes@, k as int));
                        assert(!(forall|j: int| 0 <= j < nodes@.len() ==> #[trigger] first_with_its_id(nodes@, j)));
                        assert forall|j: int|
                            0 <= j < ns.len() && !#[trigger] first_with_its_id(ns, j) && (forall|i: int|
                                0 <= i < j ==> first_with_its_id(ns, i)) implies j == k by {
                            if j < k {
                            } else if j > k {
                                assert(first_with_its_id(ns, k as int));
                            }
                        }
                    }
                    return Err(e);
                },
            }
        }
        proof {
            assert(g.node_seq() =~= ns);
        }
        let mut reqs = requirements;
        let r_total = reqs.len();
        let mut m: usize = 0;
        while reqs.len() > 0
            invariant
                ns == nodes@,
                rs == requirements@,
                rs.len() == r_total,
                g.wf(),
                g.graph_id()@ == id@,
                g.node_seq() == ns,
                forall|i: int| 0 <= i < ns.len() ==> first_with_its_id(ns, i),
                m + reqs@.len() == rs.len(),
                reqs@ == rs.skip(m as int),
                same_edges(g.req_seq(), rs.take(m as int)),
                forall|i: int| 0 <= i < m ==> requirement_fits(ns, rs, i),
            decreases reqs@.len(),
        {
            assert(m < rs.len());
            let req = reqs.remove(0);
            assert(req == rs[m as int]);
            let ghost before = g.req_seq();
            proof {
                lemma_same_edges_reach(before, rs.take(m as int), req.target_id@, req.source_id@);
            }
            let Requirement { source_id, target_id } = req;
            match g.add_requirement(source_id, target_id) {
                Ok(()) => {
                    proof {
                        assert(requirement_fits(ns, rs, m as int));
                        let t1 = rs.take(m + 1);
                        assert(t1 =~= rs.take(m as int).push(rs[m as int]));
                        assert forall|a: Seq<char>, b: Seq<char>| has_edge(g.req_seq(), a, b) <==> has_edge(t1, a, b) by {
                            if has_edge(g.req_seq(), a, b) {
                                let j = choose|j: int| 0 <= j < g.req_seq().len() && (#[trigger] g.req_seq()[j]).source_id@ == a
                                    && g.req_seq()[j].target_id@ == b;
                                if j < before.len() && g.req_seq()[j] == before[j] {
                                    assert(has_edge(before, a, b));
                                    assert(has_edge(rs.take(m as int), a, b));
                                    let q = choose|q: int| 0 <= q < m && (#[trigger] rs.take(m as int)[q]).source_id@ == a
                                        && rs.take(m as int)[q].target_id@ == b;
                                    assert(t1[q] == rs.take(m as int)[q]);
                                } else {
                                    assert(t1[m as int] == rs[m as int]);
                                }
                            }
                            if has_edge(t1, a, b) {
                                let q = choose|q: int| 0 <= q < t1.len() && (#[trigger] t1[q]).source_id@ == a && t1[q].target_id@ == b;
                                if q < m {
                                    assert(t1[q] == rs.take(m as int)[q]);
                                    assert(has_edge(rs.take(m as int), a, b));
                                    assert(has_edge(before, a, b));
                                    let j = choose|j: int| 0 <= j < before.len() && (#[trigger] before[j]).source_id@ == a
                                        && before[j].target_id@ == b;
                                    if has_requirement(before, rs[m as int]) {
                                    } else {
                                        assert(g.req_seq()[j] == before[j]);
                                    }
                                } else {
                                    assert(has_edge(g.req_seq(), rs[m as int].source_id@, rs[m as int].target_id@));
                                }
                            }
                        }
                        assert(reqs@ =~= rs.skip(m + 1));
                    }
                    m = m + 1;
                },
                Err(e) => {
                    proof {
                        assert(!requirement_fits(ns, rs, m as int));
                        assert(!requirement_fits(nodes@, requirements@, m as int));
                        assert(!(forall|j: int| 0 <= j < requirements@.len() ==> #[trigger] requirement_fits(
                            nodes@,
                            requirements@,
                            j,
                        )));
                        assert(requirement_error(ns, rs, m as int, e));
                        assert forall|j: int|
                            0 <= j < rs.len() && !#[trigger] requirement_fits(ns, rs, j) && (forall|i: int|
                                0 <= i < j ==> requirement_fits(ns, rs, i)) implies j == m by {
                            if j > m {
                                assert(requirement_fits(ns, rs, m as int));
                            }
                        }
                    }
                    return Err(e);
                },
            }
        }
        proof {
            assert(rs.take(m as int) =~= rs);
        }
        Ok(g)
    }
}


proof fn lemma_states_follow_adds(states: Seq<Seq<DecisionNode>>, adds: Seq<DecisionNode>)
    requires
        states.len() == adds.len() + 1,
        states[0].len() == 0,
        forall|i: int| 0 <= i < adds.len() ==> #[trigger] states[i + 1] == node_added(states[i], adds[i]),
    ensures
        forall|k: int| 0 <= k <= adds.len() ==> #[trigger] states[k] == nodes_after(adds.take(k)),
    decreases adds.len(),
{
    if adds.len() == 0 {
        assert(states[0] =~= nodes_after(adds.take(0)));
    } else {
        let n = adds.len() - 1;
        let pre = adds.drop_last();
        let sp = states.drop_last();
        assert forall|i: int| 0 <= i < pre.len() implies #[trigger] sp[i + 1] == node_added(sp[i], pre[i]) by {
            assert(sp[i + 1] == states[i + 1] && sp[i] == states[i] && pre[i] == adds[i]);
        }
        lemma_states_follow_adds(sp, pre);
        assert forall|k: int| 0 <= k <= adds.len() implies #[trigger] states[k] == nodes_after(adds.take(k)) by {
            if k <= n {
                assert(sp[k] == states[k]);
                assert(pre.take(k) =~= adds.take(k));
            } else {
                assert(sp[n] == states[n]);
                assert(pre.take(n) =~= adds.take(n));
                assert(adds.take(k).drop_last() =~= adds.take(n));
                assert(adds.take(k).last() == adds[n]);
            }
        }
    }
}

proof fn lemma_first_ids_count(adds: Seq<DecisionNode>, oks: Seq<bool>)
    requires
        oks.len() == adds.len(),
        forall|i: int| 0 <= i < adds.len() ==> #[trigger] oks[i] == first_with_its_id(adds, i),
    ensures
        first_ids_count(adds) == count_true(oks),
    decreases adds.len(),
{
    if adds.len() > 0 {
        let pre = adds.drop_last();
        assert forall|i: int| 0 <= i < pre.len() implies #[trigger] oks.drop_last()[i] == first_with_its_id(pre, i) by {
            assert forall|q: int| 0 <= q < i implies pre[q] == adds[q] by {}
            assert(pre[i] == adds[i]);
            assert(oks.drop_last()[i] == oks[i]);
        }
        lemma_first_ids_count(pre, oks.drop_last());
    }
}

/// A graph built from an empty one by `add_node` of each of `adds` in turn,
/// `states[i]` its nodes before add `i` and `oks[i]` whether that add
/// succeeded, as `add_node` states: an add succeeds exactly when no earlier
/// add had the node's id, and the graph ends with the nodes of the adds that
/// succeeded, as many as there were, with distinct ids, every id that was
/// added among them.
pub proof fn lemma_graph_built_by_adds(states: Seq<Seq<DecisionNode>>, adds: Seq<DecisionNode>, oks: Seq<bool>)
    requires
        states.len() == adds.len() + 1,
        oks.len() == adds.len(),
        states[0].len() == 0,
        forall|i: int| 0 <= i < adds.len() ==> #[trigger] states[i + 1] == node_added(states[i], adds[i]),
        forall|i: int| 0 <= i < adds.len() ==> #[trigger] oks[i] == !has_node(states[i], node_id(adds[i])),
    ensures
        states.last() == nodes_after(adds),
        forall|i: int| 0 <= i < adds.len() ==> #[trigger] oks[i] == first_with_its_id(adds, i),
        states.last().len() == count_true(oks),
        forall|i: int, j: int|
            0 <= i < j < states.last().len() ==> node_id(#[trigger] states.last()[i]) != node_id(
                #[trigger] states.last()[j],
            ),
        forall|j: int| 0 <= j < adds.len() ==> has_node(states.last(), node_id(#[trigger] adds[j])),
        forall|k: int|
            0 <= k < states.last().len() ==> exists|j: int|
                0 <= j < adds.len() && oks[j] && #[trigger] states.last()[k] == adds[j],
{
    lemma_states_follow_adds(states, adds);
    assert(adds.take(adds.len() as int) =~= adds);
    assert(states.last() == states[adds.len() as int]);
    assert forall|i: int| 0 <= i < adds.len() implies #[trigger] oks[i] == first_with_its_id(adds, i) by {
        let t = adds.take(i + 1);
        lemma_nodes_after_adds(t);
        assert(t.drop_last() =~= adds.take(i));
        assert(states[i] == nodes_after(adds.take(i)));
        assert(t.last() == adds[i]);
        assert forall|q: int| 0 <= q < i implies t[q] == adds[q] by {}
        assert(first_with_its_id(t, i) == first_with_its_id(adds, i));
    }
    lemma_first_ids_count(adds, oks);
    lemma_nodes_after_adds(adds);
}

} // verus!
