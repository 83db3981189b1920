//! The node, event and task types that BPMN 2.0 workflow files may use.
use vstd::prelude::*;
use crate::text::{str_eq, joined};

verus! {

/// Valid BPMN node types, as BPMN 2.0 names them.
pub open spec fn node_types() -> Seq<Seq<char>> {
    seq![
        "startEvent"@, "endEvent"@, "intermediateCatchEvent"@, "intermediateThrowEvent"@,
        "boundaryEvent"@, "task"@, "serviceTask"@, "userTask"@, "manualTask"@, "scriptTask"@,
        "businessRuleTask"@, "sendTask"@, "receiveTask"@, "exclusiveGateway"@, "parallelGateway"@,
        "inclusiveGateway"@, "eventBasedGateway"@, "complexGateway"@, "subProcess"@,
        "callActivity"@, "transaction"@, "adHocSubProcess"@,
    ]
}

/// Valid event types of events.
pub open spec fn event_types() -> Seq<Seq<char>> {
    seq![
        "none"@, "message"@, "timer"@, "error"@, "escalation"@, "cancel"@, "compensation"@,
        "conditional"@, "link"@, "signal"@, "terminate"@, "multiple"@, "parallelMultiple"@,
    ]
}

/// Valid task types of service tasks.
pub open spec fn task_types() -> Seq<Seq<char>> {
    seq![
        "research"@, "design"@, "code_generation"@, "testing"@, "documentation"@,
        "integration"@, "debugging"@, "optimization"@, "deployment"@, "monitoring"@,
    ]
}

/// The views of a list of string slices.
pub open spec fn strs_view(v: Seq<&str>) -> Seq<Seq<char>> {
    v.map_values(|s: &str| s@)
}

/// Valid BPMN node types, as BPMN 2.0 names them.
pub fn valid_node_types() -> (v: Vec<&'static str>)
    ensures
        strs_view(v@) == node_types(),
{
    let v = vec![
        "startEvent", "endEvent", "intermediateCatchEvent", "intermediateThrowEvent",
        "boundaryEvent", "task", "serviceTask", "userTask", "manualTask", "scriptTask",
        "businessRuleTask", "sendTask", "receiveTask", "exclusiveGateway", "parallelGateway",
        "inclusiveGateway", "eventBasedGateway", "complexGateway", "subProcess",
        "callActivity", "transaction", "adHocSubProcess",
    ];
    assert(strs_view(v@) =~= node_types());
    v
}

/// Valid event types of events.
pub fn valid_event_types() -> (v: Vec<&'static str>)
    ensures
        strs_view(v@) == event_types(),
{
    let v = vec![
        "none", "message", "timer", "error", "escalation", "cancel", "compensation",
        "conditional", "link", "signal", "terminate", "multiple", "parallelMultiple",
    ];
    assert(strs_view(v@) =~= event_types());
    v
}

/// Valid task types of service tasks.
pub fn valid_task_types() -> (v: Vec<&'static str>)
    ensures
        strs_view(v@) == task_types(),
{
    let v = vec![
        "research", "design", "code_generation", "testing", "documentation", "integration",
        "debugging", "optimization", "deployment", "monitoring",
    ];
    assert(strs_view(v@) =~= task_types());
    v
}

/// Whether `s` is one of `list`.
pub fn one_of(list: &Vec<&'static str>, s: &str) -> (r: bool)
    ensures
        r == strs_view(list@).contains(s@),
{
    let mut i: usize = 0;
    while i < list.len()
        invariant
            i <= list.len(),
            forall|k: int| 0 <= k < i ==> (#[trigger] list@[k])@ != s@,
        decreases list.len() - i,
    {
        if str_eq(list[i], s) {
            assert(strs_view(list@)[i as int] == s@);
            return true;
        }
        i = i + 1;
    }
    assert forall|k: int| 0 <= k < strs_view(list@).len() implies strs_view(list@)[k] != s@ by {
        assert(strs_view(list@)[k] == list@[k]@);
    }
    false
}

/// The items of `list` separated by `sep`.
pub fn join(list: &Vec<&'static str>, sep: &str) -> (r: String)
    ensures
        r@ == joined(strs_view(list@), sep@),
{
    let mut r = String::new();
    let mut i: usize = 0;
    while i < list.len()
        invariant
            i <= list.len(),
            r@ == joined(strs_view(list@).take(i as int), sep@),
        decreases list.len() - i,
    {
        assert(strs_view(list@).take(i + 1).drop_last() =~= strs_view(list@).take(i as int));
        assert(strs_view(list@).take(i + 1).last() == list@[i as int]@);
        if i > 0 {
            r.append(sep);
        } else {
            assert(r@ + list@[0]@ =~= list@[0]@);
        }
        r.append(list[i]);
        i = i + 1;
    }
    assert(strs_view(list@).take(list.len() as int) =~= strs_view(list@));
    r
}

} // verus!
