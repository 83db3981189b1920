//! Simple process definitions and a builder for them.
use vstd::prelude::*;
use std::collections::HashMap;
use crate::error::{AbcdodafError, AbcdodafResult};
use crate::text::{opt_view, owned, str_eq};

verus! {

/// A simple process definition: tasks, the flows between them and gateways.
#[derive(Debug, Clone)]
pub struct Process {
    pub id: String,
    pub name: String,
    pub description: Option<String>,
    pub tasks: Vec<Task>,
    pub flows: Vec<SequenceFlow>,
    pub gateways: Vec<Gateway>,
    /// Facts about the process, by key, each key once.
    pub metadata: Vec<(String, serde_json::Value)>,
}

/// A task of a process.
#[derive(Debug, Clone)]
pub struct Task {
    pub id: String,
    pub name: String,
    pub task_type: TaskType,
    pub properties: HashMap<String, serde_json::Value>,
}

/// The kinds of task.
#[derive(Debug, Clone, Copy, PartialEq, Eq, Structural)]
pub enum TaskType {
    User,
    Service,
    Script,
    Manual,
    Send,
    Receive,
}

/// A flow from one element of a process to another.
#[derive(Debug, Clone)]
pub struct SequenceFlow {
    pub id: String,
    pub source: String,
    pub target: String,
    pub condition: Option<String>,
}

/// A gateway of a process.
#[derive(Debug, Clone)]
pub struct Gateway {
    pub id: String,
    pub name: String,
    pub gateway_type: GatewayType,
}

/// The kinds of gateway.
#[derive(Debug, Clone, Copy, PartialEq, Eq, Structural)]
pub enum GatewayType {
    Exclusive,
    Parallel,
    Inclusive,
    EventBased,
}

/// Builds a process step by step.
pub struct ProcessBuilder {
    process: Process,
}

impl ProcessBuilder {
    /// The process being built.
    pub closed spec fn spec_process(&self) -> Process {
        self.process
    }

    /// An empty process with the given id and name.
    pub fn new(id: &str, name: &str) -> (b: Self)
        ensures
            b.spec_process().id@ == id@,
            b.spec_process().name@ == name@,
            b.spec_process().description is None,
            b.spec_process().tasks@.len() == 0,
            b.spec_process().flows@.len() == 0,
            b.spec_process().gateways@.len() == 0,
            b.spec_process().metadata@.len() == 0,
    {
        ProcessBuilder {
            process: Process {
                id: owned(id),
                name: owned(name),
                description: None,
                tasks: Vec::new(),
                flows: Vec::new(),
                gateways: Vec::new(),
                metadata: Vec::new(),
            },
        }
    }

    /// Set the description.
    pub fn description(self, desc: &str) -> (b: Self)
        ensures
            opt_view(b.spec_process().description) == Some(desc@),
            b.spec_process() == (Process { description: b.spec_process().description, ..self.spec_process() }),
    {
        let mut p = self.process;
        p.description = Some(owned(desc));
        ProcessBuilder { process: p }
    }

    /// Add a task.
    pub fn add_task(self, task: Task) -> (b: Self)
        ensures
            b.spec_process().tasks@ == self.spec_process().tasks@.push(task),
            b.spec_process() == (Process { tasks: b.spec_process().tasks, ..self.spec_process() }),
    {
        let mut p = self.process;
        p.tasks.push(task);
        ProcessBuilder { process: p }
    }

    fn add_typed_task(self, id: &str, name: &str, task_type: TaskType) -> (b: Self)
        ensures
            b.spec_process().tasks@.len() == self.spec_process().tasks@.len() + 1,
            b.spec_process().tasks@.drop_last() == self.spec_process().tasks@,
            task_made(b.spec_process().tasks@.last(), id@, name@, task_type),
            b.spec_process() == (Process { tasks: b.spec_process().tasks, ..self.spec_process() }),
    {
        let task = Task { id: owned(id), name: owned(name), task_type, properties: HashMap::new() };
        let b = self.add_task(task);
        assert(b.spec_process().tasks@.drop_last() =~= self.spec_process().tasks@);
        b
    }

    /// Add a user task.
    pub fn add_user_task(self, id: &str, name: &str) -> (b: Self)
        ensures
            b.spec_process().tasks@.len() == self.spec_process().tasks@.len() + 1,
            b.spec_process().tasks@.drop_last() == self.spec_process().tasks@,
            task_made(b.spec_process().tasks@.last(), id@, name@, TaskType::User),
            b.spec_process() == (Process { tasks: b.spec_process().tasks, ..self.spec_process() }),
    {
        self.add_typed_task(id, name, TaskType::User)
    }

    /// Add a service task.
    pub fn add_service_task(self, id: &str, name: &str) -> (b: Self)
        ensures
            b.spec_process().tasks@.len() == self.spec_process().tasks@.len() + 1,
            b.spec_process().tasks@.drop_last() == self.spec_process().tasks@,
            task_made(b.spec_process().tasks@.last(), id@, name@, TaskType::Service),
            b.spec_process() == (Process { tasks: b.spec_process().tasks, ..self.spec_process() }),
    {
        self.add_typed_task(id, name, TaskType::Service)
    }

    /// Add a script task.
    pub fn add_script_task(self, id: &str, name: &str) -> (b: Self)
        ensures
            b.spec_process().tasks@.len() == self.spec_process().tasks@.len() + 1,
            b.spec_process().tasks@.drop_last() == self.spec_process().tasks@,
            task_made(b.spec_process().tasks@.last(), id@, name@, TaskType::Script),
            b.spec_process() == (Process { tasks: b.spec_process().tasks, ..self.spec_process() }),
    {
        self.add_typed_task(id, name, TaskType::Script)
    }

    /// Add an unconditional flow from `source` to `target`.
    pub fn add_flow(self, id: &str, source: &str, target: &str) -> (b: Self)
        ensures
            b.spec_process().flows@.len() == self.spec_process().flows@.len() + 1,
            b.spec_process().flows@.drop_last() == self.spec_process().flows@,
            flow_made(b.spec_process().flows@.last(), id@, source@, target@, None),
            b.spec_process() == (Process { flows: b.spec_process().flows, ..self.spec_process() }),
    {
        let mut p = self.process;
        p.flows.push(SequenceFlow { id: owned(id), source: owned(source), target: owned(target), condition: None });
        assert(p.flows@.drop_last() =~= self.spec_process().flows@);
        ProcessBuilder { process: p }
    }

    /// Add a flow from `source` to `target` taken when `condition` holds.
    pub fn add_conditional_flow(self, id: &str, source: &str, target: &str, condition: &str) -> (b: Self)
        ensures
            b.spec_process().flows@.len() == self.spec_process().flows@.len() + 1,
            b.spec_process().flows@.drop_last() == self.spec_process().flows@,
            flow_made(b.spec_process().flows@.last(), id@, source@, target@, Some(condition@)),
            b.spec_process() == (Process { flows: b.spec_process().flows, ..self.spec_process() }),
    {
        let mut p = self.process;
        p.flows.push(
            SequenceFlow {
                id: owned(id),
                source: owned(source),
                target: owned(target),
                condition: Some(owned(condition)),
            },
        );
        assert(p.flows@.drop_last() =~= self.spec_process().flows@);
        ProcessBuilder { process: p }
    }

    /// Add a gateway.
    pub fn add_gateway(self, id: &str, name: &str, gateway_type: GatewayType) -> (b: Self)
        ensures
            b.spec_process().gateways@.len() == self.spec_process().gateways@.len() + 1,
            b.spec_process().gateways@.drop_last() == self.spec_process().gateways@,
            b.spec_process().gateways@.last().id@ == id@,
            b.spec_process().gateways@.last().name@ == name@,
            b.spec_process().gateways@.last().gateway_type == gateway_type,
            b.spec_process() == (Process { gateways: b.spec_process().gateways, ..self.spec_process() }),
    {
        let mut p = self.process;
        p.gateways.push(Gateway { id: owned(id), name: owned(name), gateway_type });
        assert(p.gateways@.drop_last() =~= self.spec_process().gateways@);
        ProcessBuilder { process: p }
    }

    /// Record metadata under `key`, replacing what was there.
    pub fn metadata(self, key: &str, value: serde_json::Value) -> (b: Self)
        ensures
            b.spec_process() == (Process { metadata: b.spec_process().metadata, ..self.spec_process() }),
            crate::entries::sets_key(self.spec_process().metadata@, b.spec_process().metadata@, key@, value),
    {
        let mut p = self.process;
        crate::entries::set_key(&mut p.metadata, owned(key), value);
        ProcessBuilder { process: p }
    }

    /// The process, which must have at least one task.
    pub fn build(self) -> (r: AbcdodafResult<Process>)
        ensures
            self.spec_process().tasks@.len() == 0 ==> (r matches Err(AbcdodafError::BpmnError(m)) && m@
                == "Process must have at least one task"@),
            self.spec_process().tasks@.len() > 0 ==> r == Ok::<Process, AbcdodafError>(self.spec_process()),
    {
        if self.process.tasks.len() == 0 {
            return Err(AbcdodafError::BpmnError(owned("Process must have at least one task")));
        }
        Ok(self.process)
    }
}

/// `t` is a task with the given id, name and type and no properties.
pub open spec fn task_made(t: Task, id: Seq<char>, name: Seq<char>, task_type: TaskType) -> bool {
    t.id@ == id && t.name@ == name && t.task_type == task_type && t.properties@.len() == 0
}

/// `f` is a flow with the given id, ends and condition.
pub open spec fn flow_made(f: SequenceFlow, id: Seq<char>, source: Seq<char>, target: Seq<char>, condition: Option<Seq<char>>) -> bool {
    f.id@ == id && f.source@ == source && f.target@ == target && opt_view(f.condition) == condition
}

/// The element name of a task type.
pub open spec fn task_type_tag(t: TaskType) -> Seq<char> {
    match t {
        TaskType::User => "userTask"@,
        TaskType::Service => "serviceTask"@,
        TaskType::Script => "scriptTask"@,
        TaskType::Manual => "manualTask"@,
        TaskType::Send => "sendTask"@,
        TaskType::Receive => "receiveTask"@,
    }
}

/// The key under which handlers of a task type are registered: the type's name in lower case.
pub open spec fn handler_key_text(t: TaskType) -> Seq<char> {
    match t {
        TaskType::User => "user"@,
        TaskType::Service => "service"@,
        TaskType::Script => "script"@,
        TaskType::Manual => "manual"@,
        TaskType::Send => "send"@,
        TaskType::Receive => "receive"@,
    }
}

/// The key under which handlers of tasks of type `t` are registered.
pub fn handler_key(t: TaskType) -> (r: String)
    ensures
        r@ == handler_key_text(t),
{
    match t {
        TaskType::User => owned("user"),
        TaskType::Service => owned("service"),
        TaskType::Script => owned("script"),
        TaskType::Manual => owned("manual"),
        TaskType::Send => owned("send"),
        TaskType::Receive => owned("receive"),
    }
}

/// The element of one task in the simplified XML export (nothing is escaped).
pub open spec fn simple_task_xml(t: Task) -> Seq<char> {
    "\n    <"@ + task_type_tag(t.task_type) + " id=\""@ + t.id@ + "\" name=\""@ + t.name@ + "\" />"@
}

/// The element of one flow in the simplified XML export (nothing is escaped).
pub open spec fn simple_flow_xml(f: SequenceFlow) -> Seq<char> {
    "\n    <sequenceFlow id=\""@ + f.id@ + "\" sourceRef=\""@ + f.source@ + "\" targetRef=\""@ + f.target@ + "\" />"@
}

/// The task elements, one after another.
pub open spec fn simple_tasks_xml(ts: Seq<Task>) -> Seq<char>
    decreases ts.len(),
{
    if ts.len() == 0 {
        Seq::empty()
    } else {
        simple_tasks_xml(ts.drop_last()) + simple_task_xml(ts.last())
    }
}

/// The flow elements, one after another.
pub open spec fn simple_flows_xml(fs: Seq<SequenceFlow>) -> Seq<char>
    decreases fs.len(),
{
    if fs.len() == 0 {
        Seq::empty()
    } else {
        simple_flows_xml(fs.drop_last()) + simple_flow_xml(fs.last())
    }
}

/// The simplified XML export of a process.
pub open spec fn simple_process_xml(p: Process) -> Seq<char> {
    "<?xml version=\"1.0\" encoding=\"UTF-8\"?>"@ + "\n<definitions xmlns=\"http://www.omg.org/spec/BPMN/20100524/MODEL\">"@
        + "\n  <process id=\""@ + p.id@ + "\" name=\""@ + p.name@ + "\">"@ + simple_tasks_xml(p.tasks@)
        + simple_flows_xml(p.flows@) + "\n  </process>"@ + "\n</definitions>"@
}

fn task_type_tag_str(t: TaskType) -> (r: &'static str)
    ensures
        r@ == task_type_tag(t),
{
    match t {
        TaskType::User => "userTask",
        TaskType::Service => "serviceTask",
        TaskType::Script => "scriptTask",
        TaskType::Manual => "manualTask",
        TaskType::Send => "sendTask",
        TaskType::Receive => "receiveTask",
    }
}

impl Process {
    /// The first task with id `id`, if any.
    pub fn get_task(&self, id: &str) -> (r: Option<&Task>)
        ensures
            match r {
                Some(t) => exists|i: int|
                    0 <= i < self.tasks@.len() && self.tasks@[i] == *t && t.id@ == id@ && forall|k: int|
                        0 <= k < i ==> (#[trigger] self.tasks@[k]).id@ != id@,
                None => forall|k: int| 0 <= k < self.tasks@.len() ==> (#[trigger] self.tasks@[k]).id@ != id@,
            },
    {
        let mut i: usize = 0;
        while i < self.tasks.len()
            invariant
                i <= self.tasks.len(),
                forall|k: int| 0 <= k < i ==> (#[trigger] self.tasks@[k]).id@ != id@,
            decreases self.tasks.len() - i,
        {
            if str_eq(self.tasks[i].id.as_str(), id) {
                return Some(&self.tasks[i]);
            }
            i = i + 1;
        }
        None
    }

    /// The first gateway with id `id`, if any.
    pub fn get_gateway(&self, id: &str) -> (r: Option<&Gateway>)
        ensures
            match r {
                Some(g) => exists|i: int|
                    0 <= i < self.gateways@.len() && self.gateways@[i] == *g && g.id@ == id@ && forall|k: int|
                        0 <= k < i ==> (#[trigger] self.gateways@[k]).id@ != id@,
                None => forall|k: int| 0 <= k < self.gateways@.len() ==> (#[trigger] self.gateways@[k]).id@ != id@,
            },
    {
        let mut i: usize = 0;
        while i < self.gateways.len()
            invariant
                i <= self.gateways.len(),
                forall|k: int| 0 <= k < i ==> (#[trigger] self.gateways@[k]).id@ != id@,
            decreases self.gateways.len() - i,
        {
            if str_eq(self.gateways[i].id.as_str(), id) {
                return Some(&self.gateways[i]);
            }
            i = i + 1;
        }
        None
    }

    /// The flows that leave `source`, in order.
    pub fn get_flows_from(&self, source: &str) -> (r: Vec<&SequenceFlow>)
        ensures
            r@.map_values(|c: &SequenceFlow| *c) == flows_from(self.flows@, source@),
    {
        let mut r: Vec<&SequenceFlow> = Vec::new();
        let mut i: usize = 0;
        while i < self.flows.len()
            invariant
                i <= self.flows.len(),
                r@.map_values(|c: &SequenceFlow| *c) == flows_from(self.flows@.take(i as int), source@),
            decreases self.flows.len() - i,
        {
            assert(self.flows@.take(i + 1).drop_last() =~= self.flows@.take(i as int));
            if str_eq(self.flows[i].source.as_str(), source) {
                r.push(&self.flows[i]);
            }
            assert(r@.map_values(|c: &SequenceFlow| *c) =~= flows_from(self.flows@.take(i + 1), source@));
            i = i + 1;
        }
        assert(self.flows@.take(self.flows.len() as int) =~= self.flows@);
        r
    }

    /// A simplified BPMN 2.0 XML export: one element per task and per flow,
    /// with ids and names written as they are.
    pub fn to_xml(&self) -> (r: AbcdodafResult<String>)
        ensures
            r matches Ok(s) && s@ == simple_process_xml(*self),
    {
        let mut xml = owned("<?xml version=\"1.0\" encoding=\"UTF-8\"?>");
        xml.append("\n<definitions xmlns=\"http://www.omg.org/spec/BPMN/20100524/MODEL\">");
        xml.append("\n  <process id=\"");
        xml.append(self.id.as_str());
        xml.append("\" name=\"");
        xml.append(self.name.as_str());
        xml.append("\">");
        let ghost pre = xml@;
        let mut i: usize = 0;
        while i < self.tasks.len()
            invariant
                i <= self.tasks.len(),
                xml@ == pre + simple_tasks_xml(self.tasks@.take(i as int)),
            decreases self.tasks.len() - i,
        {
            assert(self.tasks@.take(i + 1).drop_last() =~= self.tasks@.take(i as int));
            let t = &self.tasks[i];
            xml.append("\n    <");
            xml.append(task_type_tag_str(t.task_type));
            xml.append(" id=\"");
            xml.append(t.id.as_str());
            xml.append("\" name=\"");
            xml.append(t.name.as_str());
            xml.append("\" />");
            assert(xml@ =~= pre + simple_tasks_xml(self.tasks@.take(i + 1)));
            i = i + 1;
        }
        assert(self.tasks@.take(self.tasks.len() as int) =~= self.tasks@);
        let ghost mid = xml@;
        let mut j: usize = 0;
        while j < self.flows.len()
            invariant
                j <= self.flows.len(),
                xml@ == mid + simple_flows_xml(self.flows@.take(j as int)),
            decreases self.flows.len() - j,
        {
            assert(self.flows@.take(j + 1).drop_last() =~= self.flows@.take(j as int));
            let f = &self.flows[j];
            xml.append("\n    <sequenceFlow id=\"");
            xml.append(f.id.as_str());
            xml.append("\" sourceRef=\"");
            xml.append(f.source.as_str());
            xml.append("\" targetRef=\"");
            xml.append(f.target.as_str());
            xml.append("\" />");
            assert(xml@ =~= mid + simple_flows_xml(self.flows@.take(j + 1)));
            j = j + 1;
        }
        assert(self.flows@.take(self.flows.len() as int) =~= self.flows@);
        xml.append("\n  </process>");
        xml.append("\n</definitions>");
        assert(xml@ =~= simple_process_xml(*self));
        Ok(xml)
    }
}
/// The flows of `fs` whose source is `source`, in order.
pub open spec fn flows_from(cs: Seq<SequenceFlow>, source: Seq<char>) -> Seq<SequenceFlow>
    decreases cs.len(),
{
    if cs.len() == 0 {
        Seq::empty()
    } else {
        flows_from(cs.drop_last(), source) + if cs.last().source@ == source {
            seq![cs.last()]
        } else {
            Seq::empty()
        }
    }
}

} // verus!
