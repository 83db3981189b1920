//! BPMN 2.0 elements, following the OMG specification.
use vstd::prelude::*;
use std::collections::HashMap;

verus! {

/// A BPMN 2.0 definitions document: processes, collaborations and shared elements.
#[derive(Debug, Clone)]
pub struct BpmnDiagram {
    pub id: String,
    pub name: Option<String>,
    pub documentation: Option<String>,
    pub processes: Vec<BpmnProcess>,
    pub collaborations: Vec<Collaboration>,
    pub data_stores: Vec<DataStore>,
    pub messages: Vec<Message>,
    pub signals: Vec<Signal>,
}

/// A BPMN process: its flow elements, connections, data, artifacts and lanes.
#[derive(Debug)]
pub struct BpmnProcess {
    pub id: String,
    pub name: Option<String>,
    pub documentation: Option<String>,
    pub is_executable: bool,
    pub process_type: ProcessType,
    pub start_events: Vec<StartEvent>,
    pub end_events: Vec<EndEvent>,
    pub intermediate_events: Vec<IntermediateEvent>,
    pub tasks: Vec<BpmnTask>,
    pub subprocesses: Vec<Subprocess>,
    pub gateways: Vec<BpmnGateway>,
    pub sequence_flows: Vec<SequenceFlow>,
    pub data_objects: Vec<DataObject>,
    pub data_associations: Vec<DataAssociation>,
    pub text_annotations: Vec<TextAnnotation>,
    pub groups: Vec<Group>,
    pub lanes: Vec<Lane>,
    pub metadata: HashMap<String, serde_json::Value>,
}

/// The visibility of a process.
#[derive(Debug, Clone, Copy, PartialEq, Eq, Structural)]
pub enum ProcessType {
    /// No process type (BPMN `None`).
    NoType,
    Public,
    Private,
}

/// A start event.
#[derive(Debug, Clone)]
pub struct StartEvent {
    pub id: String,
    pub name: Option<String>,
    pub documentation: Option<String>,
    pub event_definition: Option<EventDefinition>,
    pub is_interrupting: bool,
}

/// An end event.
#[derive(Debug, Clone)]
pub struct EndEvent {
    pub id: String,
    pub name: Option<String>,
    pub documentation: Option<String>,
    pub event_definition: Option<EventDefinition>,
}

/// An intermediate or boundary event.
#[derive(Debug, Clone)]
pub struct IntermediateEvent {
    pub id: String,
    pub name: Option<String>,
    pub documentation: Option<String>,
    pub event_definition: Option<EventDefinition>,
    /// Catching (true) or throwing (false).
    pub is_catching: bool,
    /// For boundary events: whether the activity is interrupted.
    pub is_interrupting: bool,
    /// For boundary events: the activity the event is attached to.
    pub attached_to_ref: Option<String>,
}

/// What triggers or results from an event.
#[derive(Debug, PartialEq)]
pub enum EventDefinition {
    /// No trigger (BPMN `None`).
    NoTrigger,
    Message { message_ref: Option<String> },
    Timer { time_expression: String },
    Signal { signal_ref: Option<String> },
    Error { error_ref: Option<String> },
    Escalation { escalation_ref: Option<String> },
    Cancel,
    Compensation,
    Conditional { condition: String },
    Link { target: Option<String>, source: Option<String> },
    Terminate,
    Multiple { events: Vec<EventDefinition>, is_parallel: bool },
}

/// A task.
#[derive(Debug, Clone)]
pub struct BpmnTask {
    pub id: String,
    pub name: Option<String>,
    pub documentation: Option<String>,
    pub task_type: BpmnTaskType,
    pub default_flow: Option<String>,
    pub io_specification: Option<IoSpecification>,
    pub properties: HashMap<String, serde_json::Value>,
    pub loop_characteristics: Option<LoopCharacteristics>,
    pub is_for_compensation: bool,
}

/// The kinds of task, with what each kind records.
#[derive(Debug, Clone, PartialEq, Eq)]
pub enum BpmnTaskType {
    Abstract,
    User { implementation: Option<String>, rendering: Option<String> },
    Service { implementation: Option<String>, operation_ref: Option<String> },
    Manual,
    Script { script_format: String, script: String },
    BusinessRule { implementation: Option<String>, rule_ref: Option<String> },
    Send { message_ref: Option<String>, operation_ref: Option<String> },
    Receive { message_ref: Option<String>, operation_ref: Option<String>, instantiate: bool },
}

/// A subprocess or call activity.
#[derive(Debug)]
pub struct Subprocess {
    pub id: String,
    pub name: Option<String>,
    pub documentation: Option<String>,
    pub subprocess_type: SubprocessType,
    pub triggered_by_event: bool,
    /// The embedded process of an embedded subprocess.
    pub process: Option<BpmnProcess>,
    /// The called element of a call activity.
    pub called_element: Option<String>,
    pub loop_characteristics: Option<LoopCharacteristics>,
}

/// The kinds of subprocess.
#[derive(Debug, Clone, Copy, PartialEq, Eq, Structural)]
pub enum SubprocessType {
    Embedded,
    CallActivity,
    EventSubprocess,
    Transaction,
    AdHoc,
}

/// How an activity repeats.
#[derive(Debug, Clone, PartialEq)]
pub enum LoopCharacteristics {
    Standard { loop_condition: Option<String>, test_before: bool, loop_maximum: Option<i32> },
    MultiInstance {
        is_sequential: bool,
        loop_cardinality: Option<i32>,
        loop_data_input_ref: Option<String>,
        loop_data_output_ref: Option<String>,
        completion_condition: Option<String>,
    },
}

/// The data inputs and outputs of an activity.
#[derive(Debug, Clone)]
pub struct IoSpecification {
    pub data_inputs: Vec<DataInput>,
    pub data_outputs: Vec<DataOutput>,
    pub input_sets: Vec<Vec<String>>,
    pub output_sets: Vec<Vec<String>>,
}

/// A data input of an activity.
#[derive(Debug, Clone)]
pub struct DataInput {
    pub id: String,
    pub name: Option<String>,
    pub item_subject_ref: Option<String>,
    pub is_collection: bool,
}

/// A data output of an activity.
#[derive(Debug, Clone)]
pub struct DataOutput {
    pub id: String,
    pub name: Option<String>,
    pub item_subject_ref: Option<String>,
    pub is_collection: bool,
}

/// A gateway.
#[derive(Debug, Clone)]
pub struct BpmnGateway {
    pub id: String,
    pub name: Option<String>,
    pub documentation: Option<String>,
    pub gateway_type: BpmnGatewayType,
    pub gateway_direction: GatewayDirection,
    pub default_flow: Option<String>,
}

/// The kinds of gateway.
#[derive(Debug, Clone, PartialEq, Eq)]
pub enum BpmnGatewayType {
    Exclusive,
    Parallel,
    Inclusive,
    EventBased { instantiate: bool },
    ParallelEventBased,
    Complex { activation_condition: Option<String> },
}

/// Whether a gateway joins, splits or both.
#[derive(Debug, Clone, Copy, PartialEq, Eq, Structural)]
pub enum GatewayDirection {
    Unspecified,
    Converging,
    Diverging,
    Mixed,
}

/// A sequence flow between two flow nodes.
#[derive(Debug, Clone)]
pub struct SequenceFlow {
    pub id: String,
    pub name: Option<String>,
    pub source_ref: String,
    pub target_ref: String,
    pub condition_expression: Option<String>,
    pub is_immediate: bool,
}

/// A message flow between two participants.
#[derive(Debug, Clone)]
pub struct MessageFlow {
    pub id: String,
    pub name: Option<String>,
    pub source_ref: String,
    pub target_ref: String,
    pub message_ref: Option<String>,
}

/// An association of an artifact with a flow element.
#[derive(Debug, Clone)]
pub struct Association {
    pub id: String,
    pub source_ref: String,
    pub target_ref: String,
    pub direction: AssociationDirection,
}

/// Which way an association points.
#[derive(Debug, Clone, Copy, PartialEq, Eq, Structural)]
pub enum AssociationDirection {
    /// Undirected (BPMN `None`).
    NoDirection,
    One,
    Both,
}

/// A data association.
#[derive(Debug, Clone)]
pub struct DataAssociation {
    pub id: String,
    pub source_ref: Option<String>,
    pub target_ref: String,
    pub transformation: Option<String>,
    pub assignment: Option<String>,
}

/// A data object.
#[derive(Debug, Clone)]
pub struct DataObject {
    pub id: String,
    pub name: Option<String>,
    pub item_subject_ref: Option<String>,
    pub is_collection: bool,
    pub data_state: Option<String>,
}

/// A data store.
#[derive(Debug, Clone)]
pub struct DataStore {
    pub id: String,
    pub name: Option<String>,
    pub capacity: Option<i32>,
    pub is_unlimited: bool,
    pub item_subject_ref: Option<String>,
}

/// A message.
#[derive(Debug, Clone)]
pub struct Message {
    pub id: String,
    pub name: Option<String>,
    pub item_ref: Option<String>,
}

/// A signal.
#[derive(Debug, Clone)]
pub struct Signal {
    pub id: String,
    pub name: Option<String>,
    pub structure_ref: Option<String>,
}

/// A text annotation.
#[derive(Debug, Clone)]
pub struct TextAnnotation {
    pub id: String,
    pub text: String,
    /// MIME type of the text, normally `text/plain`.
    pub text_format: String,
}

/// A group of elements.
#[derive(Debug, Clone)]
pub struct Group {
    pub id: String,
    pub category_value_ref: Option<String>,
}

/// A collaboration between participants.
#[derive(Debug, Clone)]
pub struct Collaboration {
    pub id: String,
    pub name: Option<String>,
    pub participants: Vec<Participant>,
    pub message_flows: Vec<MessageFlow>,
    pub artifacts: Vec<Artifact>,
}

/// A participant of a collaboration (a pool).
#[derive(Debug, Clone)]
pub struct Participant {
    pub id: String,
    pub name: Option<String>,
    pub process_ref: Option<String>,
    pub interface_ref: Option<String>,
    pub participant_multiplicity: Option<ParticipantMultiplicity>,
}

/// How many instances of a participant take part.
#[derive(Debug, Clone)]
pub struct ParticipantMultiplicity {
    pub minimum: i32,
    pub maximum: i32,
}

/// A lane: a partition of a process.
#[derive(Debug)]
pub struct Lane {
    pub id: String,
    pub name: Option<String>,
    pub partition_element_ref: Option<String>,
    pub child_lanes: Vec<Lane>,
    pub flow_node_refs: Vec<String>,
}

/// An artifact of a collaboration.
#[derive(Debug, Clone)]
pub enum Artifact {
    TextAnnotation(TextAnnotation),
    Group(Group),
    Association(Association),
}


/// Each item of `b` is what `Clone` gives for the item of `a` at its place.
pub open spec fn clones_of<T: Clone>(a: Seq<T>, b: Seq<T>) -> bool {
    &&& b.len() == a.len()
    &&& forall|i: int| 0 <= i < a.len() ==> cloned::<T>(a[i], #[trigger] b[i])
}

/// `b` is a copy of the event definition `a`: the same definition, with
/// nested definitions copied in turn.
pub open spec fn same_event_definition(a: EventDefinition, b: EventDefinition) -> bool
    decreases a,
{
    match a {
        EventDefinition::Multiple { events, is_parallel } => {
            &&& b is Multiple
            &&& b->is_parallel == is_parallel
            &&& b->events@.len() == events@.len()
            &&& forall|i: int| 0 <= i < events@.len() ==> same_event_definition(
                #[trigger] events@[i],
                b->events@[i],
            )
        },
        _ => b == a,
    }
}

/// `b` is a copy of the lane `a`: the same id, name, partition element and
/// flow nodes, with child lanes copied in turn.
pub open spec fn same_lane(a: Lane, b: Lane) -> bool
    decreases a,
{
    &&& b.id == a.id
    &&& b.name == a.name
    &&& b.partition_element_ref == a.partition_element_ref
    &&& b.flow_node_refs@ == a.flow_node_refs@
    &&& b.child_lanes@.len() == a.child_lanes@.len()
    &&& forall|i: int| 0 <= i < a.child_lanes@.len() ==> same_lane(#[trigger] a.child_lanes@[i], b.child_lanes@[i])
}

/// `b` is a copy of the process `a`: the same id, name, documentation, kind
/// and metadata; each element list a clone of `a`'s, lanes and subprocesses
/// copied in turn.
pub open spec fn same_process(a: BpmnProcess, b: BpmnProcess) -> bool
    decreases a,
{
    &&& b.id == a.id
    &&& b.name == a.name
    &&& b.documentation == a.documentation
    &&& b.is_executable == a.is_executable
    &&& b.process_type == a.process_type
    &&& clones_of(a.start_events@, b.start_events@)
    &&& clones_of(a.end_events@, b.end_events@)
    &&& clones_of(a.intermediate_events@, b.intermediate_events@)
    &&& clones_of(a.tasks@, b.tasks@)
    &&& clones_of(a.gateways@, b.gateways@)
    &&& clones_of(a.sequence_flows@, b.sequence_flows@)
    &&& clones_of(a.data_objects@, b.data_objects@)
    &&& clones_of(a.data_associations@, b.data_associations@)
    &&& clones_of(a.text_annotations@, b.text_annotations@)
    &&& clones_of(a.groups@, b.groups@)
    &&& b.lanes@.len() == a.lanes@.len()
    &&& forall|i: int| 0 <= i < a.lanes@.len() ==> same_lane(#[trigger] a.lanes@[i], b.lanes@[i])
    &&& b.metadata@ == a.metadata@
    &&& b.subprocesses@.len() == a.subprocesses@.len()
    &&& forall|i: int| 0 <= i < a.subprocesses@.len() ==> same_subprocess(
        #[trigger] a.subprocesses@[i],
        b.subprocesses@[i],
    )
}

/// `b` is a copy of the subprocess `a`: the same fields, its embedded process
/// copied in turn and its loop a clone of `a`'s.
pub open spec fn same_subprocess(a: Subprocess, b: Subprocess) -> bool
    decreases a,
{
    &&& b.id == a.id
    &&& b.name == a.name
    &&& b.documentation == a.documentation
    &&& b.subprocess_type == a.subprocess_type
    &&& b.triggered_by_event == a.triggered_by_event
    &&& b.called_element == a.called_element
    &&& match a.process {
        Some(p) => b.process matches Some(q) && same_process(p, q),
        None => b.process is None,
    }
    &&& match a.loop_characteristics {
        Some(l) => b.loop_characteristics matches Some(m) && cloned::<LoopCharacteristics>(l, m),
        None => b.loop_characteristics is None,
    }
}

/// A copy of an optional string.
fn copy_opt(o: &Option<String>) -> (r: Option<String>)
    ensures
        r == *o,
{
    match o {
        Some(s) => Some(s.clone()),
        None => None,
    }
}

/// A copy of a list of strings.
fn copy_strings(v: &Vec<String>) -> (r: Vec<String>)
    ensures
        r@ == v@,
{
    let mut r: Vec<String> = Vec::new();
    let mut i: usize = 0;
    while i < v.len()
        invariant
            i <= v.len(),
            r@ == v@.take(i as int),
        decreases v.len() - i,
    {
        r.push(v[i].clone());
        assert(v@.take(i + 1) == v@.take(i as int).push(v@[i as int]));
        i = i + 1;
    }
    assert(v@.take(v.len() as int) == v@);
    r
}

/// A copy of an event definition, nested definitions included.
fn copy_event_definition(d: &EventDefinition) -> (r: EventDefinition)
    ensures
        same_event_definition(*d, r),
    decreases d,
{
    match d {
        EventDefinition::NoTrigger => EventDefinition::NoTrigger,
        EventDefinition::Message { message_ref } => EventDefinition::Message { message_ref: copy_opt(message_ref) },
        EventDefinition::Timer { time_expression } => EventDefinition::Timer { time_expression: time_expression.clone() },
        EventDefinition::Signal { signal_ref } => EventDefinition::Signal { signal_ref: copy_opt(signal_ref) },
        EventDefinition::Error { error_ref } => EventDefinition::Error { error_ref: copy_opt(error_ref) },
        EventDefinition::Escalation { escalation_ref } => EventDefinition::Escalation {
            escalation_ref: copy_opt(escalation_ref),
        },
        EventDefinition::Cancel => EventDefinition::Cancel,
        EventDefinition::Compensation => EventDefinition::Compensation,
        EventDefinition::Conditional { condition } => EventDefinition::Conditional { condition: condition.clone() },
        EventDefinition::Link { target, source } => EventDefinition::Link {
            target: copy_opt(target),
            source: copy_opt(source),
        },
        EventDefinition::Terminate => EventDefinition::Terminate,
        EventDefinition::Multiple { events, is_parallel } => {
            let mut v: Vec<EventDefinition> = Vec::new();
            let mut i: usize = 0;
            while i < events.len()
                invariant
                    i <= events.len(),
                    v@.len() == i,
                    *d == (EventDefinition::Multiple { events: *events, is_parallel: *is_parallel }),
                    forall|j: int| 0 <= j < i ==> same_event_definition(#[trigger] events@[j], v@[j]),
                decreases events.len() - i,
            {
                proof {
                    assert(d->events == *events);
                    assert(decreases_to!(*d => d->events));
                    assert(decreases_to!(*events => events@));
                    assert(decreases_to!(events@ => events@[i as int]));
                    assert(decreases_to!(*d => events@[i as int]));
                }
                let e = copy_event_definition(&events[i]);
                v.push(e);
                i = i + 1;
            }
            EventDefinition::Multiple { events: v, is_parallel: *is_parallel }
        },
    }
}

impl Clone for EventDefinition {
    fn clone(&self) -> (r: Self)
        ensures
            same_event_definition(*self, r),
    {
        copy_event_definition(self)
    }
}

/// A copy of a lane, child lanes included.
fn copy_lane(l: &Lane) -> (r: Lane)
    ensures
        same_lane(*l, r),
    decreases l,
{
    let mut children: Vec<Lane> = Vec::new();
    let mut i: usize = 0;
    while i < l.child_lanes.len()
        invariant
            i <= l.child_lanes.len(),
            children@.len() == i,
            forall|j: int| 0 <= j < i ==> same_lane(#[trigger] l.child_lanes@[j], children@[j]),
        decreases l.child_lanes.len() - i,
    {
        proof {
            assert(decreases_to!(*l => l.child_lanes@[i as int]));
        }
        let c = copy_lane(&l.child_lanes[i]);
        children.push(c);
        i = i + 1;
    }
    Lane {
        id: l.id.clone(),
        name: copy_opt(&l.name),
        partition_element_ref: copy_opt(&l.partition_element_ref),
        child_lanes: children,
        flow_node_refs: copy_strings(&l.flow_node_refs),
    }
}

impl Clone for Lane {
    fn clone(&self) -> (r: Self)
        ensures
            same_lane(*self, r),
    {
        copy_lane(self)
    }
}

/// A copy of a process, embedded subprocesses included.
fn copy_process(p: &BpmnProcess) -> (r: BpmnProcess)
    ensures
        same_process(*p, r),
    decreases p,
{
    let mut subs: Vec<Subprocess> = Vec::new();
    let mut i: usize = 0;
    while i < p.subprocesses.len()
        invariant
            i <= p.subprocesses.len(),
            subs@.len() == i,
            forall|j: int| 0 <= j < i ==> same_subprocess(#[trigger] p.subprocesses@[j], subs@[j]),
        decreases p.subprocesses.len() - i,
    {
        proof {
            assert(decreases_to!(*p => p.subprocesses@[i as int]));
        }
        let s = copy_subprocess(&p.subprocesses[i]);
        subs.push(s);
        i = i + 1;
    }
    let mut lanes: Vec<Lane> = Vec::new();
    let mut k: usize = 0;
    while k < p.lanes.len()
        invariant
            k <= p.lanes.len(),
            lanes@.len() == k,
            forall|j: int| 0 <= j < k ==> same_lane(#[trigger] p.lanes@[j], lanes@[j]),
        decreases p.lanes.len() - k,
    {
        lanes.push(copy_lane(&p.lanes[k]));
        k = k + 1;
    }
    let r = BpmnProcess {
        id: p.id.clone(),
        name: copy_opt(&p.name),
        documentation: copy_opt(&p.documentation),
        is_executable: p.is_executable,
        process_type: p.process_type,
        start_events: p.start_events.clone(),
        end_events: p.end_events.clone(),
        intermediate_events: p.intermediate_events.clone(),
        tasks: p.tasks.clone(),
        subprocesses: subs,
        gateways: p.gateways.clone(),
        sequence_flows: p.sequence_flows.clone(),
        data_objects: p.data_objects.clone(),
        data_associations: p.data_associations.clone(),
        text_annotations: p.text_annotations.clone(),
        groups: p.groups.clone(),
        lanes,
        metadata: p.metadata.clone(),
    };
    r
}

/// A copy of a subprocess, its embedded process included.
fn copy_subprocess(s: &Subprocess) -> (r: Subprocess)
    ensures
        same_subprocess(*s, r),
    decreases s,
{
    let process = match &s.process {
        Some(p) => {
            proof {
                assert(decreases_to!(*s => *p));
            }
            Some(copy_process(p))
        },
        None => None,
    };
    Subprocess {
        id: s.id.clone(),
        name: copy_opt(&s.name),
        documentation: copy_opt(&s.documentation),
        subprocess_type: s.subprocess_type,
        triggered_by_event: s.triggered_by_event,
        process,
        called_element: copy_opt(&s.called_element),
        loop_characteristics: s.loop_characteristics.clone(),
    }
}

impl Clone for BpmnProcess {
    fn clone(&self) -> (r: Self)
        ensures
            same_process(*self, r),
    {
        copy_process(self)
    }
}

impl Clone for Subprocess {
    fn clone(&self) -> (r: Self)
        ensures
            same_subprocess(*self, r),
    {
        copy_subprocess(self)
    }
}

} // verus!
