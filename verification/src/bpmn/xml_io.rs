//! BPMN 2.0 XML export, with diagram interchange (DI) shapes and edges.
use vstd::prelude::*;
use super::elements::{
    BpmnDiagram, BpmnGateway, BpmnGatewayType, BpmnProcess, BpmnTask, BpmnTaskType, Collaboration,
    DataAssociation, DataObject, DataStore, EndEvent, EventDefinition, Group, IntermediateEvent, Lane,
    Message, MessageFlow, Participant, ProcessType, SequenceFlow, Signal, StartEvent, Subprocess,
    SubprocessType, TextAnnotation,
};
use super::namespace::{BPMN2, BPMNDI, DC, DI};
use crate::escape::{escape_xml, escape_xml_spec, unescape_xml, unescape_xml_spec};
use super::xml_read::{
    definitions_head, definitions_header, documentation_open, header_text, lemma_read_back_written, name_head, namespaces_text,
    opt_escape, opt_unescape, read_definitions_header, written_rest,
};
use crate::text::{concat2, concat3, i128_to_decimal, opt_view, owned, signed_decimal};

verus! {

/// Errors of XML import and export.
#[derive(Debug, Clone)]
pub enum XmlError {
    ParseError(String),
    SerializationError(String),
    ElementNotFound(String),
    /// A BPMN element that is not valid.
    InvalidElement(String),
    /// A required attribute is missing.
    MissingAttribute { element: String, attribute: String },
    /// A coordinate that is negative or not a number.
    InvalidCoordinate { value: String, reason: String },
    IoError(String),
    ValidationError(String),
}

/// The message of an XML error.
pub open spec fn xml_error_text(e: XmlError) -> Seq<char> {
    match e {
        XmlError::ParseError(m) => "XML parse error: "@ + m@,
        XmlError::SerializationError(m) => "Serialization error: "@ + m@,
        XmlError::ElementNotFound(m) => "Element not found: "@ + m@,
        XmlError::InvalidElement(m) => "Invalid BPMN element: "@ + m@,
        XmlError::MissingAttribute { element, attribute } => "Missing attribute '"@ + attribute@
            + "' in element '"@ + element@ + "'"@,
        XmlError::InvalidCoordinate { value, reason } => "Invalid coordinate '"@ + value@ + "': "@ + reason@,
        XmlError::IoError(m) => "IO error: "@ + m@,
        XmlError::ValidationError(m) => "Validation error: "@ + m@,
    }
}

impl XmlError {
    /// The message of this error.
    pub fn to_string(&self) -> (s: String)
        ensures
            s@ == xml_error_text(*self),
    {
        match self {
            XmlError::ParseError(m) => concat2("XML parse error: ", m.as_str()),
            XmlError::SerializationError(m) => concat2("Serialization error: ", m.as_str()),
            XmlError::ElementNotFound(m) => concat2("Element not found: ", m.as_str()),
            XmlError::InvalidElement(m) => concat2("Invalid BPMN element: ", m.as_str()),
            XmlError::MissingAttribute { element, attribute } => {
                let mut s = concat3("Missing attribute '", attribute.as_str(), "' in element '");
                s.append(element.as_str());
                s.append("'");
                s
            },
            XmlError::InvalidCoordinate { value, reason } => {
                let mut s = concat3("Invalid coordinate '", value.as_str(), "': ");
                s.append(reason.as_str());
                s
            },
            XmlError::IoError(m) => concat2("IO error: ", m.as_str()),
            XmlError::ValidationError(m) => concat2("Validation error: ", m.as_str()),
        }
    }
}

/// The result of an XML operation.
pub type XmlResult<T> = Result<T, XmlError>;

// ---------------------------------------------------------------------------
// The text of the XML, piece by piece
// ---------------------------------------------------------------------------

/// An attribute `key="value" `, the value escaped, followed by a space.
pub open spec fn attr(key: Seq<char>, value: Seq<char>) -> Seq<char> {
    key + "=\""@ + escape_xml_spec(value) + "\" "@
}

/// The attribute `key="value" ` if there is a value, else nothing.
pub open spec fn opt_attr(key: Seq<char>, value: Option<String>) -> Seq<char> {
    match value {
        Some(v) => attr(key, v@),
        None => Seq::empty(),
    }
}

/// A reference attribute ` key="value"`, preceded by a space, if there is a value.
pub open spec fn ref_attr(key: Seq<char>, value: Option<String>) -> Seq<char> {
    match value {
        Some(v) => " "@ + key + "=\""@ + escape_xml_spec(v@) + "\""@,
        None => Seq::empty(),
    }
}

/// `true` or `false`.
pub open spec fn bool_text(b: bool) -> Seq<char> {
    if b {
        "true"@
    } else {
        "false"@
    }
}

/// `n` spaces.
pub open spec fn spaces(n: nat) -> Seq<char> {
    Seq::new(n, |i: int| ' ')
}

/// A documentation element at the given indentation, if there is documentation.
pub open spec fn documentation_xml(indent: Seq<char>, doc: Option<String>) -> Seq<char> {
    match doc {
        Some(d) => indent + "<documentation>"@ + escape_xml_spec(d@) + "</documentation>\n"@,
        None => Seq::empty(),
    }
}

/// The name of a process type.
pub open spec fn process_type_text(pt: ProcessType) -> Seq<char> {
    match pt {
        ProcessType::NoType => "None"@,
        ProcessType::Public => "Public"@,
        ProcessType::Private => "Private"@,
    }
}

/// An event definition, at the given indentation.
pub open spec fn event_definition_xml(d: EventDefinition, indent: nat) -> Seq<char> {
    spaces(indent) + match d {
        EventDefinition::NoTrigger => "<eventDefinitionRef />\n"@,
        EventDefinition::Message { message_ref } => "<messageEventDefinition"@ + ref_attr("messageRef"@, message_ref)
            + " />\n"@,
        EventDefinition::Timer { time_expression } => "<timerEventDefinition><timeDate>"@ + escape_xml_spec(
            time_expression@,
        ) + "</timeDate></timerEventDefinition>\n"@,
        EventDefinition::Signal { signal_ref } => "<signalEventDefinition"@ + ref_attr("signalRef"@, signal_ref)
            + " />\n"@,
        EventDefinition::Error { error_ref } => "<errorEventDefinition"@ + ref_attr("errorRef"@, error_ref)
            + " />\n"@,
        EventDefinition::Escalation { escalation_ref } => "<escalationEventDefinition"@ + ref_attr(
            "escalationRef"@,
            escalation_ref,
        ) + " />\n"@,
        EventDefinition::Cancel => "<cancelEventDefinition />\n"@,
        EventDefinition::Compensation => "<compensateEventDefinition />\n"@,
        EventDefinition::Conditional { condition } => "<conditionalEventDefinition><condition>"@
            + escape_xml_spec(condition@) + "</condition></conditionalEventDefinition>\n"@,
        EventDefinition::Link { target, source: _ } => "<linkEventDefinition"@ + ref_attr("name"@, target)
            + " />\n"@,
        EventDefinition::Terminate => "<terminateEventDefinition />\n"@,
        EventDefinition::Multiple { .. } => "<multipleEventDefinition />\n"@,
    }
}

/// The end of an event element: its definition and closing tag, or ` />`.
pub open spec fn event_end(def: Option<EventDefinition>, closing: Seq<char>) -> Seq<char> {
    match def {
        Some(d) => ">\n"@ + event_definition_xml(d, 3) + closing,
        None => " />\n"@,
    }
}

/// A start event.
pub open spec fn start_event_xml(e: StartEvent) -> Seq<char> {
    "    <startEvent "@ + attr("id"@, e.id@) + opt_attr("name"@, e.name) + "isInterrupting=\""@ + bool_text(
        e.is_interrupting,
    ) + "\""@ + event_end(e.event_definition, "    </startEvent>\n"@)
}

/// An end event.
pub open spec fn end_event_xml(e: EndEvent) -> Seq<char> {
    "    <endEvent "@ + attr("id"@, e.id@) + opt_attr("name"@, e.name) + event_end(
        e.event_definition,
        "    </endEvent>\n"@,
    )
}

/// An intermediate event, written as a catching event.
pub open spec fn intermediate_event_xml(e: IntermediateEvent) -> Seq<char> {
    "    <intermediateCatchEvent "@ + attr("id"@, e.id@) + opt_attr("name"@, e.name) + opt_attr(
        "attachedToRef"@,
        e.attached_to_ref,
    ) + event_end(e.event_definition, "    </intermediateCatchEvent>\n"@)
}

/// The element name of a task type.
pub open spec fn task_tag(t: BpmnTaskType) -> Seq<char> {
    match t {
        BpmnTaskType::Abstract => "task"@,
        BpmnTaskType::User { .. } => "userTask"@,
        BpmnTaskType::Service { .. } => "serviceTask"@,
        BpmnTaskType::Manual => "manualTask"@,
        BpmnTaskType::Script { .. } => "scriptTask"@,
        BpmnTaskType::BusinessRule { .. } => "businessRuleTask"@,
        BpmnTaskType::Send { .. } => "sendTask"@,
        BpmnTaskType::Receive { .. } => "receiveTask"@,
    }
}

/// A task: its element named by its type, and for a script task the script.
pub open spec fn task_xml(t: BpmnTask) -> Seq<char> {
    "    <"@ + task_tag(t.task_type) + " "@ + attr("id"@, t.id@) + opt_attr("name"@, t.name) + match t.task_type {
        BpmnTaskType::Script { script_format, script } => "scriptFormat=\""@ + escape_xml_spec(script_format@)
            + "\">\n"@ + "      <script>"@ + escape_xml_spec(script@) + "</script>\n"@,
        _ => ">\n"@,
    } + "    </"@ + task_tag(t.task_type) + ">\n"@
}

/// The element name of a gateway type.
pub open spec fn gateway_tag(t: BpmnGatewayType) -> Seq<char> {
    match t {
        BpmnGatewayType::Exclusive => "exclusiveGateway"@,
        BpmnGatewayType::Parallel => "parallelGateway"@,
        BpmnGatewayType::Inclusive => "inclusiveGateway"@,
        BpmnGatewayType::EventBased { .. } => "eventBasedGateway"@,
        BpmnGatewayType::ParallelEventBased => "parallelGateway"@,
        BpmnGatewayType::Complex { .. } => "complexGateway"@,
    }
}

/// A gateway.
pub open spec fn gateway_xml(g: BpmnGateway) -> Seq<char> {
    "    <"@ + gateway_tag(g.gateway_type) + " "@ + attr("id"@, g.id@) + opt_attr("name"@, g.name) + opt_attr(
        "default"@,
        g.default_flow,
    ) + "/>\n"@
}

/// The element name of a subprocess type.
pub open spec fn subprocess_tag(t: SubprocessType) -> Seq<char> {
    match t {
        SubprocessType::Embedded => "subProcess"@,
        SubprocessType::CallActivity => "callActivity"@,
        SubprocessType::EventSubprocess => "subProcess"@,
        SubprocessType::Transaction => "transaction"@,
        SubprocessType::AdHoc => "adHocSubProcess"@,
    }
}

/// A subprocess; an embedded process is written as an empty element body.
pub open spec fn subprocess_xml(s: Subprocess) -> Seq<char> {
    "    <"@ + subprocess_tag(s.subprocess_type) + " "@ + attr("id"@, s.id@) + opt_attr("name"@, s.name) + opt_attr(
        "calledElement"@,
        s.called_element,
    ) + (if s.subprocess_type == SubprocessType::EventSubprocess {
        "triggeredByEvent=\"true\" "@
    } else {
        Seq::empty()
    }) + (if s.process is Some {
        ">\n"@ + "    </"@ + subprocess_tag(s.subprocess_type) + ">\n"@
    } else {
        "/>\n"@
    })
}

/// A data object.
pub open spec fn data_object_xml(d: DataObject) -> Seq<char> {
    "    <dataObject "@ + attr("id"@, d.id@) + opt_attr("name"@, d.name) + (if d.is_collection {
        "isCollection=\"true\" "@
    } else {
        Seq::empty()
    }) + "/>\n"@
}

/// A text annotation.
pub open spec fn text_annotation_xml(a: TextAnnotation) -> Seq<char> {
    "    <textAnnotation "@ + attr("id"@, a.id@) + "textFormat=\""@ + escape_xml_spec(a.text_format@) + "\">\n"@
        + "      <text>"@ + escape_xml_spec(a.text@) + "</text>\n"@ + "    </textAnnotation>\n"@
}

/// A group.
pub open spec fn group_xml(g: Group) -> Seq<char> {
    "    <group "@ + attr("id"@, g.id@) + opt_attr("categoryValueRef"@, g.category_value_ref) + "/>\n"@
}

/// A sequence flow, with its condition if it has one.
pub open spec fn sequence_flow_xml(f: SequenceFlow) -> Seq<char> {
    "    <sequenceFlow "@ + attr("id"@, f.id@) + attr("sourceRef"@, f.source_ref@) + attr("targetRef"@, f.target_ref@)
        + opt_attr("name"@, f.name) + match f.condition_expression {
        Some(c) => ">\n"@ + "      <conditionExpression>"@ + escape_xml_spec(c@) + "</conditionExpression>\n"@
            + "    </sequenceFlow>\n"@,
        None => "/>\n"@,
    }
}

/// A data association, written as a data input association.
pub open spec fn data_association_xml(a: DataAssociation) -> Seq<char> {
    "    <dataInputAssociation "@ + attr("id"@, a.id@) + opt_attr("sourceRef"@, a.source_ref) + "targetRef=\""@
        + escape_xml_spec(a.target_ref@) + "\""@ + " />\n"@
}

/// A reference from a lane to a flow node.
pub open spec fn flow_node_ref_xml(r: String) -> Seq<char> {
    "        <flowNodeRef>"@ + escape_xml_spec(r@) + "</flowNodeRef>\n"@
}

/// A lane, in a lane set of its own, with its flow node references.
pub open spec fn lane_xml(l: Lane) -> Seq<char> {
    "    <laneSet>\n"@ + "      <lane "@ + attr("id"@, l.id@) + opt_attr("name"@, l.name) + ">\n"@ + flow_node_refs_xml(
        l.flow_node_refs@,
    ) + "      </lane>\n"@ + "    </laneSet>\n"@
}

/// A participant of a collaboration.
pub open spec fn participant_xml(p: Participant) -> Seq<char> {
    "    <participant "@ + attr("id"@, p.id@) + opt_attr("name"@, p.name) + opt_attr("processRef"@, p.process_ref)
        + "/>\n"@
}

/// A message flow of a collaboration.
pub open spec fn message_flow_xml(m: MessageFlow) -> Seq<char> {
    "    <messageFlow "@ + attr("id"@, m.id@) + attr("sourceRef"@, m.source_ref@) + attr("targetRef"@, m.target_ref@)
        + opt_attr("name"@, m.name) + "/>\n"@
}

/// A collaboration with its participants and message flows.
pub open spec fn collaboration_xml(c: Collaboration) -> Seq<char> {
    "  <collaboration "@ + attr("id"@, c.id@) + opt_attr("name"@, c.name) + ">\n"@ + participants_xml(
        c.participants@,
    ) + message_flows_xml(c.message_flows@) + "  </collaboration>\n"@
}

/// A message.
pub open spec fn message_xml(m: Message) -> Seq<char> {
    "  <message "@ + attr("id"@, m.id@) + opt_attr("name"@, m.name) + "/>\n"@
}

/// A signal.
pub open spec fn signal_xml(s: Signal) -> Seq<char> {
    "  <signal "@ + attr("id"@, s.id@) + opt_attr("name"@, s.name) + "/>\n"@
}

/// A data store.
pub open spec fn data_store_xml(d: DataStore) -> Seq<char> {
    "  <dataStore "@ + attr("id"@, d.id@) + opt_attr("name"@, d.name) + "/>\n"@
}

/// A process: its attributes, documentation, then its elements kind by kind.
#[verifier::opaque]
pub open spec fn process_xml(p: BpmnProcess) -> Seq<char> {
    "  <process "@ + attr("id"@, p.id@) + opt_attr("name"@, p.name) + "isExecutable=\""@ + bool_text(
        p.is_executable,
    ) + "\" "@ + "processType=\""@ + process_type_text(p.process_type) + "\">\n"@ + documentation_xml(
        "    "@,
        p.documentation,
    ) + start_events_xml(p.start_events@) + end_events_xml(p.end_events@) + intermediate_events_xml(
        p.intermediate_events@,
    ) + tasks_xml(p.tasks@) + gateways_xml(p.gateways@) + subprocesses_xml(p.subprocesses@) + data_objects_xml(
        p.data_objects@,
    ) + text_annotations_xml(p.text_annotations@) + groups_xml(p.groups@) + sequence_flows_xml(
        p.sequence_flows@,
    ) + data_associations_xml(p.data_associations@) + lanes_xml(p.lanes@) + "  </process>\n"@
}

/// A diagram shape with its bounds.
pub open spec fn shape_xml(id: Seq<char>, element: Seq<char>, x: int, y: int, width: int, height: int) -> Seq<
    char,
> {
    "      <bpmndi:BPMNShape "@ + "id=\"Shape_"@ + escape_xml_spec(id) + "\" "@ + "bpmnElement=\""@ + escape_xml_spec(
        element,
    ) + "\">\n"@ + "        <dc:Bounds x=\""@ + signed_decimal(x) + "\" y=\""@ + signed_decimal(y)
        + "\" width=\""@ + signed_decimal(width) + "\" height=\""@ + signed_decimal(height) + "\" />\n"@
        + "      </bpmndi:BPMNShape>\n"@
}

/// A diagram edge for a sequence flow, with two fixed waypoints.
pub open spec fn edge_xml(f: SequenceFlow) -> Seq<char> {
    "      <bpmndi:BPMNEdge "@ + "id=\"Edge_"@ + escape_xml_spec(f.id@) + "\" "@ + "bpmnElement=\""@
        + escape_xml_spec(f.id@) + "\">\n"@ + "        <di:waypoint x=\"150\" y=\"120\" />\n"@
        + "        <di:waypoint x=\"250\" y=\"120\" />\n"@ + "      </bpmndi:BPMNEdge>\n"@
}

/// The diagram plane of a process: a row of shapes for start events, tasks,
/// gateways and end events, then an edge for each sequence flow.
pub open spec fn plane_xml(p: BpmnProcess) -> Seq<char> {
    "    <bpmndi:BPMNPlane "@ + "id=\"Plane_"@ + escape_xml_spec(p.id@) + "\" "@ + "bpmnElement=\""@
        + escape_xml_spec(p.id@) + "\">\n"@ + start_shapes_xml(p.start_events@) + task_shapes_xml(p.tasks@)
        + gateway_shapes_xml(p.gateways@) + end_shapes_xml(p.end_events@) + edges_xml(p.sequence_flows@)
        + "    </bpmndi:BPMNPlane>\n"@
}

/// The diagram interchange section of a document.
pub open spec fn diagram_interchange_xml(d: BpmnDiagram) -> Seq<char> {
    "  <bpmndi:BPMNDiagram "@ + "id=\"Diagram_"@ + escape_xml_spec(d.id@) + "\" "@ + opt_attr("name"@, d.name)
        + ">\n"@ + planes_xml(d.processes@) + "  </bpmndi:BPMNDiagram>\n"@
}

/// A whole BPMN 2.0 document: the XML declaration, the definitions element with
/// its namespaces, the shared elements, processes and collaborations, and the
/// diagram interchange when there are processes.
pub open spec fn definitions_xml(d: BpmnDiagram) -> Seq<char> {
    header_text(escape_xml_spec(d.id@), opt_escape(d.name), opt_escape(d.documentation)) + written_rest(d)
}

/// The start events, one after another.
pub open spec fn start_events_xml(s: Seq<StartEvent>) -> Seq<char>
    decreases s.len(),
{
    if s.len() == 0 {
        Seq::empty()
    } else {
        start_events_xml(s.drop_last()) + start_event_xml(s.last())
    }
}

/// The end events, one after another.
pub open spec fn end_events_xml(s: Seq<EndEvent>) -> Seq<char>
    decreases s.len(),
{
    if s.len() == 0 {
        Seq::empty()
    } else {
        end_events_xml(s.drop_last()) + end_event_xml(s.last())
    }
}

/// The intermediate events, one after another.
pub open spec fn intermediate_events_xml(s: Seq<IntermediateEvent>) -> Seq<char>
    decreases s.len(),
{
    if s.len() == 0 {
        Seq::empty()
    } else {
        intermediate_events_xml(s.drop_last()) + intermediate_event_xml(s.last())
    }
}

/// The tasks, one after another.
pub open spec fn tasks_xml(s: Seq<BpmnTask>) -> Seq<char>
    decreases s.len(),
{
    if s.len() == 0 {
        Seq::empty()
    } else {
        tasks_xml(s.drop_last()) + task_xml(s.last())
    }
}

/// The gateways, one after another.
pub open spec fn gateways_xml(s: Seq<BpmnGateway>) -> Seq<char>
    decreases s.len(),
{
    if s.len() == 0 {
        Seq::empty()
    } else {
        gateways_xml(s.drop_last()) + gateway_xml(s.last())
    }
}

/// The subprocesses, one after another.
pub open spec fn subprocesses_xml(s: Seq<Subprocess>) -> Seq<char>
    decreases s.len(),
{
    if s.len() == 0 {
        Seq::empty()
    } else {
        subprocesses_xml(s.drop_last()) + subprocess_xml(s.last())
    }
}

/// The data objects, one after another.
pub open spec fn data_objects_xml(s: Seq<DataObject>) -> Seq<char>
    decreases s.len(),
{
    if s.len() == 0 {
        Seq::empty()
    } else {
        data_objects_xml(s.drop_last()) + data_object_xml(s.last())
    }
}

/// The text annotations, one after another.
pub open spec fn text_annotations_xml(s: Seq<TextAnnotation>) -> Seq<char>
    decreases s.len(),
{
    if s.len() == 0 {
        Seq::empty()
    } else {
        text_annotations_xml(s.drop_last()) + text_annotation_xml(s.last())
    }
}

/// The groups, one after another.
pub open spec fn groups_xml(s: Seq<Group>) -> Seq<char>
    decreases s.len(),
{
    if s.len() == 0 {
        Seq::empty()
    } else {
        groups_xml(s.drop_last()) + group_xml(s.last())
    }
}

/// The sequence flows, one after another.
pub open spec fn sequence_flows_xml(s: Seq<SequenceFlow>) -> Seq<char>
    decreases s.len(),
{
    if s.len() == 0 {
        Seq::empty()
    } else {
        sequence_flows_xml(s.drop_last()) + sequence_flow_xml(s.last())
    }
}

/// The data associations, one after another.
pub open spec fn data_associations_xml(s: Seq<DataAssociation>) -> Seq<char>
    decreases s.len(),
{
    if s.len() == 0 {
        Seq::empty()
    } else {
        data_associations_xml(s.drop_last()) + data_association_xml(s.last())
    }
}

/// The lanes, one after another.
pub open spec fn lanes_xml(s: Seq<Lane>) -> Seq<char>
    decreases s.len(),
{
    if s.len() == 0 {
        Seq::empty()
    } else {
        lanes_xml(s.drop_last()) + lane_xml(s.last())
    }
}

/// The participants, one after another.
pub open spec fn participants_xml(s: Seq<Participant>) -> Seq<char>
    decreases s.len(),
{
    if s.len() == 0 {
        Seq::empty()
    } else {
        participants_xml(s.drop_last()) + participant_xml(s.last())
    }
}

/// The message flows, one after another.
pub open spec fn message_flows_xml(s: Seq<MessageFlow>) -> Seq<char>
    decreases s.len(),
{
    if s.len() == 0 {
        Seq::empty()
    } else {
        message_flows_xml(s.drop_last()) + message_flow_xml(s.last())
    }
}

/// The messages, one after another.
pub open spec fn messages_xml(s: Seq<Message>) -> Seq<char>
    decreases s.len(),
{
    if s.len() == 0 {
        Seq::empty()
    } else {
        messages_xml(s.drop_last()) + message_xml(s.last())
    }
}

/// The signals, one after another.
pub open spec fn signals_xml(s: Seq<Signal>) -> Seq<char>
    decreases s.len(),
{
    if s.len() == 0 {
        Seq::empty()
    } else {
        signals_xml(s.drop_last()) + signal_xml(s.last())
    }
}

/// The data stores, one after another.
pub open spec fn data_stores_xml(s: Seq<DataStore>) -> Seq<char>
    decreases s.len(),
{
    if s.len() == 0 {
        Seq::empty()
    } else {
        data_stores_xml(s.drop_last()) + data_store_xml(s.last())
    }
}

/// The processes, one after another.
pub open spec fn processes_xml(s: Seq<BpmnProcess>) -> Seq<char>
    decreases s.len(),
{
    if s.len() == 0 {
        Seq::empty()
    } else {
        processes_xml(s.drop_last()) + process_xml(s.last())
    }
}

/// The collaborations, one after another.
pub open spec fn collaborations_xml(s: Seq<Collaboration>) -> Seq<char>
    decreases s.len(),
{
    if s.len() == 0 {
        Seq::empty()
    } else {
        collaborations_xml(s.drop_last()) + collaboration_xml(s.last())
    }
}

/// The flow node references of a lane, one after another.
pub open spec fn flow_node_refs_xml(s: Seq<String>) -> Seq<char>
    decreases s.len(),
{
    if s.len() == 0 {
        Seq::empty()
    } else {
        flow_node_refs_xml(s.drop_last()) + flow_node_ref_xml(s.last())
    }
}

/// The diagram planes of the processes, one after another.
pub open spec fn planes_xml(s: Seq<BpmnProcess>) -> Seq<char>
    decreases s.len(),
{
    if s.len() == 0 {
        Seq::empty()
    } else {
        planes_xml(s.drop_last()) + plane_xml(s.last())
    }
}

/// The diagram edges of the sequence flows, one after another.
pub open spec fn edges_xml(s: Seq<SequenceFlow>) -> Seq<char>
    decreases s.len(),
{
    if s.len() == 0 {
        Seq::empty()
    } else {
        edges_xml(s.drop_last()) + edge_xml(s.last())
    }
}

/// Shapes of the start events, left to right from x = 100.
pub open spec fn start_shapes_xml(s: Seq<StartEvent>) -> Seq<char>
    decreases s.len(),
{
    if s.len() == 0 {
        Seq::empty()
    } else {
        start_shapes_xml(s.drop_last()) + shape_xml(s.last().id@, s.last().id@, 100 + (s.len() - 1) * 150, 80, 36, 36)
    }
}

/// Shapes of the tasks, left to right from x = 200.
pub open spec fn task_shapes_xml(s: Seq<BpmnTask>) -> Seq<char>
    decreases s.len(),
{
    if s.len() == 0 {
        Seq::empty()
    } else {
        task_shapes_xml(s.drop_last()) + shape_xml(s.last().id@, s.last().id@, 200 + (s.len() - 1) * 150, 80, 100, 80)
    }
}

/// Shapes of the gateways, left to right from x = 300.
pub open spec fn gateway_shapes_xml(s: Seq<BpmnGateway>) -> Seq<char>
    decreases s.len(),
{
    if s.len() == 0 {
        Seq::empty()
    } else {
        gateway_shapes_xml(s.drop_last()) + shape_xml(s.last().id@, s.last().id@, 300 + (s.len() - 1) * 150, 80, 50, 50)
    }
}

/// Shapes of the end events, left to right from x = 400.
pub open spec fn end_shapes_xml(s: Seq<EndEvent>) -> Seq<char>
    decreases s.len(),
{
    if s.len() == 0 {
        Seq::empty()
    } else {
        end_shapes_xml(s.drop_last()) + shape_xml(s.last().id@, s.last().id@, 400 + (s.len() - 1) * 150, 80, 36, 36)
    }
}


// ---------------------------------------------------------------------------
// Writing the pieces
// ---------------------------------------------------------------------------

fn push_attr(xml: &mut String, key: &str, value: &str)
    ensures
        final(xml)@ == old(xml)@ + attr(key@, value@),
{
    xml.append(key);
    xml.append("=\"");
    let e = escape_xml(value);
    xml.append(e.as_str());
    xml.append("\" ");
    assert(final(xml)@ =~= old(xml)@ + attr(key@, value@));
}

fn push_opt_attr(xml: &mut String, key: &str, value: &Option<String>)
    ensures
        final(xml)@ == old(xml)@ + opt_attr(key@, *value),
{
    match value {
        Some(v) => push_attr(xml, key, v.as_str()),
        None => {
            assert(final(xml)@ =~= old(xml)@ + opt_attr(key@, *value));
        },
    }
}

fn push_ref_attr(xml: &mut String, key: &str, value: &Option<String>)
    ensures
        final(xml)@ == old(xml)@ + ref_attr(key@, *value),
{
    match value {
        Some(v) => {
            xml.append(" ");
            xml.append(key);
            xml.append("=\"");
            let e = escape_xml(v.as_str());
            xml.append(e.as_str());
            xml.append("\"");
            assert(final(xml)@ =~= old(xml)@ + ref_attr(key@, *value));
        },
        None => {
            assert(final(xml)@ =~= old(xml)@ + ref_attr(key@, *value));
        },
    }
}

fn push_escaped(xml: &mut String, value: &str)
    ensures
        final(xml)@ == old(xml)@ + escape_xml_spec(value@),
{
    let e = escape_xml(value);
    xml.append(e.as_str());
}

fn push_documentation(xml: &mut String, indent: &str, doc: &Option<String>)
    ensures
        final(xml)@ == old(xml)@ + documentation_xml(indent@, *doc),
{
    match doc {
        Some(d) => {
            xml.append(indent);
            xml.append("<documentation>");
            push_escaped(xml, d.as_str());
            xml.append("</documentation>\n");
            assert(final(xml)@ =~= old(xml)@ + documentation_xml(indent@, *doc));
        },
        None => {
            assert(final(xml)@ =~= old(xml)@ + documentation_xml(indent@, *doc));
        },
    }
}

fn bool_str(b: bool) -> (r: &'static str)
    ensures
        r@ == bool_text(b),
{
    if b {
        "true"
    } else {
        "false"
    }
}

fn spaces_text(n: usize) -> (r: String)
    ensures
        r@ == spaces(n as nat),
{
    let mut r = String::new();
    let mut i: usize = 0;
    while i < n
        invariant
            i <= n,
            r@ == spaces(i as nat),
        decreases n - i,
    {
        r.push(' ');
        assert(r@ =~= spaces((i + 1) as nat));
        i = i + 1;
    }
    r
}

fn serialize_event_definition(def: &EventDefinition, indent: usize) -> (r: String)
    ensures
        r@ == event_definition_xml(*def, indent as nat),
{
    let mut xml = spaces_text(indent);
    match def {
        EventDefinition::NoTrigger => xml.append("<eventDefinitionRef />\n"),
        EventDefinition::Message { message_ref } => {
            xml.append("<messageEventDefinition");
            push_ref_attr(&mut xml, "messageRef", message_ref);
            xml.append(" />\n");
        },
        EventDefinition::Timer { time_expression } => {
            xml.append("<timerEventDefinition><timeDate>");
            push_escaped(&mut xml, time_expression.as_str());
            xml.append("</timeDate></timerEventDefinition>\n");
        },
        EventDefinition::Signal { signal_ref } => {
            xml.append("<signalEventDefinition");
            push_ref_attr(&mut xml, "signalRef", signal_ref);
            xml.append(" />\n");
        },
        EventDefinition::Error { error_ref } => {
            xml.append("<errorEventDefinition");
            push_ref_attr(&mut xml, "errorRef", error_ref);
            xml.append(" />\n");
        },
        EventDefinition::Escalation { escalation_ref } => {
            xml.append("<escalationEventDefinition");
            push_ref_attr(&mut xml, "escalationRef", escalation_ref);
            xml.append(" />\n");
        },
        EventDefinition::Cancel => xml.append("<cancelEventDefinition />\n"),
        EventDefinition::Compensation => xml.append("<compensateEventDefinition />\n"),
        EventDefinition::Conditional { condition } => {
            xml.append("<conditionalEventDefinition><condition>");
            push_escaped(&mut xml, condition.as_str());
            xml.append("</condition></conditionalEventDefinition>\n");
        },
        EventDefinition::Link { target, source: _ } => {
            xml.append("<linkEventDefinition");
            push_ref_attr(&mut xml, "name", target);
            xml.append(" />\n");
        },
        EventDefinition::Terminate => xml.append("<terminateEventDefinition />\n"),
        EventDefinition::Multiple { .. } => xml.append("<multipleEventDefinition />\n"),
    }
    assert(xml@ =~= event_definition_xml(*def, indent as nat));
    xml
}

fn push_event_end(xml: &mut String, def: &Option<EventDefinition>, closing: &str)
    ensures
        final(xml)@ == old(xml)@ + event_end(*def, closing@),
{
    match def {
        Some(d) => {
            xml.append(">\n");
            let text = serialize_event_definition(d, 3);
            xml.append(text.as_str());
            xml.append(closing);
        },
        None => xml.append(" />\n"),
    }
    assert(final(xml)@ =~= old(xml)@ + event_end(*def, closing@));
}

fn serialize_start_event(event: &StartEvent) -> (r: String)
    ensures
        r@ == start_event_xml(*event),
{
    let mut xml = String::new();
    xml.append("    <startEvent ");
    push_attr(&mut xml, "id", event.id.as_str());
    push_opt_attr(&mut xml, "name", &event.name);
    xml.append("isInterrupting=\"");
    xml.append(bool_str(event.is_interrupting));
    xml.append("\"");
    push_event_end(&mut xml, &event.event_definition, "    </startEvent>\n");
    assert(xml@ =~= start_event_xml(*event));
    xml
}

fn serialize_end_event(event: &EndEvent) -> (r: String)
    ensures
        r@ == end_event_xml(*event),
{
    let mut xml = String::new();
    xml.append("    <endEvent ");
    push_attr(&mut xml, "id", event.id.as_str());
    push_opt_attr(&mut xml, "name", &event.name);
    push_event_end(&mut xml, &event.event_definition, "    </endEvent>\n");
    assert(xml@ =~= end_event_xml(*event));
    xml
}

fn serialize_intermediate_event(event: &IntermediateEvent) -> (r: String)
    ensures
        r@ == intermediate_event_xml(*event),
{
    let mut xml = String::new();
    xml.append("    <intermediateCatchEvent ");
    push_attr(&mut xml, "id", event.id.as_str());
    push_opt_attr(&mut xml, "name", &event.name);
    push_opt_attr(&mut xml, "attachedToRef", &event.attached_to_ref);
    push_event_end(&mut xml, &event.event_definition, "    </intermediateCatchEvent>\n");
    assert(xml@ =~= intermediate_event_xml(*event));
    xml
}

fn task_tag_str(t: &BpmnTaskType) -> (r: &'static str)
    ensures
        r@ == task_tag(*t),
{
    match t {
        BpmnTaskType::Abstract => "task",
        BpmnTaskType::User { .. } => "userTask",
        BpmnTaskType::Service { .. } => "serviceTask",
        BpmnTaskType::Manual => "manualTask",
        BpmnTaskType::Script { .. } => "scriptTask",
        BpmnTaskType::BusinessRule { .. } => "businessRuleTask",
        BpmnTaskType::Send { .. } => "sendTask",
        BpmnTaskType::Receive { .. } => "receiveTask",
    }
}

fn serialize_task_text(task: &BpmnTask) -> (r: XmlResult<String>)
    ensures
        r matches Ok(s) && s@ == task_xml(*task),
{
    let tag = task_tag_str(&task.task_type);
    let mut xml = String::new();
    xml.append("    <");
    xml.append(tag);
    xml.append(" ");
    push_attr(&mut xml, "id", task.id.as_str());
    push_opt_attr(&mut xml, "name", &task.name);
    match &task.task_type {
        BpmnTaskType::Script { script_format, script } => {
            xml.append("scriptFormat=\"");
            push_escaped(&mut xml, script_format.as_str());
            xml.append("\">\n");
            xml.append("      <script>");
            push_escaped(&mut xml, script.as_str());
            xml.append("</script>\n");
        },
        _ => xml.append(">\n"),
    }
    xml.append("    </");
    xml.append(tag);
    xml.append(">\n");
    assert(xml@ =~= task_xml(*task));
    Ok(xml)
}

fn gateway_tag_str(t: &BpmnGatewayType) -> (r: &'static str)
    ensures
        r@ == gateway_tag(*t),
{
    match t {
        BpmnGatewayType::Exclusive => "exclusiveGateway",
        BpmnGatewayType::Parallel => "parallelGateway",
        BpmnGatewayType::Inclusive => "inclusiveGateway",
        BpmnGatewayType::EventBased { .. } => "eventBasedGateway",
        BpmnGatewayType::ParallelEventBased => "parallelGateway",
        BpmnGatewayType::Complex { .. } => "complexGateway",
    }
}

fn serialize_gateway(gateway: &BpmnGateway) -> (r: String)
    ensures
        r@ == gateway_xml(*gateway),
{
    let tag = gateway_tag_str(&gateway.gateway_type);
    let mut xml = String::new();
    xml.append("    <");
    xml.append(tag);
    xml.append(" ");
    push_attr(&mut xml, "id", gateway.id.as_str());
    push_opt_attr(&mut xml, "name", &gateway.name);
    push_opt_attr(&mut xml, "default", &gateway.default_flow);
    xml.append("/>\n");
    assert(xml@ =~= gateway_xml(*gateway));
    xml
}

fn subprocess_tag_str(t: SubprocessType) -> (r: &'static str)
    ensures
        r@ == subprocess_tag(t),
{
    match t {
        SubprocessType::Embedded => "subProcess",
        SubprocessType::CallActivity => "callActivity",
        SubprocessType::EventSubprocess => "subProcess",
        SubprocessType::Transaction => "transaction",
        SubprocessType::AdHoc => "adHocSubProcess",
    }
}

fn serialize_subprocess_text(subprocess: &Subprocess) -> (r: XmlResult<String>)
    ensures
        r matches Ok(s) && s@ == subprocess_xml(*subprocess),
{
    let tag = subprocess_tag_str(subprocess.subprocess_type);
    let mut xml = String::new();
    xml.append("    <");
    xml.append(tag);
    xml.append(" ");
    push_attr(&mut xml, "id", subprocess.id.as_str());
    push_opt_attr(&mut xml, "name", &subprocess.name);
    push_opt_attr(&mut xml, "calledElement", &subprocess.called_element);
    if subprocess.subprocess_type == SubprocessType::EventSubprocess {
        xml.append("triggeredByEvent=\"true\" ");
    }
    if subprocess.process.is_some() {
        xml.append(">\n");
        xml.append("    </");
        xml.append(tag);
        xml.append(">\n");
    } else {
        xml.append("/>\n");
    }
    assert(xml@ =~= subprocess_xml(*subprocess));
    Ok(xml)
}

fn serialize_data_object(data_obj: &DataObject) -> (r: String)
    ensures
        r@ == data_object_xml(*data_obj),
{
    let mut xml = String::new();
    xml.append("    <dataObject ");
    push_attr(&mut xml, "id", data_obj.id.as_str());
    push_opt_attr(&mut xml, "name", &data_obj.name);
    if data_obj.is_collection {
        xml.append("isCollection=\"true\" ");
    }
    xml.append("/>\n");
    assert(xml@ =~= data_object_xml(*data_obj));
    xml
}

fn serialize_text_annotation(annotation: &TextAnnotation) -> (r: String)
    ensures
        r@ == text_annotation_xml(*annotation),
{
    let mut xml = String::new();
    xml.append("    <textAnnotation ");
    push_attr(&mut xml, "id", annotation.id.as_str());
    xml.append("textFormat=\"");
    push_escaped(&mut xml, annotation.text_format.as_str());
    xml.append("\">\n");
    xml.append("      <text>");
    push_escaped(&mut xml, annotation.text.as_str());
    xml.append("</text>\n");
    xml.append("    </textAnnotation>\n");
    assert(xml@ =~= text_annotation_xml(*annotation));
    xml
}

fn serialize_group(group: &Group) -> (r: String)
    ensures
        r@ == group_xml(*group),
{
    let mut xml = String::new();
    xml.append("    <group ");
    push_attr(&mut xml, "id", group.id.as_str());
    push_opt_attr(&mut xml, "categoryValueRef", &group.category_value_ref);
    xml.append("/>\n");
    assert(xml@ =~= group_xml(*group));
    xml
}

fn serialize_sequence_flow(flow: &SequenceFlow) -> (r: String)
    ensures
        r@ == sequence_flow_xml(*flow),
{
    let mut xml = String::new();
    xml.append("    <sequenceFlow ");
    push_attr(&mut xml, "id", flow.id.as_str());
    push_attr(&mut xml, "sourceRef", flow.source_ref.as_str());
    push_attr(&mut xml, "targetRef", flow.target_ref.as_str());
    push_opt_attr(&mut xml, "name", &flow.name);
    match &flow.condition_expression {
        Some(cond) => {
            xml.append(">\n");
            xml.append("      <conditionExpression>");
            push_escaped(&mut xml, cond.as_str());
            xml.append("</conditionExpression>\n");
            xml.append("    </sequenceFlow>\n");
        },
        None => xml.append("/>\n"),
    }
    assert(xml@ =~= sequence_flow_xml(*flow));
    xml
}

fn serialize_data_association(assoc: &DataAssociation) -> (r: String)
    ensures
        r@ == data_association_xml(*assoc),
{
    let mut xml = String::new();
    xml.append("    <dataInputAssociation ");
    push_attr(&mut xml, "id", assoc.id.as_str());
    push_opt_attr(&mut xml, "sourceRef", &assoc.source_ref);
    xml.append("targetRef=\"");
    push_escaped(&mut xml, assoc.target_ref.as_str());
    xml.append("\"");
    xml.append(" />\n");
    assert(xml@ =~= data_association_xml(*assoc));
    xml
}

fn serialize_flow_node_ref(r: &String) -> (x: String)
    ensures
        x@ == flow_node_ref_xml(*r),
{
    let mut xml = String::new();
    xml.append("        <flowNodeRef>");
    push_escaped(&mut xml, r.as_str());
    xml.append("</flowNodeRef>\n");
    assert(xml@ =~= flow_node_ref_xml(*r));
    xml
}

fn serialize_lane_text(lane: &Lane) -> (r: XmlResult<String>)
    ensures
        r matches Ok(s) && s@ == lane_xml(*lane),
{
    let mut xml = String::new();
    xml.append("    <laneSet>\n");
    xml.append("      <lane ");
    push_attr(&mut xml, "id", lane.id.as_str());
    push_opt_attr(&mut xml, "name", &lane.name);
    xml.append(">\n");
    append_flow_node_refs(&mut xml, &lane.flow_node_refs);
    xml.append("      </lane>\n");
    xml.append("    </laneSet>\n");
    assert(xml@ =~= lane_xml(*lane));
    Ok(xml)
}

fn serialize_participant(p: &Participant) -> (r: String)
    ensures
        r@ == participant_xml(*p),
{
    let mut xml = String::new();
    xml.append("    <participant ");
    push_attr(&mut xml, "id", p.id.as_str());
    push_opt_attr(&mut xml, "name", &p.name);
    push_opt_attr(&mut xml, "processRef", &p.process_ref);
    xml.append("/>\n");
    assert(xml@ =~= participant_xml(*p));
    xml
}

fn serialize_message_flow(m: &MessageFlow) -> (r: String)
    ensures
        r@ == message_flow_xml(*m),
{
    let mut xml = String::new();
    xml.append("    <messageFlow ");
    push_attr(&mut xml, "id", m.id.as_str());
    push_attr(&mut xml, "sourceRef", m.source_ref.as_str());
    push_attr(&mut xml, "targetRef", m.target_ref.as_str());
    push_opt_attr(&mut xml, "name", &m.name);
    xml.append("/>\n");
    assert(xml@ =~= message_flow_xml(*m));
    xml
}

fn serialize_collaboration_text(collaboration: &Collaboration) -> (r: XmlResult<String>)
    ensures
        r matches Ok(s) && s@ == collaboration_xml(*collaboration),
{
    let mut xml = String::new();
    xml.append("  <collaboration ");
    push_attr(&mut xml, "id", collaboration.id.as_str());
    push_opt_attr(&mut xml, "name", &collaboration.name);
    xml.append(">\n");
    append_participants(&mut xml, &collaboration.participants);
    append_message_flows(&mut xml, &collaboration.message_flows);
    xml.append("  </collaboration>\n");
    assert(xml@ =~= collaboration_xml(*collaboration));
    Ok(xml)
}

fn serialize_message(message: &Message) -> (r: String)
    ensures
        r@ == message_xml(*message),
{
    let mut xml = String::new();
    xml.append("  <message ");
    push_attr(&mut xml, "id", message.id.as_str());
    push_opt_attr(&mut xml, "name", &message.name);
    xml.append("/>\n");
    assert(xml@ =~= message_xml(*message));
    xml
}

fn serialize_signal(signal: &Signal) -> (r: String)
    ensures
        r@ == signal_xml(*signal),
{
    let mut xml = String::new();
    xml.append("  <signal ");
    push_attr(&mut xml, "id", signal.id.as_str());
    push_opt_attr(&mut xml, "name", &signal.name);
    xml.append("/>\n");
    assert(xml@ =~= signal_xml(*signal));
    xml
}

fn serialize_data_store(data_store: &DataStore) -> (r: String)
    ensures
        r@ == data_store_xml(*data_store),
{
    let mut xml = String::new();
    xml.append("  <dataStore ");
    push_attr(&mut xml, "id", data_store.id.as_str());
    push_opt_attr(&mut xml, "name", &data_store.name);
    xml.append("/>\n");
    assert(xml@ =~= data_store_xml(*data_store));
    xml
}

fn process_type_str(pt: ProcessType) -> (r: &'static str)
    ensures
        r@ == process_type_text(pt),
{
    match pt {
        ProcessType::NoType => "None",
        ProcessType::Public => "Public",
        ProcessType::Private => "Private",
    }
}

fn serialize_process_text(process: &BpmnProcess) -> (r: XmlResult<String>)
    ensures
        r matches Ok(s) && s@ == process_xml(*process),
{
    let mut xml = String::new();
    xml.append("  <process ");
    push_attr(&mut xml, "id", process.id.as_str());
    push_opt_attr(&mut xml, "name", &process.name);
    xml.append("isExecutable=\"");
    xml.append(bool_str(process.is_executable));
    xml.append("\" ");
    xml.append("processType=\"");
    xml.append(process_type_str(process.process_type));
    xml.append("\">\n");
    push_documentation(&mut xml, "    ", &process.documentation);
    append_start_events(&mut xml, &process.start_events);
    append_end_events(&mut xml, &process.end_events);
    append_intermediate_events(&mut xml, &process.intermediate_events);
    append_tasks(&mut xml, &process.tasks);
    append_gateways(&mut xml, &process.gateways);
    append_subprocesses(&mut xml, &process.subprocesses);
    append_data_objects(&mut xml, &process.data_objects);
    append_text_annotations(&mut xml, &process.text_annotations);
    append_groups(&mut xml, &process.groups);
    append_sequence_flows(&mut xml, &process.sequence_flows);
    append_data_associations(&mut xml, &process.data_associations);
    append_lanes(&mut xml, &process.lanes);
    xml.append("  </process>\n");
    proof {
        reveal(process_xml);
    }
    assert(xml@ =~= process_xml(*process));
    Ok(xml)
}

fn shape_text(id: &str, bpmn_element: &str, x: i128, y: i128, width: i128, height: i128) -> (r: String)
    ensures
        r@ == shape_xml(id@, bpmn_element@, x as int, y as int, width as int, height as int),
{
    let mut xml = String::new();
    xml.append("      <bpmndi:BPMNShape ");
    xml.append("id=\"Shape_");
    push_escaped(&mut xml, id);
    xml.append("\" ");
    xml.append("bpmnElement=\"");
    push_escaped(&mut xml, bpmn_element);
    xml.append("\">\n");
    xml.append("        <dc:Bounds x=\"");
    let t = i128_to_decimal(x);
    xml.append(t.as_str());
    xml.append("\" y=\"");
    let t = i128_to_decimal(y);
    xml.append(t.as_str());
    xml.append("\" width=\"");
    let t = i128_to_decimal(width);
    xml.append(t.as_str());
    xml.append("\" height=\"");
    let t = i128_to_decimal(height);
    xml.append(t.as_str());
    xml.append("\" />\n");
    xml.append("      </bpmndi:BPMNShape>\n");
    assert(xml@ =~= shape_xml(id@, bpmn_element@, x as int, y as int, width as int, height as int));
    xml
}

fn serialize_edge(flow: &SequenceFlow) -> (r: String)
    ensures
        r@ == edge_xml(*flow),
{
    let mut xml = String::new();
    xml.append("      <bpmndi:BPMNEdge ");
    xml.append("id=\"Edge_");
    push_escaped(&mut xml, flow.id.as_str());
    xml.append("\" ");
    xml.append("bpmnElement=\"");
    push_escaped(&mut xml, flow.id.as_str());
    xml.append("\">\n");
    xml.append("        <di:waypoint x=\"150\" y=\"120\" />\n");
    xml.append("        <di:waypoint x=\"250\" y=\"120\" />\n");
    xml.append("      </bpmndi:BPMNEdge>\n");
    assert(xml@ =~= edge_xml(*flow));
    xml
}

fn serialize_plane(process: &BpmnProcess) -> (r: String)
    ensures
        r@ == plane_xml(*process),
{
    let mut xml = String::new();
    xml.append("    <bpmndi:BPMNPlane ");
    xml.append("id=\"Plane_");
    push_escaped(&mut xml, process.id.as_str());
    xml.append("\" ");
    xml.append("bpmnElement=\"");
    push_escaped(&mut xml, process.id.as_str());
    xml.append("\">\n");
    append_start_shapes(&mut xml, &process.start_events);
    append_task_shapes(&mut xml, &process.tasks);
    append_gateway_shapes(&mut xml, &process.gateways);
    append_end_shapes(&mut xml, &process.end_events);
    append_edges(&mut xml, &process.sequence_flows);
    xml.append("    </bpmndi:BPMNPlane>\n");
    assert(xml@ =~= plane_xml(*process));
    xml
}

fn append_start_events(xml: &mut String, items: &Vec<StartEvent>)
    ensures
        final(xml)@ == old(xml)@ + start_events_xml(items@),
{
    let ghost pre = xml@;
    let mut i: usize = 0;
    while i < items.len()
        invariant
            i <= items.len(),
            xml@ == pre + start_events_xml(items@.take(i as int)),
        decreases items.len() - i,
    {
        assert(items@.take(i + 1).drop_last() =~= items@.take(i as int));
        let part = serialize_start_event(&items[i]);
        xml.append(part.as_str());
        assert(xml@ =~= pre + start_events_xml(items@.take(i + 1)));
        i = i + 1;
    }
    assert(items@.take(items.len() as int) =~= items@);
}

fn append_end_events(xml: &mut String, items: &Vec<EndEvent>)
    ensures
        final(xml)@ == old(xml)@ + end_events_xml(items@),
{
    let ghost pre = xml@;
    let mut i: usize = 0;
    while i < items.len()
        invariant
            i <= items.len(),
            xml@ == pre + end_events_xml(items@.take(i as int)),
        decreases items.len() - i,
    {
        assert(items@.take(i + 1).drop_last() =~= items@.take(i as int));
        let part = serialize_end_event(&items[i]);
        xml.append(part.as_str());
        assert(xml@ =~= pre + end_events_xml(items@.take(i + 1)));
        i = i + 1;
    }
    assert(items@.take(items.len() as int) =~= items@);
}

fn append_intermediate_events(xml: &mut String, items: &Vec<IntermediateEvent>)
    ensures
        final(xml)@ == old(xml)@ + intermediate_events_xml(items@),
{
    let ghost pre = xml@;
    let mut i: usize = 0;
    while i < items.len()
        invariant
            i <= items.len(),
            xml@ == pre + intermediate_events_xml(items@.take(i as int)),
        decreases items.len() - i,
    {
        assert(items@.take(i + 1).drop_last() =~= items@.take(i as int));
        let part = serialize_intermediate_event(&items[i]);
        xml.append(part.as_str());
        assert(xml@ =~= pre + intermediate_events_xml(items@.take(i + 1)));
        i = i + 1;
    }
    assert(items@.take(items.len() as int) =~= items@);
}

fn append_tasks(xml: &mut String, items: &Vec<BpmnTask>)
    ensures
        final(xml)@ == old(xml)@ + tasks_xml(items@),
{
    let ghost pre = xml@;
    let mut i: usize = 0;
    while i < items.len()
        invariant
            i <= items.len(),
            xml@ == pre + tasks_xml(items@.take(i as int)),
        decreases items.len() - i,
    {
        assert(items@.take(i + 1).drop_last() =~= items@.take(i as int));
        let part = match serialize_task_text(&items[i]) {
                Ok(p) => p,
                Err(_) => String::new(),
            };
        xml.append(part.as_str());
        assert(xml@ =~= pre + tasks_xml(items@.take(i + 1)));
        i = i + 1;
    }
    assert(items@.take(items.len() as int) =~= items@);
}

fn append_gateways(xml: &mut String, items: &Vec<BpmnGateway>)
    ensures
        final(xml)@ == old(xml)@ + gateways_xml(items@),
{
    let ghost pre = xml@;
    let mut i: usize = 0;
    while i < items.len()
        invariant
            i <= items.len(),
            xml@ == pre + gateways_xml(items@.take(i as int)),
        decreases items.len() - i,
    {
        assert(items@.take(i + 1).drop_last() =~= items@.take(i as int));
        let part = serialize_gateway(&items[i]);
        xml.append(part.as_str());
        assert(xml@ =~= pre + gateways_xml(items@.take(i + 1)));
        i = i + 1;
    }
    assert(items@.take(items.len() as int) =~= items@);
}

fn append_subprocesses(xml: &mut String, items: &Vec<Subprocess>)
    ensures
        final(xml)@ == old(xml)@ + subprocesses_xml(items@),
{
    let ghost pre = xml@;
    let mut i: usize = 0;
    while i < items.len()
        invariant
            i <= items.len(),
            xml@ == pre + subprocesses_xml(items@.take(i as int)),
        decreases items.len() - i,
    {
        assert(items@.take(i + 1).drop_last() =~= items@.take(i as int));
        let part = match serialize_subprocess_text(&items[i]) {
                Ok(p) => p,
                Err(_) => String::new(),
            };
        xml.append(part.as_str());
        assert(xml@ =~= pre + subprocesses_xml(items@.take(i + 1)));
        i = i + 1;
    }
    assert(items@.take(items.len() as int) =~= items@);
}

fn append_data_objects(xml: &mut String, items: &Vec<DataObject>)
    ensures
        final(xml)@ == old(xml)@ + data_objects_xml(items@),
{
    let ghost pre = xml@;
    let mut i: usize = 0;
    while i < items.len()
        invariant
            i <= items.len(),
            xml@ == pre + data_objects_xml(items@.take(i as int)),
        decreases items.len() - i,
    {
        assert(items@.take(i + 1).drop_last() =~= items@.take(i as int));
        let part = serialize_data_object(&items[i]);
        xml.append(part.as_str());
        assert(xml@ =~= pre + data_objects_xml(items@.take(i + 1)));
        i = i + 1;
    }
    assert(items@.take(items.len() as int) =~= items@);
}

fn append_text_annotations(xml: &mut String, items: &Vec<TextAnnotation>)
    ensures
        final(xml)@ == old(xml)@ + text_annotations_xml(items@),
{
    let ghost pre = xml@;
    let mut i: usize = 0;
    while i < items.len()
        invariant
            i <= items.len(),
            xml@ == pre + text_annotations_xml(items@.take(i as int)),
        decreases items.len() - i,
    {
        assert(items@.take(i + 1).drop_last() =~= items@.take(i as int));
        let part = serialize_text_annotation(&items[i]);
        xml.append(part.as_str());
        assert(xml@ =~= pre + text_annotations_xml(items@.take(i + 1)));
        i = i + 1;
    }
    assert(items@.take(items.len() as int) =~= items@);
}

fn append_groups(xml: &mut String, items: &Vec<Group>)
    ensures
        final(xml)@ == old(xml)@ + groups_xml(items@),
{
    let ghost pre = xml@;
    let mut i: usize = 0;
    while i < items.len()
        invariant
            i <= items.len(),
            xml@ == pre + groups_xml(items@.take(i as int)),
        decreases items.len() - i,
    {
        assert(items@.take(i + 1).drop_last() =~= items@.take(i as int));
        let part = serialize_group(&items[i]);
        xml.append(part.as_str());
        assert(xml@ =~= pre + groups_xml(items@.take(i + 1)));
        i = i + 1;
    }
    assert(items@.take(items.len() as int) =~= items@);
}

fn append_sequence_flows(xml: &mut String, items: &Vec<SequenceFlow>)
    ensures
        final(xml)@ == old(xml)@ + sequence_flows_xml(items@),
{
    let ghost pre = xml@;
    let mut i: usize = 0;
    while i < items.len()
        invariant
            i <= items.len(),
            xml@ == pre + sequence_flows_xml(items@.take(i as int)),
        decreases items.len() - i,
    {
        assert(items@.take(i + 1).drop_last() =~= items@.take(i as int));
        let part = serialize_sequence_flow(&items[i]);
        xml.append(part.as_str());
        assert(xml@ =~= pre + sequence_flows_xml(items@.take(i + 1)));
        i = i + 1;
    }
    assert(items@.take(items.len() as int) =~= items@);
}

fn append_data_associations(xml: &mut String, items: &Vec<DataAssociation>)
    ensures
        final(xml)@ == old(xml)@ + data_associations_xml(items@),
{
    let ghost pre = xml@;
    let mut i: usize = 0;
    while i < items.len()
        invariant
            i <= items.len(),
            xml@ == pre + data_associations_xml(items@.take(i as int)),
        decreases items.len() - i,
    {
        assert(items@.take(i + 1).drop_last() =~= items@.take(i as int));
        let part = serialize_data_association(&items[i]);
        xml.append(part.as_str());
        assert(xml@ =~= pre + data_associations_xml(items@.take(i + 1)));
        i = i + 1;
    }
    assert(items@.take(items.len() as int) =~= items@);
}

fn append_lanes(xml: &mut String, items: &Vec<Lane>)
    ensures
        final(xml)@ == old(xml)@ + lanes_xml(items@),
{
    let ghost pre = xml@;
    let mut i: usize = 0;
    while i < items.len()
        invariant
            i <= items.len(),
            xml@ == pre + lanes_xml(items@.take(i as int)),
        decreases items.len() - i,
    {
        assert(items@.take(i + 1).drop_last() =~= items@.take(i as int));
        let part = match serialize_lane_text(&items[i]) {
                Ok(p) => p,
                Err(_) => String::new(),
            };
        xml.append(part.as_str());
        assert(xml@ =~= pre + lanes_xml(items@.take(i + 1)));
        i = i + 1;
    }
    assert(items@.take(items.len() as int) =~= items@);
}

fn append_participants(xml: &mut String, items: &Vec<Participant>)
    ensures
        final(xml)@ == old(xml)@ + participants_xml(items@),
{
    let ghost pre = xml@;
    let mut i: usize = 0;
    while i < items.len()
        invariant
            i <= items.len(),
            xml@ == pre + participants_xml(items@.take(i as int)),
        decreases items.len() - i,
    {
        assert(items@.take(i + 1).drop_last() =~= items@.take(i as int));
        let part = serialize_participant(&items[i]);
        xml.append(part.as_str());
        assert(xml@ =~= pre + participants_xml(items@.take(i + 1)));
        i = i + 1;
    }
    assert(items@.take(items.len() as int) =~= items@);
}

fn append_message_flows(xml: &mut String, items: &Vec<MessageFlow>)
    ensures
        final(xml)@ == old(xml)@ + message_flows_xml(items@),
{
    let ghost pre = xml@;
    let mut i: usize = 0;
    while i < items.len()
        invariant
            i <= items.len(),
            xml@ == pre + message_flows_xml(items@.take(i as int)),
        decreases items.len() - i,
    {
        assert(items@.take(i + 1).drop_last() =~= items@.take(i as int));
        let part = serialize_message_flow(&items[i]);
        xml.append(part.as_str());
        assert(xml@ =~= pre + message_flows_xml(items@.take(i + 1)));
        i = i + 1;
    }
    assert(items@.take(items.len() as int) =~= items@);
}

fn append_messages(xml: &mut String, items: &Vec<Message>)
    ensures
        final(xml)@ == old(xml)@ + messages_xml(items@),
{
    let ghost pre = xml@;
    let mut i: usize = 0;
    while i < items.len()
        invariant
            i <= items.len(),
            xml@ == pre + messages_xml(items@.take(i as int)),
        decreases items.len() - i,
    {
        assert(items@.take(i + 1).drop_last() =~= items@.take(i as int));
        let part = serialize_message(&items[i]);
        xml.append(part.as_str());
        assert(xml@ =~= pre + messages_xml(items@.take(i + 1)));
        i = i + 1;
    }
    assert(items@.take(items.len() as int) =~= items@);
}

fn append_signals(xml: &mut String, items: &Vec<Signal>)
    ensures
        final(xml)@ == old(xml)@ + signals_xml(items@),
{
    let ghost pre = xml@;
    let mut i: usize = 0;
    while i < items.len()
        invariant
            i <= items.len(),
            xml@ == pre + signals_xml(items@.take(i as int)),
        decreases items.len() - i,
    {
        assert(items@.take(i + 1).drop_last() =~= items@.take(i as int));
        let part = serialize_signal(&items[i]);
        xml.append(part.as_str());
        assert(xml@ =~= pre + signals_xml(items@.take(i + 1)));
        i = i + 1;
    }
    assert(items@.take(items.len() as int) =~= items@);
}

fn append_data_stores(xml: &mut String, items: &Vec<DataStore>)
    ensures
        final(xml)@ == old(xml)@ + data_stores_xml(items@),
{
    let ghost pre = xml@;
    let mut i: usize = 0;
    while i < items.len()
        invariant
            i <= items.len(),
            xml@ == pre + data_stores_xml(items@.take(i as int)),
        decreases items.len() - i,
    {
        assert(items@.take(i + 1).drop_last() =~= items@.take(i as int));
        let part = serialize_data_store(&items[i]);
        xml.append(part.as_str());
        assert(xml@ =~= pre + data_stores_xml(items@.take(i + 1)));
        i = i + 1;
    }
    assert(items@.take(items.len() as int) =~= items@);
}

fn append_processes(xml: &mut String, items: &Vec<BpmnProcess>)
    ensures
        final(xml)@ == old(xml)@ + processes_xml(items@),
{
    let ghost pre = xml@;
    let mut i: usize = 0;
    while i < items.len()
        invariant
            i <= items.len(),
            xml@ == pre + processes_xml(items@.take(i as int)),
        decreases items.len() - i,
    {
        assert(items@.take(i + 1).drop_last() =~= items@.take(i as int));
        let part = match serialize_process_text(&items[i]) {
                Ok(p) => p,
                Err(_) => String::new(),
            };
        xml.append(part.as_str());
        assert(xml@ =~= pre + processes_xml(items@.take(i + 1)));
        i = i + 1;
    }
    assert(items@.take(items.len() as int) =~= items@);
}

fn append_collaborations(xml: &mut String, items: &Vec<Collaboration>)
    ensures
        final(xml)@ == old(xml)@ + collaborations_xml(items@),
{
    let ghost pre = xml@;
    let mut i: usize = 0;
    while i < items.len()
        invariant
            i <= items.len(),
            xml@ == pre + collaborations_xml(items@.take(i as int)),
        decreases items.len() - i,
    {
        assert(items@.take(i + 1).drop_last() =~= items@.take(i as int));
        let part = match serialize_collaboration_text(&items[i]) {
                Ok(p) => p,
                Err(_) => String::new(),
            };
        xml.append(part.as_str());
        assert(xml@ =~= pre + collaborations_xml(items@.take(i + 1)));
        i = i + 1;
    }
    assert(items@.take(items.len() as int) =~= items@);
}

fn append_flow_node_refs(xml: &mut String, items: &Vec<String>)
    ensures
        final(xml)@ == old(xml)@ + flow_node_refs_xml(items@),
{
    let ghost pre = xml@;
    let mut i: usize = 0;
    while i < items.len()
        invariant
            i <= items.len(),
            xml@ == pre + flow_node_refs_xml(items@.take(i as int)),
        decreases items.len() - i,
    {
        assert(items@.take(i + 1).drop_last() =~= items@.take(i as int));
        let part = serialize_flow_node_ref(&items[i]);
        xml.append(part.as_str());
        assert(xml@ =~= pre + flow_node_refs_xml(items@.take(i + 1)));
        i = i + 1;
    }
    assert(items@.take(items.len() as int) =~= items@);
}

#[verifier::spinoff_prover]
#[verifier::rlimit(40)]
fn append_planes(xml: &mut String, items: &Vec<BpmnProcess>)
    ensures
        final(xml)@ == old(xml)@ + planes_xml(items@),
{
    let ghost pre = xml@;
    let mut i: usize = 0;
    while i < items.len()
        invariant
            i <= items.len(),
            xml@ == pre + planes_xml(items@.take(i as int)),
        decreases items.len() - i,
    {
        assert(items@.take(i + 1).drop_last() =~= items@.take(i as int));
        let part = serialize_plane(&items[i]);
        xml.append(part.as_str());
        assert(xml@ =~= pre + planes_xml(items@.take(i + 1)));
        i = i + 1;
    }
    assert(items@.take(items.len() as int) =~= items@);
}

fn append_edges(xml: &mut String, items: &Vec<SequenceFlow>)
    ensures
        final(xml)@ == old(xml)@ + edges_xml(items@),
{
    let ghost pre = xml@;
    let mut i: usize = 0;
    while i < items.len()
        invariant
            i <= items.len(),
            xml@ == pre + edges_xml(items@.take(i as int)),
        decreases items.len() - i,
    {
        assert(items@.take(i + 1).drop_last() =~= items@.take(i as int));
        let part = serialize_edge(&items[i]);
        xml.append(part.as_str());
        assert(xml@ =~= pre + edges_xml(items@.take(i + 1)));
        i = i + 1;
    }
    assert(items@.take(items.len() as int) =~= items@);
}

fn append_start_shapes(xml: &mut String, items: &Vec<StartEvent>)
    ensures
        final(xml)@ == old(xml)@ + start_shapes_xml(items@),
{
    let ghost pre = xml@;
    let mut i: usize = 0;
    while i < items.len()
        invariant
            i <= items.len(),
            xml@ == pre + start_shapes_xml(items@.take(i as int)),
        decreases items.len() - i,
    {
        assert(items@.take(i + 1).drop_last() =~= items@.take(i as int));
        let x: i128 = 100 + (i as i128) * 150;
        let part = shape_text(items[i].id.as_str(), items[i].id.as_str(), x, 80, 36, 36);
        xml.append(part.as_str());
        assert(xml@ =~= pre + start_shapes_xml(items@.take(i + 1)));
        i = i + 1;
    }
    assert(items@.take(items.len() as int) =~= items@);
}

fn append_task_shapes(xml: &mut String, items: &Vec<BpmnTask>)
    ensures
        final(xml)@ == old(xml)@ + task_shapes_xml(items@),
{
    let ghost pre = xml@;
    let mut i: usize = 0;
    while i < items.len()
        invariant
            i <= items.len(),
            xml@ == pre + task_shapes_xml(items@.take(i as int)),
        decreases items.len() - i,
    {
        assert(items@.take(i + 1).drop_last() =~= items@.take(i as int));
        let x: i128 = 200 + (i as i128) * 150;
        let part = shape_text(items[i].id.as_str(), items[i].id.as_str(), x, 80, 100, 80);
        xml.append(part.as_str());
        assert(xml@ =~= pre + task_shapes_xml(items@.take(i + 1)));
        i = i + 1;
    }
    assert(items@.take(items.len() as int) =~= items@);
}

fn append_gateway_shapes(xml: &mut String, items: &Vec<BpmnGateway>)
    ensures
        final(xml)@ == old(xml)@ + gateway_shapes_xml(items@),
{
    let ghost pre = xml@;
    let mut i: usize = 0;
    while i < items.len()
        invariant
            i <= items.len(),
            xml@ == pre + gateway_shapes_xml(items@.take(i as int)),
        decreases items.len() - i,
    {
        assert(items@.take(i + 1).drop_last() =~= items@.take(i as int));
        let x: i128 = 300 + (i as i128) * 150;
        let part = shape_text(items[i].id.as_str(), items[i].id.as_str(), x, 80, 50, 50);
        xml.append(part.as_str());
        assert(xml@ =~= pre + gateway_shapes_xml(items@.take(i + 1)));
        i = i + 1;
    }
    assert(items@.take(items.len() as int) =~= items@);
}

fn append_end_shapes(xml: &mut String, items: &Vec<EndEvent>)
    ensures
        final(xml)@ == old(xml)@ + end_shapes_xml(items@),
{
    let ghost pre = xml@;
    let mut i: usize = 0;
    while i < items.len()
        invariant
            i <= items.len(),
            xml@ == pre + end_shapes_xml(items@.take(i as int)),
        decreases items.len() - i,
    {
        assert(items@.take(i + 1).drop_last() =~= items@.take(i as int));
        let x: i128 = 400 + (i as i128) * 150;
        let part = shape_text(items[i].id.as_str(), items[i].id.as_str(), x, 80, 36, 36);
        xml.append(part.as_str());
        assert(xml@ =~= pre + end_shapes_xml(items@.take(i + 1)));
        i = i + 1;
    }
    assert(items@.take(items.len() as int) =~= items@);
}


/// Append the namespace attributes that close the definitions start tag.
fn push_namespaces(xml: &mut String)
    ensures
        final(xml)@ == old(xml)@ + namespaces_text(),
{
    let ghost b = xml@;
    xml.append("xmlns=\"");
    xml.append(BPMN2);
    xml.append("\" ");
    xml.append("xmlns:bpmndi=\"");
    xml.append(BPMNDI);
    xml.append("\" ");
    xml.append("xmlns:dc=\"");
    xml.append(DC);
    xml.append("\" ");
    xml.append("xmlns:di=\"");
    xml.append(DI);
    xml.append("\" ");
    xml.append("xmlns:xsi=\"http://www.w3.org/2001/XMLSchema-instance\" ");
    xml.append("xsi:schemaLocation=\"");
    xml.append(BPMN2);
    xml.append(" BPMN20.xsd");
    xml.append("\">\n");
    proof {
        reveal(namespaces_text);
        assert(xml@ =~= b + namespaces_text());
    }
}

/// Append the start of the definitions document of `diagram`: the XML
/// declaration, the definitions start tag and its documentation.
#[verifier::spinoff_prover]
#[verifier::rlimit(40)]
fn push_definitions_header(xml: &mut String, diagram: &BpmnDiagram)
    ensures
        final(xml)@ == old(xml)@ + header_text(
            escape_xml_spec(diagram.id@),
            opt_escape(diagram.name),
            opt_escape(diagram.documentation),
        ),
{
    let ghost x0 = xml@;
    let ghost id_e = escape_xml_spec(diagram.id@);
    let ghost name_t = match opt_escape(diagram.name) {
        Some(n) => name_head() + n + "\" "@,
        None => Seq::<char>::empty(),
    };
    let ghost doc_t = match opt_escape(diagram.documentation) {
        Some(x) => documentation_open() + x + "</documentation>\n"@,
        None => Seq::<char>::empty(),
    };
    xml.append("<?xml version=\"1.0\" encoding=\"UTF-8\"?>\n");
    xml.append("<definitions ");
    push_attr(xml, "id", diagram.id.as_str());
    proof {
        reveal(definitions_head);
        assert(xml@ =~= x0 + definitions_head() + id_e + "\" "@);
    }
    let ghost a = xml@;
    push_opt_attr(xml, "name", &diagram.name);
    proof {
        reveal(name_head);
        assert(opt_attr("name"@, diagram.name) =~= name_t);
    }
    let ghost b = xml@;
    push_namespaces(xml);
    let ghost c = xml@;
    push_documentation(xml, "  ", &diagram.documentation);
    proof {
        reveal(documentation_open);
        assert(documentation_xml("  "@, diagram.documentation) =~= doc_t);
        assert(xml@ =~= c + doc_t);
        assert(xml@ =~= x0 + header_text(id_e, opt_escape(diagram.name), opt_escape(diagram.documentation)));
    }
}

/// Writes BPMN 2.0 XML with diagram interchange information.
pub struct BpmnXmlSerializer;

impl BpmnXmlSerializer {
    /// The BPMN 2.0 XML document of `diagram`, with diagram interchange shapes and edges.
    #[verifier::spinoff_prover]
    #[verifier::rlimit(40)]
    pub fn to_string(diagram: &BpmnDiagram) -> (r: XmlResult<String>)
        ensures
            r matches Ok(s) && s@ == definitions_xml(*diagram),
    {
        let mut xml = String::new();
        push_definitions_header(&mut xml, diagram);
        let ghost header = xml@;
        append_messages(&mut xml, &diagram.messages);
        append_signals(&mut xml, &diagram.signals);
        append_data_stores(&mut xml, &diagram.data_stores);
        append_processes(&mut xml, &diagram.processes);
        append_collaborations(&mut xml, &diagram.collaborations);
        if diagram.processes.len() > 0 {
            let di = Self::serialize_diagram_interchange(diagram);
            xml.append(di.as_str());
        }
        xml.append("</definitions>\n");
        assert(xml@ =~= header + written_rest(*diagram));
        Ok(xml)
    }

    fn serialize_diagram_interchange(diagram: &BpmnDiagram) -> (r: String)
        ensures
            r@ == diagram_interchange_xml(*diagram),
    {
        let mut xml = String::new();
        xml.append("  <bpmndi:BPMNDiagram ");
        xml.append("id=\"Diagram_");
        push_escaped(&mut xml, diagram.id.as_str());
        xml.append("\" ");
        push_opt_attr(&mut xml, "name", &diagram.name);
        xml.append(">\n");
        append_planes(&mut xml, &diagram.processes);
        xml.append("  </bpmndi:BPMNDiagram>\n");
        assert(xml@ =~= diagram_interchange_xml(*diagram));
        xml
    }

    /// A diagram shape at whole-number bounds; negative coordinates are refused.
    pub fn serialize_shape(id: &str, bpmn_element: &str, x: i128, y: i128, width: i128, height: i128) -> (r:
        XmlResult<String>)
        ensures
            x < 0 || y < 0 ==> (r matches Err(XmlError::InvalidCoordinate { value, reason }) && value@ == "("@
                + signed_decimal(x as int) + ", "@ + signed_decimal(y as int) + ")"@ && reason@
                == "Coordinates must be positive"@),
            !(x < 0 || y < 0) ==> (r matches Ok(s) && s@ == shape_xml(
                id@,
                bpmn_element@,
                x as int,
                y as int,
                width as int,
                height as int,
            )),
    {
        if x < 0 || y < 0 {
            let xs = i128_to_decimal(x);
            let ys = i128_to_decimal(y);
            let mut value = concat3("(", xs.as_str(), ", ");
            value.append(ys.as_str());
            value.append(")");
            return Err(
                XmlError::InvalidCoordinate { value, reason: owned("Coordinates must be positive") },
            );
        }
        Ok(shape_text(id, bpmn_element, x, y, width, height))
    }

    /// Read a diagram from BPMN XML text in the form `to_string` writes: the
    /// id, name and documentation of the definitions element, decoded. The
    /// shared elements, processes and collaborations that follow are not
    /// read, and the diagram comes back without them. Text that does not
    /// start with such a definitions element is refused.
    pub fn from_string(xml: &str) -> (r: XmlResult<BpmnDiagram>)
        ensures
            match definitions_header(xml@) {
                Some((id, name, doc)) => r matches Ok(d) && d.id@ == unescape_xml_spec(id) && opt_view(d.name)
                    == opt_unescape(name) && opt_view(d.documentation) == opt_unescape(doc) && d.processes@.len() == 0
                    && d.collaborations@.len() == 0 && d.data_stores@.len() == 0 && d.messages@.len() == 0
                    && d.signals@.len() == 0,
                None => r matches Err(XmlError::ParseError(m)) && m@ == "no BPMN definitions element"@,
            },
            forall|w: BpmnDiagram|
                #[trigger] definitions_xml(w) == xml@ ==> (r matches Ok(d) && d.id@ == w.id@ && opt_view(d.name)
                    == opt_view(w.name) && opt_view(d.documentation) == opt_view(w.documentation)),
    {
        proof {
            assert forall|w: BpmnDiagram| #[trigger] definitions_xml(w) == xml@ implies
                definitions_header(xml@) matches Some((id, name, doc)) && unescape_xml_spec(id) == w.id@
                    && opt_unescape(name) == opt_view(w.name) && opt_unescape(doc) == opt_view(w.documentation) by {
                lemma_read_back_written(w);
            }
        }
        match read_definitions_header(xml) {
            Some((id, name, doc)) => {
                let name = match name {
                    Some(n) => Some(unescape_xml(n.as_str())),
                    None => None,
                };
                let documentation = match doc {
                    Some(x) => Some(unescape_xml(x.as_str())),
                    None => None,
                };
                Ok(
                    BpmnDiagram {
                        id: unescape_xml(id.as_str()),
                        name,
                        documentation,
                        processes: Vec::new(),
                        collaborations: Vec::new(),
                        data_stores: Vec::new(),
                        messages: Vec::new(),
                        signals: Vec::new(),
                    },
                )
            },
            None => Err(XmlError::ParseError(owned("no BPMN definitions element"))),
        }
    }

    /// `text` with `& < > " '` replaced by their XML entities.
    pub fn escape_xml(text: &str) -> (r: String)
        ensures
            r@ == escape_xml_spec(text@),
    {
        escape_xml(text)
    }
}


/// The element name a gateway is written with, as the text between `<` and
/// the first space of its XML.
pub open spec fn element_after_indent(x: Seq<char>, name: Seq<char>) -> bool {
    x.len() >= name.len() + 6 && x.subrange(0, 5) == seq![' ', ' ', ' ', ' ', '<'] && x.subrange(5, 5 + name.len() as int)
        == name && x[5 + name.len() as int] == ' '
}

/// A gateway is written as the element of its own kind: exclusive as
/// `exclusiveGateway`, parallel (and parallel event-based) as
/// `parallelGateway`, inclusive as `inclusiveGateway`, event-based as
/// `eventBasedGateway`, complex as `complexGateway`; and gateways of
/// different kinds, the two parallel ones aside, are never written with the
/// same element name, so the name read back gives the kind that was written.
pub proof fn lemma_gateway_element_names(g: BpmnGateway, h: BpmnGateway)
    ensures
        g.gateway_type is Exclusive ==> element_after_indent(gateway_xml(g), seq!['e', 'x', 'c', 'l', 'u', 's', 'i', 'v', 'e', 'G', 'a', 't', 'e', 'w', 'a', 'y']),
        g.gateway_type is Parallel || g.gateway_type is ParallelEventBased ==> element_after_indent(gateway_xml(g), seq!['p', 'a', 'r', 'a', 'l', 'l', 'e', 'l', 'G', 'a', 't', 'e', 'w', 'a', 'y']),
        g.gateway_type is Inclusive ==> element_after_indent(gateway_xml(g), seq!['i', 'n', 'c', 'l', 'u', 's', 'i', 'v', 'e', 'G', 'a', 't', 'e', 'w', 'a', 'y']),
        g.gateway_type is EventBased ==> element_after_indent(gateway_xml(g), seq!['e', 'v', 'e', 'n', 't', 'B', 'a', 's', 'e', 'd', 'G', 'a', 't', 'e', 'w', 'a', 'y']),
        g.gateway_type is Complex ==> element_after_indent(gateway_xml(g), seq!['c', 'o', 'm', 'p', 'l', 'e', 'x', 'G', 'a', 't', 'e', 'w', 'a', 'y']),
        gateway_xml(g).len() > 6 && gateway_xml(h).len() > 6,
        gateway_xml(g)[5] == gateway_xml(h)[5] && gateway_xml(g)[6] == gateway_xml(h)[6] ==> (
            (g.gateway_type is Exclusive <==> h.gateway_type is Exclusive)
            && (g.gateway_type is Inclusive <==> h.gateway_type is Inclusive)
            && (g.gateway_type is EventBased <==> h.gateway_type is EventBased)
            && (g.gateway_type is Complex <==> h.gateway_type is Complex)
            && (g.gateway_type is Parallel || g.gateway_type is ParallelEventBased <==> h.gateway_type is Parallel
                || h.gateway_type is ParallelEventBased)),
{
    reveal_strlit("    <");
    reveal_strlit(" ");
    reveal_strlit("exclusiveGateway");
    reveal_strlit("parallelGateway");
    reveal_strlit("inclusiveGateway");
    reveal_strlit("eventBasedGateway");
    reveal_strlit("complexGateway");
    lemma_gateway_head(g);
    lemma_gateway_head(h);
    assert("    <"@ =~= seq![' ', ' ', ' ', ' ', '<']);
    assert("exclusiveGateway"@ =~= seq!['e', 'x', 'c', 'l', 'u', 's', 'i', 'v', 'e', 'G', 'a', 't', 'e', 'w', 'a', 'y']);
    assert("parallelGateway"@ =~= seq!['p', 'a', 'r', 'a', 'l', 'l', 'e', 'l', 'G', 'a', 't', 'e', 'w', 'a', 'y']);
    assert("inclusiveGateway"@ =~= seq!['i', 'n', 'c', 'l', 'u', 's', 'i', 'v', 'e', 'G', 'a', 't', 'e', 'w', 'a', 'y']);
    assert("eventBasedGateway"@ =~= seq!['e', 'v', 'e', 'n', 't', 'B', 'a', 's', 'e', 'd', 'G', 'a', 't', 'e', 'w', 'a', 'y']);
    assert("complexGateway"@ =~= seq!['c', 'o', 'm', 'p', 'l', 'e', 'x', 'G', 'a', 't', 'e', 'w', 'a', 'y']);
}

proof fn lemma_gateway_head(g: BpmnGateway)
    ensures
        gateway_xml(g).len() >= 5 + gateway_tag(g.gateway_type).len() + 1,
        gateway_xml(g).subrange(0, 5) == "    <"@,
        gateway_xml(g).subrange(5, 5 + gateway_tag(g.gateway_type).len() as int) == gateway_tag(g.gateway_type),
        gateway_xml(g)[5 + gateway_tag(g.gateway_type).len() as int] == " "@[0],
        forall|k: int| 0 <= k < gateway_tag(g.gateway_type).len() ==> gateway_xml(g)[5 + k] == gateway_tag(
            g.gateway_type,
        )[k],
{
    reveal_strlit("    <");
    reveal_strlit(" ");
    let tag = gateway_tag(g.gateway_type);
    let rest = attr("id"@, g.id@) + opt_attr("name"@, g.name) + opt_attr("default"@, g.default_flow) + "/>\n"@;
    let x = gateway_xml(g);
    assert(x =~= "    <"@ + tag + (" "@ + rest));
    assert(x.subrange(0, 5) =~= "    <"@);
    assert(x.subrange(5, 5 + tag.len() as int) =~= tag);
    assert(x[5 + tag.len() as int] == (" "@ + rest)[0]);
}

} // verus!

