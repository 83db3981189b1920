//! Building the documentation of a process from its definition.
use vstd::prelude::*;
use super::{ErrorScenario, Parameter, Participant, ProcessDocumentation};
use crate::bpmn::process::{Process, Task};
use crate::bpmn::{ProcessInstance, ProcessState};
use crate::text::{decimal, joined};
use crate::entries::keys_unique;

verus! {

/// The formats documentation can be written in.
#[derive(Debug, Clone, Copy, PartialEq, Eq, Structural)]
pub enum DocumentationFormat {
    Markdown,
    Html,
    PlainText,
    Json,
}

/// What documentation should hold, and in which format.
#[derive(Debug, Clone)]
pub struct DocumentationConfig {
    pub include_diagram: bool,
    pub include_error_handling: bool,
    pub include_participants: bool,
    pub include_parameters: bool,
    pub include_dodaf_alignment: bool,
    pub format: DocumentationFormat,
    pub title: Option<String>,
    pub author: Option<String>,
    pub version: Option<String>,
}

impl Default for DocumentationConfig {
    /// Everything included, in Markdown, with no title, author or version.
    fn default() -> (r: Self)
        ensures
            r.include_diagram && r.include_error_handling && r.include_participants,
            r.include_parameters && r.include_dodaf_alignment,
            r.format == DocumentationFormat::Markdown,
            r.title is None && r.author is None && r.version is None,
    {
        DocumentationConfig {
            include_diagram: true,
            include_error_handling: true,
            include_participants: true,
            include_parameters: true,
            include_dodaf_alignment: true,
            format: DocumentationFormat::Markdown,
            title: None,
            author: None,
            version: None,
        }
    }
}

/// Makes the documentation of processes.
pub struct DocumentationGenerator {
    pub config: DocumentationConfig,
}

/// `p` is the parameter with these parts and no constraints.
pub open spec fn parameter_is(
    p: Parameter,
    name: Seq<char>,
    param_type: Seq<char>,
    description: Seq<char>,
    required: bool,
) -> bool {
    &&& p.name@ == name
    &&& p.param_type@ == param_type
    &&& p.description@ == description
    &&& p.required == required
    &&& p.default is None
    &&& p.constraints is None
}

/// The description of a process: its own, or `Process: ` and its name.
pub open spec fn process_description(p: Process) -> Seq<char> {
    match p.description {
        Some(d) => d@,
        None => "Process: "@ + p.name@,
    }
}

/// The names of tasks, in order.
pub open spec fn task_names(ts: Seq<Task>) -> Seq<Seq<char>> {
    ts.map_values(|t: Task| t.name@)
}

/// The flow of a process in words: its tasks joined by arrows, and how many
/// flows and gateways it has, each line only where there are any.
pub open spec fn flow_text(p: Process) -> Seq<char> {
    "Process Flow:\n"@
        + (if p.tasks@.len() > 0 { "- Tasks: "@ + joined(task_names(p.tasks@), " → "@) + "\n"@ } else { Seq::empty() })
        + (if p.flows@.len() > 0 { "- Connections: "@ + decimal(p.flows@.len()) + " flows defined\n"@ } else { Seq::empty() })
        + (if p.gateways@.len() > 0 { "- Decision Points: "@ + decimal(p.gateways@.len()) + " gateways\n"@ } else { Seq::empty() })
}

/// The DoDAF views a process relates to: OV-6c always, OV-1 and OV-5b when it
/// has tasks, OV-6a when it has gateways.
pub open spec fn dodaf_views_of(p: Process) -> Seq<Seq<char>> {
    seq!["OV-6c - Systems Interface Description"@]
        + (if p.tasks@.len() > 0 {
            seq!["OV-1 - High-Level Operational Concept Graphic"@, "OV-5b - Operational Activity Model"@]
        } else {
            Seq::empty()
        })
        + (if p.gateways@.len() > 0 { seq!["OV-6a - All Processes and Interactions"@] } else { Seq::empty() })
}

/// The metadata of a process's documentation: its id and name, and its
/// description when it has one.
pub open spec fn metadata_of(p: Process) -> Seq<(Seq<char>, Seq<char>)> {
    seq![("process_id"@, p.id@), ("process_name"@, p.name@)]
        + match p.description {
            Some(d) => seq![("description"@, d@)],
            None => Seq::empty(),
        }
}

/// The views of metadata entries.
pub open spec fn entries_view(es: Seq<(String, String)>) -> Seq<(Seq<char>, Seq<char>)> {
    es.map_values(|e: (String, String)| (e.0@, e.1@))
}

/// `doc` documents `p` (all but the time it was made): id, name and
/// description; an input for the first task and an output for the last;
/// no purpose, participants or error scenarios; the flow in words, the
/// DoDAF views and the metadata.
pub open spec fn documents_process(doc: ProcessDocumentation, p: Process) -> bool {
    let n = p.tasks@.len();
    &&& doc.process_id@ == p.id@
    &&& doc.name@ == p.name@
    &&& doc.description@ == process_description(p)
    &&& doc.purpose is None
    &&& (if n > 0 {
        doc.inputs@.len() == 1 && parameter_is(doc.inputs@[0], p.tasks@[0].id@ + "_input"@, "any"@,
            "Input for "@ + p.tasks@[0].name@, true)
    } else {
        doc.inputs@.len() == 0
    })
    &&& (if n > 0 {
        doc.outputs@.len() == 1 && parameter_is(doc.outputs@[0], p.tasks@[n - 1].id@ + "_output"@, "any"@,
            "Output from "@ + p.tasks@[n - 1].name@, false)
    } else {
        doc.outputs@.len() == 0
    })
    &&& doc.participants@.len() == 0
    &&& doc.flow_description@ == flow_text(p)
    &&& doc.error_handling@.len() == 0
    &&& crate::text::strings_view(doc.dodaf_views@) == dodaf_views_of(p)
    &&& entries_view(doc.metadata@) == metadata_of(p)
}

fn clone_string(s: &String) -> (r: String)
    ensures
        r@ == s@,
{
    s.clone()
}

fn task_parameter(id: &String, id_suffix: &str, what: &str, name: &String, required: bool) -> (r: Parameter)
    ensures
        parameter_is(r, id@ + id_suffix@, "any"@, what@ + name@, required),
{
    let mut pname = clone_string(id);
    pname.append(id_suffix);
    let mut desc = crate::text::owned(what);
    desc.append(name.as_str());
    Parameter {
        name: pname,
        param_type: crate::text::owned("any"),
        description: desc,
        required,
        default: None,
        constraints: None,
    }
}

fn names_of_tasks(ts: &Vec<Task>) -> (r: Vec<String>)
    ensures
        crate::text::strings_view(r@) == task_names(ts@),
{
    let mut r: Vec<String> = Vec::new();
    let mut i: usize = 0;
    while i < ts.len()
        invariant
            i <= ts.len(),
            r@.len() == i,
            forall|j: int| 0 <= j < i ==> (#[trigger] r@[j])@ == ts@[j].name@,
        decreases ts.len() - i,
    {
        r.push(clone_string(&ts[i].name));
        i = i + 1;
    }
    assert(crate::text::strings_view(r@) =~= task_names(ts@));
    r
}

fn flow_description_of(p: &Process) -> (r: String)
    ensures
        r@ == flow_text(*p),
{
    let mut flow = crate::text::owned("Process Flow:\n");
    let ghost a = flow@;
    if p.tasks.len() > 0 {
        let names = names_of_tasks(&p.tasks);
        let j = crate::text::join_strings(&names, " → ");
        flow.append("- Tasks: ");
        flow.append(j.as_str());
        flow.append("\n");
    }
    assert(flow@ =~= a + (if p.tasks@.len() > 0 { "- Tasks: "@ + joined(task_names(p.tasks@), " → "@) + "\n"@ } else { Seq::empty() }));
    let ghost b = flow@;
    if p.flows.len() > 0 {
        let n = crate::text::usize_to_decimal(p.flows.len());
        flow.append("- Connections: ");
        flow.append(n.as_str());
        flow.append(" flows defined\n");
    }
    assert(flow@ =~= b + (if p.flows@.len() > 0 { "- Connections: "@ + decimal(p.flows@.len()) + " flows defined\n"@ } else { Seq::empty() }));
    let ghost c = flow@;
    if p.gateways.len() > 0 {
        let n = crate::text::usize_to_decimal(p.gateways.len());
        flow.append("- Decision Points: ");
        flow.append(n.as_str());
        flow.append(" gateways\n");
    }
    assert(flow@ =~= c + (if p.gateways@.len() > 0 { "- Decision Points: "@ + decimal(p.gateways@.len()) + " gateways\n"@ } else { Seq::empty() }));
    flow
}

fn views_of(p: &Process) -> (r: Vec<String>)
    ensures
        crate::text::strings_view(r@) == dodaf_views_of(*p),
{
    let mut views: Vec<String> = Vec::new();
    views.push(crate::text::owned("OV-6c - Systems Interface Description"));
    if p.tasks.len() > 0 {
        views.push(crate::text::owned("OV-1 - High-Level Operational Concept Graphic"));
        views.push(crate::text::owned("OV-5b - Operational Activity Model"));
    }
    if p.gateways.len() > 0 {
        views.push(crate::text::owned("OV-6a - All Processes and Interactions"));
    }
    assert(crate::text::strings_view(views@) =~= dodaf_views_of(*p));
    views
}

fn entry(k: &str, v: &String) -> (r: (String, String))
    ensures
        r.0@ == k@ && r.1@ == v@,
{
    (crate::text::owned(k), clone_string(v))
}

fn metadata_for(p: &Process) -> (r: Vec<(String, String)>)
    ensures
        entries_view(r@) == metadata_of(*p),
{
    let mut m: Vec<(String, String)> = Vec::new();
    m.push(entry("process_id", &p.id));
    m.push(entry("process_name", &p.name));
    match &p.description {
        Some(d) => m.push(entry("description", d)),
        None => {},
    }
    assert(entries_view(m@) =~= metadata_of(*p));
    m
}

/// The kinds of JSON value.
#[derive(Debug, Clone, Copy, PartialEq, Eq, Structural)]
pub enum JsonKind {
    Null,
    Boolean,
    Number,
    Text,
    Array,
    Object,
}

/// The kind of the JSON value `v`: which variant of `serde_json::Value` it is.
pub uninterp spec fn json_kind_of(v: serde_json::Value) -> JsonKind;

/// Which variant of `serde_json::Value` `v` is, told apart by a `match`.
#[verifier::external_body]
fn json_kind(v: &serde_json::Value) -> (r: JsonKind)
    ensures
        r == json_kind_of(*v),
{
    match v {
        serde_json::Value::Null => JsonKind::Null,
        serde_json::Value::Bool(_) => JsonKind::Boolean,
        serde_json::Value::Number(_) => JsonKind::Number,
        serde_json::Value::String(_) => JsonKind::Text,
        serde_json::Value::Array(_) => JsonKind::Array,
        serde_json::Value::Object(_) => JsonKind::Object,
    }
}

/// The compact JSON text of `v`, as its `Display` writes it.
pub uninterp spec fn json_display(v: serde_json::Value) -> Seq<char>;

/// The compact JSON text of `v`, from `serde_json::Value`'s `to_string`.
/// Its value is named, not described.
#[verifier::external_body]
fn json_text(v: &serde_json::Value) -> (r: String)
    ensures
        r@ == json_display(*v),
{
    v.to_string()
}

/// The text form of the UUID `u`, as its `Display` writes it (hyphenated,
/// lower case).
pub uninterp spec fn uuid_display(u: uuid::Uuid) -> Seq<char>;

/// The text form of `u`, from `uuid::Uuid`'s `to_string`: the hyphenated
/// form, 36 characters long. Its value is named, not described.
#[verifier::external_body]
fn uuid_text(u: &uuid::Uuid) -> (r: String)
    ensures
        r@ == uuid_display(*u),
        r@.len() == 36,
{
    u.to_string()
}

/// The time `rfc3339` in UTC as `chrono`'s `Display` of a `DateTime<Utc>`
/// writes it, or none if `chrono` cannot read it.
pub uninterp spec fn utc_datetime_display(rfc3339: Seq<char>) -> Option<Seq<char>>;

/// The time `rfc3339` in UTC, from `DateTime::parse_from_rfc3339`,
/// `with_timezone(&Utc)` and `to_string`; none if it cannot be read. Its
/// value is named, not described.
#[verifier::external_body]
fn utc_datetime_text(rfc3339: &str) -> (r: Option<String>)
    ensures
        match r {
            Some(t) => utc_datetime_display(rfc3339@) == Some(t@),
            None => utc_datetime_display(rfc3339@) is None,
        },
{
    match chrono::DateTime::parse_from_rfc3339(rfc3339) {
        Ok(t) => Some(t.with_timezone(&chrono::Utc).to_string()),
        Err(_) => None,
    }
}

/// The name given to a JSON kind in documentation.
pub open spec fn kind_label(k: JsonKind) -> Seq<char> {
    match k {
        JsonKind::Null => "null"@,
        JsonKind::Boolean => "boolean"@,
        JsonKind::Number => "number"@,
        JsonKind::Text => "string"@,
        JsonKind::Array => "array"@,
        JsonKind::Object => "object"@,
    }
}

fn kind_text(k: JsonKind) -> (r: String)
    ensures
        r@ == kind_label(k),
{
    crate::text::owned(match k {
        JsonKind::Null => "null",
        JsonKind::Boolean => "boolean",
        JsonKind::Number => "number",
        JsonKind::Text => "string",
        JsonKind::Array => "array",
        JsonKind::Object => "object",
    })
}

/// The name of a process state, as it is written out.
pub open spec fn state_label(s: ProcessState) -> Seq<char> {
    match s {
        ProcessState::Pending => "Pending"@,
        ProcessState::Running => "Running"@,
        ProcessState::Suspended => "Suspended"@,
        ProcessState::Completed => "Completed"@,
        ProcessState::Failed => "Failed"@,
        ProcessState::Cancelled => "Cancelled"@,
    }
}

fn state_text(s: ProcessState) -> (r: &'static str)
    ensures
        r@ == state_label(s),
{
    match s {
        ProcessState::Pending => "Pending",
        ProcessState::Running => "Running",
        ProcessState::Suspended => "Suspended",
        ProcessState::Completed => "Completed",
        ProcessState::Failed => "Failed",
        ProcessState::Cancelled => "Cancelled",
    }
}

/// How the start of a run is shown: the time in UTC, or the text itself
/// when it cannot be read as a time.
pub open spec fn start_shown(rfc3339: Seq<char>) -> Seq<char> {
    match utc_datetime_display(rfc3339) {
        Some(t) => t,
        None => rfc3339,
    }
}

/// `p` documents the process variable `name` holding `value`: its kind as
/// type, its JSON text as default, not required, no constraints.
pub open spec fn variable_parameter_is(p: Parameter, name: Seq<char>, value: serde_json::Value) -> bool {
    &&& p.name@ == name
    &&& p.param_type@ == kind_label(json_kind_of(value))
    &&& p.description@ == "Process variable: "@ + name
    &&& !p.required
    &&& p.default matches Some(d) && d@ == json_display(value)
    &&& p.constraints is None
}

/// The metadata of a run's documentation: its id, process, state and start,
/// and its end when it has ended.
pub open spec fn instance_metadata_of(i: ProcessInstance) -> Seq<(Seq<char>, Seq<char>)> {
    seq![
        ("instance_id"@, uuid_display(i.id)),
        ("process_id"@, i.process_id@),
        ("state"@, state_label(i.state)),
        ("started_at"@, i.started_at@),
    ] + match i.completed_at {
        Some(c) => seq![("completed_at"@, c@)],
        None => Seq::empty(),
    }
}

/// `doc` documents the run `i` (all but the time it was made): named after
/// its process, with its id and start as purpose, one input per variable in
/// order, its state as flow, no outputs, participants, error scenarios or
/// views, and the run's metadata.
pub open spec fn documents_instance(doc: ProcessDocumentation, i: ProcessInstance) -> bool {
    &&& doc.process_id@ == i.process_id@
    &&& doc.name@ == "Execution: "@ + i.process_id@
    &&& doc.description@ == "Process instance execution documentation for "@ + i.process_id@
    &&& doc.purpose matches Some(p) && p@ == "Instance "@ + uuid_display(i.id) + " executed at "@
        + start_shown(i.started_at@)
    &&& doc.inputs@.len() == i.variables@.len()
    &&& forall|j: int| 0 <= j < i.variables@.len()
        ==> #[trigger] variable_parameter_is(doc.inputs@[j], i.variables@[j].0@, i.variables@[j].1)
    &&& doc.outputs@.len() == 0
    &&& doc.participants@.len() == 0
    &&& doc.flow_description@ == "Process state: "@ + state_label(i.state)
    &&& doc.error_handling@.len() == 0
    &&& doc.dodaf_views@.len() == 0
    &&& entries_view(doc.metadata@) == instance_metadata_of(i)
}

fn variable_parameters(vars: &Vec<(String, serde_json::Value)>) -> (r: Vec<Parameter>)
    ensures
        r@.len() == vars@.len(),
        forall|j: int| 0 <= j < vars@.len()
            ==> #[trigger] variable_parameter_is(r@[j], vars@[j].0@, vars@[j].1),
{
    let mut r: Vec<Parameter> = Vec::new();
    let mut i: usize = 0;
    while i < vars.len()
        invariant
            i <= vars.len(),
            r@.len() == i,
            forall|j: int| 0 <= j < i ==> #[trigger] variable_parameter_is(r@[j], vars@[j].0@, vars@[j].1),
        decreases vars.len() - i,
    {
        let name = &vars[i].0;
        let value = &vars[i].1;
        let kind = json_kind(value);
        r.push(Parameter {
            name: clone_string(name),
            param_type: kind_text(kind),
            description: crate::text::concat2("Process variable: ", name.as_str()),
            required: false,
            default: Some(json_text(value)),
            constraints: None,
        });
        i = i + 1;
    }
    r
}

fn instance_metadata(i: &ProcessInstance) -> (r: Vec<(String, String)>)
    ensures
        entries_view(r@) == instance_metadata_of(*i),
{
    let mut m: Vec<(String, String)> = Vec::new();
    m.push(entry("instance_id", &uuid_text(&i.id)));
    m.push(entry("process_id", &i.process_id));
    m.push((crate::text::owned("state"), crate::text::owned(state_text(i.state))));
    m.push(entry("started_at", &i.started_at));
    match &i.completed_at {
        Some(c) => m.push(entry("completed_at", c)),
        None => {},
    }
    assert(entries_view(m@) =~= instance_metadata_of(*i));
    m
}

/// Entries whose viewed keys are distinct have unique keys.
proof fn lemma_keys_unique_from_view(es: Seq<(String, String)>)
    requires
        forall|i: int, j: int| 0 <= i < j < es.len() ==> entries_view(es)[i].0 != entries_view(es)[j].0,
    ensures
        keys_unique(es),
{
    assert forall|i: int, j: int| 0 <= i < j < es.len() implies (#[trigger] es[i]).0@ != (#[trigger] es[j]).0@ by {
        assert(entries_view(es)[i].0 == es[i].0@);
        assert(entries_view(es)[j].0 == es[j].0@);
    }
}

/// The metadata keys of a process's documentation are distinct.
proof fn lemma_process_metadata_keys(p: Process)
    ensures
        forall|i: int, j: int| 0 <= i < j < metadata_of(p).len() ==> metadata_of(p)[i].0 != metadata_of(p)[j].0,
{
    reveal_strlit("process_id");
    reveal_strlit("process_name");
    reveal_strlit("description");
    assert("process_id"@.len() == 10 && "process_name"@.len() == 12 && "description"@.len() == 11);
}

/// The metadata keys of a run's documentation are distinct.
proof fn lemma_instance_metadata_keys(i: ProcessInstance)
    ensures
        forall|a: int, b: int| 0 <= a < b < instance_metadata_of(i).len() ==> instance_metadata_of(i)[a].0
            != instance_metadata_of(i)[b].0,
{
    reveal_strlit("instance_id");
    reveal_strlit("process_id");
    reveal_strlit("state");
    reveal_strlit("started_at");
    reveal_strlit("completed_at");
    assert("instance_id"@.len() == 11 && "process_id"@.len() == 10 && "state"@.len() == 5);
    assert("started_at"@.len() == 10 && "completed_at"@.len() == 12);
    assert("process_id"@[0] != "started_at"@[0]);
}

impl DocumentationGenerator {
    /// A generator with `config`.
    pub fn new(config: DocumentationConfig) -> (r: Self)
        ensures
            r.config == config,
    {
        DocumentationGenerator { config }
    }

    /// A generator with the default configuration.
    pub fn default() -> (r: Self)
        ensures
            r.config.format == DocumentationFormat::Markdown,
            r.config.include_diagram && r.config.include_error_handling && r.config.include_participants,
            r.config.include_parameters && r.config.include_dodaf_alignment,
            r.config.title is None && r.config.author is None && r.config.version is None,
    {
        DocumentationGenerator { config: DocumentationConfig::default() }
    }

    /// The documentation of `process`, made at `generated_at` (RFC 3339 text).
    pub fn document_process(&self, process: &Process, generated_at: String) -> (r: ProcessDocumentation)
        ensures
            documents_process(r, *process),
            keys_unique(r.metadata@),
            r.generated_at == generated_at,
    {
        let description = match &process.description {
            Some(d) => clone_string(d),
            None => crate::text::concat2("Process: ", process.name.as_str()),
        };
        let mut inputs: Vec<Parameter> = Vec::new();
        let mut outputs: Vec<Parameter> = Vec::new();
        let n = process.tasks.len();
        if n > 0 {
            let first = &process.tasks[0];
            inputs.push(task_parameter(&first.id, "_input", "Input for ", &first.name, true));
            let last = &process.tasks[n - 1];
            outputs.push(task_parameter(&last.id, "_output", "Output from ", &last.name, false));
        }
        let participants: Vec<Participant> = Vec::new();
        let error_handling: Vec<ErrorScenario> = Vec::new();
        let metadata = metadata_for(process);
        proof {
            lemma_process_metadata_keys(*process);
            lemma_keys_unique_from_view(metadata@);
        }
        ProcessDocumentation {
            process_id: clone_string(&process.id),
            name: clone_string(&process.name),
            description,
            purpose: None,
            inputs,
            outputs,
            participants,
            flow_description: flow_description_of(process),
            error_handling,
            dodaf_views: views_of(process),
            metadata,
            generated_at,
        }
    }

    /// The documentation of `process`, made now.
    pub fn generate_from_process(&self, process: &Process) -> (r: Result<ProcessDocumentation, String>)
        ensures
            r matches Ok(doc) && documents_process(doc, *process) && keys_unique(doc.metadata@),
    {
        let now = crate::outside::now_rfc3339();
        Ok(self.document_process(process, now))
    }

    /// The documentation of the run `instance`, made at `generated_at`
    /// (RFC 3339 text).
    pub fn document_instance(&self, instance: &ProcessInstance, generated_at: String) -> (r: ProcessDocumentation)
        ensures
            documents_instance(r, *instance),
            keys_unique(r.metadata@),
            r.generated_at == generated_at,
    {
        let id = uuid_text(&instance.id);
        let started = match utc_datetime_text(instance.started_at.as_str()) {
            Some(t) => t,
            None => clone_string(&instance.started_at),
        };
        let mut purpose = crate::text::concat3("Instance ", id.as_str(), " executed at ");
        purpose.append(started.as_str());
        let outputs: Vec<Parameter> = Vec::new();
        let participants: Vec<Participant> = Vec::new();
        let error_handling: Vec<ErrorScenario> = Vec::new();
        let dodaf_views: Vec<String> = Vec::new();
        let metadata = instance_metadata(instance);
        proof {
            lemma_instance_metadata_keys(*instance);
            lemma_keys_unique_from_view(metadata@);
        }
        ProcessDocumentation {
            process_id: clone_string(&instance.process_id),
            name: crate::text::concat2("Execution: ", instance.process_id.as_str()),
            description: crate::text::concat2(
                "Process instance execution documentation for ",
                instance.process_id.as_str(),
            ),
            purpose: Some(purpose),
            inputs: variable_parameters(&instance.variables),
            outputs,
            participants,
            flow_description: crate::text::concat2("Process state: ", state_text(instance.state)),
            error_handling,
            dodaf_views,
            metadata,
            generated_at,
        }
    }

    /// The documentation of the run `instance`, made now.
    pub fn generate_from_instance(&self, instance: &ProcessInstance) -> (r: Result<ProcessDocumentation, String>)
        ensures
            r matches Ok(doc) && documents_instance(doc, *instance) && keys_unique(doc.metadata@),
    {
        let now = crate::outside::now_rfc3339();
        Ok(self.document_instance(instance, now))
    }
}

} // verus!
