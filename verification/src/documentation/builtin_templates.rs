//! The built-in workflow templates: approval, ETL, orchestration,
//! human-in-the-loop, error handling, notification and decision patterns,
//! and the library that holds them.
use vstd::prelude::*;
use super::templates::{
    library_wf, parameters_view, template_ids, templates_put, ParameterConfig, Template, TemplateCategory,
    TemplateLibrary, TemplateMetadata,
};
use crate::text::{opt_view, owned, strings_view};
use super::generator::{json_display, json_kind_of, JsonKind};

verus! {

/// The BPMN definition of the template `approval_simple`.
pub const SIMPLE_APPROVAL_BPMN: &'static str = r#"<?xml version="1.0" encoding="UTF-8"?>
<bpmn:definitions xmlns:bpmn="http://www.omg.org/spec/BPMN/20100524/MODEL">
  <bpmn:process id="SimpleApproval" name="Simple Approval">
    <bpmn:startEvent id="StartApproval"/>
    <bpmn:userTask id="SubmitRequest" name="Submit Request"/>
    <bpmn:userTask id="ApproveRequest" name="Approve Request"/>
    <bpmn:serviceTask id="ProcessApproval" name="Process Approval"/>
    <bpmn:endEvent id="ApprovalComplete"/>
  </bpmn:process>
</bpmn:definitions>"#;

/// The documentation of the template `approval_simple`.
pub const SIMPLE_APPROVAL_DOC: &'static str = r#"# Simple Approval Workflow

## Overview
A straightforward single-level approval workflow for processing requests.

## Flow
1. Request is submitted by initiator
2. Approver reviews and approves/rejects
3. System processes the approval
4. Workflow completes

## Participants
- Initiator: Submits the request
- Approver: Reviews and approves/rejects

## Use Cases
- Purchase order approvals
- Leave request approvals
- Simple access requests
"#;

/// The BPMN definition of the template `approval_multilevel`.
pub const MULTI_LEVEL_APPROVAL_BPMN: &'static str = r#"<?xml version="1.0" encoding="UTF-8"?>
<bpmn:definitions xmlns:bpmn="http://www.omg.org/spec/BPMN/20100524/MODEL">
  <bpmn:process id="MultiLevelApproval" name="Multi-Level Approval">
    <bpmn:startEvent id="Start"/>
    <bpmn:userTask id="SubmitRequest" name="Submit Request"/>
    <bpmn:userTask id="Level1Approval" name="Level 1 Approval"/>
    <bpmn:exclusiveGateway id="Level1Decision"/>
    <bpmn:userTask id="Level2Approval" name="Level 2 Approval"/>
    <bpmn:exclusiveGateway id="Level2Decision"/>
    <bpmn:serviceTask id="ApplyApproval" name="Apply Approval"/>
    <bpmn:endEvent id="End"/>
  </bpmn:process>
</bpmn:definitions>"#;

/// The documentation of the template `approval_multilevel`.
pub const MULTI_LEVEL_APPROVAL_DOC: &'static str = r#"# Multi-Level Approval Workflow

## Overview
Sequential approval process with multiple hierarchical levels.

## Flow
1. Request submission
2. Level 1 Approval (e.g., Department Manager)
3. If approved → Level 2 Approval (e.g., Director)
4. If approved → Process approval and complete
5. If rejected at any level → Reject and end

## Approval Levels
- Level 1: Department/Team Manager
- Level 2: Director or Senior Manager

## Escalation
Rejections are communicated back to initiator.
"#;

/// The BPMN definition of the template `etl_basic`.
pub const ETL_BPMN: &'static str = r#"<?xml version="1.0" encoding="UTF-8"?>
<bpmn:definitions xmlns:bpmn="http://www.omg.org/spec/BPMN/20100524/MODEL">
  <bpmn:process id="BasicETL" name="Basic ETL">
    <bpmn:startEvent id="Start"/>
    <bpmn:serviceTask id="Extract" name="Extract Data"/>
    <bpmn:serviceTask id="Transform" name="Transform Data"/>
    <bpmn:serviceTask id="Load" name="Load Data"/>
    <bpmn:serviceTask id="Validate" name="Validate"/>
    <bpmn:endEvent id="End"/>
  </bpmn:process>
</bpmn:definitions>"#;

/// The documentation of the template `etl_basic`.
pub const ETL_DOC: &'static str = r#"# ETL Workflow Pattern

## Overview
Extract-Transform-Load pattern for processing and moving data.

## Phases

### Extract
- Source data collection
- Data connection establishment
- Initial data validation

### Transform
- Data cleaning
- Format conversion
- Business rule application
- Data enrichment

### Load
- Target system preparation
- Data insertion/update
- Referential integrity checks

### Validate
- Completeness checks
- Quality verification
- Reconciliation

## Error Handling
- Extract errors → Retry logic
- Transform errors → Exception handling
- Load errors → Rollback capability
"#;

/// The BPMN definition of the template `orchestration_parallel`.
pub const PARALLEL_ORCHESTRATION_BPMN: &'static str = r#"<?xml version="1.0" encoding="UTF-8"?>
<bpmn:definitions xmlns:bpmn="http://www.omg.org/spec/BPMN/20100524/MODEL">
  <bpmn:process id="ParallelOrch" name="Parallel Orchestration">
    <bpmn:startEvent id="Start"/>
    <bpmn:parallelGateway id="Fork"/>
    <bpmn:serviceTask id="Task1" name="Task 1"/>
    <bpmn:serviceTask id="Task2" name="Task 2"/>
    <bpmn:serviceTask id="Task3" name="Task 3"/>
    <bpmn:parallelGateway id="Join"/>
    <bpmn:endEvent id="End"/>
  </bpmn:process>
</bpmn:definitions>"#;

/// The BPMN definition of the template `hitl_basic`.
pub const HUMAN_IN_LOOP_BPMN: &'static str = r#"<?xml version="1.0" encoding="UTF-8"?>
<bpmn:definitions xmlns:bpmn="http://www.omg.org/spec/BPMN/20100524/MODEL">
  <bpmn:process id="HumanInLoop" name="Human-in-the-Loop">
    <bpmn:startEvent id="Start"/>
    <bpmn:serviceTask id="AutoProcess" name="Automated Processing"/>
    <bpmn:exclusiveGateway id="NeedHuman"/>
    <bpmn:userTask id="HumanReview" name="Human Review"/>
    <bpmn:userTask id="HumanDecision" name="Make Decision"/>
    <bpmn:serviceTask id="ApplyDecision" name="Apply Decision"/>
    <bpmn:endEvent id="End"/>
  </bpmn:process>
</bpmn:definitions>"#;

/// The documentation of the template `hitl_basic`.
pub const HUMAN_IN_LOOP_DOC: &'static str = r#"# Human-in-the-Loop Pattern

## Overview
Combines automated processing with human review and decision-making.

## Phases
1. Automated initial processing
2. Decision point: Does this need human review?
3. If yes → Human review and decision
4. Apply human decision
5. Complete

## Use Cases
- Complex decision scenarios
- Exception handling
- Quality assurance gates
- Learning and continuous improvement
"#;

/// The BPMN definition of the template `errorhandling_retry`.
pub const ERROR_HANDLING_BPMN: &'static str = r#"<?xml version="1.0" encoding="UTF-8"?>
<bpmn:definitions xmlns:bpmn="http://www.omg.org/spec/BPMN/20100524/MODEL">
  <bpmn:process id="ErrorHandling" name="Error Handling">
    <bpmn:startEvent id="Start"/>
    <bpmn:serviceTask id="Task" name="Main Task"/>
    <bpmn:boundaryEvent id="ErrorBoundary" attachedToRef="Task"/>
    <bpmn:serviceTask id="Retry" name="Retry Task"/>
    <bpmn:exclusiveGateway id="RetryDecision"/>
    <bpmn:userTask id="Escalate" name="Manual Escalation"/>
    <bpmn:endEvent id="End"/>
  </bpmn:process>
</bpmn:definitions>"#;

/// The BPMN definition of the template `notification_alert`.
pub const NOTIFICATION_BPMN: &'static str = r#"<?xml version="1.0" encoding="UTF-8"?>
<bpmn:definitions xmlns:bpmn="http://www.omg.org/spec/BPMN/20100524/MODEL">
  <bpmn:process id="Notification" name="Notification">
    <bpmn:startEvent id="TriggerEvent"/>
    <bpmn:serviceTask id="BuildMessage" name="Build Message"/>
    <bpmn:parallelGateway id="SendMultiple"/>
    <bpmn:serviceTask id="EmailNotify" name="Send Email"/>
    <bpmn:serviceTask id="SlackNotify" name="Send Slack"/>
    <bpmn:parallelGateway id="Sync"/>
    <bpmn:endEvent id="End"/>
  </bpmn:process>
</bpmn:definitions>"#;

/// The BPMN definition of the template `decision_dmn`.
pub const DECISION_LOGIC_BPMN: &'static str = r#"<?xml version="1.0" encoding="UTF-8"?>
<bpmn:definitions xmlns:bpmn="http://www.omg.org/spec/BPMN/20100524/MODEL">
  <bpmn:process id="DecisionLogic" name="Decision Logic">
    <bpmn:startEvent id="Start"/>
    <bpmn:serviceTask id="EvaluateConditions" name="Evaluate Conditions"/>
    <bpmn:exclusiveGateway id="Decision"/>
    <bpmn:serviceTask id="ProcessA" name="Process Path A"/>
    <bpmn:serviceTask id="ProcessB" name="Process Path B"/>
    <bpmn:serviceTask id="ProcessC" name="Process Path C"/>
    <bpmn:exclusiveGateway id="Merge"/>
    <bpmn:endEvent id="End"/>
  </bpmn:process>
</bpmn:definitions>"#;

/// `m` describes a built-in template: version 1.0.0 by the ABCDODAF System,
/// with these parts (and the times it was made at).
pub open spec fn builtin_metadata_is(
    m: TemplateMetadata,
    id: Seq<char>,
    name: Seq<char>,
    description: Seq<char>,
    category: TemplateCategory,
    tags: Seq<Seq<char>>,
    complexity: Seq<char>,
    use_cases: Seq<Seq<char>>,
    related: Seq<Seq<char>>,
) -> bool {
    &&& m.id@ == id
    &&& m.name@ == name
    &&& m.description@ == description
    &&& m.category == category
    &&& m.version@ == "1.0.0"@
    &&& opt_view(m.author) == Some("ABCDODAF System"@)
    &&& strings_view(m.tags@) == tags
    &&& m.complexity@ == complexity
    &&& strings_view(m.use_cases@) == use_cases
    &&& strings_view(m.related_templates@) == related
}

fn list1(a: &str) -> (r: Vec<String>)
    ensures
        strings_view(r@) == seq![a@],
{
    let mut r: Vec<String> = Vec::new();
    r.push(owned(a));
    assert(strings_view(r@) =~= seq![a@]);
    r
}

fn list2(a: &str, b: &str) -> (r: Vec<String>)
    ensures
        strings_view(r@) == seq![a@, b@],
{
    let mut r: Vec<String> = Vec::new();
    r.push(owned(a));
    r.push(owned(b));
    assert(strings_view(r@) =~= seq![a@, b@]);
    r
}

fn list3(a: &str, b: &str, c: &str) -> (r: Vec<String>)
    ensures
        strings_view(r@) == seq![a@, b@, c@],
{
    let mut r: Vec<String> = Vec::new();
    r.push(owned(a));
    r.push(owned(b));
    r.push(owned(c));
    assert(strings_view(r@) =~= seq![a@, b@, c@]);
    r
}

fn no_texts() -> (r: Vec<String>)
    ensures
        strings_view(r@) == Seq::<Seq<char>>::empty(),
{
    let r: Vec<String> = Vec::new();
    assert(strings_view(r@) =~= Seq::<Seq<char>>::empty());
    r
}

fn builtin_metadata(
    id: &str,
    name: &str,
    description: &str,
    category: TemplateCategory,
    tags: Vec<String>,
    complexity: &str,
    use_cases: Vec<String>,
    related: Vec<String>,
) -> (r: TemplateMetadata)
    ensures
        builtin_metadata_is(r, id@, name@, description@, category, strings_view(tags@), complexity@,
            strings_view(use_cases@), strings_view(related@)),
{
    let now = crate::outside::now_rfc3339();
    TemplateMetadata {
        id: owned(id),
        name: owned(name),
        description: owned(description),
        category,
        version: owned("1.0.0"),
        author: Some(owned("ABCDODAF System")),
        created_at: owned(now.as_str()),
        modified_at: now,
        tags,
        complexity: owned(complexity),
        use_cases,
        related_templates: related,
    }
}

/// `t` is the built-in template `approval_simple`, "Simple Approval Workflow".
pub open spec fn is_simple_approval_template(t: Template) -> bool {
    &&& builtin_metadata_is(
        t.metadata,
        "approval_simple"@,
        "Simple Approval Workflow"@,
        "A basic single-level approval workflow for requests"@,
        TemplateCategory::ApprovalWorkflow,
        seq!["approval"@, "request"@, "single-level"@],
        "beginner"@,
        seq!["Simple request approval"@, "Single approver workflows"@],
        seq!["approval_multilevel"@],
    )
    &&& t.bpmn_definition@ == SIMPLE_APPROVAL_BPMN@
    &&& t.documentation@ == SIMPLE_APPROVAL_DOC@
    &&& t.example_usage is None
    &&& json_kind_of(t.process_definition) == JsonKind::Object
    &&& json_display(t.process_definition) == "{}"@
    &&& parameters_view(t.parameters@) == seq![
        ("request_id"@, ("request_id"@, "string"@, None, "Unique request identifier"@, true)),
        ("approver_role"@, ("approver_role"@, "string"@, Some("Manager"@), "Role of the approver"@, false)),
    ]
}

/// The built-in template `approval_simple`, made now.
pub fn create_simple_approval_template() -> (r: Template)
    ensures
        is_simple_approval_template(r),
{
    let metadata = builtin_metadata(
        "approval_simple",
        "Simple Approval Workflow",
        "A basic single-level approval workflow for requests",
        TemplateCategory::ApprovalWorkflow,
        list3("approval", "request", "single-level"),
        "beginner",
        list2("Simple request approval", "Single approver workflows"),
        list1("approval_multilevel"),
    );
    let mut template = Template::new(metadata, owned(SIMPLE_APPROVAL_BPMN));
    template.add_parameter(
        "request_id",
        ParameterConfig {
            name: owned("request_id"),
            param_type: owned("string"),
            default: None,
            description: owned("Unique request identifier"),
            required: true,
        },
    );
    let ghost first = template.parameters@;
    proof {
        reveal_strlit("request_id");
        reveal_strlit("approver_role");
        assert(first.len() == 1 && first[0].0@ == "request_id"@);
        assert("request_id"@.len() == 10 && "approver_role"@.len() == 13);
        assert(first[0].0@ != "approver_role"@);
    }
    template.add_parameter(
        "approver_role",
        ParameterConfig {
            name: owned("approver_role"),
            param_type: owned("string"),
            default: Some(owned("Manager")),
            description: owned("Role of the approver"),
            required: false,
        },
    );
    template.documentation = owned(SIMPLE_APPROVAL_DOC);
    assert(template.parameters@[0] == first[0]);
    assert(parameters_view(template.parameters@) =~= seq![
        ("request_id"@, ("request_id"@, "string"@, None, "Unique request identifier"@, true)),
        ("approver_role"@, ("approver_role"@, "string"@, Some("Manager"@), "Role of the approver"@, false)),
    ]);
    template
}

/// `t` is the built-in template `approval_multilevel`, "Multi-Level Approval Workflow".
pub open spec fn is_multi_level_approval_template(t: Template) -> bool {
    &&& builtin_metadata_is(
        t.metadata,
        "approval_multilevel"@,
        "Multi-Level Approval Workflow"@,
        "Sequential approval workflow with multiple approval levels"@,
        TemplateCategory::ApprovalWorkflow,
        seq!["approval"@, "multi-level"@, "hierarchical"@],
        "intermediate"@,
        seq!["Multi-level authorization"@, "Hierarchical approvals"@],
        seq!["approval_simple"@],
    )
    &&& t.bpmn_definition@ == MULTI_LEVEL_APPROVAL_BPMN@
    &&& t.documentation@ == MULTI_LEVEL_APPROVAL_DOC@
    &&& t.example_usage is None
    &&& json_kind_of(t.process_definition) == JsonKind::Object
    &&& json_display(t.process_definition) == "{}"@
    &&& t.parameters@.len() == 0
}

/// The built-in template `approval_multilevel`, made now.
pub fn create_multi_level_approval_template() -> (r: Template)
    ensures
        is_multi_level_approval_template(r),
{
    let metadata = builtin_metadata(
        "approval_multilevel",
        "Multi-Level Approval Workflow",
        "Sequential approval workflow with multiple approval levels",
        TemplateCategory::ApprovalWorkflow,
        list3("approval", "multi-level", "hierarchical"),
        "intermediate",
        list2("Multi-level authorization", "Hierarchical approvals"),
        list1("approval_simple"),
    );
    let mut template = Template::new(metadata, owned(MULTI_LEVEL_APPROVAL_BPMN));
    template.documentation = owned(MULTI_LEVEL_APPROVAL_DOC);
    template
}

/// `t` is the built-in template `etl_basic`, "Basic ETL Workflow".
pub open spec fn is_etl_template(t: Template) -> bool {
    &&& builtin_metadata_is(
        t.metadata,
        "etl_basic"@,
        "Basic ETL Workflow"@,
        "Extract-Transform-Load pattern for data processing"@,
        TemplateCategory::DataTransformation,
        seq!["etl"@, "data"@, "pipeline"@],
        "intermediate"@,
        seq!["Data migration"@, "Data warehouse loading"@, "Data integration"@],
        Seq::empty(),
    )
    &&& t.bpmn_definition@ == ETL_BPMN@
    &&& t.documentation@ == ETL_DOC@
    &&& t.example_usage is None
    &&& json_kind_of(t.process_definition) == JsonKind::Object
    &&& json_display(t.process_definition) == "{}"@
    &&& t.parameters@.len() == 0
}

/// The built-in template `etl_basic`, made now.
pub fn create_etl_template() -> (r: Template)
    ensures
        is_etl_template(r),
{
    let metadata = builtin_metadata(
        "etl_basic",
        "Basic ETL Workflow",
        "Extract-Transform-Load pattern for data processing",
        TemplateCategory::DataTransformation,
        list3("etl", "data", "pipeline"),
        "intermediate",
        list3("Data migration", "Data warehouse loading", "Data integration"),
        no_texts(),
    );
    let mut template = Template::new(metadata, owned(ETL_BPMN));
    template.documentation = owned(ETL_DOC);
    template
}

/// `t` is the built-in template `orchestration_parallel`, "Parallel Orchestration Pattern".
pub open spec fn is_parallel_orchestration_template(t: Template) -> bool {
    &&& builtin_metadata_is(
        t.metadata,
        "orchestration_parallel"@,
        "Parallel Orchestration Pattern"@,
        "Execute multiple tasks in parallel with synchronization"@,
        TemplateCategory::Orchestration,
        seq!["orchestration"@, "parallel"@, "async"@],
        "intermediate"@,
        seq!["Parallel task execution"@, "Concurrent microservices"@],
        Seq::empty(),
    )
    &&& t.bpmn_definition@ == PARALLEL_ORCHESTRATION_BPMN@
    &&& t.documentation@.len() == 0
    &&& t.example_usage is None
    &&& json_kind_of(t.process_definition) == JsonKind::Object
    &&& json_display(t.process_definition) == "{}"@
    &&& t.parameters@.len() == 0
}

/// The built-in template `orchestration_parallel`, made now.
pub fn create_parallel_orchestration_template() -> (r: Template)
    ensures
        is_parallel_orchestration_template(r),
{
    let metadata = builtin_metadata(
        "orchestration_parallel",
        "Parallel Orchestration Pattern",
        "Execute multiple tasks in parallel with synchronization",
        TemplateCategory::Orchestration,
        list3("orchestration", "parallel", "async"),
        "intermediate",
        list2("Parallel task execution", "Concurrent microservices"),
        no_texts(),
    );
    let template = Template::new(metadata, owned(PARALLEL_ORCHESTRATION_BPMN));
    template
}

/// `t` is the built-in template `hitl_basic`, "Human-in-the-Loop Workflow".
pub open spec fn is_human_in_loop_template(t: Template) -> bool {
    &&& builtin_metadata_is(
        t.metadata,
        "hitl_basic"@,
        "Human-in-the-Loop Workflow"@,
        "Workflow combining automated and human decision points"@,
        TemplateCategory::HumanInTheLoop,
        seq!["human-in-loop"@, "decision"@, "hybrid"@],
        "intermediate"@,
        seq!["Exception handling"@, "Quality assurance"@],
        Seq::empty(),
    )
    &&& t.bpmn_definition@ == HUMAN_IN_LOOP_BPMN@
    &&& t.documentation@ == HUMAN_IN_LOOP_DOC@
    &&& t.example_usage is None
    &&& json_kind_of(t.process_definition) == JsonKind::Object
    &&& json_display(t.process_definition) == "{}"@
    &&& t.parameters@.len() == 0
}

/// The built-in template `hitl_basic`, made now.
pub fn create_human_in_loop_template() -> (r: Template)
    ensures
        is_human_in_loop_template(r),
{
    let metadata = builtin_metadata(
        "hitl_basic",
        "Human-in-the-Loop Workflow",
        "Workflow combining automated and human decision points",
        TemplateCategory::HumanInTheLoop,
        list3("human-in-loop", "decision", "hybrid"),
        "intermediate",
        list2("Exception handling", "Quality assurance"),
        no_texts(),
    );
    let mut template = Template::new(metadata, owned(HUMAN_IN_LOOP_BPMN));
    template.documentation = owned(HUMAN_IN_LOOP_DOC);
    template
}

/// `t` is the built-in template `errorhandling_retry`, "Error Handling with Retry".
pub open spec fn is_error_handling_template(t: Template) -> bool {
    &&& builtin_metadata_is(
        t.metadata,
        "errorhandling_retry"@,
        "Error Handling with Retry"@,
        "Resilient error handling with retry and escalation"@,
        TemplateCategory::ErrorHandling,
        seq!["error"@, "retry"@, "resilience"@],
        "intermediate"@,
        seq!["Transient error handling"@, "Service reliability"@],
        Seq::empty(),
    )
    &&& t.bpmn_definition@ == ERROR_HANDLING_BPMN@
    &&& t.documentation@.len() == 0
    &&& t.example_usage is None
    &&& json_kind_of(t.process_definition) == JsonKind::Object
    &&& json_display(t.process_definition) == "{}"@
    &&& t.parameters@.len() == 0
}

/// The built-in template `errorhandling_retry`, made now.
pub fn create_error_handling_template() -> (r: Template)
    ensures
        is_error_handling_template(r),
{
    let metadata = builtin_metadata(
        "errorhandling_retry",
        "Error Handling with Retry",
        "Resilient error handling with retry and escalation",
        TemplateCategory::ErrorHandling,
        list3("error", "retry", "resilience"),
        "intermediate",
        list2("Transient error handling", "Service reliability"),
        no_texts(),
    );
    let template = Template::new(metadata, owned(ERROR_HANDLING_BPMN));
    template
}

/// `t` is the built-in template `notification_alert`, "Notification and Alert Pattern".
pub open spec fn is_notification_template(t: Template) -> bool {
    &&& builtin_metadata_is(
        t.metadata,
        "notification_alert"@,
        "Notification and Alert Pattern"@,
        "Workflow for triggering notifications and alerts"@,
        TemplateCategory::Notification,
        seq!["notification"@, "alert"@, "communication"@],
        "beginner"@,
        seq!["Event notifications"@, "Alert generation"@],
        Seq::empty(),
    )
    &&& t.bpmn_definition@ == NOTIFICATION_BPMN@
    &&& t.documentation@.len() == 0
    &&& t.example_usage is None
    &&& json_kind_of(t.process_definition) == JsonKind::Object
    &&& json_display(t.process_definition) == "{}"@
    &&& t.parameters@.len() == 0
}

/// The built-in template `notification_alert`, made now.
pub fn create_notification_template() -> (r: Template)
    ensures
        is_notification_template(r),
{
    let metadata = builtin_metadata(
        "notification_alert",
        "Notification and Alert Pattern",
        "Workflow for triggering notifications and alerts",
        TemplateCategory::Notification,
        list3("notification", "alert", "communication"),
        "beginner",
        list2("Event notifications", "Alert generation"),
        no_texts(),
    );
    let template = Template::new(metadata, owned(NOTIFICATION_BPMN));
    template
}

/// `t` is the built-in template `decision_dmn`, "Decision Logic Pattern".
pub open spec fn is_decision_logic_template(t: Template) -> bool {
    &&& builtin_metadata_is(
        t.metadata,
        "decision_dmn"@,
        "Decision Logic Pattern"@,
        "Complex decision logic using gateways and rules"@,
        TemplateCategory::DecisionLogic,
        seq!["decision"@, "logic"@, "rules"@],
        "intermediate"@,
        seq!["Business rule evaluation"@, "Complex routing"@],
        Seq::empty(),
    )
    &&& t.bpmn_definition@ == DECISION_LOGIC_BPMN@
    &&& t.documentation@.len() == 0
    &&& t.example_usage is None
    &&& json_kind_of(t.process_definition) == JsonKind::Object
    &&& json_display(t.process_definition) == "{}"@
    &&& t.parameters@.len() == 0
}

/// The built-in template `decision_dmn`, made now.
pub fn create_decision_logic_template() -> (r: Template)
    ensures
        is_decision_logic_template(r),
{
    let metadata = builtin_metadata(
        "decision_dmn",
        "Decision Logic Pattern",
        "Complex decision logic using gateways and rules",
        TemplateCategory::DecisionLogic,
        list3("decision", "logic", "rules"),
        "intermediate",
        list2("Business rule evaluation", "Complex routing"),
        no_texts(),
    );
    let template = Template::new(metadata, owned(DECISION_LOGIC_BPMN));
    template
}

/// The ids of the built-in templates, in the order the library holds them.
pub open spec fn builtin_ids() -> Seq<Seq<char>> {
    seq!["approval_simple"@, "approval_multilevel"@, "etl_basic"@, "orchestration_parallel"@, "hitl_basic"@, "errorhandling_retry"@, "notification_alert"@, "decision_dmn"@]
}

/// No two built-in templates share an id.
proof fn lemma_builtin_ids_distinct()
    ensures
        forall|i: int, j: int| 0 <= i < j < builtin_ids().len() ==> builtin_ids()[i] != builtin_ids()[j],
{
    reveal_strlit("approval_simple");
    reveal_strlit("approval_multilevel");
    reveal_strlit("etl_basic");
    reveal_strlit("orchestration_parallel");
    reveal_strlit("hitl_basic");
    reveal_strlit("errorhandling_retry");
    reveal_strlit("notification_alert");
    reveal_strlit("decision_dmn");
    assert("approval_simple"@.len() == 15);
    assert("approval_multilevel"@.len() == 19);
    assert("etl_basic"@.len() == 9);
    assert("orchestration_parallel"@.len() == 22);
    assert("hitl_basic"@.len() == 10);
    assert("errorhandling_retry"@.len() == 19);
    assert("notification_alert"@.len() == 18);
    assert("decision_dmn"@.len() == 12);
    assert("approval_multilevel"@[0] != "errorhandling_retry"@[0]);
}

/// Storing a template whose id no stored template has appends it.
proof fn lemma_put_new(ts: Seq<Template>, t: Template)
    requires
        !template_ids(ts).contains(t.metadata.id@),
    ensures
        templates_put(ts, t) == ts.push(t),
{
    if exists|i: int| super::templates::first_with_id(ts, t.metadata.id@, i) {
        let i = choose|i: int| super::templates::first_with_id(ts, t.metadata.id@, i);
        assert(template_ids(ts)[i] == t.metadata.id@);
    }
}

/// The library of built-in templates, in the order of `builtin_ids`.
pub fn create_builtin_library() -> (r: TemplateLibrary)
    ensures
        r.name@ == "ABCDODAF Built-in Templates"@,
        r.version@ == "1.0.0"@,
        library_wf(r),
        r.templates@.len() == 8,
        template_ids(r.templates@) == builtin_ids(),
        is_simple_approval_template(r.templates@[0]),
        is_multi_level_approval_template(r.templates@[1]),
        is_etl_template(r.templates@[2]),
        is_parallel_orchestration_template(r.templates@[3]),
        is_human_in_loop_template(r.templates@[4]),
        is_error_handling_template(r.templates@[5]),
        is_notification_template(r.templates@[6]),
        is_decision_logic_template(r.templates@[7]),
{
    let mut library = TemplateLibrary::new("ABCDODAF Built-in Templates", "1.0.0");
    proof {
        lemma_builtin_ids_distinct();
    }
    let t0 = create_simple_approval_template();
    let ghost g0 = t0;
    proof {
        assert(template_ids(library.templates@) =~= Seq::<Seq<char>>::empty());
        lemma_put_new(library.templates@, t0);
    }
    let _ = library.add_template(t0);
    let t1 = create_multi_level_approval_template();
    let ghost g1 = t1;
    proof {
        assert(template_ids(library.templates@) =~= builtin_ids().take(1));
        lemma_put_new(library.templates@, t1);
    }
    let _ = library.add_template(t1);
    let t2 = create_etl_template();
    let ghost g2 = t2;
    proof {
        assert(template_ids(library.templates@) =~= builtin_ids().take(2));
        lemma_put_new(library.templates@, t2);
    }
    let _ = library.add_template(t2);
    let t3 = create_parallel_orchestration_template();
    let ghost g3 = t3;
    proof {
        assert(template_ids(library.templates@) =~= builtin_ids().take(3));
        lemma_put_new(library.templates@, t3);
    }
    let _ = library.add_template(t3);
    let t4 = create_human_in_loop_template();
    let ghost g4 = t4;
    proof {
        assert(template_ids(library.templates@) =~= builtin_ids().take(4));
        lemma_put_new(library.templates@, t4);
    }
    let _ = library.add_template(t4);
    let t5 = create_error_handling_template();
    let ghost g5 = t5;
    proof {
        assert(template_ids(library.templates@) =~= builtin_ids().take(5));
        lemma_put_new(library.templates@, t5);
    }
    let _ = library.add_template(t5);
    let t6 = create_notification_template();
    let ghost g6 = t6;
    proof {
        assert(template_ids(library.templates@) =~= builtin_ids().take(6));
        lemma_put_new(library.templates@, t6);
    }
    let _ = library.add_template(t6);
    let t7 = create_decision_logic_template();
    let ghost g7 = t7;
    proof {
        assert(template_ids(library.templates@) =~= builtin_ids().take(7));
        lemma_put_new(library.templates@, t7);
    }
    let _ = library.add_template(t7);
    assert(library.templates@ =~= seq![g0, g1, g2, g3, g4, g5, g6, g7]);
    assert(template_ids(library.templates@) =~= builtin_ids());
    library
}

} // verus!
