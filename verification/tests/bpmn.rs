use abcdodaf::bpmn::elements::{BpmnDiagram, EventDefinition, Lane};
use abcdodaf::bpmn::file_io::{save_plan, BpmnFileIo, FileError, FileOptions, SavePlan};
use abcdodaf::bpmn::json_format::{BpmnJsonWorkflow, BpmnProcessInfo, SequenceFlow, WorkflowStep};
use abcdodaf::bpmn::namespace;
use abcdodaf::bpmn::process::ProcessBuilder;
use abcdodaf::bpmn::validation::process::{is_valid_version, validate_process_info};
use abcdodaf::bpmn::validation::sequence_flows::validate_sequence_flows;
use abcdodaf::bpmn::validation::structure::{
    check_disconnected_nodes, validate_gateway_connections, validate_workflow_structure,
};
use abcdodaf::bpmn::validation::types::{ErrorCategory, ErrorSeverity, ValidationError, ValidationSummary};
use abcdodaf::bpmn::validation::validate_bpmn_workflow;
use abcdodaf::bpmn::validation::workflow_steps::validate_workflow_steps;
use abcdodaf::bpmn::xml_io::{BpmnXmlSerializer, XmlError};
use abcdodaf::bpmn::runtime::{rank_bottlenecks, TaskPerformance};
use abcdodaf::bpmn::{ProcessInstance, ProcessState};

fn create_step(id: &str, name: &str, step_type: &str) -> WorkflowStep {
    WorkflowStep {
        id: id.to_string(),
        name: name.to_string(),
        step_type: step_type.to_string(),
        task_type: None,
        event_type: None,
        implementation: None,
        inputs: vec![],
        outputs: vec![],
        duration_minutes: None,
    }
}

fn task_step(id: &str, name: &str, step_type: &str, task_type: &str) -> WorkflowStep {
    let mut s = create_step(id, name, step_type);
    s.task_type = Some(task_type.to_string());
    s
}

fn create_flow(id: &str, source: &str, target: &str) -> SequenceFlow {
    SequenceFlow {
        id: id.to_string(),
        source_ref: source.to_string(),
        target_ref: target.to_string(),
        name: None,
        condition: None,
    }
}

fn workflow(id: &str, name: &str, version: &str, steps: Vec<WorkflowStep>, flows: Vec<SequenceFlow>) -> BpmnJsonWorkflow {
    BpmnJsonWorkflow {
        bpmn_process: BpmnProcessInfo {
            id: id.to_string(),
            name: name.to_string(),
            version: version.to_string(),
            is_executable: true,
            process_type: "agent_workflow".to_string(),
        },
        workflow_steps: steps,
        sequence_flows: flows,
        dodaf_metadata: None,
        task_metadata: None,
    }
}

#[test]
fn test_validate_extension_valid() {
    assert!(BpmnFileIo::validate_extension("test.bpmn").is_ok());
}

#[test]
fn test_validate_extension_invalid() {
    let result = BpmnFileIo::validate_extension("test.xml");
    assert!(result.is_err());
}

#[test]
fn test_validate_extension_no_extension() {
    let result = BpmnFileIo::validate_extension("test");
    assert!(result.is_err());
}

#[test]
fn test_process_instance_creation() {
    let instance = ProcessInstance::new("test_process");
    assert_eq!(instance.process_id, "test_process");
    assert_eq!(instance.state, ProcessState::Pending);
    assert!(instance.variables.is_empty());
}

#[test]
fn test_process_variables() {
    let mut instance = ProcessInstance::new("test");
    instance.set_variable("key", serde_json::Value::String("value".to_string()));
    assert_eq!(instance.get_variable("key"), Some(&serde_json::Value::String("value".to_string())));
}

#[test]
fn test_process_completion() {
    let mut instance = ProcessInstance::new("test");
    instance.complete();
    assert_eq!(instance.state, ProcessState::Completed);
    assert!(instance.completed_at.is_some());
}

#[test]
fn test_process_builder() {
    let process = ProcessBuilder::new("test_process", "Test Process")
        .description("A test process")
        .add_user_task("task1", "User Task 1")
        .add_service_task("task2", "Service Task 1")
        .add_flow("flow1", "task1", "task2")
        .build()
        .unwrap();

    assert_eq!(process.id, "test_process");
    assert_eq!(process.name, "Test Process");
    assert_eq!(process.tasks.len(), 2);
    assert_eq!(process.flows.len(), 1);
}

#[test]
fn test_process_validation() {
    let result = ProcessBuilder::new("empty", "Empty Process").build();
    assert!(result.is_err());
}

#[test]
fn test_xml_export() {
    let process = ProcessBuilder::new("test", "Test").add_user_task("t1", "Task 1").build().unwrap();
    let xml = process.to_xml().unwrap();
    assert!(xml.contains("userTask"));
    assert!(xml.contains("t1"));
}

#[test]
fn test_valid_workflow() {
    let w = workflow(
        "test_process",
        "Test Process",
        "1.0.0",
        vec![
            create_step("start", "Start", "startEvent"),
            task_step("task1", "Task 1", "serviceTask", "research"),
            create_step("end", "End", "endEvent"),
        ],
        vec![create_flow("flow1", "start", "task1"), create_flow("flow2", "task1", "end")],
    );
    let result = validate_bpmn_workflow(&w);
    assert!(result.is_ok(), "Expected valid workflow, got: {:?}", result);
}

#[test]
fn mod_test_missing_start_event() {
    let w = workflow("test", "Test", "1.0.0", vec![create_step("end", "End", "endEvent")], vec![]);
    let result = validate_bpmn_workflow(&w);
    assert!(result.is_err());
    if let Err(errors) = result {
        let has_start_error = errors.iter().any(|e| e.message.contains("no start event"));
        assert!(has_start_error, "Expected missing start event error");
    }
}

#[test]
fn test_duplicate_node_ids() {
    let w = workflow(
        "test",
        "Test",
        "1.0.0",
        vec![create_step("node1", "Node 1", "startEvent"), create_step("node1", "Node 1 Duplicate", "endEvent")],
        vec![],
    );
    let result = validate_bpmn_workflow(&w);
    assert!(result.is_err());
    if let Err(errors) = result {
        let has_duplicate_error = errors.iter().any(|e| e.category == ErrorCategory::DuplicateId);
        assert!(has_duplicate_error, "Expected duplicate ID error");
    }
}

#[test]
fn mod_test_broken_reference() {
    let w = workflow(
        "test",
        "Test",
        "1.0.0",
        vec![create_step("start", "Start", "startEvent")],
        vec![create_flow("flow1", "start", "nonexistent")],
    );
    let result = validate_bpmn_workflow(&w);
    assert!(result.is_err());
    if let Err(errors) = result {
        let has_broken_ref = errors.iter().any(|e| e.category == ErrorCategory::BrokenReference);
        assert!(has_broken_ref, "Expected broken reference error");
    }
}

#[test]
fn mod_test_invalid_node_type() {
    let w = workflow("test", "Test", "1.0.0", vec![create_step("start", "Start", "invalidType")], vec![]);
    let result = validate_bpmn_workflow(&w);
    assert!(result.is_err());
    if let Err(errors) = result {
        let has_invalid_type = errors
            .iter()
            .any(|e| e.category == ErrorCategory::InvalidValue && e.message.contains("Invalid node type"));
        assert!(has_invalid_type, "Expected invalid node type error");
    }
}

#[test]
fn test_validation_summary() {
    let errors = vec![
        ValidationError::error(ErrorCategory::MissingField, "Error 1".to_string()),
        ValidationError::warning(ErrorCategory::InvalidValue, "Warning 1".to_string()),
        ValidationError::info(ErrorCategory::StructuralIssue, "Info 1".to_string()),
    ];
    let summary = ValidationSummary::from_errors(&errors);
    assert_eq!(summary.errors, 1);
    assert_eq!(summary.warnings, 1);
    assert_eq!(summary.info, 1);
    assert!(summary.has_errors());
}

#[test]
fn test_gateway_validation() {
    let w = workflow(
        "test",
        "Test",
        "1.0.0",
        vec![
            create_step("start", "Start", "startEvent"),
            create_step("gateway", "Decision", "exclusiveGateway"),
            task_step("task1", "Task 1", "serviceTask", "research"),
            task_step("task2", "Task 2", "serviceTask", "testing"),
            create_step("end", "End", "endEvent"),
        ],
        vec![
            create_flow("flow1", "start", "gateway"),
            create_flow("flow2", "gateway", "task1"),
            create_flow("flow3", "gateway", "task2"),
            create_flow("flow4", "task1", "end"),
            create_flow("flow5", "task2", "end"),
        ],
    );
    let result = validate_bpmn_workflow(&w);
    assert!(result.is_ok(), "Gateway workflow should be valid: {:?}", result);
}

#[test]
fn test_invalid_version() {
    let w = workflow(
        "test",
        "Test",
        "invalid",
        vec![create_step("start", "Start", "startEvent"), create_step("end", "End", "endEvent")],
        vec![create_flow("flow1", "start", "end")],
    );
    let result = validate_bpmn_workflow(&w);
    assert!(result.is_err());
    if let Err(errors) = result {
        let has_version_warning = errors.iter().any(|e| e.message.contains("Invalid version format"));
        assert!(has_version_warning, "Expected version format warning");
    }
}

#[test]
fn test_is_valid_version() {
    assert!(is_valid_version("1.0.0"));
    assert!(is_valid_version("2.1.5"));
    assert!(!is_valid_version("1.0"));
    assert!(!is_valid_version("invalid"));
    assert!(!is_valid_version("1.0.x"));
}

#[test]
fn test_validate_empty_process_id() {
    let mut w = workflow("", "Test", "1.0.0", vec![], vec![]);
    w.bpmn_process.process_type = "test".to_string();
    let errors = validate_process_info(&w);
    assert!(!errors.is_empty());
    assert!(errors.iter().any(|e| e.message.contains("Process ID")));
}

#[test]
fn sequence_flows_test_broken_reference() {
    let steps = vec![create_step("start", "Start", "startEvent")];
    let flows = vec![create_flow("flow1", "start", "nonexistent")];
    let errors = validate_sequence_flows(&flows, &steps);
    assert!(errors.iter().any(|e| e.category == ErrorCategory::BrokenReference));
}

#[test]
fn test_self_loop_warning() {
    let steps = vec![create_step("task1", "Task", "task")];
    let flows = vec![create_flow("flow1", "task1", "task1")];
    let errors = validate_sequence_flows(&flows, &steps);
    assert!(errors.iter().any(|e| e.message.contains("self-loop")));
}

#[test]
fn test_duplicate_flow_ids() {
    let steps = vec![create_step("start", "Start", "startEvent"), create_step("end", "End", "endEvent")];
    let flows = vec![create_flow("flow1", "start", "end"), create_flow("flow1", "start", "end")];
    let errors = validate_sequence_flows(&flows, &steps);
    assert!(errors.iter().any(|e| e.category == ErrorCategory::DuplicateId));
}

#[test]
fn structure_test_missing_start_event() {
    let mut w = workflow("test", "Test", "1.0.0", vec![create_step("end", "End", "endEvent")], vec![]);
    w.bpmn_process.process_type = "test".to_string();
    let errors = validate_workflow_structure(&w);
    assert!(errors.iter().any(|e| e.message.contains("no start event")));
}

#[test]
fn test_disconnected_node() {
    let w = workflow(
        "test",
        "Test",
        "1.0.0",
        vec![create_step("start", "Start", "startEvent"), create_step("orphan", "Orphan", "task")],
        vec![],
    );
    let errors = check_disconnected_nodes(&w);
    assert!(errors.iter().any(|e| e.message.contains("not connected")));
}

#[test]
fn test_valid_gateway_structure() {
    let w = workflow(
        "test",
        "Test",
        "1.0.0",
        vec![
            create_step("start", "Start", "startEvent"),
            create_step("gateway", "Gateway", "exclusiveGateway"),
            create_step("task1", "Task 1", "task"),
            create_step("end", "End", "endEvent"),
        ],
        vec![
            create_flow("flow1", "start", "gateway"),
            create_flow("flow2", "gateway", "task1"),
            create_flow("flow3", "task1", "end"),
        ],
    );
    let errors = validate_gateway_connections(&w);
    assert!(!errors.iter().any(|e| matches!(e.severity, ErrorSeverity::Error)));
}

#[test]
fn test_empty_workflow_steps() {
    let errors = validate_workflow_steps(&[]);
    assert!(!errors.is_empty());
    assert!(errors[0].message.contains("no steps"));
}

#[test]
fn test_duplicate_step_ids() {
    let steps = vec![create_step("step1", "Step 1", "startEvent"), create_step("step1", "Step 1 Duplicate", "endEvent")];
    let errors = validate_workflow_steps(&steps);
    assert!(errors.iter().any(|e| e.category == ErrorCategory::DuplicateId));
}

#[test]
fn workflow_steps_test_invalid_node_type() {
    let steps = vec![create_step("step1", "Test", "invalidType")];
    let errors = validate_workflow_steps(&steps);
    assert!(errors.iter().any(|e| e.message.contains("Invalid node type")));
}

#[test]
fn xml_io_test_escape_xml() {
    let input = "Test & <tag> \"quote\" 'apostrophe'";
    let escaped = BpmnXmlSerializer::escape_xml(input);
    assert!(escaped.contains("&amp;"));
    assert!(escaped.contains("&lt;"));
    assert!(escaped.contains("&quot;"));
}

#[test]
fn test_empty_diagram_serialization() {
    let diagram = BpmnDiagram {
        id: "test_diagram".to_string(),
        name: Some("Test".to_string()),
        documentation: None,
        processes: vec![],
        collaborations: vec![],
        data_stores: vec![],
        messages: vec![],
        signals: vec![],
    };
    let result = BpmnXmlSerializer::to_string(&diagram);
    assert!(result.is_ok());
    let xml = result.unwrap();
    assert!(xml.contains("<?xml version=\"1.0\""));
    assert!(xml.contains("definitions"));
    assert!(xml.contains(namespace::BPMN2));
}

#[test]
fn test_coordinate_validation() {
    let result = BpmnXmlSerializer::serialize_shape("test", "test", -10, 50, 100, 80);
    assert!(result.is_err());
    if let Err(XmlError::InvalidCoordinate { .. }) = result {
    } else {
        panic!("Expected InvalidCoordinate error");
    }
}

#[test]
fn summary_counts_add_up_to_the_findings() {
    let w = workflow("", "", "x", vec![create_step("a", "A", "bogus")], vec![create_flow("f", "a", "a")]);
    if let Err(errors) = validate_bpmn_workflow(&w) {
        let s = ValidationSummary::from_errors(&errors);
        assert_eq!(s.errors + s.warnings + s.info, errors.len());
        assert!(s.has_errors());
        assert_eq!(
            s.format(),
            format!("Validation summary: {} error(s), {} warning(s), {} info message(s)", s.errors, s.warnings, s.info)
        );
    } else {
        panic!("expected findings");
    }
}

#[test]
fn setting_a_variable_again_replaces_it() {
    let mut instance = ProcessInstance::new("p");
    instance.set_variable("a", serde_json::Value::from(1));
    instance.set_variable("b", serde_json::Value::from(2));
    instance.set_variable("a", serde_json::Value::from(3));
    assert_eq!(instance.variables.len(), 2);
    assert_eq!(instance.get_variable("a"), Some(&serde_json::Value::from(3)));
    assert_eq!(instance.get_variable("b"), Some(&serde_json::Value::from(2)));
    assert_eq!(instance.get_variable("c"), None);
}

fn perf_with(id: &str, durations: &[u64]) -> (String, TaskPerformance) {
    let mut p = TaskPerformance::new(id.to_string());
    for d in durations {
        p.record_execution(*d);
    }
    (id.to_string(), p)
}

#[test]
fn test_rank_bottlenecks_slowest_first() {
    let ranked = rank_bottlenecks(vec![
        perf_with("fast", &[10, 20]),
        perf_with("slow", &[500]),
        perf_with("medium", &[100, 300]),
        perf_with("idle", &[]),
    ]);
    let ids: Vec<&str> = ranked.iter().map(|(id, _)| id.as_str()).collect();
    assert_eq!(ids, vec!["slow", "medium", "fast", "idle"]);
    assert_eq!(ranked[0].1.avg_duration_ms, 500);
    assert_eq!(ranked[1].1.avg_duration_ms, 200);
    assert_eq!(ranked[2].1.avg_duration_ms, 15);
    assert_eq!(ranked[3].1.avg_duration_ms, 0);
    assert!(rank_bottlenecks(Vec::new()).is_empty());
}

#[test]
fn test_save_plan_decisions() {
    let defaults = FileOptions::default();
    assert!(matches!(
        save_plan("out/model.bpmn", Some("out"), false, &defaults),
        SavePlan::Refuse(FileError::DirectoryNotFound(ref d)) if d == "out"
    ));
    assert!(matches!(save_plan("model.bpmn", None, true, &defaults), SavePlan::BackUpThenWrite));
    assert!(matches!(save_plan("model.bpmn", None, false, &defaults), SavePlan::Write));
    let strict = FileOptions { fail_if_exists: true, ..FileOptions::default() };
    assert!(matches!(
        save_plan("model.bpmn", None, true, &strict),
        SavePlan::Refuse(FileError::AlreadyExists(ref p)) if p == "model.bpmn"
    ));
    let no_backup = FileOptions { create_backup: false, ..FileOptions::default() };
    assert!(matches!(save_plan("model.bpmn", None, true, &no_backup), SavePlan::Write));
}

#[test]
fn test_lane_and_event_definition_clones_are_deep_copies() {
    let child = Lane {
        id: "child".to_string(),
        name: Some("Child".to_string()),
        partition_element_ref: None,
        child_lanes: vec![],
        flow_node_refs: vec!["task_b".to_string()],
    };
    let lane = Lane {
        id: "parent".to_string(),
        name: None,
        partition_element_ref: Some("role".to_string()),
        child_lanes: vec![child],
        flow_node_refs: vec!["task_a".to_string()],
    };
    let copy = lane.clone();
    assert_eq!(copy.id, "parent");
    assert_eq!(copy.partition_element_ref, Some("role".to_string()));
    assert_eq!(copy.flow_node_refs, vec!["task_a".to_string()]);
    assert_eq!(copy.child_lanes.len(), 1);
    assert_eq!(copy.child_lanes[0].id, "child");
    assert_eq!(copy.child_lanes[0].flow_node_refs, vec!["task_b".to_string()]);

    let def = EventDefinition::Multiple {
        events: vec![
            EventDefinition::Timer { time_expression: "PT5M".to_string() },
            EventDefinition::Message { message_ref: Some("msg".to_string()) },
        ],
        is_parallel: true,
    };
    assert_eq!(def.clone(), def);
}

#[test]
fn test_xml_read_back_keeps_id_name_and_documentation() {
    let d = BpmnDiagram {
        id: "test_diagram".to_string(),
        name: Some("Test Diagram".to_string()),
        documentation: Some("A test diagram".to_string()),
        processes: vec![],
        collaborations: vec![],
        data_stores: vec![],
        messages: vec![],
        signals: vec![],
    };
    let xml = BpmnXmlSerializer::to_string(&d).unwrap();
    let r = BpmnXmlSerializer::from_string(&xml).unwrap();
    assert_eq!(r.id, "test_diagram");
    assert_eq!(r.name, Some("Test Diagram".to_string()));
    assert_eq!(r.documentation, Some("A test diagram".to_string()));
    assert_eq!(BpmnXmlSerializer::to_string(&r).unwrap(), xml);

    let tricky = BpmnDiagram {
        id: "a&b".to_string(),
        name: None,
        documentation: Some("x < y \"quoted\"".to_string()),
        processes: vec![],
        collaborations: vec![],
        data_stores: vec![],
        messages: vec![],
        signals: vec![],
    };
    let xml2 = BpmnXmlSerializer::to_string(&tricky).unwrap();
    let r2 = BpmnXmlSerializer::from_string(&xml2).unwrap();
    assert_eq!(r2.id, "a&b");
    assert_eq!(r2.name, None);
    assert_eq!(r2.documentation, Some("x < y \"quoted\"".to_string()));
}

#[test]
fn test_xml_read_refuses_other_text() {
    assert!(matches!(
        BpmnXmlSerializer::from_string("<html></html>"),
        Err(XmlError::ParseError(ref m)) if m == "no BPMN definitions element"
    ));
}
