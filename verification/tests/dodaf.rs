use abcdodaf::dodaf::capability::{Capability as CoreCapability, CapabilityType, CapabilityView};
use abcdodaf::dodaf::cv1::{CapabilityIncrement, CapabilityVision, StrategicObjective, TimeFrame};
use abcdodaf::dodaf::cv2::{Capability, CapabilityCluster, CapabilityTaxonomy};
use abcdodaf::dodaf::operational::{ActivityType, OperationalActivity, OperationalContext};
use abcdodaf::dodaf::ov1::InterfaceType as Ov1InterfaceType;
use abcdodaf::dodaf::ov2::{Criticality, Needline, PerformerConnection, PerformerConnectionType};
use abcdodaf::dodaf::ov3::{add_header, ExchangeMedia, InformationElement, InformationType, InteroperabilityLevel};
use abcdodaf::dodaf::ov6::{ConstraintType, EventRelationshipType, OperationalRule, OperationalRulesModel, RuleType};
use abcdodaf::dodaf::performers::{PerformerMapper, PerformerType, ServiceType as PerformerServiceType};
use abcdodaf::dodaf::security::{Caveat, Classification, SecurityMarkingBuilder};
use abcdodaf::dodaf::services::{Service, ServiceType};
use abcdodaf::dodaf::sv1::{
    InterfaceType, PortDirection, PortType, System, SystemInterface, SystemPort, SystemType,
    SystemsInterfaceDescription,
};
use abcdodaf::dodaf::sv2::{CommunicationNetwork, CommunicationSystem, CommunicationType, MediaType, NetworkType};
use abcdodaf::dodaf::sv4::{
    FunctionDataFlow, FunctionType, FunctionalHierarchy, HierarchyLevel, SystemFunction,
    SystemsFunctionalityDescription,
};
use abcdodaf::dodaf::traceability::{
    ElementType, LinkType, TraceabilityElement, TraceabilityLinkBuilder, TraceabilityMatrix,
};

#[test]
fn test_capability_creation() {
    let cap = CoreCapability::new("cap1", "NLP", CapabilityType::Cognitive)
        .with_description("Natural Language Processing")
        .add_resource("LLM Model")
        .add_metric("accuracy", serde_json::Value::from(0.95));
    assert_eq!(cap.id, "cap1");
    assert_eq!(cap.capability_type, CapabilityType::Cognitive);
    assert_eq!(cap.required_resources.len(), 1);
}

#[test]
fn test_capability_view() {
    let view = CapabilityView::new().add_capability(CoreCapability::new("c1", "Cap1", CapabilityType::Cognitive));
    assert_eq!(view.capabilities.len(), 1);
    assert!(view.get_capability("c1").is_some());
    assert!(view.get_capability("c2").is_none());
}

#[test]
fn test_create_vision() {
    let vision = CapabilityVision::new(
        "cv1_1",
        "2026-2030 Vision",
        "Strategic capability vision for 2026-2030 period",
        "Achieve integrated cyber-physical capabilities",
    );
    assert_eq!(vision.name, "2026-2030 Vision");
    assert!(vision.description.contains("Strategic"));
}

#[test]
fn test_vision_with_objectives() {
    let obj1 = StrategicObjective::new("obj_1", "System Integration", "Integrate disparate systems")
        .with_priority(1)
        .add_measure("Integration success rate");
    let vision = CapabilityVision::new("cv1_1", "Vision", "Test", "Test vision").add_objective(obj1);
    assert_eq!(vision.strategic_objectives.len(), 1);
    assert_eq!(vision.strategic_objectives[0].priority, 1);
}

#[test]
fn test_capability_increments() {
    let inc = CapabilityIncrement::new("inc_1", "Phase 1", "2026-01-01T00:00:00+00:00")
        .with_end_date("2027-01-01T00:00:00+00:00")
        .add_enabled_capability("cap_1")
        .add_enabled_capability("cap_2");
    assert_eq!(inc.capabilities_enabled.len(), 2);
    assert!(inc.end_date.is_some());
}

#[test]
fn test_timeframe() {
    let tf = TimeFrame::with_all("0-2 years", "2-5 years", "5+ years");
    assert!(tf.near_term.is_some());
    assert!(tf.mid_term.is_some());
    assert!(tf.far_term.is_some());
}

#[test]
fn test_vision_relationships() {
    let vision = CapabilityVision::new("cv1_1", "Vision", "Test", "Test")
        .add_mission_area("Command & Control")
        .add_related_capability("cap_1")
        .add_supporting_system("sys_1");
    assert_eq!(vision.mission_areas.len(), 1);
    assert_eq!(vision.related_capabilities.len(), 1);
    assert_eq!(vision.supporting_systems.len(), 1);
}

#[test]
fn test_create_taxonomy() {
    let taxonomy = CapabilityTaxonomy::new("cv2_1", "Command & Control Capability Taxonomy")
        .with_description("Hierarchical taxonomy of C&C capabilities");
    assert_eq!(taxonomy.name, "Command & Control Capability Taxonomy");
    assert_eq!(taxonomy.capabilities.len(), 0);
}

#[test]
fn test_capabilities_hierarchy() {
    let parent = Capability::new("cap_1", "Command", "Command & Control", "Core").with_maturity_level(3);
    let child1 = Capability::new("cap_1_1", "Plan", "Command & Control", "Planning").with_parent("cap_1", 1);
    let child2 = Capability::new("cap_1_2", "Execute", "Command & Control", "Execution").with_parent("cap_1", 1);
    let taxonomy = CapabilityTaxonomy::new("cv2_1", "Taxonomy")
        .add_capability(parent)
        .add_capability(child1)
        .add_capability(child2);
    assert_eq!(taxonomy.capabilities.len(), 3);
    assert_eq!(taxonomy.hierarchy.levels, 2);
    assert_eq!(taxonomy.get_root_capabilities().len(), 1);
    assert_eq!(taxonomy.get_children("cap_1").len(), 2);
}

#[test]
fn test_capability_realization() {
    let cap = Capability::new("cap_1", "Sensing", "Intelligence", "Sensor")
        .add_realizing_operation("ov_sense")
        .add_realizing_system("sys_radar")
        .add_realizing_service("svc_sensor");
    assert_eq!(cap.realization_count(), 3);
}

#[test]
fn test_capability_cluster() {
    let cluster = CapabilityCluster::new("cluster_1", "ISR Capabilities", "Mission Area")
        .add_member("cap_sense")
        .add_member("cap_analyze")
        .add_member("cap_disseminate");
    assert_eq!(cluster.members.len(), 3);
}

#[test]
fn test_query_by_domain() {
    let cap1 = Capability::new("cap_1", "Command", "C2", "Core");
    let cap2 = Capability::new("cap_2", "Intelligence", "Intelligence", "Core");
    let cap3 = Capability::new("cap_3", "Plan", "C2", "Planning");
    let taxonomy = CapabilityTaxonomy::new("cv2_1", "Test").add_capability(cap1).add_capability(cap2).add_capability(cap3);
    assert_eq!(taxonomy.get_capabilities_by_domain("C2").len(), 2);
    assert_eq!(taxonomy.get_capabilities_by_domain("Intelligence").len(), 1);
    assert_eq!(taxonomy.get_capabilities_by_category("Core").len(), 2);
}

#[test]
fn test_operational_context() {
    let context = OperationalContext::new()
        .with_mission_area("AI Workforce Operations")
        .with_capability("Natural Language Processing")
        .with_resource("max_tokens", serde_json::Value::from(1000));
    assert_eq!(context.mission_area, Some("AI Workforce Operations".to_string()));
    assert_eq!(context.required_capabilities.len(), 1);
    assert_eq!(context.resources.len(), 1);
}

#[test]
fn test_operational_activity() {
    let activity = OperationalActivity::new("act1", "Process Request")
        .with_type(ActivityType::Automated)
        .add_performer("AI Agent")
        .add_input("user_request")
        .add_output("processed_result");
    assert_eq!(activity.activity_type, ActivityType::Automated);
    assert_eq!(activity.performers.len(), 1);
}

#[test]
fn test_interface_types() {
    assert_ne!(Ov1InterfaceType::Information, Ov1InterfaceType::Physical);
    assert_eq!(Ov1InterfaceType::Service, Ov1InterfaceType::Service);
}

#[test]
fn test_criticality_ordering() {
    assert_eq!(Criticality::Critical, Criticality::Critical);
    assert_ne!(Criticality::Critical, Criticality::Desirable);
}

#[test]
fn test_performer_connections() {
    let conn = PerformerConnection {
        id: "pc1".to_string(),
        performer: "performer1".to_string(),
        from_node: "node1".to_string(),
        to_node: "node2".to_string(),
        connection_type: PerformerConnectionType::Reassignment,
    };
    assert_eq!(conn.connection_type, PerformerConnectionType::Reassignment);
}

#[test]
fn needline_collects_information_elements() {
    let needline = Needline::new("nl1", "Command Flow", "node1", "node2", Criticality::Critical)
        .add_information_element("tactical_order");
    assert_eq!(needline.source_node, "node1");
    assert_eq!(needline.information_elements, vec!["tactical_order".to_string()]);
}

#[test]
fn test_information_elements() {
    let elem = InformationElement::new("ie_1", "Tactical Order", InformationType::Command)
        .with_description("Operational command")
        .with_creator("Command Center");
    assert_eq!(elem.information_type, InformationType::Command);
    assert!(elem.creator.is_some());
}

#[test]
fn test_exchange_media_types() {
    assert_eq!(ExchangeMedia::Electronic, ExchangeMedia::Electronic);
    assert_ne!(ExchangeMedia::Voice, ExchangeMedia::Physical);
}

#[test]
fn test_interoperability_levels() {
    assert!(InteroperabilityLevel::Level4 > InteroperabilityLevel::Level0);
}

#[test]
fn test_create_rules_model() {
    let model = OperationalRulesModel::new("ov6a_1", "Operational Rules").with_description("Rules constraining operations");
    assert_eq!(model.name, "Operational Rules");
    assert_eq!(model.rules.len(), 0);
}

#[test]
fn test_operational_rule() {
    let rule = OperationalRule::new(
        "rule1",
        "Command Authority",
        "All orders must come from authorized command",
        RuleType::Policy,
        "order.source == AUTHORIZED_COMMAND",
        "execute_order(order)",
    )
    .with_priority(1)
    .add_applicable_activity("activity1");
    assert_eq!(rule.rule_type, RuleType::Policy);
    assert_eq!(rule.priority, 1);
    assert_eq!(rule.applies_to_activities.len(), 1);
}

#[test]
fn test_constraint_types() {
    assert_ne!(ConstraintType::Temporal, ConstraintType::Resource);
    assert_eq!(ConstraintType::Sequence, ConstraintType::Sequence);
}

#[test]
fn test_event_relationships() {
    assert_eq!(EventRelationshipType::Sequence, EventRelationshipType::Sequence);
    assert_ne!(EventRelationshipType::Causality, EventRelationshipType::Parallel);
}

#[test]
fn test_performer_from_lane() {
    let performer = PerformerMapper::from_bpmn_lane("lane_1", "API Gateway Service");
    assert_eq!(performer.id, "lane_1");
    assert_eq!(performer.name, "API Gateway Service");
    if let PerformerType::Service { service_type, .. } = performer.performer_type {
        assert_eq!(service_type, PerformerServiceType::AIAgent);
    } else {
        panic!("Expected Service performer type");
    }
}

#[test]
fn lanes_by_keyword() {
    let p = PerformerMapper::from_bpmn_lane("lane_2", "Finance");
    assert!(matches!(p.performer_type, PerformerType::Person { .. }));
    let s = PerformerMapper::from_bpmn_lane("lane_3", "Payment Service");
    assert!(matches!(s.performer_type, PerformerType::System { .. }));
    let t = PerformerMapper::from_bpmn_lane("lane_4", "Ops Team");
    assert!(matches!(t.performer_type, PerformerType::Organization { .. }));
}

#[test]
fn test_classification_ordering() {
    assert!(Classification::Secret > Classification::Confidential);
    assert!(Classification::TopSecret > Classification::Secret);
    assert!(Classification::Unclassified < Classification::CUI);
}

#[test]
fn test_security_marking_string() {
    let marking = SecurityMarkingBuilder::new("task_1", "ServiceTask")
        .classification(Classification::Secret)
        .caveat(Caveat::NOFORN)
        .caveat(Caveat::ORCON)
        .build();
    assert_eq!(marking.marking_string(), "SECRET//NOFORN/ORCON");
}

#[test]
fn unclassified_marking_has_no_caveats() {
    let marking = SecurityMarkingBuilder::new("t", "Task").build();
    assert_eq!(marking.marking_string(), "UNCLASSIFIED");
}

#[test]
fn test_foreign_release_check() {
    let marking1 = SecurityMarkingBuilder::new("task_1", "ServiceTask")
        .classification(Classification::Secret)
        .caveat(Caveat::NOFORN)
        .build();
    assert!(!marking1.allows_foreign_release());
    let marking2 = SecurityMarkingBuilder::new("task_2", "ServiceTask").classification(Classification::Secret).build();
    assert!(marking2.allows_foreign_release());
}

#[test]
fn test_encryption_requirement() {
    assert!(!Classification::Unclassified.requires_encryption());
    assert!(!Classification::FOUO.requires_encryption());
    assert!(Classification::Confidential.requires_encryption());
    assert!(Classification::Secret.requires_encryption());
}

#[test]
fn test_service_creation() {
    let service = Service::new("svc1", "AI Service", ServiceType::AiInference)
        .with_description("ML inference service")
        .with_endpoint("http://localhost:8080")
        .provides("nlp_capability");
    assert_eq!(service.id, "svc1");
    assert_eq!(service.service_type, ServiceType::AiInference);
    assert_eq!(service.provides_capabilities.len(), 1);
}

#[test]
fn test_create_interface_description() {
    let desc = SystemsInterfaceDescription::new("sv1_1", "Systems Interface").with_description("System architecture and interfaces");
    assert_eq!(desc.name, "Systems Interface");
    assert_eq!(desc.systems.len(), 0);
    assert_eq!(desc.interfaces.len(), 0);
}

#[test]
fn test_systems_and_ports() {
    let sys1 = System::new("sys_1", "Command System", SystemType::Software);
    let sys2 = System::new("sys_2", "Sensor System", SystemType::Hardware);
    let port1 = SystemPort::new("port_1", "Command Out", PortType::Output, "sys_1", PortDirection::Out).with_protocol("TCP");
    let port2 = SystemPort::new("port_2", "Data In", PortType::Input, "sys_2", PortDirection::In).with_protocol("TCP");
    let desc = SystemsInterfaceDescription::new("sv1_1", "Test")
        .add_system(sys1)
        .add_system(sys2)
        .add_port(port1)
        .add_port(port2);
    assert_eq!(desc.systems.len(), 2);
    assert_eq!(desc.ports.len(), 2);
    assert_eq!(desc.get_system_ports("sys_1").len(), 1);
}

#[test]
fn test_system_interface() {
    let iface = SystemInterface::new("if_1", "sys_1", "sys_2", "port_1", "port_2")
        .with_name("Command to Sensor")
        .with_type(InterfaceType::Data)
        .with_description("Sends commands to sensor");
    assert_eq!(iface.source_system, "sys_1");
    assert_eq!(iface.target_system, "sys_2");
    assert_eq!(iface.interface_type, InterfaceType::Data);
}

#[test]
fn test_port_types() {
    assert_eq!(PortType::Input, PortType::Input);
    assert_ne!(PortType::Input, PortType::Output);
}

#[test]
fn test_system_types() {
    assert_eq!(SystemType::Software, SystemType::Software);
    assert_ne!(SystemType::Hardware, SystemType::Software);
}

#[test]
fn test_communication_system() {
    let comm_sys = CommunicationSystem::new("comm_1", "TCP/IP Network", CommunicationType::Data, MediaType::Fiber, "TCP/IP")
        .with_description("High-speed fiber network");
    assert_eq!(comm_sys.system_type, CommunicationType::Data);
    assert_eq!(comm_sys.media_type, MediaType::Fiber);
}

#[test]
fn test_communication_network() {
    let network = CommunicationNetwork::new("net_1", "Corporate Network", NetworkType::Intranet)
        .add_member_system("sys_1")
        .add_member_system("sys_2")
        .add_link("link_1");
    assert_eq!(network.network_type, NetworkType::Intranet);
    assert_eq!(network.member_systems.len(), 2);
    assert_eq!(network.communication_links.len(), 1);
}

#[test]
fn test_media_types() {
    assert_eq!(MediaType::Radio, MediaType::Radio);
    assert_ne!(MediaType::Radio, MediaType::Fiber);
}

#[test]
fn test_create_functionality_description() {
    let desc = SystemsFunctionalityDescription::new("sv4_1", "Functionality").with_description("System functionality and data flows");
    assert_eq!(desc.name, "Functionality");
    assert_eq!(desc.functions.len(), 0);
    assert_eq!(desc.data_flows.len(), 0);
}

#[test]
fn test_system_functions() {
    let func1 = SystemFunction::new("func_1", "Analyze", FunctionType::Primary, "sys_1")
        .add_input("raw_data")
        .add_output("analysis_result");
    let func2 = SystemFunction::new("func_2", "Store", FunctionType::Supporting, "sys_2").add_input("analysis_result");
    assert_eq!(func1.function_type, FunctionType::Primary);
    assert_eq!(func1.arity(), (1, 1));
    assert_eq!(func2.inputs.len(), 1);
}

#[test]
fn test_function_data_flows() {
    let flow = FunctionDataFlow::new("flow_1", "func_1", "func_2").add_data_element("data_elem_1").with_timing("Real-time");
    assert_eq!(flow.data_elements.len(), 1);
    assert!(flow.timing.is_some());
}

#[test]
fn test_functional_hierarchy() {
    let mut level0 = HierarchyLevel::new(0);
    level0.functions.push("func_root".to_string());
    let mut level1 = HierarchyLevel::new(1).add_function("func_1").add_function("func_2");
    level1 = level1.add_relationship("func_root", "func_1");
    level1 = level1.add_relationship("func_root", "func_2");
    let hierarchy = FunctionalHierarchy::new("func_root").add_level(level1);
    assert_eq!(hierarchy.max_depth(), 1);
    assert_eq!(level0.functions.len(), 1);
}

#[test]
fn test_function_types() {
    assert_eq!(FunctionType::Primary, FunctionType::Primary);
    assert_ne!(FunctionType::Primary, FunctionType::Supporting);
}

#[test]
fn test_traceability_matrix() {
    let mut matrix = TraceabilityMatrix::new("Test Matrix");
    let req = TraceabilityElement {
        id: "REQ-001".to_string(),
        element_type: ElementType::Requirement,
        name: "User Authentication".to_string(),
        description: None,
    };
    let activity = TraceabilityElement {
        id: "ACT-001".to_string(),
        element_type: ElementType::OperationalActivity,
        name: "Authenticate User".to_string(),
        description: None,
    };
    let link = TraceabilityLinkBuilder::from(activity.clone()).to(req.clone()).link_type(LinkType::Satisfies).build();
    matrix.add_link(link);
    assert_eq!(matrix.elements.len(), 2);
    assert_eq!(matrix.links.len(), 1);
    let satisfied = matrix.get_satisfied_requirements("ACT-001");
    assert_eq!(satisfied.len(), 1);
    assert_eq!(satisfied[0].id, "REQ-001");
}

#[test]
fn adding_an_element_twice_keeps_one() {
    let mut matrix = TraceabilityMatrix::new("M");
    let e = TraceabilityElement {
        id: "REQ-1".to_string(),
        element_type: ElementType::Requirement,
        name: "R".to_string(),
        description: None,
    };
    matrix.add_element(e.clone());
    matrix.add_element(e);
    assert_eq!(matrix.elements.len(), 1);
    assert!(matrix.has_element("REQ-1"));
    assert_eq!(matrix.find_orphaned_elements().len(), 1);
}

#[test]
fn test_coverage_report() {
    let mut matrix = TraceabilityMatrix::new("Coverage Test");
    matrix.add_element(TraceabilityElement {
        id: "REQ-001".to_string(),
        element_type: ElementType::Requirement,
        name: "Req 1".to_string(),
        description: None,
    });
    matrix.add_element(TraceabilityElement {
        id: "REQ-002".to_string(),
        element_type: ElementType::Requirement,
        name: "Req 2".to_string(),
        description: None,
    });
    let activity = TraceabilityElement {
        id: "ACT-001".to_string(),
        element_type: ElementType::OperationalActivity,
        name: "Activity 1".to_string(),
        description: None,
    };
    let req1 = matrix.elements.iter().find(|e| e.id == "REQ-001").unwrap().clone();
    let link = TraceabilityLinkBuilder::from(activity.clone()).to(req1).link_type(LinkType::Satisfies).build();
    matrix.add_link(link);
    let counts = matrix.coverage_counts();
    assert_eq!(counts.total_requirements, 2);
    assert_eq!(counts.satisfied_requirements, 1);
    assert_eq!((counts.satisfied_requirements as f64 / counts.total_requirements as f64) * 100.0, 50.0);
    assert_eq!(counts.total_elements, 3);
    assert_eq!(counts.orphaned_elements, 1);
}

#[test]
fn satisfying_one_requirement_twice_counts_once() {
    let mut matrix = TraceabilityMatrix::new("M");
    let req = TraceabilityElement { id: "R".to_string(), element_type: ElementType::Requirement, name: "R".to_string(), description: None };
    let a = TraceabilityElement { id: "A".to_string(), element_type: ElementType::OperationalActivity, name: "A".to_string(), description: None };
    let b = TraceabilityElement { id: "B".to_string(), element_type: ElementType::OperationalActivity, name: "B".to_string(), description: None };
    matrix.add_link(TraceabilityLinkBuilder::from(a).to(req.clone()).link_type(LinkType::Satisfies).build());
    matrix.add_link(TraceabilityLinkBuilder::from(b).to(req).link_type(LinkType::Satisfies).build());
    let c = matrix.coverage_counts();
    assert_eq!(c.satisfied_requirements, 1);
    assert_eq!(c.total_links, 2);
}

#[test]
fn test_add_header_keeps_each_name_once() {
    let mut headers: Vec<String> = Vec::new();
    add_header(&mut headers, "HQ");
    add_header(&mut headers, "Field Unit");
    add_header(&mut headers, "HQ");
    assert_eq!(headers, vec!["HQ".to_string(), "Field Unit".to_string()]);
}

#[test]
fn test_add_relationship_groups_children_by_parent() {
    let level = HierarchyLevel::new(1)
        .add_relationship("root", "a")
        .add_relationship("other", "x")
        .add_relationship("root", "b");
    assert_eq!(level.parent_functions.len(), 2);
    assert_eq!(level.parent_functions[0].0, "root");
    assert_eq!(level.parent_functions[0].1, vec!["a".to_string(), "b".to_string()]);
    assert_eq!(level.parent_functions[1].0, "other");
    assert_eq!(level.parent_functions[1].1, vec!["x".to_string()]);
}
