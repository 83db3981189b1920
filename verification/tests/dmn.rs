use abcdodaf::dmn::decision_graph::{DecisionGraph, DecisionNode, Requirement, RequirementDiagram};
use abcdodaf::dmn::decision_table::{check_rule_shape, check_table_shape, select_rules, HitPolicy, RuleEntry};
use abcdodaf::dmn::errors::DmnError;
use abcdodaf::dmn::xml::DmnXmlManager;
use abcdodaf::dmn::DmnVersion;

fn decision(id: &str, name: &str) -> DecisionNode {
    DecisionNode::Decision { id: id.to_string(), name: name.to_string(), description: None }
}

fn input(id: &str, name: &str) -> DecisionNode {
    DecisionNode::InputData { id: id.to_string(), name: name.to_string(), description: None }
}

#[test]
fn test_decision_node_creation() {
    let node = DecisionNode::Decision { id: "test".to_string(), name: "Test Decision".to_string(), description: None };
    assert_eq!(node.id(), "test");
    assert_eq!(node.name(), "Test Decision");
    assert_eq!(node.node_type(), "decision");
}

#[test]
fn test_input_node_creation() {
    let node = DecisionNode::InputData {
        id: "age".to_string(),
        name: "Age".to_string(),
        description: Some("Customer age".to_string()),
    };
    assert_eq!(node.id(), "age");
    assert_eq!(node.node_type(), "input_data");
}

#[test]
fn test_graph_creation() {
    let graph = DecisionGraph::new("test_graph");
    assert_eq!(graph.id, "test_graph");
    assert!(graph.nodes().iter().count() == 0);
}

#[test]
fn test_add_node() {
    let mut graph = DecisionGraph::new("test");
    graph.add_node(decision("d1", "Decision 1")).unwrap();
    assert!(graph.get_node("d1").is_some());
}

#[test]
fn test_cannot_add_duplicate_node() {
    let mut graph = DecisionGraph::new("test");
    let node = decision("d1", "Decision 1");
    graph.add_node(node.clone()).unwrap();
    assert!(graph.add_node(node).is_err());
}

#[test]
fn test_add_requirement() {
    let mut graph = DecisionGraph::new("test");
    graph.add_node(input("age", "Age")).unwrap();
    graph.add_node(decision("category", "Category")).unwrap();
    graph.add_requirement("age".to_string(), "category".to_string()).unwrap();
    assert_eq!(graph.requirements().len(), 1);
}

#[test]
fn test_circular_dependency_detection() {
    let mut graph = DecisionGraph::new("test");
    graph.add_node(decision("d1", "D1")).unwrap();
    graph.add_node(decision("d2", "D2")).unwrap();
    graph.add_requirement("d1".to_string(), "d2".to_string()).unwrap();
    assert!(graph.add_requirement("d2".to_string(), "d1".to_string()).is_err());
}

#[test]
fn test_topological_sort() {
    let mut graph = DecisionGraph::new("test");
    graph.add_node(input("age", "Age")).unwrap();
    graph.add_node(decision("d1", "D1")).unwrap();
    graph.add_node(decision("d2", "D2")).unwrap();
    graph.add_requirement("age".to_string(), "d1".to_string()).unwrap();
    graph.add_requirement("d1".to_string(), "d2".to_string()).unwrap();

    let sorted = graph.topological_sort().unwrap();
    let age_pos = sorted.iter().position(|id| id == "age").unwrap();
    let d1_pos = sorted.iter().position(|id| id == "d1").unwrap();
    let d2_pos = sorted.iter().position(|id| id == "d2").unwrap();
    assert!(age_pos < d1_pos);
    assert!(d1_pos < d2_pos);
}

#[test]
fn requirement_to_unknown_node_is_refused() {
    let mut graph = DecisionGraph::new("g");
    graph.add_node(decision("d1", "D1")).unwrap();
    let r = graph.add_requirement("missing".to_string(), "d1".to_string());
    assert!(matches!(r, Err(DmnError::InvalidDecisionGraph(_))));
    assert_eq!(graph.requirements().len(), 0);
}

#[test]
fn self_requirement_is_a_cycle() {
    let mut graph = DecisionGraph::new("g");
    graph.add_node(decision("d1", "D1")).unwrap();
    assert!(matches!(graph.add_requirement("d1".to_string(), "d1".to_string()), Err(DmnError::CircularDependency(_))));
}

#[test]
fn dependencies_and_dependents() {
    let mut graph = DecisionGraph::new("g");
    graph.add_node(input("a", "A")).unwrap();
    graph.add_node(decision("b", "B")).unwrap();
    graph.add_requirement("a".to_string(), "b".to_string()).unwrap();
    assert_eq!(graph.dependencies("b").len(), 1);
    assert_eq!(graph.dependencies("b")[0].id(), "a");
    assert_eq!(graph.dependents("a")[0].id(), "b");
    assert_eq!(graph.requirements_for("b").len(), 1);
    assert!(graph.validate().is_ok());
}

#[test]
fn new_requirement_diagram_validates() {
    let d = RequirementDiagram::new("rd", "Diagram");
    assert_eq!(d.graph.id, "default");
    assert!(d.validate().is_ok());
}

#[test]
fn test_hit_policy_names() {
    assert_eq!(HitPolicy::Unique.name(), "U");
    assert_eq!(HitPolicy::First.name(), "F");
    assert_eq!(HitPolicy::Priority.name(), "P");
}

#[test]
fn test_hit_policy_parsing() {
    assert_eq!(HitPolicy::from_str("UNIQUE").unwrap(), HitPolicy::Unique);
    assert_eq!(HitPolicy::from_str("F").unwrap(), HitPolicy::First);
    assert!(HitPolicy::from_str("INVALID").is_err());
}

#[test]
fn hit_policy_parsing_ignores_case() {
    assert_eq!(HitPolicy::from_str("collect").unwrap(), HitPolicy::Collect);
    match HitPolicy::from_str("bogus") {
        Err(DmnError::InvalidDecisionTable(m)) => assert_eq!(m, "Unknown hit policy: bogus"),
        other => panic!("unexpected {:?}", other),
    }
}

#[test]
fn test_rule_entry_creation() {
    let rule = RuleEntry::new(2, 1);
    assert_eq!(rule.input_entries.len(), 2);
    assert_eq!(rule.output_entries.len(), 1);
}

#[test]
fn rule_entry_setters_check_the_index() {
    let mut rule = RuleEntry::new(2, 1);
    assert!(rule.set_input(1, Some(">= 18".to_string())).is_ok());
    assert_eq!(rule.input_entries[1], Some(">= 18".to_string()));
    assert!(rule.set_input(2, None).is_err());
    assert!(rule.set_output(0, "\"adult\"".to_string()).is_ok());
    assert!(rule.set_output(1, "x".to_string()).is_err());
}

#[test]
fn test_validation_fails_no_inputs() {
    assert!(check_table_shape(0, 1, &vec![]).is_err());
    assert!(check_table_shape(1, 0, &vec![]).is_err());
    assert!(check_table_shape(1, 1, &vec![RuleEntry::new(1, 1)]).is_ok());
    assert!(check_rule_shape(&RuleEntry::new(2, 1), 1, 1).is_err());
}

#[test]
fn test_error_display() {
    let err = DmnError::NoMatchingRules;
    assert_eq!(err.to_string(), "No matching rules found for inputs");
}

#[test]
fn test_type_mismatch_error() {
    let err = DmnError::TypeMismatch { expected: "String".to_string(), actual: "Number".to_string() };
    assert!(err.to_string().contains("Type mismatch"));
    assert!(err.to_string().contains("String"));
    assert!(err.to_string().contains("Number"));
}

#[test]
fn test_default_version() {
    assert_eq!(DmnVersion::default(), DmnVersion::V1_3);
}

#[test]
fn test_validate_xml_valid() {
    let xml = "<?xml version=\"1.0\"?>\n<definitions></definitions>";
    assert!(DmnXmlManager::validate_xml(xml).is_ok());
}

#[test]
fn test_validate_xml_missing_declaration() {
    let xml = "<definitions></definitions>";
    assert!(DmnXmlManager::validate_xml(xml).is_err());
}

#[test]
fn test_validate_xml_missing_definitions() {
    let xml = "<?xml version=\"1.0\"?>\n<root></root>";
    assert!(DmnXmlManager::validate_xml(xml).is_err());
}

#[test]
fn test_import_from_json() {
    let json = r#"{"id": "test", "value": 42}"#;
    let result = DmnXmlManager::import_from_json(json).unwrap();
    assert_eq!(result["id"], "test");
    assert_eq!(result["value"], 42);
}

#[test]
fn import_of_bad_json_is_an_error() {
    assert!(DmnXmlManager::import_from_json("{not json").is_err());
}

#[test]
fn test_export_table_xml() {
    let mut rule = RuleEntry::new(1, 1);
    rule.set_input(0, Some(">= 18".to_string())).unwrap();
    rule.set_output(0, "\"Adult\"".to_string()).unwrap();
    let inputs = vec![("age".to_string(), "Age".to_string())];
    let outputs = vec![("category".to_string(), "Category".to_string())];
    let xml = abcdodaf::dmn::xml::table_xml("test_table", HitPolicy::Unique, &inputs, &outputs, &vec![rule]);
    assert!(xml.contains("<?xml"));
    assert!(xml.contains("test_table"));
    assert!(xml.contains("decisionTable"));
    assert!(xml.contains("Age"));
    assert!(xml.contains("<decisionTable hitPolicy=\"U\">\n"));
    assert!(xml.contains("        <inputEntry>\n          <text>>= 18</text>\n        </inputEntry>\n"));
    assert!(xml.ends_with("    </decisionTable>\n  </decision>\n</definitions>\n"));
}

#[test]
fn empty_input_entry_is_written_as_dash() {
    let rule = RuleEntry::new(1, 0);
    let xml = abcdodaf::dmn::xml::table_xml("t", HitPolicy::First, &vec![("a".to_string(), "A".to_string())], &vec![], &vec![rule]);
    assert!(xml.contains("<text>-</text>"));
}

#[test]
fn every_policy_letter_parses_back() {
    for p in [
        HitPolicy::Unique,
        HitPolicy::First,
        HitPolicy::Priority,
        HitPolicy::Any,
        HitPolicy::Collect,
        HitPolicy::RuleOrder,
        HitPolicy::OutputOrder,
    ] {
        assert_eq!(HitPolicy::from_str(p.name()).unwrap(), p);
    }
}

#[test]
fn test_nodes_keep_first_of_each_id_and_sort_lists_them_all() {
    let mut graph = DecisionGraph::new("g");
    assert!(graph.add_node(DecisionNode::Decision { id: "a".to_string(), name: "A".to_string(), description: None }).is_ok());
    assert!(graph.add_node(DecisionNode::Decision { id: "b".to_string(), name: "B".to_string(), description: None }).is_ok());
    assert!(graph.add_node(DecisionNode::Decision { id: "a".to_string(), name: "Again".to_string(), description: None }).is_err());
    assert_eq!(graph.nodes().len(), 2);
    assert_eq!(graph.nodes()[0].name(), "A");
    assert!(graph.add_requirement("b".to_string(), "a".to_string()).is_ok());
    let order = graph.topological_sort().unwrap();
    assert_eq!(order, vec!["b".to_string(), "a".to_string()]);
}

fn req(s: &str, t: &str) -> Requirement {
    Requirement { source_id: s.to_string(), target_id: t.to_string() }
}

#[test]
fn test_graph_from_parts_checks_every_part() {
    let ok = DecisionGraph::from_parts("g", vec![decision("a", "A"), decision("b", "B")], vec![req("a", "b"), req("a", "b")]).unwrap();
    assert_eq!(ok.nodes().len(), 2);
    assert_eq!(ok.topological_sort().unwrap(), vec!["a".to_string(), "b".to_string()]);
    assert!(ok.validate().is_ok());

    match DecisionGraph::from_parts("g", vec![decision("a", "A"), decision("a", "B")], vec![]) {
        Err(DmnError::InvalidDecisionGraph(m)) => assert_eq!(m, "Node a already exists"),
        _ => panic!("duplicate node accepted"),
    }
    match DecisionGraph::from_parts("g", vec![decision("a", "A")], vec![req("x", "a")]) {
        Err(DmnError::InvalidDecisionGraph(m)) => assert_eq!(m, "Source node x not found"),
        _ => panic!("missing source accepted"),
    }
    match DecisionGraph::from_parts("g", vec![decision("a", "A"), decision("b", "B")], vec![req("a", "b"), req("b", "a")]) {
        Err(DmnError::CircularDependency(m)) => assert_eq!(m, "Adding requirement b -> a would create a cycle"),
        _ => panic!("cycle accepted"),
    }
}

#[test]
fn test_select_rules_by_hit_policy() {
    assert_eq!(select_rules(HitPolicy::Unique, vec![2]).unwrap(), vec![2]);
    match select_rules(HitPolicy::Unique, vec![1, 3]) {
        Err(DmnError::AmbiguousRules(m)) => assert_eq!(m, "UNIQUE policy requires exactly one match, got 2"),
        _ => panic!("two matches accepted under Unique"),
    }
    assert!(select_rules(HitPolicy::Unique, vec![]).is_err());
    assert_eq!(select_rules(HitPolicy::First, vec![4, 5]).unwrap(), vec![4]);
    assert_eq!(select_rules(HitPolicy::Priority, vec![]).unwrap(), Vec::<usize>::new());
    assert_eq!(select_rules(HitPolicy::Collect, vec![0, 2, 3]).unwrap(), vec![0, 2, 3]);
    assert_eq!(select_rules(HitPolicy::Any, vec![1, 2]).unwrap(), vec![1, 2]);
}
