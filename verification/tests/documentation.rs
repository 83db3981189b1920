use abcdodaf::bpmn::process::ProcessBuilder;
use abcdodaf::bpmn::{ProcessInstance, ProcessState};
use abcdodaf::documentation::builtin_templates::{create_builtin_library, create_etl_template, create_simple_approval_template};
use abcdodaf::documentation::diagrams::{escape_xml, DiagramFormat, DiagramGenerator};
use abcdodaf::documentation::exporters::{html_escape, render_markdown, Exporter, HtmlExporter, MarkdownExporter, PlainTextExporter};
use abcdodaf::documentation::generator::{DocumentationConfig, DocumentationFormat, DocumentationGenerator};
use abcdodaf::documentation::templates::{ParameterConfig, Template, TemplateCategory, TemplateLibrary, TemplateMetadata};
use abcdodaf::documentation::{ErrorScenario, Parameter, Participant, ProcessDocumentation};

fn create_sample_doc() -> ProcessDocumentation {
    ProcessDocumentation {
        process_id: "test".to_string(),
        name: "Test Process".to_string(),
        description: "A test process".to_string(),
        purpose: None,
        inputs: vec![],
        outputs: vec![],
        participants: vec![],
        flow_description: "Simple flow".to_string(),
        error_handling: vec![],
        dodaf_views: vec![],
        metadata: vec![],
        generated_at: "2024-03-01T10:20:30+00:00".to_string(),
    }
}

fn create_sample_metadata() -> TemplateMetadata {
    TemplateMetadata {
        id: "6d1f0c1e-0000-4000-8000-000000000001".to_string(),
        name: "Sample Approval Workflow".to_string(),
        description: "A simple approval workflow template".to_string(),
        category: TemplateCategory::ApprovalWorkflow,
        version: "1.0.0".to_string(),
        author: Some("System".to_string()),
        created_at: "2024-01-01T00:00:00+00:00".to_string(),
        modified_at: "2024-01-01T00:00:00+00:00".to_string(),
        tags: vec!["approval".to_string(), "workflow".to_string()],
        complexity: "beginner".to_string(),
        use_cases: vec!["Request approval".to_string()],
        related_templates: vec![],
    }
}

#[test]
fn test_diagram_generator_creation() {
    let gen = DiagramGenerator::new(DiagramFormat::Svg);
    assert_eq!(gen.format, DiagramFormat::Svg);
}

#[test]
fn test_generate_ascii_diagram() {
    let process = ProcessBuilder::new("test", "Test Process")
        .add_user_task("t1", "First")
        .build()
        .expect("Failed to build process");
    let gen = DiagramGenerator::new(DiagramFormat::Ascii);
    let result = gen.generate(&process);
    assert!(result.is_ok());
    let ascii = result.unwrap();
    assert!(ascii.contains("Test Process"));
    assert!(ascii.contains("  - First (t1)\n"));
}

#[test]
fn svg_diagram_has_a_box_per_task() {
    let process = ProcessBuilder::new("p", "P & Q")
        .add_user_task("t1", "A")
        .add_service_task("t2", "B")
        .build()
        .unwrap();
    let svg = DiagramGenerator::new(DiagramFormat::Svg).generate(&process).unwrap();
    assert!(svg.starts_with("<svg xmlns=\"http://www.w3.org/2000/svg\" width=\"800\""));
    assert!(svg.contains("P &amp; Q"));
    // one box per task, and one in the legend
    assert_eq!(svg.matches("class=\"process-box\"/>").count(), 3);
    assert!(svg.ends_with("</svg>"));
}

#[test]
fn diagrams_test_escape_xml() {
    assert_eq!(escape_xml("<test>"), "&lt;test&gt;");
    assert_eq!(escape_xml("a&b"), "a&amp;b");
}

#[test]
fn test_markdown_export() {
    let exporter = MarkdownExporter;
    let doc = create_sample_doc();
    let result = exporter.export(&doc);
    assert!(result.is_ok());
    let content = result.unwrap();
    assert!(content.contains("# Test Process"));
    assert!(content.contains("## Description"));
    assert!(content.contains("- **Generated:** 2024-03-01 10:20:30 UTC\n"));
}

#[test]
fn test_html_export() {
    let exporter = HtmlExporter::new();
    let doc = create_sample_doc();
    let result = exporter.export(&doc);
    assert!(result.is_ok());
    let content = result.unwrap();
    assert!(content.contains("<!DOCTYPE html>"));
    assert!(content.contains("Test Process"));
    assert!(content.contains("<style>"));
}

#[test]
fn test_plain_text_export() {
    let exporter = PlainTextExporter;
    let doc = create_sample_doc();
    let result = exporter.export(&doc);
    assert!(result.is_ok());
    let content = result.unwrap();
    assert!(content.contains("Test Process"));
    assert!(content.starts_with("Test Process\n============\n\n"));
}

#[test]
fn markdown_export_of_a_full_document() {
    let mut doc = create_sample_doc();
    doc.purpose = Some("Why".to_string());
    doc.inputs = vec![Parameter {
        name: "x".to_string(),
        param_type: "int".to_string(),
        description: "the x".to_string(),
        required: true,
        default: Some("1".to_string()),
        constraints: None,
    }];
    doc.participants = vec![Participant {
        id: "p".to_string(),
        name: "Clerk".to_string(),
        participant_type: "human".to_string(),
        role: None,
        responsibilities: vec!["file".to_string()],
    }];
    doc.error_handling = vec![ErrorScenario {
        condition: "Timeout".to_string(),
        handling: "Retry".to_string(),
        recovery_steps: vec!["wait".to_string(), "retry".to_string()],
        impact: None,
    }];
    doc.metadata = vec![("owner".to_string(), "ops".to_string())];
    let md = render_markdown(&doc, "NOW");
    let expected = "# Test Process\n\n## Description\n\nA test process\n\n## Purpose\n\nWhy\n\n## Inputs\n\n- **x** (int): the x\n  - Required: Yes\n  - Default: 1\n\n## Participants\n\n### Clerk\n\n- Type: human\n- Responsibilities:\n  - file\n\n## Process Flow\n\nSimple flow\n\n## Error Handling\n\n### Timeout\n\n**Handling:** Retry\n\n**Recovery Steps:**\n1. wait\n1. retry\n\n## Metadata\n\n- **Process ID:** test\n- **Generated:** NOW\n- **owner:** ops\n";
    assert_eq!(md, expected);
}

#[test]
fn html_export_escapes_and_breaks_lines() {
    let mut doc = create_sample_doc();
    doc.name = "A<B".to_string();
    doc.flow_description = "one\ntwo".to_string();
    let html = HtmlExporter { stylesheet: None }.export(&doc).unwrap();
    assert!(html.contains("<title>A<B</title>\n"));
    assert!(html.contains("<h1>A&lt;B</h1>\n"));
    assert!(html.contains("<p>one<br>two</p>\n"));
    assert!(!html.contains("<style>"));
    assert!(html.ends_with("</div>\n</body>\n</html>\n"));
}

#[test]
fn unreadable_time_is_shown_as_given() {
    let mut doc = create_sample_doc();
    doc.generated_at = "yesterday".to_string();
    let text = PlainTextExporter.export(&doc).unwrap();
    assert!(text.contains("Generated: yesterday\n"));
}

#[test]
fn test_html_escape() {
    assert_eq!(html_escape("<test>"), "&lt;test&gt;");
    assert_eq!(html_escape("\"quoted\""), "&quot;quoted&quot;");
    assert_eq!(html_escape("it's"), "it&#39;s");
}

#[test]
fn test_documentation_generator_creation() {
    let gen = DocumentationGenerator::default();
    assert_eq!(gen.config.format, DocumentationFormat::Markdown);
}

#[test]
fn test_documentation_config_defaults() {
    let config = DocumentationConfig::default();
    assert!(config.include_diagram);
    assert!(config.include_participants);
}

#[test]
fn test_generate_from_process() {
    let process = ProcessBuilder::new("test", "Test Process").add_user_task("task1", "Test Task").build().expect("Failed to build process");
    let gen = DocumentationGenerator::default();
    let doc = gen.generate_from_process(&process).expect("Failed to generate documentation");
    assert_eq!(doc.process_id, "test");
    assert_eq!(doc.name, "Test Process");
}

#[test]
fn documentation_of_a_process_in_detail() {
    let process = ProcessBuilder::new("p1", "Order")
        .add_user_task("a", "Take")
        .add_service_task("b", "Ship")
        .add_flow("f1", "a", "b")
        .build()
        .unwrap();
    let gen = DocumentationGenerator::new(DocumentationConfig::default());
    let doc = gen.document_process(&process, "T".to_string());
    assert_eq!(doc.description, "Process: Order");
    assert_eq!(doc.inputs.len(), 1);
    assert_eq!(doc.inputs[0].name, "a_input");
    assert_eq!(doc.inputs[0].description, "Input for Take");
    assert!(doc.inputs[0].required);
    assert_eq!(doc.outputs[0].name, "b_output");
    assert_eq!(doc.outputs[0].description, "Output from Ship");
    assert_eq!(doc.flow_description, "Process Flow:\n- Tasks: Take → Ship\n- Connections: 1 flows defined\n");
    assert_eq!(
        doc.dodaf_views,
        vec![
            "OV-6c - Systems Interface Description".to_string(),
            "OV-1 - High-Level Operational Concept Graphic".to_string(),
            "OV-5b - Operational Activity Model".to_string(),
        ]
    );
    assert_eq!(
        doc.metadata,
        vec![("process_id".to_string(), "p1".to_string()), ("process_name".to_string(), "Order".to_string())]
    );
    assert_eq!(doc.generated_at, "T");
}

#[test]
fn test_process_documentation_creation() {
    let doc = ProcessDocumentation {
        process_id: "test_proc".to_string(),
        name: "Test Process".to_string(),
        description: "A test process".to_string(),
        purpose: None,
        inputs: vec![],
        outputs: vec![],
        participants: vec![],
        flow_description: "Simple flow".to_string(),
        error_handling: vec![],
        dodaf_views: vec![],
        metadata: vec![],
        generated_at: "2024-01-01T00:00:00+00:00".to_string(),
    };
    assert_eq!(doc.process_id, "test_proc");
}

#[test]
fn test_template_creation() {
    let metadata = create_sample_metadata();
    let template = Template::new(metadata.clone(), "<bpmn/>".to_string());
    assert_eq!(template.metadata.name, "Sample Approval Workflow");
}

#[test]
fn test_template_library_creation() {
    let library = TemplateLibrary::new("Test Library", "1.0.0");
    assert_eq!(library.name, "Test Library");
    assert_eq!(library.templates.len(), 0);
}

#[test]
fn test_add_template_to_library() {
    let mut library = TemplateLibrary::new("Test Library", "1.0.0");
    let template = Template::new(create_sample_metadata(), "<bpmn/>".to_string());
    assert!(library.add_template(template).is_ok());
    assert_eq!(library.templates.len(), 1);
}

#[test]
fn test_search_templates() {
    let mut library = TemplateLibrary::new("Test Library", "1.0.0");
    let template = Template::new(create_sample_metadata(), "<bpmn/>".to_string());
    library.add_template(template).unwrap();
    let results = library.search("approval");
    assert_eq!(results.len(), 1);
    assert_eq!(library.search("APPROVAL").len(), 1);
    assert_eq!(library.search("nothing").len(), 0);
}

#[test]
fn test_get_by_category() {
    let mut library = TemplateLibrary::new("Test Library", "1.0.0");
    let template = Template::new(create_sample_metadata(), "<bpmn/>".to_string());
    library.add_template(template).unwrap();
    let results = library.get_by_category(TemplateCategory::ApprovalWorkflow);
    assert_eq!(results.len(), 1);
    assert_eq!(library.get_by_category(TemplateCategory::Notification).len(), 0);
}

#[test]
fn adding_a_template_again_replaces_it() {
    let mut library = TemplateLibrary::new("L", "1");
    library.add_template(Template::new(create_sample_metadata(), "<a/>".to_string())).unwrap();
    library.add_template(Template::new(create_sample_metadata(), "<b/>".to_string())).unwrap();
    assert_eq!(library.templates.len(), 1);
    assert_eq!(library.get_template("6d1f0c1e-0000-4000-8000-000000000001").unwrap().bpmn_definition, "<b/>");
    assert_eq!(library.search_index.len(), 2);
    assert_eq!(library.search_index[0].1.len(), 2);
    let stats = library.get_statistics();
    assert_eq!(stats.total_templates, 1);
    assert_eq!(stats.templates_by_category, vec![("ApprovalWorkflow".to_string(), 2)]);
    assert_eq!(stats.total_categories, 1);
    assert_eq!(library.list_ids(), vec!["6d1f0c1e-0000-4000-8000-000000000001".to_string()]);
    assert_eq!(library.get_by_complexity("beginner").len(), 1);
}

#[test]
fn template_parameters_and_copies() {
    let mut t = Template::new(create_sample_metadata(), "<bpmn/>".to_string());
    let p = ParameterConfig {
        name: "approver".to_string(),
        param_type: "string".to_string(),
        default: None,
        description: "Who approves".to_string(),
        required: true,
    };
    t.add_parameter("approver", p.clone());
    t.add_parameter("approver", ParameterConfig { required: false, ..p });
    assert_eq!(t.parameters.len(), 1);
    assert!(!t.parameters[0].1.required);
    let c = t.clone_with_new_id();
    assert_ne!(c.metadata.id, t.metadata.id);
    assert_eq!(c.metadata.name, t.metadata.name);
    assert_eq!(c.parameters.len(), 1);
}

#[test]
fn test_template_category_labels() {
    assert_eq!(TemplateCategory::ApprovalWorkflow.label(), "Approval Workflows");
    assert_eq!(TemplateCategory::Orchestration.label(), "Orchestration Patterns");
    assert_eq!(TemplateCategory::DataTransformation.description(), "Extract, transform, and load data workflows");
}

#[test]
fn test_generate_from_instance() {
    let mut instance = ProcessInstance::new("order_flow");
    instance.set_variable("amount", serde_json::Value::from(42));
    instance.set_variable("approved", serde_json::Value::Bool(true));
    instance.set_variable("note", serde_json::Value::String("rush".to_string()));
    instance.set_variable("items", serde_json::Value::Array(vec![]));
    instance.set_variable("none", serde_json::Value::Null);
    instance.complete();
    let generator = DocumentationGenerator::default();
    let doc = generator.generate_from_instance(&instance).unwrap();
    assert_eq!(doc.process_id, "order_flow");
    assert_eq!(doc.name, "Execution: order_flow");
    assert_eq!(doc.description, "Process instance execution documentation for order_flow");
    let started: chrono::DateTime<chrono::Utc> = chrono::DateTime::parse_from_rfc3339(&instance.started_at).unwrap().into();
    assert_eq!(doc.purpose, Some(format!("Instance {} executed at {}", instance.id, started)));
    assert_eq!(doc.inputs.len(), 5);
    assert_eq!(doc.inputs[0].name, "amount");
    assert_eq!(doc.inputs[0].param_type, "number");
    assert_eq!(doc.inputs[0].default, Some("42".to_string()));
    assert_eq!(doc.inputs[0].description, "Process variable: amount");
    assert!(!doc.inputs[0].required);
    assert_eq!(doc.inputs[1].param_type, "boolean");
    assert_eq!(doc.inputs[1].default, Some("true".to_string()));
    assert_eq!(doc.inputs[2].param_type, "string");
    assert_eq!(doc.inputs[2].default, Some("\"rush\"".to_string()));
    assert_eq!(doc.inputs[3].param_type, "array");
    assert_eq!(doc.inputs[4].param_type, "null");
    assert!(doc.outputs.is_empty());
    assert!(doc.dodaf_views.is_empty());
    assert_eq!(doc.flow_description, "Process state: Completed");
    assert_eq!(instance.state, ProcessState::Completed);
    let keys: Vec<&str> = doc.metadata.iter().map(|(k, _)| k.as_str()).collect();
    assert_eq!(keys, vec!["instance_id", "process_id", "state", "started_at", "completed_at"]);
    assert_eq!(doc.metadata[0].1, instance.id.to_string());
    assert_eq!(doc.metadata[2].1, "Completed");
    assert_eq!(doc.metadata[3].1, instance.started_at);
}

#[test]
fn test_create_builtin_library() {
    let library = create_builtin_library();
    assert!(library.templates.len() > 0);
    assert_eq!(library.name, "ABCDODAF Built-in Templates");
}

#[test]
fn test_simple_approval_template() {
    let template = create_simple_approval_template();
    assert_eq!(template.metadata.name, "Simple Approval Workflow");
    assert_eq!(template.metadata.complexity, "beginner");
}

#[test]
fn test_etl_template() {
    let template = create_etl_template();
    assert_eq!(template.metadata.category, TemplateCategory::DataTransformation);
    assert!(!template.documentation.is_empty());
}

#[test]
fn test_builtin_library_contents() {
    let library = create_builtin_library();
    assert_eq!(
        library.list_ids(),
        vec![
            "approval_simple",
            "approval_multilevel",
            "etl_basic",
            "orchestration_parallel",
            "hitl_basic",
            "errorhandling_retry",
            "notification_alert",
            "decision_dmn",
        ]
    );
    assert_eq!(library.version, "1.0.0");
    let simple = library.get_template("approval_simple").unwrap();
    assert_eq!(simple.parameters.len(), 2);
    assert_eq!(simple.parameters[1].1.default, Some("Manager".to_string()));
    assert!(simple.bpmn_definition.contains("SimpleApproval"));
    assert_eq!(library.search("retry").len(), 1);
    assert_eq!(library.get_by_category(TemplateCategory::ApprovalWorkflow).len(), 2);
    assert_eq!(library.get_by_complexity("beginner").len(), 2);
    let orchestration = library.get_template("orchestration_parallel").unwrap();
    assert!(orchestration.documentation.is_empty());
    assert_eq!(orchestration.metadata.author, Some("ABCDODAF System".to_string()));
}
