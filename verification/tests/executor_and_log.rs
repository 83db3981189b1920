use abcdodaf::dev_logger::{ActivityOutcome, ActivityType, DevLogger, ProcessFlow};
use abcdodaf::executor::daemon::ExecutorConfig;
use abcdodaf::executor::event_stream::{EventSubscription, EventType};

#[test]
fn test_default_config() {
    let config = ExecutorConfig::default();
    assert_eq!(config.api_bind, "127.0.0.1:8080");
    assert_eq!(config.health_check_interval_secs, 30);
    assert_eq!(config.event_buffer_size, 1000);
}

#[test]
fn config_takes_urls_from_the_environment_values() {
    let c = ExecutorConfig::from_environment(Some("postgresql://db/x".to_string()), None, Some("http://o".to_string()));
    assert_eq!(c.database_url, "postgresql://db/x");
    assert_eq!(c.qdrant_url, None);
    assert_eq!(c.ollama_url, Some("http://o".to_string()));
    let d = ExecutorConfig::from_environment(None, None, None);
    assert_eq!(d.database_url, "postgresql://localhost/abcdodaf");
}

#[test]
fn test_event_subscription_default() {
    let sub = EventSubscription::default();
    assert_eq!(sub.event_types.len(), 3);
    assert!(sub.workflow_filter.is_none());
    assert_eq!(sub.event_types[2], EventType::ConnectionHealth);
}

#[test]
fn logger_numbers_activities_and_flows() {
    let mut logger = DevLogger::new("log.json");
    assert_eq!(logger.next_activity_id(), "activity_1");
    assert_eq!(logger.next_activity_id(), "activity_2");
    let mut flows: Vec<ProcessFlow> = Vec::new();
    let id = logger.log_flow(&mut flows, "activity_1", "activity_2", None, Some("next".to_string()));
    assert_eq!(id, "flow_1");
    assert_eq!(flows.len(), 1);
    assert_eq!(flows[0].source_activity_id, "activity_1");
    assert_eq!(flows[0].name, Some("next".to_string()));
}

#[test]
fn log_statistics_count_outcomes_and_kinds() {
    let logger = DevLogger::new("log.json");
    let acts = vec![
        ActivityOutcome { activity_type: ActivityType::ServiceTask, success: Some(true) },
        ActivityOutcome { activity_type: ActivityType::ScriptTask, success: Some(false) },
        ActivityOutcome { activity_type: ActivityType::ServiceTask, success: None },
    ];
    let stats = logger.get_stats(&acts, 4);
    assert_eq!(stats.total_activities, 3);
    assert_eq!(stats.successful, 1);
    assert_eq!(stats.failed, 1);
    assert_eq!(stats.total_flows, 4);
    assert_eq!(
        stats.activity_types,
        vec![("ServiceTask".to_string(), 2), ("ScriptTask".to_string(), 1)]
    );
}

#[test]
fn compliance_gaps_list_missing_views_in_order() {
    let (missing, advice) = abcdodaf::executor::dodaf_tracker::compliance_gaps(&[true, false, true, false, true]);
    assert_eq!(missing, vec!["OV-3".to_string(), "CV-6".to_string()]);
    assert_eq!(
        advice,
        vec!["Define resource flows between activities".to_string(), "Map workflow to organizational capabilities".to_string()]
    );
    let (none, _) = abcdodaf::executor::dodaf_tracker::compliance_gaps(&[true; 5]);
    assert!(none.is_empty());
}

#[test]
fn test_activity_records_are_numbered_and_described() {
    let mut logger = DevLogger::new("dev_log.json");
    let tool = logger.record_tool_use("grep", true);
    assert_eq!(tool.id, "activity_1");
    assert_eq!(tool.name, "Execute grep");
    assert_eq!(tool.activity_type, ActivityType::ServiceTask);
    assert_eq!(tool.performer, "Tool::grep");
    assert_eq!(tool.description, "Execute grep tool");
    assert!(tool.success);
    assert_eq!(tool.error, None);
    assert_eq!(tool.entry_kind, "tool_use");
    assert_eq!(tool.entry_description, "Used tool: grep");

    let failed = logger.record_command("make", -2);
    assert_eq!(failed.id, "activity_2");
    assert_eq!(failed.activity_type, ActivityType::ScriptTask);
    assert_eq!(failed.performer, "System::Shell");
    assert_eq!(failed.description, "Execute shell command: make");
    assert!(!failed.success);
    assert_eq!(failed.error, Some("Command failed with exit code -2".to_string()));
    assert_eq!(failed.entry_description, "Executed: make");

    let ok = logger.record_command("ls", 0);
    assert!(ok.success);
    assert_eq!(ok.error, None);

    let response = logger.record_response();
    assert_eq!(response.id, "activity_4");
    assert_eq!(response.activity_type, ActivityType::SendTask);
    assert_eq!(response.name, "Generate AI Response");
    assert_eq!(response.entry_kind, "response");
    assert_eq!(logger.current_activity_id, 5);
    assert_eq!(logger.current_flow_id, 1);
}
