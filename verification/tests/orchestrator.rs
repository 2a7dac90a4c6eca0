use std::collections::HashMap;

use iou_modern::orchestrator::context::add_hours;
use iou_modern::orchestrator::{
    AgentResult, AgentType, ApprovalRequest, AuditAction, AuditEntry, CompatibilityError,
    DocumentCategory, DocumentRequest, DocumentType, ErrorSeverity, RequestPriority, StateError,
    VersionCompatibility, VersionRegistry, WorkflowContext, WorkflowVersion,
};

fn request(document_type: DocumentType) -> DocumentRequest {
    DocumentRequest {
        id: uuid::Uuid::new_v4(),
        domain_id: "test_domain".to_string(),
        document_type,
        context: HashMap::new(),
        requested_by: uuid::Uuid::new_v4(),
        requested_at: chrono::Utc::now().timestamp_nanos_opt().unwrap() as i128,
        priority: RequestPriority::Normal,
    }
}

fn json_object() -> serde_json::Value {
    serde_json::Value::Object(serde_json::Map::new())
}

#[test]
fn test_library_imports() {
    let _order = AgentType::execution_order();
    let _compat = VersionCompatibility::Identical;
    let _severity = ErrorSeverity::Transient;
    let _state_error = StateError::InvalidState("created".to_string());
    let _compat_error = CompatibilityError::UnsupportedVersion("0.1".to_string());
    let registry = VersionRegistry::default();
    assert_eq!(registry.current().version, "1.0.0");
}

#[test]
fn test_agent_execution_order() {
    let order = AgentType::execution_order();
    assert_eq!(order[0], AgentType::Research);
    assert_eq!(order[1], AgentType::Content);
    assert_eq!(order[2], AgentType::Compliance);
    assert_eq!(order[3], AgentType::Review);
}

#[test]
fn test_document_type_requires_review() {
    assert!(DocumentType::WooBesluit.requires_mandatory_review());
    assert!(!DocumentType::InterneMemo.requires_mandatory_review());
}

#[test]
fn test_workflow_context_creation() {
    let context = WorkflowContext::new(
        uuid::Uuid::new_v4(),
        request(DocumentType::WooBesluit),
        "1.0.0".to_string(),
    );

    assert!(context.completed_agents.iter().all(|c| !c));
    assert!(context.can_proceed());
    assert!(context.next_agent() == Some(AgentType::Research));
}

#[test]
fn test_agent_result_success() {
    let mut findings = serde_json::Map::new();
    findings.insert("findings".to_string(), serde_json::Value::from(42));
    let result = AgentResult::success(AgentType::Research, serde_json::Value::Object(findings), 1000);
    assert!(result.success);
    assert_eq!(result.agent, AgentType::Research);
    assert_eq!(result.data["findings"], serde_json::Value::from(42));
}

#[test]
fn test_approval_request_expiration() {
    let result = AgentResult::success(AgentType::Content, json_object(), 100);
    let mut request = ApprovalRequest::new(uuid::Uuid::new_v4(), AgentType::Content, result, 1);
    // One hour ago.
    request.expires_at = chrono::Utc::now().timestamp_nanos_opt().unwrap() as i128 - 3_600_000_000_000;
    assert!(request.is_expired());
}

#[test]
fn test_workflow_context_agent_completion() {
    let mut context = WorkflowContext::new(
        uuid::Uuid::new_v4(),
        request(DocumentType::InterneMemo),
        "1.0.0".to_string(),
    );

    assert_eq!(context.next_agent(), Some(AgentType::Research));

    let result = AgentResult::success(AgentType::Research, json_object(), 100);
    context.record_agent_result(result);

    assert_eq!(context.next_agent(), Some(AgentType::Content));
    assert!(context.is_agent_complete(AgentType::Research));
}

#[test]
fn next_agent_walks_the_execution_order() {
    let mut context =
        WorkflowContext::new(uuid::Uuid::new_v4(), request(DocumentType::Beleidsnotitie), "1.0.0".to_string());
    for agent in AgentType::execution_order() {
        assert_eq!(context.next_agent(), Some(*agent));
        context.record_agent_result(AgentResult::success(*agent, json_object(), 1));
        assert!(context.is_agent_complete(*agent));
    }
    assert_eq!(context.next_agent(), None);
}

#[test]
fn failures_count_retries_and_stop_proceeding() {
    let mut context =
        WorkflowContext::new(uuid::Uuid::new_v4(), request(DocumentType::Ambtsbericht), "1.0.0".to_string());
    assert_eq!(context.get_retry_count(&AgentType::Content), 0);
    context.record_agent_failure(AgentType::Content);
    context.record_agent_failure(AgentType::Content);
    assert_eq!(context.get_retry_count(&AgentType::Content), 2);
    assert!(context.can_retry_any());
    assert!(context.can_proceed());
    context.record_agent_failure(AgentType::Content);
    assert_eq!(context.get_retry_count(&AgentType::Content), 3);
    assert!(!context.can_retry_any());
}

#[test]
fn failed_result_carries_error_object() {
    let result = AgentResult::failure(AgentType::Review, "timeout".to_string());
    assert!(!result.success);
    assert_eq!(result.execution_time_ms, 0);
    assert_eq!(result.data["error"], serde_json::Value::String("timeout".to_string()));
}

#[test]
fn approval_deadline_and_timeout() {
    let mut context =
        WorkflowContext::new(uuid::Uuid::new_v4(), request(DocumentType::Persbericht), "1.0.0".to_string());
    assert!(!context.is_approval_timeout());
    let activity = context.last_activity;
    context.set_approval_deadline_at(1_000, 2);
    assert_eq!(context.approval_deadline, Some(1_000 + 2 * 3_600_000_000_000));
    assert_eq!(context.last_activity, activity);
    assert!(!context.is_approval_timeout_at(1_000 + 2 * 3_600_000_000_000));
    assert!(context.is_approval_timeout_at(1_000 + 2 * 3_600_000_000_000 + 1));
    assert!(context.is_approval_timeout());
}

#[test]
fn add_hours_saturates() {
    assert_eq!(add_hours(0, 1), 3_600_000_000_000);
    assert_eq!(add_hours(i128::MAX - 10, 1), i128::MAX);
    assert_eq!(add_hours(-3_600_000_000_000, 1), 0);
}

#[test]
fn approval_request_expires_timeout_hours_after_creation() {
    let result = AgentResult::success(AgentType::Compliance, json_object(), 5);
    let request = ApprovalRequest::new(uuid::Uuid::new_v4(), AgentType::Compliance, result, 24);
    assert_eq!(request.expires_at, request.created_at + 24 * 3_600_000_000_000);
    assert!(!request.escalated);
    assert!(request.approver.is_none());
    assert!(!request.is_expired_at(request.expires_at));
    assert!(request.is_expired_at(request.expires_at + 1));
    assert!(!request.is_expired());
}

#[test]
fn clock_keeps_sub_millisecond_precision() {
    let result = AgentResult::success(AgentType::Research, json_object(), 1);
    let mut request = ApprovalRequest::new(uuid::Uuid::new_v4(), AgentType::Research, result, 0);
    // A request expiring at its creation has expired one nanosecond later.
    request.expires_at = request.created_at;
    assert!(request.is_expired_at(request.created_at + 1));
    assert!(!request.is_expired_at(request.created_at));
}

#[test]
fn audit_entries_are_appended() {
    let mut context =
        WorkflowContext::new(uuid::Uuid::new_v4(), request(DocumentType::Raadsvoorstel), "1.0.0".to_string());
    let entry = AuditEntry {
        id: uuid::Uuid::new_v4(),
        workflow_id: context.id,
        timestamp: 0,
        action: AuditAction::WorkflowCreated,
        actor: None,
        details: serde_json::Value::Null,
    };
    context.add_audit_entry(entry);
    assert_eq!(context.audit_log.len(), 1);
    assert_eq!(context.audit_log[0].action, AuditAction::WorkflowCreated);
}

#[test]
fn agent_display_names_and_categories() {
    assert_eq!(AgentType::Research.display_name(), "Onderzoeksagent");
    assert_eq!(AgentType::Review.display_name(), "Reviewagent");
    assert!(!AgentType::Research.can_run_parallel_with(&AgentType::Content));
    assert_eq!(DocumentType::WooBesluit.category(), DocumentCategory::Woo);
    assert_eq!(DocumentType::Persbericht.category(), DocumentCategory::Communicatie);
    assert_eq!(DocumentType::Custom("x".to_string()).category(), DocumentCategory::Overig);
    assert!(!DocumentType::Custom("x".to_string()).requires_mandatory_review());
    assert_eq!(RequestPriority::default(), RequestPriority::Normal);
}

#[test]
fn test_workflow_version_creation() {
    let version = WorkflowVersion::v1("abc123".to_string());
    assert_eq!(version.version, "1.0.0");
    assert_eq!(version.definition_hash, "abc123");
    assert!(!version.is_deprecated());
}

#[test]
fn test_workflow_version_deprecation() {
    let mut version = WorkflowVersion::v1("abc123".to_string());
    assert!(!version.is_deprecated());
    version.deprecate();
    assert!(version.is_deprecated());
}

#[test]
fn test_version_registry_default() {
    let registry = VersionRegistry::default();
    assert_eq!(registry.current().version, "1.0.0");
}

#[test]
fn test_version_check_identical() {
    let registry = VersionRegistry::default();
    let compat = registry.check_compatibility("1.0.0", "1.0.0");
    assert_eq!(compat, VersionCompatibility::Identical);
}

#[test]
fn test_version_check_compatible() {
    let mut registry = VersionRegistry::default();
    registry.register(WorkflowVersion::new("1.1.0".to_string(), "hash2".to_string()));

    let compat = registry.check_compatibility("1.0.0", "1.1.0");
    assert_eq!(compat, VersionCompatibility::Compatible);
}

#[test]
fn test_version_check_incompatible() {
    let mut registry = VersionRegistry::default();
    registry.register(WorkflowVersion::new("2.0.0".to_string(), "hash2".to_string()));

    let compat = registry.check_compatibility("1.0.0", "2.0.0");
    assert!(matches!(compat, VersionCompatibility::Incompatible { .. }));
}

#[test]
fn test_migration_path() {
    let mut version = WorkflowVersion::new("2.0.0".to_string(), "hash2".to_string());
    version = version.with_migration("1.0.0".to_string(), "migrate_v1_to_v2".to_string());

    assert_eq!(version.get_migration("1.0.0"), Some(&"migrate_v1_to_v2".to_string()));
    assert_eq!(version.get_migration("0.9.0"), None);
}

#[test]
fn test_extract_major_version() {
    assert_eq!(VersionRegistry::extract_major("1.0.0"), Some(1));
    assert_eq!(VersionRegistry::extract_major("2.3.4"), Some(2));
    assert_eq!(VersionRegistry::extract_major("invalid"), None);
}

#[test]
fn test_registry_migration_compatible() {
    let mut registry = VersionRegistry::default();
    registry.register(WorkflowVersion::new("1.1.0".to_string(), "hash2".to_string()));

    let result = registry.migrate_checkpoint("{}", "1.0.0", "1.1.0");
    assert!(result.is_ok());
}

#[test]
fn test_registry_migration_incompatible() {
    let mut registry = VersionRegistry::default();
    registry.register(WorkflowVersion::new("2.0.0".to_string(), "hash2".to_string()));

    let result = registry.migrate_checkpoint("{}", "1.0.0", "2.0.0");
    assert!(result.is_err());
}

#[test]
fn migration_required_when_target_knows_source() {
    let mut registry = VersionRegistry::default();
    registry.register(
        WorkflowVersion::new("2.0.0".to_string(), "h".to_string())
            .with_migration("1.0.0".to_string(), "up".to_string()),
    );
    assert_eq!(
        registry.check_compatibility("1.0.0", "2.0.0"),
        VersionCompatibility::MigrationRequired { from: "1.0.0".to_string(), to: "2.0.0".to_string() }
    );
    assert_eq!(registry.migrate_checkpoint("{\"a\":1}", "1.0.0", "2.0.0"), Ok("{\"a\":1}".to_string()));
    assert!(matches!(registry.check_compatibility("2.0.0", "1.0.0"), VersionCompatibility::Incompatible { .. }));
}

#[test]
fn unregistered_versions_are_incompatible_with_message() {
    let registry = VersionRegistry::default();
    assert_eq!(
        registry.check_compatibility("1.0.0", "1.5.0"),
        VersionCompatibility::Incompatible { from: "1.0.0".to_string(), to: "1.5.0".to_string() }
    );
    assert_eq!(
        registry.migrate_checkpoint("{}", "0.9.0", "1.0.0"),
        Err("Cannot migrate from 0.9.0 to 1.0.0".to_string())
    );
}

#[test]
fn register_replaces_and_set_current_switches() {
    let mut registry = VersionRegistry::new("1.0.0".to_string());
    assert!(registry.get("1.0.0").is_none());
    registry.register(WorkflowVersion::new("1.0.0".to_string(), "a".to_string()));
    registry.register(WorkflowVersion::new("1.0.0".to_string(), "b".to_string()));
    assert_eq!(registry.get("1.0.0").unwrap().definition_hash, "b");
    registry.register(WorkflowVersion::new("3.1".to_string(), "c".to_string()));
    registry.set_current("3.1".to_string());
    assert_eq!(registry.current().definition_hash, "c");
    assert_eq!(registry.current().version, "3.1");
    assert_eq!(registry.get("1.0.0").unwrap().version, "1.0.0");
}

#[test]
fn extract_major_edge_cases() {
    assert_eq!(VersionRegistry::extract_major("10"), Some(10));
    assert_eq!(VersionRegistry::extract_major("+3.0"), Some(3));
    assert_eq!(VersionRegistry::extract_major(".1"), None);
    assert_eq!(VersionRegistry::extract_major("4294967296.0"), None);
    assert_eq!(VersionRegistry::extract_major(""), None);
}
