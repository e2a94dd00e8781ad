use claw10::telemetry::{TelemetryError, TelemetryEvent, TelemetryService};

#[test]
fn test_telemetry_event_builder() {
    let event = TelemetryEvent::new("agent.spawned", "success")
        .with_tenant_id("tenant-1".into())
        .with_agent_id("agent-1".into())
        .with_mission_id("mission-1".into())
        .with_cost(50_000);
    assert_eq!(event.event_type, "agent.spawned");
    assert_eq!(event.tenant_id.as_deref(), Some("tenant-1"));
    assert_eq!(event.agent_id.as_deref(), Some("agent-1"));
    // 50_000 millionths of a dollar is 0.05.
    assert_eq!(event.cost_usd, 50_000);
}

#[test]
fn test_additional_fields() {
    let event = TelemetryEvent::new("test", "ok").with_additional("reason".into(), "policy_denied".into());
    assert_eq!(event.additional_value("reason").unwrap(), "policy_denied");
}

#[test]
fn additional_field_is_replaced_in_place() {
    let event = TelemetryEvent::new("test", "ok")
        .with_additional("a".into(), "1".into())
        .with_additional("b".into(), "2".into())
        .with_additional("a".into(), "3".into());
    assert_eq!(event.additional.len(), 2);
    assert_eq!(event.additional[0], ("a".to_string(), "3".to_string()));
    assert_eq!(event.additional_value("b").unwrap(), "2");
    assert!(event.additional_value("c").is_none());
}

#[test]
fn test_default_enabled() {
    let svc = TelemetryService::default();
    assert!(svc.enabled);
}

#[test]
fn service_switch() {
    assert!(!TelemetryService::new(false).enabled);
    assert!(TelemetryService::new(true).enabled);
}

#[test]
fn telemetry_error_message() {
    assert_eq!(TelemetryError::EmissionFailed("x".into()).to_string(), "Telemetry emission failed: x");
}
