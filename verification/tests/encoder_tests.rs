use claw10::agent::{Evidence, EvidenceType, Lineage, LineageEntry};
use claw10::domain::{AgentId, Budget, EvidenceId, IdentityId, LineageId, MemoryId, RiskLevel, TaskId};
use claw10::memory::rejection_reason_for;
use claw10::mission::MissionService;
use claw10::policy::{PolicyEffect, PolicyRule, PolicyService, PolicySubject};
use claw10::telemetry::TelemetryEvent;
use claw10::toon::ToonEncoder;
use claw10::worker::{WorkerService, WorkerType};

fn uuid(x: u128) -> String {
    uuid::Uuid::from_u128(x).hyphenated().to_string()
}

fn rule(id: u128, action: &str, resource: &str, effect: PolicyEffect) -> PolicyRule {
    PolicyRule {
        id,
        subject: PolicySubject::Role("*".to_string()),
        action: action.to_string(),
        resource: resource.to_string(),
        condition: None,
        effect,
        priority: 0,
    }
}

#[test]
fn missions_encode_id_objective_and_mode() {
    let budget = Budget { allocated_usd: 1, spent_usd: 0, soft_limit_usd: None, hard_limit_usd: None, recurring_monthly_usd: None };
    let m = MissionService::create_mission(IdentityId(1), "ship \"it\"".into(), budget, RiskLevel("low".into()));
    assert_eq!(
        ToonEncoder::encode_mission(&m),
        format!("id: MissionId({})\nobjective: \"ship \\\"it\\\"\"\nmode: Ephemeral", uuid(m.id.0))
    );
}

#[test]
fn lineage_lists_each_entry_with_its_parent() {
    let lineage = Lineage {
        id: LineageId(9),
        root_agent_id: AgentId(1),
        entries: vec![
            LineageEntry { agent_id: AgentId(1), parent_agent_id: None, state: "Active".into() },
            LineageEntry { agent_id: AgentId(2), parent_agent_id: Some(AgentId(1)), state: "Ready".into() },
        ],
    };
    assert_eq!(
        ToonEncoder::encode_lineage(&lineage),
        format!(
            "root: AgentId({a})\nentries: 2 total\n  - AgentId({a}) (parent: none, state: Active)\n  - AgentId({b}) (parent: AgentId({a}), state: Ready)",
            a = uuid(1),
            b = uuid(2)
        )
    );
}

#[test]
fn evidence_lines_show_type_and_acceptance() {
    let ev = vec![
        Evidence { id: EvidenceId(5), task_id: TaskId(1), evidence_type: EvidenceType::TestResult, accepted: true },
        Evidence { id: EvidenceId(6), task_id: TaskId(1), evidence_type: EvidenceType::Log, accepted: false },
    ];
    assert_eq!(
        ToonEncoder::encode_evidence(&ev),
        format!(
            "- EvidenceId({}) (TestResult, accepted: true)\n- EvidenceId({}) (Log, accepted: false)",
            uuid(5),
            uuid(6)
        )
    );
    assert_eq!(ToonEncoder::encode_evidence(&[]), "");
}

#[test]
fn policy_summary_lists_active_bundles_only() {
    let mut active = PolicyService::create_bundle(
        "a".into(),
        "1".into(),
        vec![rule(1, "read", "docs/*", PolicyEffect::Allow), rule(2, "write", "*", PolicyEffect::ExplicitDeny)],
    );
    PolicyService::activate(&mut active);
    let id = active.id;
    let inactive = PolicyService::create_bundle("b".into(), "1".into(), vec![rule(3, "x", "y", PolicyEffect::Allow)]);
    assert_eq!(
        ToonEncoder::encode_policy_summary(&[active, inactive]),
        format!("- PolicyBundleId({}) (2 rules)\n  ALLOW read on docs/*\n  DENY write on *", uuid(id))
    );
}

#[test]
fn deactivated_bundles_leave_the_summary() {
    let mut b = PolicyService::create_bundle("a".into(), "1".into(), vec![rule(1, "r", "s", PolicyEffect::Allow)]);
    PolicyService::activate(&mut b);
    assert!(ToonEncoder::encode_policy_summary(std::slice::from_ref(&b)).starts_with("- PolicyBundleId("));
    PolicyService::deactivate(&mut b);
    assert!(!b.is_active);
    assert_eq!(ToonEncoder::encode_policy_summary(&[b]), "");
}

#[test]
fn workers_are_listed_with_type_and_state() {
    let mut svc = WorkerService::new();
    let a = svc.register("alpha".into(), WorkerType::Local, vec![], "1".into());
    let b = svc.register("beta".into(), WorkerType::Remote, vec![], "1".into());
    assert_eq!(
        ToonEncoder::encode_workers(&[a, b]),
        "- alpha (type: Local, state: Online)\n- beta (type: Remote, state: Online)"
    );
    let stale = svc.detect_stale(3_600).ok().unwrap();
    assert_eq!(stale.len(), 2);
}

#[test]
fn rejection_reasons_name_the_memory() {
    assert_eq!(
        rejection_reason_for(&MemoryId(10), "confidence too low"),
        format!("memory {} ditolak: confidence too low", uuid(10))
    );
}

#[test]
fn event_builders_set_one_field_each() {
    let e = TelemetryEvent::new("task.done", "ok")
        .with_task_id("t".into())
        .with_parent_agent_id("p".into())
        .with_lineage_id("l".into())
        .with_worker_id("w".into())
        .with_trace_id("tr".into())
        .with_lifecycle_mode("ephemeral".into())
        .with_risk_level("high".into())
        .with_cost(50_000);
    assert_eq!(e.task_id.as_deref(), Some("t"));
    assert_eq!(e.parent_agent_id.as_deref(), Some("p"));
    assert_eq!(e.lineage_id.as_deref(), Some("l"));
    assert_eq!(e.worker_id.as_deref(), Some("w"));
    assert_eq!(e.trace_id.as_deref(), Some("tr"));
    assert_eq!(e.lifecycle_mode.as_deref(), Some("ephemeral"));
    assert_eq!(e.risk_level.as_deref(), Some("high"));
    assert_eq!(e.cost_usd, 50_000);
    assert!(e.tenant_id.is_none() && e.mission_id.is_none() && e.agent_id.is_none());
    assert_eq!(e.event_type, "task.done");
}
