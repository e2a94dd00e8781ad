use claw10::domain::{AgentId, Budget, IdentityId, MemoryId, MissionId, RiskLevel, TaskId};
use claw10::json::JsonValue;
use claw10::memory::{Memory, MemorySource, MemoryStatus, MemoryType};
use claw10::mission::MissionService;
use claw10::policy::PolicyService;
use claw10::sidebar::{
    accordion_placeholder, artifact_row, costs_agents_line, memory_row, mission_row, policy_row, skill_row,
    spawn_request_row, task_row, worker_row,
};
use claw10::skill::{SkillCostProfile, SkillService};
use claw10::spawn::{SpawnBroker, SpawnRequestId};
use claw10::task::TaskService;
use claw10::tui::Tab;
use claw10::worker::{WorkerService, WorkerType};

fn budget() -> Budget {
    Budget { allocated_usd: 1, spent_usd: 0, soft_limit_usd: None, hard_limit_usd: None, recurring_monthly_usd: None }
}

#[test]
fn empty_tabs_show_a_note() {
    assert_eq!(accordion_placeholder(Tab::Session), Some("  Default session active"));
    assert_eq!(accordion_placeholder(Tab::Agents), Some("  No active agents."));
    assert_eq!(accordion_placeholder(Tab::Approvals), Some("  No tool approvals."));
    assert_eq!(accordion_placeholder(Tab::Costs), None);
    assert_eq!(accordion_placeholder(Tab::Incidents), Some("  No incidents."));
}

#[test]
fn rows_cut_and_label_their_items() {
    let mut req = SpawnBroker::create_request(MissionId(1), AgentId(2), "r".into(), vec![]);
    req.id = SpawnRequestId(0x1234_5678_9abc_def0_1122_3344_5566_7788);
    req.team.name = "research-team-alpha-team".into();
    let (name, state) = spawn_request_row(&req);
    assert_eq!(name, "  research-a (12345678)");
    assert_eq!(state, " Pending");

    let m = MissionService::create_mission(IdentityId(1), "an objective longer than twenty".into(), budget(), RiskLevel("low".into()));
    assert_eq!(mission_row(&m), "  an objective longer  [Active]");
    let t = TaskService::create_task(MissionId(1), AgentId(2), "short".into(), JsonValue::Null, JsonValue::Null, budget(), RiskLevel("low".into()));
    assert_eq!(task_row(&t), "  short [Created]");

    let mut workers = WorkerService::new();
    let mut w = workers.register("w1".into(), WorkerType::Local, vec![], "1".into());
    w.id.0 = 0xabcdef01_0000_0000_0000_000000000000;
    assert_eq!(worker_row(&w), "  abcdef01 Online");

    let mem = Memory {
        id: MemoryId(1),
        tenant_id: "t".into(),
        scope: "mission/alpha/very/deep/scope".into(),
        memory_type: MemoryType::Semantic,
        content: "c".into(),
        source: MemorySource { agent_id: AgentId(1), task_id: TaskId(1), evidence_id: None },
        confidence: 1,
        classification: "internal".into(),
        status: MemoryStatus::Candidate,
        verified_by: vec![],
        created_at: 0,
        updated_at: 0,
    };
    assert_eq!(memory_row(&mem), "  mission/alpha/very/d");

    let b = PolicyService::create_bundle("base".into(), "1".into(), vec![]);
    assert_eq!(policy_row(&b), "  base (0 rules)");

    let mut skills = SkillService::new();
    let s = skills
        .create_skill(
            "web-search".into(),
            "Search".into(),
            "1.0.0".into(),
            JsonValue::Object(vec![("q".to_string(), JsonValue::Str("string".to_string()))]),
            JsonValue::Object(vec![("r".to_string(), JsonValue::Str("array".to_string()))]),
            vec!["search".into()],
            vec!["http".into()],
            vec![],
            SkillCostProfile { estimated_cost_usd: 1, average_duration_ms: 1 },
        )
        .ok()
        .unwrap();
    assert_eq!(skill_row(&s), "  web-search [Candidate]");

    assert_eq!(artifact_row("report.md", 0xdeadbeef_0000_0000_0000_000000000001), "  report.md (deadbeef)");
    assert_eq!(costs_agents_line(3), "  Agents: 3");
}
