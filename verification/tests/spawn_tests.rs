use claw10::agent::{Agent, AgentGenome, AgentState, AutonomyConfig};
use claw10::domain::{AgentId, Budget, IdentityId, LifecycleMode, LineageId, MissionId, Permission, RiskLevel};
use claw10::mission::{Mission, MissionService};
use claw10::spawn::{
    child_permissions, ChildSpawnPolicy, ChildSpec, SpawnBroker, SpawnError, SpawnRequest, SpawnRequestId, SpawnState,
    SpawnValidator, SwarmLimitsConfig, SwarmTeamSpec, TerminationPolicy,
};

fn perms(names: &[&str]) -> Vec<Permission> {
    names.iter().map(|n| Permission(n.to_string())).collect()
}

fn budget(allocated: u64, spent: u64) -> Budget {
    Budget { allocated_usd: allocated, spent_usd: spent, soft_limit_usd: None, hard_limit_usd: None, recurring_monthly_usd: None }
}

fn parent() -> Agent {
    Agent {
        id: AgentId(1),
        mission_id: MissionId(10),
        parent_agent_id: None,
        lineage_id: LineageId(20),
        name: "root-agent".into(),
        role: "root".into(),
        genome: AgentGenome {
            id: "g".into(),
            version: "1".into(),
            role: "root".into(),
            autonomy: AutonomyConfig { can_spawn: true, max_spawn_depth: 3, max_children: 5 },
        },
        state: AgentState::Active,
        lifecycle_mode: LifecycleMode::Persistent,
        budget: budget(10_000_000, 2_000_000),
        delegable_permissions: perms(&["read", "write"]),
        turn_count: 0,
        created_at: 0,
        updated_at: 0,
    }
}

fn mission() -> Mission {
    MissionService::create_mission(IdentityId(3), "m".into(), budget(100_000_000, 0), RiskLevel("low".into()))
}

fn child(role: &str, objective: &str, budget_usd: u64, custom: Option<&[&str]>) -> ChildSpec {
    ChildSpec {
        role: role.into(),
        objective: objective.into(),
        budget_usd,
        model_profile: None,
        custom_permissions: custom.map(perms),
    }
}

fn request(children: Vec<ChildSpec>, policy: ChildSpawnPolicy) -> SpawnRequest {
    SpawnRequest {
        id: SpawnRequestId(99),
        mission_id: MissionId(10),
        task_id: None,
        requested_by: AgentId(1),
        reason: "help".into(),
        team: SwarmTeamSpec {
            name: "auto-team".into(),
            lifecycle_mode: LifecycleMode::Ephemeral,
            ttl_seconds: Some(7200),
            idle_timeout_seconds: Some(600),
        },
        children,
        child_spawn_policy: policy,
        termination: TerminationPolicy { on_task_complete: true, on_parent_terminated: true, on_budget_exhausted: true },
        state: SpawnState::Pending,
        created_at: 0,
        updated_at: 0,
    }
}

fn open_policy() -> ChildSpawnPolicy {
    ChildSpawnPolicy { allowed: true, max_depth: None, max_children: None }
}

fn limits() -> SwarmLimitsConfig {
    SwarmLimitsConfig { max_spawn_depth: 3, max_agents_per_mission: 4 }
}

fn err_text(r: Result<(), SpawnError>) -> String {
    match r {
        Ok(()) => "ok".to_string(),
        Err(e) => e.to_string(),
    }
}

#[test]
fn valid_request_passes() {
    let req = request(vec![child("coder", "write code", 3_000_000, Some(&["read"]))], open_policy());
    assert!(SpawnValidator::validate(&parent(), &mission(), &req, &vec![], 0, &limits()).is_ok());
}

#[test]
fn each_check_reports_its_error() {
    let m = mission();
    let ok_req = request(vec![child("coder", "write code", 1_000_000, None)], open_policy());

    let mut p = parent();
    p.state = AgentState::Paused;
    assert_eq!(err_text(SpawnValidator::validate(&p, &m, &ok_req, &vec![], 0, &limits())), "parent not active");

    let mut p = parent();
    p.genome.autonomy.can_spawn = false;
    assert_eq!(err_text(SpawnValidator::validate(&p, &m, &ok_req, &vec![], 0, &limits())), "parent cannot spawn");

    assert_eq!(
        err_text(SpawnValidator::validate(&parent(), &m, &ok_req, &vec![], 3, &limits())),
        "spawn depth exceeded: max 3, current 3"
    );

    let others = vec![parent(), parent(), parent(), parent()];
    let mut others = others;
    for (i, a) in others.iter_mut().enumerate() {
        a.role = format!("r{i}");
        a.name = format!("n{i}");
    }
    assert_eq!(err_text(SpawnValidator::validate(&parent(), &m, &ok_req, &others, 0, &limits())), "swarm size exceeded");

    let rich = request(vec![child("coder", "write code", 9_000_000, None)], open_policy());
    assert_eq!(
        err_text(SpawnValidator::validate(&parent(), &m, &rich, &vec![], 0, &limits())),
        "budget insufficient: remaining 8, required 9"
    );

    let greedy = request(vec![child("coder", "write code", 1, Some(&["read", "admin"]))], open_policy());
    assert_eq!(
        err_text(SpawnValidator::validate(&parent(), &m, &greedy, &vec![], 0, &limits())),
        "permission not delegable: admin"
    );

    let mut m2 = mission();
    MissionService::pause_mission(&mut m2).ok().unwrap();
    assert_eq!(
        err_text(SpawnValidator::validate(&parent(), &m2, &ok_req, &vec![], 0, &limits())),
        "validation failed: mission is not active"
    );
}

#[test]
fn duplicate_objectives_are_refused() {
    let mut existing = parent();
    existing.role = "researcher".into();
    existing.name = "Agent for WRITE CODE tasks".into();
    let req = request(vec![child("coder", "Write Code", 1, None)], open_policy());
    assert_eq!(
        err_text(SpawnValidator::validate(&parent(), &mission(), &req, &vec![existing], 0, &limits())),
        "duplicate objective: Write Code"
    );
    let mut same_role = parent();
    same_role.role = "coder".into();
    same_role.name = "x".into();
    let req = request(vec![child("coder", "other", 1, None)], open_policy());
    assert!(SpawnValidator::validate(&parent(), &mission(), &req, &vec![same_role], 0, &limits()).is_err());
}

#[test]
fn child_spawn_policy_is_enforced() {
    let closed = ChildSpawnPolicy { allowed: false, max_depth: None, max_children: None };
    let mut p = parent();
    p.delegable_permissions = perms(&["read", "spawn"]);
    let req = request(vec![child("lead", "lead team", 1, Some(&["spawn"]))], closed);
    assert_eq!(
        err_text(SpawnValidator::validate(&p, &mission(), &req, &vec![], 0, &limits())),
        "child spawn denied: child role 'lead' requests spawn permission but child_spawn_policy disallows it"
    );

    let few = ChildSpawnPolicy { allowed: true, max_depth: None, max_children: Some(1) };
    let req = request(vec![child("a", "x", 1, None), child("b", "y", 1, None)], few);
    assert_eq!(
        err_text(SpawnValidator::validate(&parent(), &mission(), &req, &vec![], 0, &limits())),
        "max children exceeded: max 1, requested 2"
    );

    let shallow = ChildSpawnPolicy { allowed: true, max_depth: Some(1), max_children: None };
    let req = request(vec![child("a", "x", 1, None)], shallow);
    assert_eq!(
        err_text(SpawnValidator::validate(&parent(), &mission(), &req, &vec![], 1, &limits())),
        "child spawn depth exceeded: max 1, current 2"
    );
}

#[test]
fn child_permissions_are_filtered() {
    let granted = child_permissions(&perms(&["read", "write"]), &perms(&["write", "admin", "read"]));
    let names: Vec<String> = granted.into_iter().map(|p| p.0).collect();
    assert_eq!(names, vec!["write", "read"]);

    let req = request(
        vec![child("a", "x", 1, Some(&["read", "admin"])), child("b", "y", 1, None)],
        open_policy(),
    );
    let all = SpawnValidator::calculate_child_permissions(&parent(), &req);
    let names: Vec<Vec<String>> = all.into_iter().map(|v| v.into_iter().map(|p| p.0).collect()).collect();
    assert_eq!(names, vec![vec!["read".to_string()], vec!["read".to_string(), "write".to_string()]]);
}

#[test]
fn total_cost_is_the_sum() {
    let req = request(vec![child("a", "x", 1_500_000, None), child("b", "y", 250_000, None)], open_policy());
    assert_eq!(SpawnValidator::calculate_total_cost(&req), 1_750_000);
    let big = request(vec![child("a", "x", u64::MAX, None), child("b", "y", u64::MAX, None)], open_policy());
    assert_eq!(SpawnValidator::calculate_total_cost(&big), 2 * (u64::MAX as u128));
}

#[test]
fn spawn_error_messages() {
    assert_eq!(
        SpawnError::BudgetInsufficient { remaining: 1_500_000, required: 2_000_000 }.to_string(),
        "budget insufficient: remaining 1.5, required 2"
    );
    assert_eq!(SpawnError::Other("x".into()).to_string(), "spawn error: x");
}

#[test]
fn broker_creates_pending_auto_team_requests() {
    let r = SpawnBroker::create_request(
        MissionId(7),
        AgentId(9),
        "need help".into(),
        vec![child("coder", "write code", 1_000_000, None)],
    );
    assert_ne!(r.id, SpawnRequestId(0));
    assert_eq!(r.mission_id, MissionId(7));
    assert_eq!(r.requested_by, AgentId(9));
    assert!(r.task_id.is_none());
    assert_eq!(r.reason, "need help");
    assert_eq!(r.team.name, "auto-team");
    assert_eq!(r.team.lifecycle_mode, LifecycleMode::Ephemeral);
    assert_eq!(r.team.ttl_seconds, Some(7200));
    assert_eq!(r.team.idle_timeout_seconds, Some(600));
    assert_eq!(r.children.len(), 1);
    assert_eq!(r.children[0].role, "coder");
    assert_eq!(r.child_spawn_policy, ChildSpawnPolicy { allowed: false, max_depth: None, max_children: None });
    assert_eq!(
        r.termination,
        TerminationPolicy { on_task_complete: true, on_parent_terminated: true, on_budget_exhausted: true }
    );
    assert_eq!(r.state, SpawnState::Pending);
    assert_eq!(r.created_at, r.updated_at);
}

#[test]
fn broker_plans_permissions_cost_and_depth() {
    let broker = SpawnBroker { limits: limits() };
    let req = request(
        vec![
            child("coder", "write code", 3_000_000, Some(&["read"])),
            child("tester", "run tests", 2_000_000, None),
        ],
        open_policy(),
    );
    let plan = broker.plan_spawn_request(&parent(), &mission(), &req, &vec![], 1).ok().unwrap();
    assert_eq!(plan.total_cost, 5_000_000);
    assert_eq!(plan.effective_depth, 2);
    let names = |ps: &Vec<Permission>| ps.iter().map(|p| p.0.clone()).collect::<Vec<String>>();
    assert_eq!(names(&plan.child_permissions[0]), vec!["read"]);
    assert_eq!(names(&plan.child_permissions[1]), vec!["read", "write"]);
    let too_deep = broker.plan_spawn_request(&parent(), &mission(), &req, &vec![], 3);
    assert!(matches!(too_deep, Err(SpawnError::DepthExceeded { max: 3, current: 3 })));
}

fn names(ps: &[Permission]) -> Vec<String> {
    ps.iter().map(|p| p.0.clone()).collect()
}

#[test]
fn planned_children_are_made_from_the_parent() {
    let broker = SpawnBroker { limits: SwarmLimitsConfig { max_spawn_depth: 3, max_agents_per_mission: 10 } };
    let p = parent();
    let req = request(
        vec![child("coder", "write code", 1_000_003, None), child("tester", "test it", 500_000, Some(&["read"]))],
        open_policy(),
    );
    let plan = broker.plan_spawn_request(&p, &mission(), &req, &vec![], 0).ok().unwrap();
    let kids = broker.create_children(&p, &req, &plan.child_permissions, plan.effective_depth);
    assert_eq!(kids.len(), 2);
    let a = &kids[0];
    assert!(a.id.0 != 0);
    assert_eq!(a.mission_id, MissionId(10));
    assert_eq!(a.parent_agent_id, Some(AgentId(1)));
    assert_eq!(a.lineage_id, LineageId(20));
    assert_eq!(a.name, "root-agent-coder");
    assert_eq!(a.role, "coder");
    assert_eq!(a.genome.id, "g-coder");
    assert_eq!(a.genome.version, "1");
    assert_eq!(a.genome.autonomy, AutonomyConfig { can_spawn: false, max_spawn_depth: 0, max_children: 0 });
    assert_eq!(a.state, AgentState::Ready);
    assert_eq!(a.lifecycle_mode, LifecycleMode::Ephemeral);
    assert_eq!(
        a.budget,
        Budget {
            allocated_usd: 1_000_003,
            spent_usd: 0,
            soft_limit_usd: Some(800_002),
            hard_limit_usd: Some(1_000_003),
            recurring_monthly_usd: None
        }
    );
    assert_eq!(names(&a.delegable_permissions), vec!["read", "write"]);
    assert_eq!(a.created_at, a.updated_at);
    assert_eq!(names(&kids[1].delegable_permissions), vec!["read"]);
    assert_eq!(kids[1].budget.soft_limit_usd, Some(400_000));
    assert!(kids[0].id != kids[1].id);

    let short = broker.create_children(&p, &req, &vec![], 1);
    assert!(short[0].delegable_permissions.is_empty());
    assert_eq!(short[1].name, "root-agent-tester");
}
