use claw10::domain::{AgentId, Budget, IdentityId, MissionId, RiskLevel};
use claw10::json::JsonValue;
use claw10::mission::{Mission, MissionError, MissionService, MissionState};
use claw10::task::{is_valid_transition, Task, TaskError, TaskService, TaskState};

fn budget(allocated: u64) -> Budget {
    Budget { allocated_usd: allocated, spent_usd: 0, soft_limit_usd: None, hard_limit_usd: None, recurring_monthly_usd: None }
}

fn make_mission() -> Mission {
    MissionService::create_mission(IdentityId(7), "test mission".into(), budget(100_000_000), RiskLevel("low".into()))
}

fn make_task() -> Task {
    TaskService::create_task(
        MissionId(1),
        AgentId(2),
        "test objective".into(),
        JsonValue::Null,
        JsonValue::Null,
        budget(10_000_000),
        RiskLevel("low".into()),
    )
}

#[test]
fn mission_pause_and_complete() {
    let mut mission = make_mission();
    assert_eq!(mission.state, MissionState::Active);
    MissionService::pause_mission(&mut mission).ok().unwrap();
    assert_eq!(mission.state, MissionState::Paused);
    MissionService::complete_mission(&mut mission).ok().unwrap();
    assert_eq!(mission.state, MissionState::Completed);
}

#[test]
fn mission_cannot_pause_completed() {
    let mut mission = make_mission();
    MissionService::complete_mission(&mut mission).ok().unwrap();
    let err = MissionService::pause_mission(&mut mission).err().unwrap();
    assert!(matches!(err, MissionError::InvalidState(_)));
}

#[test]
fn mission_cancel_from_any_state() {
    let mut mission = make_mission();
    MissionService::pause_mission(&mut mission).ok().unwrap();
    MissionService::cancel_mission(&mut mission).ok().unwrap();
    assert_eq!(mission.state, MissionState::Cancelled);
}

#[test]
fn task_created_to_ready_is_valid() {
    let mut task = make_task();
    assert_eq!(task.state, TaskState::Created);
    TaskService::transition(&mut task, TaskState::Ready).ok().unwrap();
    assert_eq!(task.state, TaskState::Ready);
}

#[test]
fn task_created_to_running_is_invalid() {
    let mut task = make_task();
    let err = TaskService::transition(&mut task, TaskState::Running).err().unwrap();
    assert!(matches!(err, TaskError::InvalidTransition { .. }));
    assert_eq!(task.state, TaskState::Created);
}

#[test]
fn task_full_lifecycle_to_closed() {
    let mut task = make_task();
    for s in [
        TaskState::Ready,
        TaskState::Claimed,
        TaskState::PolicyCheck,
        TaskState::Running,
        TaskState::EvidenceSubmitted,
        TaskState::Verifying,
        TaskState::Accepted,
        TaskState::Closed,
    ] {
        TaskService::transition(&mut task, s).ok().unwrap();
    }
    assert_eq!(task.state, TaskState::Closed);
}

#[test]
fn closed_tasks_go_nowhere() {
    assert!(!is_valid_transition(&TaskState::Closed, &TaskState::Ready));
    assert!(!is_valid_transition(&TaskState::Closed, &TaskState::Closed));
    assert!(is_valid_transition(&TaskState::Failed, &TaskState::Retrying));
}
