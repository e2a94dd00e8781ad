//! Tasks and their lifecycle state machine.
use vstd::prelude::*;
use crate::domain::{AgentId, Budget, EvidenceId, MissionId, RiskLevel, TaskId};
use crate::ids::{new_uuid_v7, now_millis};
use crate::json::JsonValue;
use TaskState::{
    Accepted, AwaitingApproval, Claimed, Closed, Created, Denied, Escalated, EvidenceSubmitted, Failed,
    PolicyCheck, Ready, Retrying, RevisionRequired, Running, Verifying, Waiting,
};

verus! {

/// Where a task stands in its lifecycle.
#[derive(Clone, Copy, Debug, PartialEq, Eq, Structural)]
pub enum TaskState {
    Created,
    Ready,
    Claimed,
    PolicyCheck,
    AwaitingApproval,
    Running,
    Waiting,
    EvidenceSubmitted,
    Verifying,
    RevisionRequired,
    Accepted,
    Denied,
    Failed,
    Retrying,
    Escalated,
    Closed,
}

impl TaskState {
    /// The variant's name, as `{:?}` prints it.
    pub fn name(&self) -> (s: &'static str)
        ensures
            s@ == task_state_name(*self),
    {
        match self {
            TaskState::Created => "Created",
            TaskState::Ready => "Ready",
            TaskState::Claimed => "Claimed",
            TaskState::PolicyCheck => "PolicyCheck",
            TaskState::AwaitingApproval => "AwaitingApproval",
            TaskState::Running => "Running",
            TaskState::Waiting => "Waiting",
            TaskState::EvidenceSubmitted => "EvidenceSubmitted",
            TaskState::Verifying => "Verifying",
            TaskState::RevisionRequired => "RevisionRequired",
            TaskState::Accepted => "Accepted",
            TaskState::Denied => "Denied",
            TaskState::Failed => "Failed",
            TaskState::Retrying => "Retrying",
            TaskState::Escalated => "Escalated",
            TaskState::Closed => "Closed",
        }
    }
}

pub open spec fn task_state_name(s: TaskState) -> Seq<char> {
    match s {
        TaskState::Created => "Created"@,
        TaskState::Ready => "Ready"@,
        TaskState::Claimed => "Claimed"@,
        TaskState::PolicyCheck => "PolicyCheck"@,
        TaskState::AwaitingApproval => "AwaitingApproval"@,
        TaskState::Running => "Running"@,
        TaskState::Waiting => "Waiting"@,
        TaskState::EvidenceSubmitted => "EvidenceSubmitted"@,
        TaskState::Verifying => "Verifying"@,
        TaskState::RevisionRequired => "RevisionRequired"@,
        TaskState::Accepted => "Accepted"@,
        TaskState::Denied => "Denied"@,
        TaskState::Failed => "Failed"@,
        TaskState::Retrying => "Retrying"@,
        TaskState::Escalated => "Escalated"@,
        TaskState::Closed => "Closed"@,
    }
}

/// How often and how slowly a task is retried.
#[derive(Clone, Copy, Debug, PartialEq, Eq, Structural)]
pub struct RetryPolicy {
    pub max_retries: u32,
    pub backoff_seconds: u64,
}

/// A unit of work inside a mission.
pub struct Task {
    pub id: TaskId,
    pub mission_id: MissionId,
    pub parent_task_id: Option<TaskId>,
    pub owner_id: AgentId,
    pub objective: String,
    pub dependencies: Vec<TaskId>,
    pub risk: RiskLevel,
    pub budget: Budget,
    /// Milliseconds since the epoch.
    pub deadline: Option<i64>,
    pub input: JsonValue,
    pub output_contract: JsonValue,
    pub evidence_contract: Vec<String>,
    pub retry_policy: RetryPolicy,
    pub idempotency_key: Option<String>,
    pub lifecycle_mode: String,
    pub state: TaskState,
    pub evidence: Vec<EvidenceId>,
    /// Milliseconds since the epoch.
    pub created_at: i64,
    /// Milliseconds since the epoch.
    pub updated_at: i64,
}

/// Why a task operation failed.
pub enum TaskError {
    NotFound(String),
    InvalidTransition { from: TaskState, to: TaskState },
}

impl TaskError {
    /// The message of the error, as its `Display` prints it.
    pub fn to_string(&self) -> (s: String)
        ensures
            s@ == match self {
                TaskError::NotFound(n) => "task not found: "@ + n@,
                TaskError::InvalidTransition { from, to } => "invalid state transition: from "@
                    + task_state_name(*from) + " to "@ + task_state_name(*to),
            },
    {
        match self {
            TaskError::NotFound(n) => {
                let mut s = String::from_str("task not found: ");
                s.append(n.as_str());
                s
            },
            TaskError::InvalidTransition { from, to } => {
                let mut s = String::from_str("invalid state transition: from ");
                s.append(from.name());
                s.append(" to ");
                s.append(to.name());
                s
            },
        }
    }
}

/// The moves the task lifecycle allows.
pub open spec fn task_transition_allowed(from: TaskState, to: TaskState) -> bool {
    match (from, to) {
        (Created, Ready) | (RevisionRequired, Ready) => true,
        (Ready, Claimed) => true,
        (Claimed, PolicyCheck) => true,
        (PolicyCheck, Denied) | (AwaitingApproval, Denied) => true,
        (PolicyCheck, AwaitingApproval) | (PolicyCheck, Running) => true,
        (AwaitingApproval, Running) | (Waiting, Running) | (Retrying, Running) => true,
        (Running, Waiting) | (Running, EvidenceSubmitted) | (Running, Failed) => true,
        (EvidenceSubmitted, Verifying) => true,
        (Verifying, RevisionRequired) | (Verifying, Accepted) => true,
        (Accepted, Closed) | (Escalated, Closed) => true,
        (Failed, Retrying) | (Failed, Escalated) => true,
        _ => false,
    }
}

/// Is the move allowed by the task lifecycle?
pub fn is_valid_transition(from: &TaskState, to: &TaskState) -> (r: bool)
    ensures
        r == task_transition_allowed(*from, *to),
{
    match (from, to) {
        (Created, Ready) | (RevisionRequired, Ready) => true,
        (Ready, Claimed) => true,
        (Claimed, PolicyCheck) => true,
        (PolicyCheck, Denied) | (AwaitingApproval, Denied) => true,
        (PolicyCheck, AwaitingApproval) | (PolicyCheck, Running) => true,
        (AwaitingApproval, Running) | (Waiting, Running) | (Retrying, Running) => true,
        (Running, Waiting) | (Running, EvidenceSubmitted) | (Running, Failed) => true,
        (EvidenceSubmitted, Verifying) => true,
        (Verifying, RevisionRequired) | (Verifying, Accepted) => true,
        (Accepted, Closed) | (Escalated, Closed) => true,
        (Failed, Retrying) | (Failed, Escalated) => true,
        _ => false,
    }
}

/// The task with only its state and its update time changed.
pub open spec fn task_moved(old: Task, new: Task, to: TaskState) -> bool {
    &&& new.state == to
    &&& new.id == old.id
    &&& new.mission_id == old.mission_id
    &&& new.parent_task_id == old.parent_task_id
    &&& new.owner_id == old.owner_id
    &&& new.objective == old.objective
    &&& new.dependencies == old.dependencies
    &&& new.risk == old.risk
    &&& new.budget == old.budget
    &&& new.deadline == old.deadline
    &&& new.input == old.input
    &&& new.output_contract == old.output_contract
    &&& new.evidence_contract == old.evidence_contract
    &&& new.retry_policy == old.retry_policy
    &&& new.idempotency_key == old.idempotency_key
    &&& new.lifecycle_mode == old.lifecycle_mode
    &&& new.evidence == old.evidence
    &&& new.created_at == old.created_at
}

/// Creation and lifecycle moves of tasks.
pub struct TaskService;

impl TaskService {
    /// A new task in state `Created`: no parent, no dependencies, no
    /// deadline, ephemeral, three retries thirty seconds apart.
    pub fn create_task(
        mission_id: MissionId,
        owner_id: AgentId,
        objective: String,
        input: JsonValue,
        output_contract: JsonValue,
        budget: Budget,
        risk: RiskLevel,
    ) -> (t: Task)
        ensures
            t.state == TaskState::Created,
            t.mission_id == mission_id,
            t.owner_id == owner_id,
            t.objective == objective,
            t.input == input,
            t.output_contract == output_contract,
            t.budget == budget,
            t.risk == risk,
            t.parent_task_id is None,
            t.dependencies@.len() == 0,
            t.deadline is None,
            t.evidence_contract@.len() == 0,
            t.retry_policy == (RetryPolicy { max_retries: 3, backoff_seconds: 30 }),
            t.idempotency_key is None,
            t.lifecycle_mode@ == "ephemeral"@,
            t.evidence@.len() == 0,
            t.created_at == t.updated_at,
    {
        let now = now_millis();
        Task {
            id: TaskId(new_uuid_v7()),
            mission_id,
            parent_task_id: None,
            owner_id,
            objective,
            dependencies: Vec::new(),
            risk,
            budget,
            deadline: None,
            input,
            output_contract,
            evidence_contract: Vec::new(),
            retry_policy: RetryPolicy { max_retries: 3, backoff_seconds: 30 },
            idempotency_key: None,
            lifecycle_mode: String::from_str("ephemeral"),
            state: TaskState::Created,
            evidence: Vec::new(),
            created_at: now,
            updated_at: now,
        }
    }

    /// Moves a task to `to` when the lifecycle allows it, stamping the
    /// update time; otherwise the task is left as it was.
    pub fn transition(task: &mut Task, to: TaskState) -> (r: Result<(), TaskError>)
        ensures
            task_transition_allowed(old(task).state, to) ==> r is Ok && task_moved(
                *old(task),
                *final(task),
                to,
            ),
            !task_transition_allowed(old(task).state, to) ==> r == Err::<(), TaskError>(
                TaskError::InvalidTransition { from: old(task).state, to },
            ) && *final(task) == *old(task),
    {
        let from = task.state;
        if !is_valid_transition(&from, &to) {
            return Err(TaskError::InvalidTransition { from, to });
        }
        task.state = to;
        task.updated_at = now_millis();
        Ok(())
    }
}

/// `Closed` and `Denied` end the lifecycle: no move leaves them.
pub proof fn law_task_terminal_states(to: TaskState)
    ensures
        !task_transition_allowed(TaskState::Closed, to),
        !task_transition_allowed(TaskState::Denied, to),
{
}

/// No move keeps a task where it is.
pub proof fn law_task_no_self_transition(s: TaskState)
    ensures
        !task_transition_allowed(s, s),
{
}

/// A task is only closed once accepted or escalated, and only accepted
/// after verification.
pub proof fn law_task_closing_paths(from: TaskState)
    ensures
        task_transition_allowed(from, TaskState::Closed) ==> from == TaskState::Accepted || from
            == TaskState::Escalated,
        task_transition_allowed(from, TaskState::Accepted) ==> from == TaskState::Verifying,
{
}

} // verus!
