//! Agents, their lineage and the evidence they produce.
use vstd::prelude::*;
use crate::domain::{AgentId, Budget, EvidenceId, LifecycleMode, LineageId, MissionId, Permission, TaskId};

verus! {

/// Where an agent stands.
#[derive(Clone, Copy, Debug, PartialEq, Eq, Structural)]
pub enum AgentState {
    Ready,
    Active,
    Paused,
    Hibernating,
    Terminated,
}

pub open spec fn agent_state_name(s: AgentState) -> Seq<char> {
    match s {
        AgentState::Ready => "Ready"@,
        AgentState::Active => "Active"@,
        AgentState::Paused => "Paused"@,
        AgentState::Hibernating => "Hibernating"@,
        AgentState::Terminated => "Terminated"@,
    }
}

impl AgentState {
    /// The variant's name, as `{:?}` prints it.
    pub fn name(&self) -> (s: &'static str)
        ensures
            s@ == agent_state_name(*self),
    {
        match self {
            AgentState::Ready => "Ready",
            AgentState::Active => "Active",
            AgentState::Paused => "Paused",
            AgentState::Hibernating => "Hibernating",
            AgentState::Terminated => "Terminated",
        }
    }
}

/// How far an agent may act on its own.
#[derive(Clone, Copy, Debug, PartialEq, Eq, Structural)]
pub struct AutonomyConfig {
    pub can_spawn: bool,
    pub max_spawn_depth: u32,
    pub max_children: u32,
}

/// The heritable description of an agent.
pub struct AgentGenome {
    pub id: String,
    pub version: String,
    pub role: String,
    pub autonomy: AutonomyConfig,
}

/// A logical agent.
pub struct Agent {
    pub id: AgentId,
    pub mission_id: MissionId,
    pub parent_agent_id: Option<AgentId>,
    pub lineage_id: LineageId,
    pub name: String,
    pub role: String,
    pub genome: AgentGenome,
    pub state: AgentState,
    pub lifecycle_mode: LifecycleMode,
    pub budget: Budget,
    pub delegable_permissions: Vec<Permission>,
    pub turn_count: u64,
    /// Milliseconds since the epoch.
    pub created_at: i64,
    /// Milliseconds since the epoch.
    pub updated_at: i64,
}

/// One agent of a lineage.
pub struct LineageEntry {
    pub agent_id: AgentId,
    pub parent_agent_id: Option<AgentId>,
    pub state: String,
}

/// The tree of agents spawned from one root agent.
pub struct Lineage {
    pub id: LineageId,
    pub root_agent_id: AgentId,
    pub entries: Vec<LineageEntry>,
}

/// What kind of evidence a piece of evidence is.
#[derive(Clone, Copy, Debug, PartialEq, Eq, Structural)]
pub enum EvidenceType {
    Artifact,
    Log,
    TestResult,
    Citation,
}

pub open spec fn evidence_type_name(t: EvidenceType) -> Seq<char> {
    match t {
        EvidenceType::Artifact => "Artifact"@,
        EvidenceType::Log => "Log"@,
        EvidenceType::TestResult => "TestResult"@,
        EvidenceType::Citation => "Citation"@,
    }
}

impl EvidenceType {
    /// The variant's name, as `{:?}` prints it.
    pub fn name(&self) -> (s: &'static str)
        ensures
            s@ == evidence_type_name(*self),
    {
        match self {
            EvidenceType::Artifact => "Artifact",
            EvidenceType::Log => "Log",
            EvidenceType::TestResult => "TestResult",
            EvidenceType::Citation => "Citation",
        }
    }
}

/// Evidence submitted for a task.
pub struct Evidence {
    pub id: EvidenceId,
    pub task_id: TaskId,
    pub evidence_type: EvidenceType,
    pub accepted: bool,
}

} // verus!
