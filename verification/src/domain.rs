//! Shared domain values: typed identifiers, money and budgets.
use vstd::prelude::*;

verus! {

/// Identifies an agent.
#[derive(Clone, Copy, Debug, PartialEq, Eq, Structural)]
pub struct AgentId(pub u128);

/// Identifies a task.
#[derive(Clone, Copy, Debug, PartialEq, Eq, Structural)]
pub struct TaskId(pub u128);

/// Identifies a mission.
#[derive(Clone, Copy, Debug, PartialEq, Eq, Structural)]
pub struct MissionId(pub u128);

/// Identifies an identity (a principal that owns missions).
#[derive(Clone, Copy, Debug, PartialEq, Eq, Structural)]
pub struct IdentityId(pub u128);

/// Identifies a memory entry.
#[derive(Clone, Copy, Debug, PartialEq, Eq, Structural)]
pub struct MemoryId(pub u128);

/// Identifies a piece of evidence.
#[derive(Clone, Copy, Debug, PartialEq, Eq, Structural)]
pub struct EvidenceId(pub u128);

/// Identifies a skill.
#[derive(Clone, Copy, Debug, PartialEq, Eq, Structural)]
pub struct SkillId(pub u128);

/// Identifies a worker.
#[derive(Clone, Copy, Debug, PartialEq, Eq, Structural)]
pub struct WorkerId(pub u128);

/// Identifies a lineage (the tree of agents spawned from one root).
#[derive(Clone, Copy, Debug, PartialEq, Eq, Structural)]
pub struct LineageId(pub u128);

/// A permission a skill or an agent holds or needs.
pub struct Permission(pub String);

/// An amount of money in millionths of a US dollar.
pub type MicroUsd = u64;

/// A risk label such as `low`, `medium` or `high`.
pub struct RiskLevel(pub String);

impl RiskLevel {
    pub fn duplicate(&self) -> (r: RiskLevel)
        ensures
            r.0@ == self.0@,
    {
        RiskLevel(self.0.clone())
    }
}

/// Money granted to a task, a mission or an agent.
#[derive(Clone, Copy, Debug, PartialEq, Eq, Structural)]
pub struct Budget {
    pub allocated_usd: MicroUsd,
    pub spent_usd: MicroUsd,
    pub soft_limit_usd: Option<MicroUsd>,
    pub hard_limit_usd: Option<MicroUsd>,
    pub recurring_monthly_usd: Option<MicroUsd>,
}

/// What is left of a budget: allocated minus spent, never below zero.
pub open spec fn budget_remaining(b: Budget) -> nat {
    if b.spent_usd >= b.allocated_usd {
        0
    } else {
        (b.allocated_usd - b.spent_usd) as nat
    }
}

impl Budget {
    /// What is left of the budget.
    pub fn remaining(&self) -> (r: MicroUsd)
        ensures
            r == budget_remaining(*self),
    {
        if self.spent_usd >= self.allocated_usd {
            0
        } else {
            self.allocated_usd - self.spent_usd
        }
    }
}

/// How long an agent or a mission lives.
#[derive(Clone, Copy, Debug, PartialEq, Eq, Structural)]
pub enum LifecycleMode {
    Ephemeral,
    Persistent,
}

impl LifecycleMode {
    /// The variant's name, as `{:?}` prints it.
    pub fn name(&self) -> (s: &'static str)
        ensures
            s@ == lifecycle_mode_name(*self),
    {
        match self {
            LifecycleMode::Ephemeral => "Ephemeral",
            LifecycleMode::Persistent => "Persistent",
        }
    }
}

pub open spec fn lifecycle_mode_name(m: LifecycleMode) -> Seq<char> {
    match m {
        LifecycleMode::Ephemeral => "Ephemeral"@,
        LifecycleMode::Persistent => "Persistent"@,
    }
}

} // verus!
