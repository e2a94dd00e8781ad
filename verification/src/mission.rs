//! Missions and their lifecycle.
use vstd::prelude::*;
use crate::domain::{Budget, IdentityId, LifecycleMode, MissionId, RiskLevel};
use crate::ids::{new_uuid_v7, now_millis};

verus! {

/// Where a mission stands.
#[derive(Clone, Copy, Debug, PartialEq, Eq, Structural)]
pub enum MissionState {
    Active,
    Paused,
    Completed,
    Cancelled,
}

/// The name of a mission state, as `{:?}` prints it.
pub open spec fn mission_state_name(s: MissionState) -> Seq<char> {
    match s {
        MissionState::Active => "Active"@,
        MissionState::Paused => "Paused"@,
        MissionState::Completed => "Completed"@,
        MissionState::Cancelled => "Cancelled"@,
    }
}

impl MissionState {
    /// The variant's name, as `{:?}` prints it.
    pub fn name(&self) -> (s: &'static str)
        ensures
            s@ == mission_state_name(*self),
    {
        match self {
            MissionState::Active => "Active",
            MissionState::Paused => "Paused",
            MissionState::Completed => "Completed",
            MissionState::Cancelled => "Cancelled",
        }
    }
}

/// An objective pursued by a swarm of agents.
pub struct Mission {
    pub id: MissionId,
    pub owner_id: IdentityId,
    pub objective: String,
    pub scope: Option<String>,
    pub lifecycle_mode: LifecycleMode,
    /// Milliseconds since the epoch.
    pub campaign_end: Option<i64>,
    pub review_interval_days: Option<u32>,
    pub budget: Budget,
    pub risk: RiskLevel,
    pub require_evidence: bool,
    pub minimum_verifiers: u32,
    pub state: MissionState,
    /// Milliseconds since the epoch.
    pub created_at: i64,
    /// Milliseconds since the epoch.
    pub updated_at: i64,
}

/// Why a mission operation failed.
pub enum MissionError {
    NotFound(String),
    InvalidState(String),
}

impl MissionError {
    /// The message of the error, as its `Display` prints it.
    pub fn to_string(&self) -> (s: String)
        ensures
            s@ == match self {
                MissionError::NotFound(n) => "mission not found: "@ + n@,
                MissionError::InvalidState(n) => "invalid state transition: "@ + n@,
            },
    {
        match self {
            MissionError::NotFound(n) => {
                let mut s = String::from_str("mission not found: ");
                s.append(n.as_str());
                s
            },
            MissionError::InvalidState(n) => {
                let mut s = String::from_str("invalid state transition: ");
                s.append(n.as_str());
                s
            },
        }
    }
}

/// The mission with only its state and its update time changed.
pub open spec fn mission_moved(old: Mission, new: Mission, to: MissionState) -> bool {
    &&& new.state == to
    &&& new.id == old.id
    &&& new.owner_id == old.owner_id
    &&& new.objective == old.objective
    &&& new.scope == old.scope
    &&& new.lifecycle_mode == old.lifecycle_mode
    &&& new.campaign_end == old.campaign_end
    &&& new.review_interval_days == old.review_interval_days
    &&& new.budget == old.budget
    &&& new.risk == old.risk
    &&& new.require_evidence == old.require_evidence
    &&& new.minimum_verifiers == old.minimum_verifiers
    &&& new.created_at == old.created_at
}

/// Creation and lifecycle moves of missions.
pub struct MissionService;

impl MissionService {
    /// A new active, ephemeral mission that requires evidence from at least
    /// one verifier.
    pub fn create_mission(owner_id: IdentityId, objective: String, budget: Budget, risk: RiskLevel) -> (m: Mission)
        ensures
            m.owner_id == owner_id,
            m.objective == objective,
            m.budget == budget,
            m.risk == risk,
            m.scope is None,
            m.lifecycle_mode == LifecycleMode::Ephemeral,
            m.campaign_end is None,
            m.review_interval_days is None,
            m.require_evidence,
            m.minimum_verifiers == 1,
            m.state == MissionState::Active,
            m.created_at == m.updated_at,
    {
        let now = now_millis();
        Mission {
            id: MissionId(new_uuid_v7()),
            owner_id,
            objective,
            scope: None,
            lifecycle_mode: LifecycleMode::Ephemeral,
            campaign_end: None,
            review_interval_days: None,
            budget,
            risk,
            require_evidence: true,
            minimum_verifiers: 1,
            state: MissionState::Active,
            created_at: now,
            updated_at: now,
        }
    }

    /// Pauses an active mission; any other mission is refused and left as
    /// it was.
    pub fn pause_mission(mission: &mut Mission) -> (r: Result<(), MissionError>)
        ensures
            old(mission).state == MissionState::Active ==> r is Ok && mission_moved(
                *old(mission),
                *final(mission),
                MissionState::Paused,
            ),
            old(mission).state != MissionState::Active ==> (r matches Err(MissionError::InvalidState(m))
                && m@ == "only active missions can be paused"@) && *final(mission) == *old(mission),
    {
        if mission.state != MissionState::Active {
            return Err(MissionError::InvalidState(String::from_str("only active missions can be paused")));
        }
        mission.state = MissionState::Paused;
        mission.updated_at = now_millis();
        Ok(())
    }

    /// Completes an active or paused mission; any other mission is refused
    /// and left as it was.
    pub fn complete_mission(mission: &mut Mission) -> (r: Result<(), MissionError>)
        ensures
            (old(mission).state == MissionState::Active || old(mission).state == MissionState::Paused)
                ==> r is Ok && mission_moved(*old(mission), *final(mission), MissionState::Completed),
            !(old(mission).state == MissionState::Active || old(mission).state == MissionState::Paused)
                ==> (r matches Err(MissionError::InvalidState(m)) && m@
                == "only active or paused missions can be completed"@) && *final(mission) == *old(
                mission,
            ),
    {
        if mission.state != MissionState::Active && mission.state != MissionState::Paused {
            return Err(
                MissionError::InvalidState(
                    String::from_str("only active or paused missions can be completed"),
                ),
            );
        }
        mission.state = MissionState::Completed;
        mission.updated_at = now_millis();
        Ok(())
    }

    /// Cancels a mission, whatever its state.
    pub fn cancel_mission(mission: &mut Mission) -> (r: Result<(), MissionError>)
        ensures
            r is Ok,
            mission_moved(*old(mission), *final(mission), MissionState::Cancelled),
    {
        mission.state = MissionState::Cancelled;
        mission.updated_at = now_millis();
        Ok(())
    }
}

} // verus!
