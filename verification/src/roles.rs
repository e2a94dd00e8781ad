//! The roles an agent can take, with the sampling temperature, the output
//! budget and the output contract each uses.
use vstd::prelude::*;
use crate::text::str_equal;

verus! {

/// The role of an agent in a swarm.
#[derive(Clone, Copy, Debug, PartialEq, Eq, Structural)]
pub enum AgentRole {
    Root,
    Director,
    Planner,
    Orchestrator,
    Manager,
    Specialist,
    Research,
    Browser,
    Coding,
    Data,
    Communication,
    Device,
    Critic,
    Verifier,
    Judge,
    SecurityGuardian,
    MemoryCurator,
    SkillEngineer,
    CostController,
    Recovery,
    Watcher,
    Maintenance,
}

/// Every role, in declaration order.
pub open spec fn all_roles() -> Seq<AgentRole> {
    seq![
        AgentRole::Root,
        AgentRole::Director,
        AgentRole::Planner,
        AgentRole::Orchestrator,
        AgentRole::Manager,
        AgentRole::Specialist,
        AgentRole::Research,
        AgentRole::Browser,
        AgentRole::Coding,
        AgentRole::Data,
        AgentRole::Communication,
        AgentRole::Device,
        AgentRole::Critic,
        AgentRole::Verifier,
        AgentRole::Judge,
        AgentRole::SecurityGuardian,
        AgentRole::MemoryCurator,
        AgentRole::SkillEngineer,
        AgentRole::CostController,
        AgentRole::Recovery,
        AgentRole::Watcher,
        AgentRole::Maintenance,
    ]
}

/// The name of a role, as `Display` prints it.
pub open spec fn role_name(r: AgentRole) -> Seq<char> {
    match r {
        AgentRole::Root => "Root"@,
        AgentRole::Director => "Director"@,
        AgentRole::Planner => "Planner"@,
        AgentRole::Orchestrator => "Orchestrator"@,
        AgentRole::Manager => "Manager"@,
        AgentRole::Specialist => "Specialist"@,
        AgentRole::Research => "Research"@,
        AgentRole::Browser => "Browser"@,
        AgentRole::Coding => "Coding"@,
        AgentRole::Data => "Data"@,
        AgentRole::Communication => "Communication"@,
        AgentRole::Device => "Device"@,
        AgentRole::Critic => "Critic"@,
        AgentRole::Verifier => "Verifier"@,
        AgentRole::Judge => "Judge"@,
        AgentRole::SecurityGuardian => "SecurityGuardian"@,
        AgentRole::MemoryCurator => "MemoryCurator"@,
        AgentRole::SkillEngineer => "SkillEngineer"@,
        AgentRole::CostController => "CostController"@,
        AgentRole::Recovery => "Recovery"@,
        AgentRole::Watcher => "Watcher"@,
        AgentRole::Maintenance => "Maintenance"@,
    }
}

/// The sampling temperature of a role, in millionths: precise roles run
/// cold, the rest at the general setting.
pub open spec fn role_temperature(r: AgentRole) -> u32 {
    match r {
        AgentRole::Coding | AgentRole::SecurityGuardian => 100_000,
        AgentRole::Critic => 200_000,
        _ => 300_000,
    }
}

/// The most tokens a role may produce in one answer.
pub open spec fn role_max_output(r: AgentRole) -> u32 {
    match r {
        AgentRole::Coding => 8192,
        AgentRole::Critic => 2048,
        _ => 4096,
    }
}

/// The output contract a role answers with.
pub open spec fn role_output(r: AgentRole) -> Seq<char> {
    match r {
        AgentRole::Root => "MissionProposal"@,
        AgentRole::Coding => "CodeChangeResult"@,
        AgentRole::Critic => "CritiqueReport"@,
        AgentRole::SecurityGuardian => "SecurityAssessment"@,
        _ => "WorkResult"@,
    }
}

impl AgentRole {
    /// Every role, in declaration order.
    pub fn all_variants() -> (v: Vec<AgentRole>)
        ensures
            v@ == all_roles(),
    {
        let v = vec![
            AgentRole::Root,
            AgentRole::Director,
            AgentRole::Planner,
            AgentRole::Orchestrator,
            AgentRole::Manager,
            AgentRole::Specialist,
            AgentRole::Research,
            AgentRole::Browser,
            AgentRole::Coding,
            AgentRole::Data,
            AgentRole::Communication,
            AgentRole::Device,
            AgentRole::Critic,
            AgentRole::Verifier,
            AgentRole::Judge,
            AgentRole::SecurityGuardian,
            AgentRole::MemoryCurator,
            AgentRole::SkillEngineer,
            AgentRole::CostController,
            AgentRole::Recovery,
            AgentRole::Watcher,
            AgentRole::Maintenance,
        ];
        assert(v@ =~= all_roles());
        v
    }

    /// The role's name, as `Display` prints it.
    pub fn to_string(&self) -> (s: String)
        ensures
            s@ == role_name(*self),
    {
        String::from_str(self.name())
    }

    /// The role's name.
    pub fn name(&self) -> (s: &'static str)
        ensures
            s@ == role_name(*self),
    {
        match self {
            AgentRole::Root => "Root",
            AgentRole::Director => "Director",
            AgentRole::Planner => "Planner",
            AgentRole::Orchestrator => "Orchestrator",
            AgentRole::Manager => "Manager",
            AgentRole::Specialist => "Specialist",
            AgentRole::Research => "Research",
            AgentRole::Browser => "Browser",
            AgentRole::Coding => "Coding",
            AgentRole::Data => "Data",
            AgentRole::Communication => "Communication",
            AgentRole::Device => "Device",
            AgentRole::Critic => "Critic",
            AgentRole::Verifier => "Verifier",
            AgentRole::Judge => "Judge",
            AgentRole::SecurityGuardian => "SecurityGuardian",
            AgentRole::MemoryCurator => "MemoryCurator",
            AgentRole::SkillEngineer => "SkillEngineer",
            AgentRole::CostController => "CostController",
            AgentRole::Recovery => "Recovery",
            AgentRole::Watcher => "Watcher",
            AgentRole::Maintenance => "Maintenance",
        }
    }

    /// The role's sampling temperature, in millionths.
    pub fn temperature(&self) -> (t: u32)
        ensures
            t == role_temperature(*self),
    {
        match self {
            AgentRole::Coding | AgentRole::SecurityGuardian => 100_000,
            AgentRole::Critic => 200_000,
            _ => 300_000,
        }
    }

    /// The most tokens the role may produce in one answer.
    pub fn max_output_tokens(&self) -> (t: u32)
        ensures
            t == role_max_output(*self),
    {
        match self {
            AgentRole::Coding => 8192,
            AgentRole::Critic => 2048,
            _ => 4096,
        }
    }

    /// The output contract the role answers with.
    pub fn primary_output(&self) -> (s: &'static str)
        ensures
            s@ == role_output(*self),
    {
        match self {
            AgentRole::Root => "MissionProposal",
            AgentRole::Coding => "CodeChangeResult",
            AgentRole::Critic => "CritiqueReport",
            AgentRole::SecurityGuardian => "SecurityAssessment",
            _ => "WorkResult",
        }
    }

    /// The role with that name, if any.
    pub fn parse(s: &str) -> (r: Option<AgentRole>)
        ensures
            match r {
                Some(role) => role_name(role) == s@,
                None => forall|role: AgentRole| role_name(role) != s@,
            },
    {
        let all = Self::all_variants();
        let mut i: usize = 0;
        while i < all.len()
            invariant
                i <= all@.len(),
                all@ == all_roles(),
                forall|j: int| 0 <= j < i ==> role_name(#[trigger] all@[j]) != s@,
            decreases all.len() - i,
        {
            if str_equal(all[i].name(), s) {
                return Some(all[i]);
            }
            i = i + 1;
        }
        proof {
            assert forall|role: AgentRole| role_name(role) != s@ by {
                lemma_role_listed(role);
                let k = choose|k: int| 0 <= k < all_roles().len() && all_roles()[k] == role;
                assert(role_name(all@[k]) != s@);
            }
        }
        None
    }
}

fn unknown_role_message(s: &str) -> (m: String)
    ensures
        m@ == "unknown agent role: "@ + s@,
{
    let mut m = String::from_str("unknown agent role: ");
    m.append(s);
    m
}

impl std::str::FromStr for AgentRole {
    type Err = String;

    /// The role with that name, or an error naming the unknown text.
    fn from_str(s: &str) -> (r: Result<AgentRole, String>)
        ensures
            match r {
                Ok(role) => role_name(role) == s@,
                Err(m) => (forall|role: AgentRole| role_name(role) != s@) && m@ == "unknown agent role: "@ + s@,
            },
    {
        match AgentRole::parse(s) {
            Some(r) => Ok(r),
            None => Err(unknown_role_message(s)),
        }
    }
}

/// Every role is listed among all roles.
pub proof fn lemma_role_listed(role: AgentRole)
    ensures
        exists|k: int| 0 <= k < all_roles().len() && all_roles()[k] == role,
{
    match role {
        AgentRole::Root => assert(all_roles()[0] == role),
        AgentRole::Director => assert(all_roles()[1] == role),
        AgentRole::Planner => assert(all_roles()[2] == role),
        AgentRole::Orchestrator => assert(all_roles()[3] == role),
        AgentRole::Manager => assert(all_roles()[4] == role),
        AgentRole::Specialist => assert(all_roles()[5] == role),
        AgentRole::Research => assert(all_roles()[6] == role),
        AgentRole::Browser => assert(all_roles()[7] == role),
        AgentRole::Coding => assert(all_roles()[8] == role),
        AgentRole::Data => assert(all_roles()[9] == role),
        AgentRole::Communication => assert(all_roles()[10] == role),
        AgentRole::Device => assert(all_roles()[11] == role),
        AgentRole::Critic => assert(all_roles()[12] == role),
        AgentRole::Verifier => assert(all_roles()[13] == role),
        AgentRole::Judge => assert(all_roles()[14] == role),
        AgentRole::SecurityGuardian => assert(all_roles()[15] == role),
        AgentRole::MemoryCurator => assert(all_roles()[16] == role),
        AgentRole::SkillEngineer => assert(all_roles()[17] == role),
        AgentRole::CostController => assert(all_roles()[18] == role),
        AgentRole::Recovery => assert(all_roles()[19] == role),
        AgentRole::Watcher => assert(all_roles()[20] == role),
        AgentRole::Maintenance => assert(all_roles()[21] == role),
    }
}

/// A role's name parses back to the role: names are distinct, and every
/// role's temperature lies in [0, 1], its output budget in (0, 16384], and
/// its output contract is named.
pub proof fn law_role_properties(a: AgentRole, b: AgentRole)
    ensures
        role_name(a) == role_name(b) ==> a == b,
        role_temperature(a) <= 1_000_000,
        0 < role_max_output(a) <= 16384,
        role_output(a).len() > 0,
{
    reveal_strlit("Root");
    reveal_strlit("Director");
    reveal_strlit("Planner");
    reveal_strlit("Orchestrator");
    reveal_strlit("Manager");
    reveal_strlit("Specialist");
    reveal_strlit("Research");
    reveal_strlit("Browser");
    reveal_strlit("Coding");
    reveal_strlit("Data");
    reveal_strlit("Communication");
    reveal_strlit("Device");
    reveal_strlit("Critic");
    reveal_strlit("Verifier");
    reveal_strlit("Judge");
    reveal_strlit("SecurityGuardian");
    reveal_strlit("MemoryCurator");
    reveal_strlit("SkillEngineer");
    reveal_strlit("CostController");
    reveal_strlit("Recovery");
    reveal_strlit("Watcher");
    reveal_strlit("Maintenance");
    reveal_strlit("MissionProposal");
    reveal_strlit("CodeChangeResult");
    reveal_strlit("CritiqueReport");
    reveal_strlit("SecurityAssessment");
    reveal_strlit("WorkResult");
    if role_name(a) == role_name(b) && a != b {
        assert(role_name(a).len() == role_name(b).len());
        assert(role_name(a)[0] == role_name(b)[0]);
        assert(role_name(a)[1] == role_name(b)[1]);
        assert(role_name(a)[2] == role_name(b)[2]);
    }
}

} // verus!
