//! Spawning child agents: the validation pipeline a spawn request must
//! pass, the permissions children inherit, and the agents it creates.
use vstd::prelude::*;
use crate::agent::{Agent, AgentGenome, AgentState, AutonomyConfig};
use crate::domain::{AgentId, Budget, LifecycleMode, MicroUsd, MissionId, Permission, TaskId, budget_remaining};
use crate::ids::{new_uuid_v7, now_millis};
use crate::mission::{Mission, MissionState};
use crate::text::{
    decimal_text, has_infix, lowercase_text, micro_text, push_decimal, push_micro_wide, str_contains, str_equal,
    to_lowercase_string,
};

verus! {

/// The id of a spawn request.
#[derive(Clone, Copy, Debug, PartialEq, Eq, Structural)]
pub struct SpawnRequestId(pub u128);

/// One child a spawn request asks for.
pub struct ChildSpec {
    pub role: String,
    pub objective: String,
    pub budget_usd: MicroUsd,
    pub model_profile: Option<String>,
    pub custom_permissions: Option<Vec<Permission>>,
}

/// What the children of a request may do in turn.
#[derive(Clone, Copy, Debug, PartialEq, Eq, Structural)]
pub struct ChildSpawnPolicy {
    pub allowed: bool,
    pub max_depth: Option<u32>,
    pub max_children: Option<u32>,
}

/// The team a spawn request forms.
pub struct SwarmTeamSpec {
    pub name: String,
    pub lifecycle_mode: LifecycleMode,
    pub ttl_seconds: Option<u64>,
    pub idle_timeout_seconds: Option<u64>,
}

/// When the spawned children end.
#[derive(Clone, Copy, Debug, PartialEq, Eq, Structural)]
pub struct TerminationPolicy {
    pub on_task_complete: bool,
    pub on_parent_terminated: bool,
    pub on_budget_exhausted: bool,
}

/// Where a spawn request stands.
#[derive(Clone, Copy, Debug, PartialEq, Eq, Structural)]
pub enum SpawnState {
    Pending,
    Approved,
    Denied,
    Completed,
}

/// A request of an agent to spawn children.
pub struct SpawnRequest {
    pub id: SpawnRequestId,
    pub mission_id: MissionId,
    pub task_id: Option<TaskId>,
    pub requested_by: AgentId,
    pub reason: String,
    pub team: SwarmTeamSpec,
    pub children: Vec<ChildSpec>,
    pub child_spawn_policy: ChildSpawnPolicy,
    pub termination: TerminationPolicy,
    pub state: SpawnState,
    /// Milliseconds since the epoch.
    pub created_at: i64,
    /// Milliseconds since the epoch.
    pub updated_at: i64,
}

/// Limits on the size of a swarm.
#[derive(Clone, Copy, Debug, PartialEq, Eq, Structural)]
pub struct SwarmLimitsConfig {
    pub max_spawn_depth: u32,
    pub max_agents_per_mission: u32,
}

/// Why a spawn failed. Amounts of money are in millionths of a dollar.
pub enum SpawnError {
    Validation(String),
    ParentNotActive,
    ParentCannotSpawn,
    DepthExceeded { max: u32, current: u32 },
    SwarmSizeExceeded,
    BudgetInsufficient { remaining: u128, required: u128 },
    PermissionNotDelegable(String),
    DuplicateObjective(String),
    ChildSpawnDenied(String),
    MaxChildrenExceeded { max: u32, requested: u32 },
    ChildSpawnDepthExceeded { max: u32, current: u32 },
    PolicyDenied(String),
    AgentNotFound(String),
    MissionNotFound(String),
    DescendantTerminationFailed(String),
    Other(String),
}

/// The message of a spawn error, as its `Display` prints it.
pub open spec fn spawn_error_text(e: SpawnError) -> Seq<char> {
    match e {
        SpawnError::Validation(m) => "validation failed: "@ + m@,
        SpawnError::ParentNotActive => "parent not active"@,
        SpawnError::ParentCannotSpawn => "parent cannot spawn"@,
        SpawnError::DepthExceeded { max, current } => "spawn depth exceeded: max "@ + decimal_text(max as nat)
            + ", current "@ + decimal_text(current as nat),
        SpawnError::SwarmSizeExceeded => "swarm size exceeded"@,
        SpawnError::BudgetInsufficient { remaining, required } => "budget insufficient: remaining "@ + micro_text(
            remaining as nat,
        ) + ", required "@ + micro_text(required as nat),
        SpawnError::PermissionNotDelegable(m) => "permission not delegable: "@ + m@,
        SpawnError::DuplicateObjective(m) => "duplicate objective: "@ + m@,
        SpawnError::ChildSpawnDenied(m) => "child spawn denied: "@ + m@,
        SpawnError::MaxChildrenExceeded { max, requested } => "max children exceeded: max "@ + decimal_text(
            max as nat,
        ) + ", requested "@ + decimal_text(requested as nat),
        SpawnError::ChildSpawnDepthExceeded { max, current } => "child spawn depth exceeded: max "@
            + decimal_text(max as nat) + ", current "@ + decimal_text(current as nat),
        SpawnError::PolicyDenied(m) => "policy denied: "@ + m@,
        SpawnError::AgentNotFound(m) => "agent not found: "@ + m@,
        SpawnError::MissionNotFound(m) => "mission not found: "@ + m@,
        SpawnError::DescendantTerminationFailed(m) => "descendant termination failed: "@ + m@,
        SpawnError::Other(m) => "spawn error: "@ + m@,
    }
}

fn prefixed(prefix: &str, m: &String) -> (s: String)
    ensures
        s@ == prefix@ + m@,
{
    let mut s = String::from_str(prefix);
    s.append(m.as_str());
    s
}

fn two_numbers(head: &str, a: u32, mid: &str, b: u32) -> (s: String)
    ensures
        s@ == head@ + decimal_text(a as nat) + mid@ + decimal_text(b as nat),
{
    let mut s = String::from_str(head);
    push_decimal(&mut s, a as u64);
    s.append(mid);
    push_decimal(&mut s, b as u64);
    s
}

impl SpawnError {
    /// The message of the error, as its `Display` prints it.
    pub fn to_string(&self) -> (s: String)
        ensures
            s@ == spawn_error_text(*self),
    {
        match self {
            SpawnError::Validation(m) => prefixed("validation failed: ", m),
            SpawnError::ParentNotActive => String::from_str("parent not active"),
            SpawnError::ParentCannotSpawn => String::from_str("parent cannot spawn"),
            SpawnError::DepthExceeded { max, current } => two_numbers(
                "spawn depth exceeded: max ",
                *max,
                ", current ",
                *current,
            ),
            SpawnError::SwarmSizeExceeded => String::from_str("swarm size exceeded"),
            SpawnError::BudgetInsufficient { remaining, required } => {
                let mut s = String::from_str("budget insufficient: remaining ");
                push_micro_wide(&mut s, *remaining);
                s.append(", required ");
                push_micro_wide(&mut s, *required);
                s
            },
            SpawnError::PermissionNotDelegable(m) => prefixed("permission not delegable: ", m),
            SpawnError::DuplicateObjective(m) => prefixed("duplicate objective: ", m),
            SpawnError::ChildSpawnDenied(m) => prefixed("child spawn denied: ", m),
            SpawnError::MaxChildrenExceeded { max, requested } => two_numbers(
                "max children exceeded: max ",
                *max,
                ", requested ",
                *requested,
            ),
            SpawnError::ChildSpawnDepthExceeded { max, current } => two_numbers(
                "child spawn depth exceeded: max ",
                *max,
                ", current ",
                *current,
            ),
            SpawnError::PolicyDenied(m) => prefixed("policy denied: ", m),
            SpawnError::AgentNotFound(m) => prefixed("agent not found: ", m),
            SpawnError::MissionNotFound(m) => prefixed("mission not found: ", m),
            SpawnError::DescendantTerminationFailed(m) => prefixed("descendant termination failed: ", m),
            SpawnError::Other(m) => prefixed("spawn error: ", m),
        }
    }
}

// ----- the rules -----
/// The list holds a permission of that name.
pub open spec fn perm_listed(list: Seq<Permission>, name: Seq<char>) -> bool {
    exists|k: int| 0 <= k < list.len() && #[trigger] list[k].0@ == name
}

/// An existing agent clashes with a requested child: same role, or the
/// lowercased objective occurs in the agent's lowercased name.
pub open spec fn agent_clashes(a: Agent, c: ChildSpec) -> bool {
    a.role@ == c.role@ || has_infix(lowercase_text(a.name@), lowercase_text(c.objective@))
}

/// Some existing agent clashes with the child.
pub open spec fn child_clashes(c: ChildSpec, agents: Seq<Agent>) -> bool {
    exists|k: int| 0 <= k < agents.len() && agent_clashes(#[trigger] agents[k], c)
}

/// The position of the first child that clashes with an existing agent.
pub open spec fn first_clash(children: Seq<ChildSpec>, agents: Seq<Agent>) -> Option<int>
    decreases children.len(),
{
    if children.len() == 0 {
        None
    } else {
        match first_clash(children.drop_last(), agents) {
            Some(i) => Some(i),
            None => if child_clashes(children.last(), agents) {
                Some(children.len() - 1)
            } else {
                None
            },
        }
    }
}

/// The budget asked for all children together.
pub open spec fn children_budget(children: Seq<ChildSpec>) -> nat
    decreases children.len(),
{
    if children.len() == 0 {
        0
    } else {
        children_budget(children.drop_last()) + (children.last().budget_usd as nat)
    }
}

/// The name of the first permission of `ps` that `delegable` lacks.
pub open spec fn first_missing(ps: Seq<Permission>, delegable: Seq<Permission>) -> Option<Seq<char>>
    decreases ps.len(),
{
    if ps.len() == 0 {
        None
    } else {
        match first_missing(ps.drop_last(), delegable) {
            Some(n) => Some(n),
            None => if perm_listed(delegable, ps.last().0@) {
                None
            } else {
                Some(ps.last().0@)
            },
        }
    }
}

/// The first permission, child by child, that a child asks for and the
/// parent cannot delegate.
pub open spec fn first_undelegable(children: Seq<ChildSpec>, delegable: Seq<Permission>) -> Option<Seq<char>>
    decreases children.len(),
{
    if children.len() == 0 {
        None
    } else {
        match first_undelegable(children.drop_last(), delegable) {
            Some(n) => Some(n),
            None => match children.last().custom_permissions {
                Some(ps) => first_missing(ps@, delegable),
                None => None,
            },
        }
    }
}

/// The child asks for the `spawn` permission.
pub open spec fn asks_to_spawn(c: ChildSpec) -> bool {
    match c.custom_permissions {
        Some(ps) => perm_listed(ps@, "spawn"@),
        None => false,
    }
}

/// The position of the first child that asks for the `spawn` permission.
pub open spec fn first_spawn_asker(children: Seq<ChildSpec>) -> Option<int>
    decreases children.len(),
{
    if children.len() == 0 {
        None
    } else {
        match first_spawn_asker(children.drop_last()) {
            Some(i) => Some(i),
            None => if asks_to_spawn(children.last()) {
                Some(children.len() - 1)
            } else {
                None
            },
        }
    }
}

/// The text of the refusal of a child that asks for `spawn`.
pub open spec fn spawn_denied_text(role: Seq<char>) -> Seq<char> {
    "child role '"@ + role + "' requests spawn permission but child_spawn_policy disallows it"@
}

/// The number of children, as the request counts them (`len() as u32`).
pub open spec fn requested_count(req: SpawnRequest) -> u32 {
    req.children@.len() as u32
}

/// The request passes every check of the validation pipeline.
pub open spec fn spawn_allowed(
    parent: Agent,
    mission: Mission,
    req: SpawnRequest,
    agents: Seq<Agent>,
    depth: u32,
    limits: SwarmLimitsConfig,
) -> bool {
    &&& parent.state == AgentState::Active
    &&& parent.genome.autonomy.can_spawn
    &&& depth < limits.max_spawn_depth
    &&& agents.len() + req.children@.len() <= limits.max_agents_per_mission
    &&& first_clash(req.children@, agents) is None
    &&& children_budget(req.children@) <= budget_remaining(parent.budget)
    &&& first_undelegable(req.children@, parent.delegable_permissions@) is None
    &&& (req.child_spawn_policy.allowed || first_spawn_asker(req.children@) is None)
    &&& (req.child_spawn_policy.max_children matches Some(m) ==> requested_count(req) <= m)
    &&& (req.child_spawn_policy.max_depth matches Some(m) ==> depth + 1 <= m)
    &&& mission.state == MissionState::Active
}

/// `e` is the error of the first check, in pipeline order, that the
/// request fails.
pub open spec fn spawn_refusal(
    e: SpawnError,
    parent: Agent,
    mission: Mission,
    req: SpawnRequest,
    agents: Seq<Agent>,
    depth: u32,
    limits: SwarmLimitsConfig,
) -> bool {
    let children = req.children@;
    let policy = req.child_spawn_policy;
    if parent.state != AgentState::Active {
        e is ParentNotActive
    } else if !parent.genome.autonomy.can_spawn {
        e is ParentCannotSpawn
    } else if depth >= limits.max_spawn_depth {
        e matches SpawnError::DepthExceeded { max, current } && max == limits.max_spawn_depth && current == depth
    } else if agents.len() + children.len() > limits.max_agents_per_mission {
        e is SwarmSizeExceeded
    } else if first_clash(children, agents) is Some {
        e matches SpawnError::DuplicateObjective(o) && o@ == children[first_clash(children, agents)->0].objective@
    } else if children_budget(children) > budget_remaining(parent.budget) {
        e matches SpawnError::BudgetInsufficient { remaining, required } && remaining == budget_remaining(
            parent.budget,
        ) && required == children_budget(children)
    } else if first_undelegable(children, parent.delegable_permissions@) is Some {
        e matches SpawnError::PermissionNotDelegable(n) && Some(n@) == first_undelegable(
            children,
            parent.delegable_permissions@,
        )
    } else if !policy.allowed && first_spawn_asker(children) is Some {
        e matches SpawnError::ChildSpawnDenied(m) && m@ == spawn_denied_text(
            children[first_spawn_asker(children)->0].role@,
        )
    } else if policy.max_children matches Some(m) && requested_count(req) > m {
        e matches SpawnError::MaxChildrenExceeded { max, requested } && Some(max) == policy.max_children
            && requested == requested_count(req)
    } else if policy.max_depth matches Some(m) && depth + 1 > m {
        e matches SpawnError::ChildSpawnDepthExceeded { max, current } && Some(max) == policy.max_depth && current
            == depth + 1
    } else if mission.state != MissionState::Active {
        e matches SpawnError::Validation(m) && m@ == "mission is not active"@
    } else {
        false
    }
}

/// The permissions of `requested` that `delegable` holds, in order.
pub open spec fn delegated(requested: Seq<Permission>, delegable: Seq<Permission>) -> Seq<Seq<char>>
    decreases requested.len(),
{
    if requested.len() == 0 {
        Seq::empty()
    } else if perm_listed(delegable, requested.last().0@) {
        delegated(requested.drop_last(), delegable).push(requested.last().0@)
    } else {
        delegated(requested.drop_last(), delegable)
    }
}

/// The names of a list of permissions.
pub open spec fn perm_names(ps: Seq<Permission>) -> Seq<Seq<char>> {
    Seq::new(ps.len(), |i: int| ps[i].0@)
}

/// The permissions a child ends up with: the requested ones the parent can
/// delegate, or all the parent can delegate when it asks for none in
/// particular.
pub open spec fn child_grant(c: ChildSpec, delegable: Seq<Permission>) -> Seq<Seq<char>> {
    match c.custom_permissions {
        Some(ps) => delegated(ps@, delegable),
        None => perm_names(delegable),
    }
}

// ----- executable checks -----
fn perm_in(list: &Vec<Permission>, name: &str) -> (r: bool)
    ensures
        r == perm_listed(list@, name@),
{
    let mut k: usize = 0;
    while k < list.len()
        invariant
            k <= list@.len(),
            forall|j: int| 0 <= j < k ==> #[trigger] list@[j].0@ != name@,
        decreases list.len() - k,
    {
        if str_equal(list[k].0.as_str(), name) {
            return true;
        }
        k = k + 1;
    }
    false
}

fn child_clashes_exec(c: &ChildSpec, agents: &Vec<Agent>) -> (r: bool)
    ensures
        r == child_clashes(*c, agents@),
{
    let objective = to_lowercase_string(c.objective.as_str());
    let mut k: usize = 0;
    while k < agents.len()
        invariant
            k <= agents@.len(),
            objective@ == lowercase_text(c.objective@),
            forall|j: int| 0 <= j < k ==> !agent_clashes(#[trigger] agents@[j], *c),
        decreases agents.len() - k,
    {
        let a = &agents[k];
        if str_equal(a.role.as_str(), c.role.as_str()) {
            assert(agent_clashes(agents@[k as int], *c));
            return true;
        }
        let name = to_lowercase_string(a.name.as_str());
        if str_contains(name.as_str(), objective.as_str()) {
            assert(agent_clashes(agents@[k as int], *c));
            return true;
        }
        k = k + 1;
    }
    false
}

fn find_clash(children: &Vec<ChildSpec>, agents: &Vec<Agent>) -> (r: Option<usize>)
    ensures
        match r {
            Some(i) => i < children@.len() && first_clash(children@, agents@) == Some(i as int),
            None => first_clash(children@, agents@) is None,
        },
{
    let mut i: usize = 0;
    while i < children.len()
        invariant
            i <= children@.len(),
            first_clash(children@.subrange(0, i as int), agents@) is None,
        decreases children.len() - i,
    {
        assert(children@.subrange(0, i + 1).drop_last() =~= children@.subrange(0, i as int));
        if child_clashes_exec(&children[i], agents) {
            proof {
                lemma_first_clash_prefix(children@, agents@, i + 1);
            }
            return Some(i);
        }
        i = i + 1;
    }
    assert(children@.subrange(0, children@.len() as int) =~= children@);
    None
}

proof fn lemma_first_clash_prefix(children: Seq<ChildSpec>, agents: Seq<Agent>, n: int)
    requires
        0 < n <= children.len(),
        first_clash(children.subrange(0, n), agents) is Some,
    ensures
        first_clash(children, agents) == first_clash(children.subrange(0, n), agents),
    decreases children.len() - n,
{
    if n < children.len() {
        assert(children.subrange(0, n + 1).drop_last() =~= children.subrange(0, n));
        lemma_first_clash_prefix(children, agents, n + 1);
    } else {
        assert(children.subrange(0, n) =~= children);
    }
}

fn total_budget(children: &Vec<ChildSpec>) -> (t: u128)
    ensures
        t == children_budget(children@),
{
    let mut t: u128 = 0;
    let mut i: usize = 0;
    while i < children.len()
        invariant
            i <= children@.len(),
            t == children_budget(children@.subrange(0, i as int)),
            t <= i * 0xffff_ffff_ffff_ffff,
        decreases children.len() - i,
    {
        assert(children@.subrange(0, i + 1).drop_last() =~= children@.subrange(0, i as int));
        assert(i * 0xffff_ffff_ffff_ffff + 0xffff_ffff_ffff_ffff == (i + 1) * 0xffff_ffff_ffff_ffff) by (
        nonlinear_arith);
        assert((i + 1) * 0xffff_ffff_ffff_ffff <= 0xffff_ffff_ffff_ffff * 0xffff_ffff_ffff_ffff) by (
        nonlinear_arith)
            requires
                i + 1 <= 0xffff_ffff_ffff_ffff,
        ;
        t = t + children[i].budget_usd as u128;
        i = i + 1;
    }
    assert(children@.subrange(0, children@.len() as int) =~= children@);
    t
}

fn missing_perm(ps: &Vec<Permission>, delegable: &Vec<Permission>) -> (r: Option<String>)
    ensures
        match r {
            Some(n) => first_missing(ps@, delegable@) == Some(n@),
            None => first_missing(ps@, delegable@) is None,
        },
{
    let mut i: usize = 0;
    while i < ps.len()
        invariant
            i <= ps@.len(),
            first_missing(ps@.subrange(0, i as int), delegable@) is None,
        decreases ps.len() - i,
    {
        assert(ps@.subrange(0, i + 1).drop_last() =~= ps@.subrange(0, i as int));
        if !perm_in(delegable, ps[i].0.as_str()) {
            proof {
                lemma_first_missing_prefix(ps@, delegable@, i + 1);
            }
            return Some(ps[i].0.clone());
        }
        i = i + 1;
    }
    assert(ps@.subrange(0, ps@.len() as int) =~= ps@);
    None
}

proof fn lemma_first_missing_prefix(ps: Seq<Permission>, delegable: Seq<Permission>, n: int)
    requires
        0 < n <= ps.len(),
        first_missing(ps.subrange(0, n), delegable) is Some,
    ensures
        first_missing(ps, delegable) == first_missing(ps.subrange(0, n), delegable),
    decreases ps.len() - n,
{
    if n < ps.len() {
        assert(ps.subrange(0, n + 1).drop_last() =~= ps.subrange(0, n));
        lemma_first_missing_prefix(ps, delegable, n + 1);
    } else {
        assert(ps.subrange(0, n) =~= ps);
    }
}

fn find_undelegable(children: &Vec<ChildSpec>, delegable: &Vec<Permission>) -> (r: Option<String>)
    ensures
        match r {
            Some(n) => first_undelegable(children@, delegable@) == Some(n@),
            None => first_undelegable(children@, delegable@) is None,
        },
{
    let mut i: usize = 0;
    while i < children.len()
        invariant
            i <= children@.len(),
            first_undelegable(children@.subrange(0, i as int), delegable@) is None,
        decreases children.len() - i,
    {
        assert(children@.subrange(0, i + 1).drop_last() =~= children@.subrange(0, i as int));
        match &children[i].custom_permissions {
            Some(ps) => {
                match missing_perm(ps, delegable) {
                    Some(n) => {
                        proof {
                            lemma_first_undelegable_prefix(children@, delegable@, i + 1);
                        }
                        return Some(n);
                    },
                    None => {},
                }
            },
            None => {},
        }
        i = i + 1;
    }
    assert(children@.subrange(0, children@.len() as int) =~= children@);
    None
}

proof fn lemma_first_undelegable_prefix(children: Seq<ChildSpec>, delegable: Seq<Permission>, n: int)
    requires
        0 < n <= children.len(),
        first_undelegable(children.subrange(0, n), delegable) is Some,
    ensures
        first_undelegable(children, delegable) == first_undelegable(children.subrange(0, n), delegable),
    decreases children.len() - n,
{
    if n < children.len() {
        assert(children.subrange(0, n + 1).drop_last() =~= children.subrange(0, n));
        lemma_first_undelegable_prefix(children, delegable, n + 1);
    } else {
        assert(children.subrange(0, n) =~= children);
    }
}

fn find_spawn_asker(children: &Vec<ChildSpec>) -> (r: Option<usize>)
    ensures
        match r {
            Some(i) => i < children@.len() && first_spawn_asker(children@) == Some(i as int),
            None => first_spawn_asker(children@) is None,
        },
{
    let mut i: usize = 0;
    while i < children.len()
        invariant
            i <= children@.len(),
            first_spawn_asker(children@.subrange(0, i as int)) is None,
        decreases children.len() - i,
    {
        assert(children@.subrange(0, i + 1).drop_last() =~= children@.subrange(0, i as int));
        let asks = match &children[i].custom_permissions {
            Some(ps) => perm_in(ps, "spawn"),
            None => false,
        };
        if asks {
            proof {
                lemma_first_spawn_asker_prefix(children@, i + 1);
            }
            return Some(i);
        }
        i = i + 1;
    }
    assert(children@.subrange(0, children@.len() as int) =~= children@);
    None
}

proof fn lemma_first_spawn_asker_prefix(children: Seq<ChildSpec>, n: int)
    requires
        0 < n <= children.len(),
        first_spawn_asker(children.subrange(0, n)) is Some,
    ensures
        first_spawn_asker(children) == first_spawn_asker(children.subrange(0, n)),
    decreases children.len() - n,
{
    if n < children.len() {
        assert(children.subrange(0, n + 1).drop_last() =~= children.subrange(0, n));
        lemma_first_spawn_asker_prefix(children, n + 1);
    } else {
        assert(children.subrange(0, n) =~= children);
    }
}

/// The permissions of `requested` that the parent can delegate, in order.
pub fn child_permissions(delegable: &Vec<Permission>, requested: &Vec<Permission>) -> (r: Vec<Permission>)
    ensures
        perm_names(r@) == delegated(requested@, delegable@),
{
    let mut out: Vec<Permission> = Vec::new();
    let mut i: usize = 0;
    while i < requested.len()
        invariant
            i <= requested@.len(),
            perm_names(out@) == delegated(requested@.subrange(0, i as int), delegable@),
        decreases requested.len() - i,
    {
        assert(requested@.subrange(0, i + 1).drop_last() =~= requested@.subrange(0, i as int));
        if perm_in(delegable, requested[i].0.as_str()) {
            let ghost before = perm_names(out@);
            out.push(Permission(requested[i].0.clone()));
            assert(perm_names(out@) =~= before.push(requested@[i as int].0@));
        }
        i = i + 1;
    }
    assert(requested@.subrange(0, requested@.len() as int) =~= requested@);
    out
}

fn copy_permissions(ps: &Vec<Permission>) -> (r: Vec<Permission>)
    ensures
        perm_names(r@) == perm_names(ps@),
{
    let mut out: Vec<Permission> = Vec::new();
    let mut i: usize = 0;
    while i < ps.len()
        invariant
            i <= ps@.len(),
            perm_names(out@) =~= perm_names(ps@).subrange(0, i as int),
        decreases ps.len() - i,
    {
        let ghost before = perm_names(out@);
        out.push(Permission(ps[i].0.clone()));
        assert(perm_names(out@) =~= before.push(ps@[i as int].0@));
        i = i + 1;
    }
    out
}

/// Checks every constraint a spawn request must meet before any child is
/// created.
pub struct SpawnValidator;

impl SpawnValidator {
    /// Runs the validation pipeline, failing on the first violated check:
    /// the parent is active and may spawn, the depth and swarm size stay
    /// within the limits, no child clashes with an existing agent, the
    /// parent's budget covers the children, every requested permission is
    /// delegable, the child spawn policy holds, and the mission is active.
    pub fn validate(
        parent: &Agent,
        mission: &Mission,
        request: &SpawnRequest,
        all_agents: &Vec<Agent>,
        current_depth: u32,
        limits: &SwarmLimitsConfig,
    ) -> (r: Result<(), SpawnError>)
        ensures
            r is Ok <==> spawn_allowed(*parent, *mission, *request, all_agents@, current_depth, *limits),
            r matches Err(e) ==> spawn_refusal(e, *parent, *mission, *request, all_agents@, current_depth, *limits),
    {
        if let Err(e) = Self::check_parent_active(parent) {
            return Err(e);
        }
        if let Err(e) = Self::check_parent_spawn_permission(parent) {
            return Err(e);
        }
        if let Err(e) = Self::check_depth(current_depth, limits) {
            return Err(e);
        }
        if let Err(e) = Self::check_swarm_size(all_agents, request, limits) {
            return Err(e);
        }
        if let Err(e) = Self::check_duplicate_objective(request, all_agents) {
            return Err(e);
        }
        if let Err(e) = Self::check_child_budget(parent, request) {
            return Err(e);
        }
        if let Err(e) = Self::check_permissions_delegable(parent, request) {
            return Err(e);
        }
        if let Err(e) = Self::check_child_spawn_policy(request, current_depth) {
            return Err(e);
        }
        Self::check_mission_active(mission)
    }

    /// The parent must be active.
    fn check_parent_active(parent: &Agent) -> (r: Result<(), SpawnError>)
        ensures
            r is Ok <==> parent.state == AgentState::Active,
            r matches Err(e) ==> e is ParentNotActive,
    {
        if parent.state != AgentState::Active {
            return Err(SpawnError::ParentNotActive);
        }
        Ok(())
    }

    /// The parent's genome must allow spawning.
    fn check_parent_spawn_permission(parent: &Agent) -> (r: Result<(), SpawnError>)
        ensures
            r is Ok <==> parent.genome.autonomy.can_spawn,
            r matches Err(e) ==> e is ParentCannotSpawn,
    {
        if !parent.genome.autonomy.can_spawn {
            return Err(SpawnError::ParentCannotSpawn);
        }
        Ok(())
    }

    /// The parent's depth must be below the maximum spawn depth.
    fn check_depth(current_depth: u32, limits: &SwarmLimitsConfig) -> (r: Result<(), SpawnError>)
        ensures
            r is Ok <==> current_depth < limits.max_spawn_depth,
            r matches Err(e) ==> e matches SpawnError::DepthExceeded { max, current } && max
                == limits.max_spawn_depth && current == current_depth,
    {
        if current_depth >= limits.max_spawn_depth {
            return Err(SpawnError::DepthExceeded { max: limits.max_spawn_depth, current: current_depth });
        }
        Ok(())
    }

    /// The mission's agents and the new children together must stay within
    /// the swarm size.
    fn check_swarm_size(all_agents: &Vec<Agent>, request: &SpawnRequest, limits: &SwarmLimitsConfig) -> (r: Result<
        (),
        SpawnError,
    >)
        ensures
            r is Ok <==> all_agents@.len() + request.children@.len() <= limits.max_agents_per_mission,
            r matches Err(e) ==> e is SwarmSizeExceeded,
    {
        let total: u128 = all_agents.len() as u128 + request.children.len() as u128;
        if total > limits.max_agents_per_mission as u128 {
            return Err(SpawnError::SwarmSizeExceeded);
        }
        Ok(())
    }

    /// No child may share a role with an existing agent, nor have an
    /// objective found in an agent's name.
    fn check_duplicate_objective(request: &SpawnRequest, all_agents: &Vec<Agent>) -> (r: Result<(), SpawnError>)
        ensures
            r is Ok <==> first_clash(request.children@, all_agents@) is None,
            r matches Err(e) ==> e matches SpawnError::DuplicateObjective(o) && o@
                == request.children@[first_clash(request.children@, all_agents@)->0].objective@,
    {
        match find_clash(&request.children, all_agents) {
            Some(i) => Err(SpawnError::DuplicateObjective(request.children[i].objective.clone())),
            None => Ok(()),
        }
    }

    /// The parent's remaining budget must cover all children.
    fn check_child_budget(parent: &Agent, request: &SpawnRequest) -> (r: Result<(), SpawnError>)
        ensures
            r is Ok <==> children_budget(request.children@) <= budget_remaining(parent.budget),
            r matches Err(e) ==> e matches SpawnError::BudgetInsufficient { remaining, required } && remaining
                == budget_remaining(parent.budget) && required == children_budget(request.children@),
    {
        let required = total_budget(&request.children);
        let remaining = parent.budget.remaining() as u128;
        if remaining < required {
            return Err(SpawnError::BudgetInsufficient { remaining, required });
        }
        Ok(())
    }

    /// Every permission a child asks for must be one the parent can
    /// delegate.
    fn check_permissions_delegable(parent: &Agent, request: &SpawnRequest) -> (r: Result<(), SpawnError>)
        ensures
            r is Ok <==> first_undelegable(request.children@, parent.delegable_permissions@) is None,
            r matches Err(e) ==> e matches SpawnError::PermissionNotDelegable(n) && Some(n@) == first_undelegable(
                request.children@,
                parent.delegable_permissions@,
            ),
    {
        match find_undelegable(&request.children, &parent.delegable_permissions) {
            Some(n) => Err(SpawnError::PermissionNotDelegable(n)),
            None => Ok(()),
        }
    }

    /// The request's child spawn policy: children may not ask for `spawn`
    /// unless it allows it, nor be more than its maximum, nor sit deeper
    /// than its maximum depth.
    fn check_child_spawn_policy(request: &SpawnRequest, current_depth: u32) -> (r: Result<(), SpawnError>)
        requires
            current_depth < u32::MAX,
        ensures
            r is Ok <==> {
                &&& (request.child_spawn_policy.allowed || first_spawn_asker(request.children@) is None)
                &&& (request.child_spawn_policy.max_children matches Some(m) ==> requested_count(*request) <= m)
                &&& (request.child_spawn_policy.max_depth matches Some(m) ==> current_depth + 1 <= m)
            },
            r matches Err(e) ==> {
                let policy = request.child_spawn_policy;
                let children = request.children@;
                if !policy.allowed && first_spawn_asker(children) is Some {
                    e matches SpawnError::ChildSpawnDenied(m) && m@ == spawn_denied_text(
                        children[first_spawn_asker(children)->0].role@,
                    )
                } else if policy.max_children matches Some(m) && requested_count(*request) > m {
                    e matches SpawnError::MaxChildrenExceeded { max, requested } && Some(max)
                        == policy.max_children && requested == requested_count(*request)
                } else {
                    e matches SpawnError::ChildSpawnDepthExceeded { max, current } && Some(max)
                        == policy.max_depth && current == current_depth + 1
                }
            },
    {
        let policy = request.child_spawn_policy;
        if !policy.allowed {
            match find_spawn_asker(&request.children) {
                Some(i) => {
                    let mut m = String::from_str("child role '");
                    m.append(request.children[i].role.as_str());
                    m.append("' requests spawn permission but child_spawn_policy disallows it");
                    return Err(SpawnError::ChildSpawnDenied(m));
                },
                None => {},
            }
        }
        match policy.max_children {
            Some(max) => {
                let requested = request.children.len() as u32;
                if requested > max {
                    return Err(SpawnError::MaxChildrenExceeded { max, requested });
                }
            },
            None => {},
        }
        match policy.max_depth {
            Some(max) => {
                let child_depth = current_depth + 1;
                if child_depth > max {
                    return Err(SpawnError::ChildSpawnDepthExceeded { max, current: child_depth });
                }
            },
            None => {},
        }
        Ok(())
    }

    /// The mission must be active.
    fn check_mission_active(mission: &Mission) -> (r: Result<(), SpawnError>)
        ensures
            r is Ok <==> mission.state == MissionState::Active,
            r matches Err(e) ==> e matches SpawnError::Validation(m) && m@ == "mission is not active"@,
    {
        if mission.state != MissionState::Active {
            return Err(SpawnError::Validation(String::from_str("mission is not active")));
        }
        Ok(())
    }

    /// The permissions each child ends up with, child by child.
    pub fn calculate_child_permissions(parent: &Agent, request: &SpawnRequest) -> (r: Vec<Vec<Permission>>)
        ensures
            r@.len() == request.children@.len(),
            forall|i: int|
                0 <= i < r@.len() ==> perm_names(#[trigger] r@[i]@) == child_grant(
                    request.children@[i],
                    parent.delegable_permissions@,
                ),
    {
        let mut out: Vec<Vec<Permission>> = Vec::new();
        let mut i: usize = 0;
        while i < request.children.len()
            invariant
                i <= request.children@.len(),
                out@.len() == i,
                forall|k: int|
                    0 <= k < i ==> perm_names(#[trigger] out@[k]@) == child_grant(
                        request.children@[k],
                        parent.delegable_permissions@,
                    ),
            decreases request.children.len() - i,
        {
            let grant = match &request.children[i].custom_permissions {
                Some(ps) => child_permissions(&parent.delegable_permissions, ps),
                None => copy_permissions(&parent.delegable_permissions),
            };
            out.push(grant);
            i = i + 1;
        }
        out
    }

    /// The budget of all children together, in millionths of a dollar.
    pub fn calculate_total_cost(request: &SpawnRequest) -> (t: u128)
        ensures
            t == children_budget(request.children@),
    {
        total_budget(&request.children)
    }
}

/// Turns spawn requests into agents under the swarm's limits.
pub struct SpawnBroker {
    pub limits: SwarmLimitsConfig,
}

impl SpawnBroker {
    /// The checks and sums a spawn request goes through before any child
    /// is made: the request is validated against the broker's limits, then
    /// each child's permissions, the children's total budget and their
    /// depth are worked out.
    pub fn plan_spawn_request(
        &self,
        parent: &Agent,
        mission: &Mission,
        request: &SpawnRequest,
        all_agents: &Vec<Agent>,
        current_depth: u32,
    ) -> (r: Result<ValidatedSpawn, SpawnError>)
        ensures
            r is Ok <==> spawn_allowed(*parent, *mission, *request, all_agents@, current_depth, self.limits),
            r matches Err(e) ==> spawn_refusal(
                e,
                *parent,
                *mission,
                *request,
                all_agents@,
                current_depth,
                self.limits,
            ),
            r matches Ok(v) ==> {
                &&& v.child_permissions@.len() == request.children@.len()
                &&& forall|i: int|
                    0 <= i < v.child_permissions@.len() ==> perm_names(#[trigger] v.child_permissions@[i]@)
                        == child_grant(request.children@[i], parent.delegable_permissions@)
                &&& v.total_cost == children_budget(request.children@)
                &&& v.effective_depth == current_depth + 1
            },
    {
        if let Err(e) = SpawnValidator::validate(parent, mission, request, all_agents, current_depth, &self.limits) {
            return Err(e);
        }
        let child_permissions = SpawnValidator::calculate_child_permissions(parent, request);
        let total_cost = SpawnValidator::calculate_total_cost(request);
        Ok(ValidatedSpawn { child_permissions, total_cost, effective_depth: current_depth + 1 })
    }

    /// A pending request of `requested_by` for `children`, forming an
    /// ephemeral "auto-team" (two hours to live, ten minutes idle) whose
    /// children may not spawn in turn and end with their task, their
    /// parent or their budget.
    pub fn create_request(
        mission_id: MissionId,
        requested_by: AgentId,
        reason: String,
        children: Vec<ChildSpec>,
    ) -> (r: SpawnRequest)
        ensures
            r.id.0 != 0,
            r.mission_id == mission_id,
            r.task_id is None,
            r.requested_by == requested_by,
            r.reason@ == reason@,
            r.team.name@ == "auto-team"@,
            r.team.lifecycle_mode == LifecycleMode::Ephemeral,
            r.team.ttl_seconds == Some(7200u64),
            r.team.idle_timeout_seconds == Some(600u64),
            r.children@ == children@,
            r.child_spawn_policy == (ChildSpawnPolicy { allowed: false, max_depth: None, max_children: None }),
            r.termination == (TerminationPolicy {
                on_task_complete: true,
                on_parent_terminated: true,
                on_budget_exhausted: true,
            }),
            r.state == SpawnState::Pending,
            r.created_at == r.updated_at,
    {
        let now = now_millis();
        SpawnRequest {
            id: SpawnRequestId(new_uuid_v7()),
            mission_id,
            task_id: None,
            requested_by,
            reason,
            team: SwarmTeamSpec {
                name: String::from_str("auto-team"),
                lifecycle_mode: LifecycleMode::Ephemeral,
                ttl_seconds: Some(7200),
                idle_timeout_seconds: Some(600),
            },
            children,
            child_spawn_policy: ChildSpawnPolicy { allowed: false, max_depth: None, max_children: None },
            termination: TerminationPolicy {
                on_task_complete: true,
                on_parent_terminated: true,
                on_budget_exhausted: true,
            },
            state: SpawnState::Pending,
            created_at: now,
            updated_at: now,
        }
    }
}

/// Four fifths of an amount, rounded down: a child's soft budget limit.
pub open spec fn four_fifths(x: u64) -> int {
    (x as int * 4) / 5
}

/// The budget a child starts with: its grant, nothing spent, warned at
/// four fifths, stopped at the grant, and no monthly renewal.
pub open spec fn child_budget(grant: MicroUsd) -> Budget {
    Budget {
        allocated_usd: grant,
        spent_usd: 0,
        soft_limit_usd: Some(four_fifths(grant) as u64),
        hard_limit_usd: Some(grant),
        recurring_monthly_usd: None,
    }
}

/// The child a spec makes under a parent: a fresh ready, ephemeral agent
/// of the parent's mission and lineage, named after the parent and its
/// role, with a genome derived from the parent's that cannot spawn, its
/// own budget and the given permissions.
pub open spec fn is_child_of(child: Agent, parent: Agent, spec: ChildSpec, permissions: Seq<Seq<char>>) -> bool {
    &&& child.id.0 != 0
    &&& child.mission_id == parent.mission_id
    &&& child.parent_agent_id == Some(parent.id)
    &&& child.lineage_id == parent.lineage_id
    &&& child.name@ == parent.name@ + "-"@ + spec.role@
    &&& child.role@ == spec.role@
    &&& child.genome.id@ == parent.genome.id@ + "-"@ + spec.role@
    &&& child.genome.version@ == parent.genome.version@
    &&& child.genome.role@ == spec.role@
    &&& child.genome.autonomy == (AutonomyConfig { can_spawn: false, max_spawn_depth: 0, max_children: 0 })
    &&& child.state == AgentState::Ready
    &&& child.lifecycle_mode == LifecycleMode::Ephemeral
    &&& child.budget == child_budget(spec.budget_usd)
    &&& perm_names(child.delegable_permissions@) == permissions
    &&& child.turn_count == 0
    &&& child.created_at == child.updated_at
}

fn joined(a: &str, b: &str) -> (s: String)
    ensures
        s@ == a@ + "-"@ + b@,
{
    let mut s = String::from_str(a);
    s.append("-");
    s.append(b);
    s
}

impl SpawnBroker {
    /// Makes one child agent of a validated request.
    pub fn create_child_agent(&self, parent: &Agent, spec: &ChildSpec, permissions: Vec<Permission>, depth: u32) -> (child:
        Agent)
        ensures
            is_child_of(child, *parent, *spec, perm_names(permissions@)),
    {
        let now = now_millis();
        let grant = spec.budget_usd;
        let soft: u64 = grant / 5 * 4 + grant % 5 * 4 / 5;
        assert(soft as int == four_fifths(grant)) by (nonlinear_arith)
            requires
                soft as int == grant as int / 5 * 4 + grant as int % 5 * 4 / 5,
                four_fifths(grant) == (grant as int * 4) / 5,
        ;
        let genome = AgentGenome {
            id: joined(parent.genome.id.as_str(), spec.role.as_str()),
            version: parent.genome.version.clone(),
            role: spec.role.clone(),
            autonomy: AutonomyConfig { can_spawn: false, max_spawn_depth: 0, max_children: 0 },
        };
        Agent {
            id: AgentId(new_uuid_v7()),
            mission_id: parent.mission_id,
            parent_agent_id: Some(parent.id),
            lineage_id: parent.lineage_id,
            name: joined(parent.name.as_str(), spec.role.as_str()),
            role: spec.role.clone(),
            genome,
            state: AgentState::Ready,
            lifecycle_mode: LifecycleMode::Ephemeral,
            budget: Budget {
                allocated_usd: grant,
                spent_usd: 0,
                soft_limit_usd: Some(soft),
                hard_limit_usd: Some(grant),
                recurring_monthly_usd: None,
            },
            delegable_permissions: permissions,
            turn_count: 0,
            created_at: now,
            updated_at: now,
        }
    }

    /// Makes the children of a validated request, at depth `depth`, in
    /// order, each with the permissions worked out for it (none when the
    /// list is short).
    pub fn create_children(
        &self,
        parent: &Agent,
        request: &SpawnRequest,
        child_permissions: &Vec<Vec<Permission>>,
        depth: u32,
    ) -> (children: Vec<Agent>)
        ensures
            children@.len() == request.children@.len(),
            forall|i: int|
                0 <= i < children@.len() ==> is_child_of(
                    #[trigger] children@[i],
                    *parent,
                    request.children@[i],
                    if i < child_permissions@.len() {
                        perm_names(child_permissions@[i]@)
                    } else {
                        Seq::empty()
                    },
                ),
    {
        let mut children: Vec<Agent> = Vec::new();
        let mut i: usize = 0;
        while i < request.children.len()
            invariant
                i <= request.children@.len(),
                children@.len() == i,
                forall|k: int|
                    0 <= k < i ==> is_child_of(
                        #[trigger] children@[k],
                        *parent,
                        request.children@[k],
                        if k < child_permissions@.len() {
                            perm_names(child_permissions@[k]@)
                        } else {
                            Seq::empty()
                        },
                    ),
            decreases request.children.len() - i,
        {
            let perms = if i < child_permissions.len() {
                copy_permissions(&child_permissions[i])
            } else {
                let v: Vec<Permission> = Vec::new();
                assert(perm_names(v@) =~= Seq::<Seq<char>>::empty());
                v
            };
            let child = self.create_child_agent(parent, &request.children[i], perms, depth);
            children.push(child);
            i = i + 1;
        }
        children
    }
}

/// What a successful validation yields.
pub struct ValidatedSpawn {
    pub child_permissions: Vec<Vec<Permission>>,
    /// Millionths of a dollar.
    pub total_cost: u128,
    pub effective_depth: u32,
}

/// A request passes only if the children fit the parent's budget, depth
/// and swarm limits, and ask only for permissions the parent can
/// delegate.
pub proof fn law_allowed_spawn_fits(
    parent: Agent,
    mission: Mission,
    req: SpawnRequest,
    agents: Seq<Agent>,
    depth: u32,
    limits: SwarmLimitsConfig,
)
    requires
        spawn_allowed(parent, mission, req, agents, depth, limits),
    ensures
        children_budget(req.children@) <= budget_remaining(parent.budget),
        depth < limits.max_spawn_depth,
        agents.len() + req.children@.len() <= limits.max_agents_per_mission,
        forall|i: int|
            0 <= i < req.children@.len() ==> !child_clashes(#[trigger] req.children@[i], agents),
        parent.state == AgentState::Active,
        mission.state == MissionState::Active,
{
    let c = req.children@;
    assert forall|i: int| 0 <= i < c.len() implies !child_clashes(#[trigger] c[i], agents) by {
        lemma_no_clash(c, agents, i);
    }
}

proof fn lemma_no_clash(children: Seq<ChildSpec>, agents: Seq<Agent>, i: int)
    requires
        first_clash(children, agents) is None,
        0 <= i < children.len(),
    ensures
        !child_clashes(children[i], agents),
    decreases children.len(),
{
    if i < children.len() - 1 {
        lemma_no_clash(children.drop_last(), agents, i);
    }
}

/// A child never receives a permission its parent cannot delegate.
pub proof fn law_child_grant_within_parent(c: ChildSpec, delegable: Seq<Permission>, k: int)
    requires
        0 <= k < child_grant(c, delegable).len(),
    ensures
        perm_listed(delegable, child_grant(c, delegable)[k]),
{
    match c.custom_permissions {
        Some(ps) => lemma_delegated_listed(ps@, delegable, k),
        None => {
            assert(delegable[k].0@ == perm_names(delegable)[k]);
        },
    }
}

proof fn lemma_delegated_listed(requested: Seq<Permission>, delegable: Seq<Permission>, k: int)
    requires
        0 <= k < delegated(requested, delegable).len(),
    ensures
        perm_listed(delegable, delegated(requested, delegable)[k]),
    decreases requested.len(),
{
    if requested.len() > 0 {
        let rest = delegated(requested.drop_last(), delegable);
        if perm_listed(delegable, requested.last().0@) {
            if k < rest.len() {
                lemma_delegated_listed(requested.drop_last(), delegable, k);
            }
        } else {
            lemma_delegated_listed(requested.drop_last(), delegable, k);
        }
    }
}

/// Every permission that a child of an accepted request asks for is one
/// that the parent lists as delegable; a single child asking for anything
/// else, whichever its place among the children, gets the request refused.
pub proof fn law_allowed_spawn_delegates_only(
    parent: Agent,
    mission: Mission,
    req: SpawnRequest,
    agents: Seq<Agent>,
    depth: u32,
    limits: SwarmLimitsConfig,
)
    requires
        spawn_allowed(parent, mission, req, agents, depth, limits),
    ensures
        forall|i: int, k: int|
            #![trigger req.children@[i].custom_permissions->0@[k]]
            0 <= i < req.children@.len() && req.children@[i].custom_permissions is Some && 0 <= k
                < req.children@[i].custom_permissions->0@.len() ==> exists|j: int|
                0 <= j < parent.delegable_permissions@.len() && #[trigger] parent.delegable_permissions@[j].0@
                    == req.children@[i].custom_permissions->0@[k].0@,
{
    let c = req.children@;
    let d = parent.delegable_permissions@;
    assert forall|i: int, k: int|
        #![trigger c[i].custom_permissions->0@[k]]
        0 <= i < c.len() && c[i].custom_permissions is Some && 0 <= k < c[i].custom_permissions->0@.len()
            implies exists|j: int| 0 <= j < d.len() && #[trigger] d[j].0@ == c[i].custom_permissions->0@[k].0@ by {
        lemma_undelegable_none(c, d, i);
        lemma_missing_none(c[i].custom_permissions->0@, d, k);
    }
}

proof fn lemma_undelegable_none(children: Seq<ChildSpec>, d: Seq<Permission>, i: int)
    requires
        first_undelegable(children, d) is None,
        0 <= i < children.len(),
    ensures
        children[i].custom_permissions matches Some(ps) ==> first_missing(ps@, d) is None,
    decreases children.len(),
{
    if i < children.len() - 1 {
        lemma_undelegable_none(children.drop_last(), d, i);
    }
}

proof fn lemma_missing_none(ps: Seq<Permission>, d: Seq<Permission>, k: int)
    requires
        first_missing(ps, d) is None,
        0 <= k < ps.len(),
    ensures
        perm_listed(d, ps[k].0@),
    decreases ps.len(),
{
    if k < ps.len() - 1 {
        lemma_missing_none(ps.drop_last(), d, k);
    }
}

} // verus!
