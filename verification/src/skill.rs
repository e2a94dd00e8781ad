//! Skills: reusable, signed procedures with a reviewed lifecycle, and the
//! registry that keeps them.
use vstd::prelude::*;
use crate::collections::{clone_opt_string, clone_strings, strings_contain};
use crate::domain::{MicroUsd, Permission, SkillId};
use crate::ids::{new_uuid_v7, now_millis, uuid_string, uuid_text};
use crate::text::str_equal;
use crate::json::{JsonValue, json_clone};
use crate::store::StoreError;
use crate::table::{Keyed, key_absent, keys_ascending, table_find, table_put};
use SkillState::{
    Active, Approved, Candidate, Deprecated, Failed, Quarantined, Rejected, Retired, Review, Scanning,
    Staged, Testing,
};

verus! {

/// Where a skill stands in its review lifecycle.
#[derive(Clone, Copy, Debug, PartialEq, Eq, Structural)]
pub enum SkillState {
    Candidate,
    Scanning,
    Testing,
    Review,
    Approved,
    Staged,
    Active,
    Deprecated,
    Quarantined,
    Retired,
    Rejected,
    Failed,
}

pub open spec fn skill_state_name(s: SkillState) -> Seq<char> {
    match s {
        Candidate => "Candidate"@,
        Scanning => "Scanning"@,
        Testing => "Testing"@,
        Review => "Review"@,
        Approved => "Approved"@,
        Staged => "Staged"@,
        Active => "Active"@,
        Deprecated => "Deprecated"@,
        Quarantined => "Quarantined"@,
        Retired => "Retired"@,
        Rejected => "Rejected"@,
        Failed => "Failed"@,
    }
}

impl SkillState {
    /// The variant's name, as `{:?}` prints it.
    pub fn name(&self) -> (s: &'static str)
        ensures
            s@ == skill_state_name(*self),
    {
        match self {
            Candidate => "Candidate",
            Scanning => "Scanning",
            Testing => "Testing",
            Review => "Review",
            Approved => "Approved",
            Staged => "Staged",
            Active => "Active",
            Deprecated => "Deprecated",
            Quarantined => "Quarantined",
            Retired => "Retired",
            Rejected => "Rejected",
            Failed => "Failed",
        }
    }
}

/// What running a skill costs.
#[derive(Clone, Copy, Debug, PartialEq, Eq, Structural)]
pub struct SkillCostProfile {
    pub estimated_cost_usd: MicroUsd,
    /// Milliseconds.
    pub average_duration_ms: u64,
}

/// A reusable procedure.
pub struct Skill {
    pub id: SkillId,
    pub name: String,
    pub purpose: String,
    pub version: String,
    pub input_schema: JsonValue,
    pub output_schema: JsonValue,
    pub steps: Vec<String>,
    pub required_tools: Vec<String>,
    pub required_permissions: Vec<Permission>,
    pub state: SkillState,
    pub signature: Option<String>,
    pub cost_profile: SkillCostProfile,
    /// Milliseconds since the epoch.
    pub created_at: i64,
    /// Milliseconds since the epoch.
    pub updated_at: i64,
}

impl Keyed for Skill {
    open spec fn key(&self) -> u128 {
        self.id.0
    }

    fn key_of(&self) -> (k: u128) {
        self.id.0
    }
}

/// `b` is a copy of `a`.
pub open spec fn skill_copy(a: Skill, b: Skill) -> bool {
    &&& b.id == a.id
    &&& b.name == a.name
    &&& b.purpose == a.purpose
    &&& b.version == a.version
    &&& b.input_schema@ == a.input_schema@
    &&& b.output_schema@ == a.output_schema@
    &&& b.steps@ == a.steps@
    &&& b.required_tools@ == a.required_tools@
    &&& b.required_permissions@ == a.required_permissions@
    &&& b.state == a.state
    &&& b.signature == a.signature
    &&& b.cost_profile == a.cost_profile
    &&& b.created_at == a.created_at
    &&& b.updated_at == a.updated_at
}

fn clone_permissions(v: &Vec<Permission>) -> (r: Vec<Permission>)
    ensures
        r@ == v@,
{
    let mut out: Vec<Permission> = Vec::new();
    let mut i: usize = 0;
    while i < v.len()
        invariant
            i <= v.len(),
            out@ =~= v@.subrange(0, i as int),
        decreases v.len() - i,
    {
        out.push(Permission(v[i].0.clone()));
        i = i + 1;
    }
    out
}

impl Skill {
    /// A copy of the skill.
    pub fn duplicate(&self) -> (r: Skill)
        ensures
            skill_copy(*self, r),
    {
        let steps = clone_strings(&self.steps);
        let tools = clone_strings(&self.required_tools);
        Skill {
            id: self.id,
            name: self.name.clone(),
            purpose: self.purpose.clone(),
            version: self.version.clone(),
            input_schema: json_clone(&self.input_schema),
            output_schema: json_clone(&self.output_schema),
            steps,
            required_tools: tools,
            required_permissions: clone_permissions(&self.required_permissions),
            state: self.state,
            signature: clone_opt_string(&self.signature),
            cost_profile: self.cost_profile,
            created_at: self.created_at,
            updated_at: self.updated_at,
        }
    }
}

/// A recorded version of a skill.
pub struct SkillVersion {
    pub skill_id: SkillId,
    pub version: String,
    pub previous_version: Option<String>,
    pub change_log: String,
    pub is_deprecated: bool,
    /// Milliseconds since the epoch.
    pub created_at: i64,
}

impl SkillVersion {
    /// A field-by-field copy.
    pub fn duplicate(&self) -> (r: SkillVersion)
        ensures
            r == *self,
    {
        SkillVersion {
            skill_id: self.skill_id,
            version: self.version.clone(),
            previous_version: clone_opt_string(&self.previous_version),
            change_log: self.change_log.clone(),
            is_deprecated: self.is_deprecated,
            created_at: self.created_at,
        }
    }
}

/// A version record is identified by its skill and its version text.
pub open spec fn same_version_key(a: SkillVersion, id: SkillId, version: Seq<char>) -> bool {
    a.skill_id == id && a.version@ == version
}

/// No two records share a skill and a version text.
pub open spec fn version_keys_unique(s: Seq<SkillVersion>) -> bool {
    forall|i: int, j: int|
        0 <= i < j < s.len() ==> !same_version_key(#[trigger] s[i], s[j].skill_id, (#[trigger] s[j]).version@)
}

/// The record that `create_version` writes for these arguments.
pub open spec fn version_record(
    v: SkillVersion,
    id: SkillId,
    version: Seq<char>,
    previous: Option<String>,
    change_log: Seq<char>,
) -> bool {
    &&& v.skill_id == id
    &&& v.version@ == version
    &&& v.previous_version == previous
    &&& v.change_log@ == change_log
    &&& !v.is_deprecated
}

/// `new` is `old` with `rec` written under its key: a record with the same
/// key is replaced in place, otherwise `rec` is appended.
pub open spec fn versions_after_write(old: Seq<SkillVersion>, new: Seq<SkillVersion>, rec: SkillVersion) -> bool {
    if exists|i: int| 0 <= i < old.len() && same_version_key(#[trigger] old[i], rec.skill_id, rec.version@) {
        exists|i: int|
            0 <= i < old.len() && same_version_key(#[trigger] old[i], rec.skill_id, rec.version@) && new
                == old.update(i, rec)
    } else {
        new == old.push(rec)
    }
}

/// Why a skill operation failed.
pub enum SkillError {
    NotFound(String),
    InvalidTransition { from: SkillState, to: SkillState },
    Unsigned,
    Store(StoreError),
}

impl SkillError {
    /// The message of the error, as its `Display` prints it.
    pub fn to_string(&self) -> (s: String)
        ensures
            s@ == match self {
                SkillError::NotFound(n) => "skill not found: "@ + n@,
                SkillError::InvalidTransition { from, to } => "invalid state transition: "@
                    + skill_state_name(*from) + " -> "@ + skill_state_name(*to),
                SkillError::Unsigned => "unsigned skills cannot be made active"@,
                SkillError::Store(e) => match e {
                    StoreError::Serialization(m) => "Serialization error: "@ + m@,
                    StoreError::Database(m) => "Database error: "@ + m@,
                    StoreError::NotFound(m) => "Not found: "@ + m@,
                },
            },
    {
        match self {
            SkillError::NotFound(n) => {
                let mut s = String::from_str("skill not found: ");
                s.append(n.as_str());
                s
            },
            SkillError::InvalidTransition { from, to } => {
                let mut s = String::from_str("invalid state transition: ");
                s.append(from.name());
                s.append(" -> ");
                s.append(to.name());
                s
            },
            SkillError::Unsigned => String::from_str("unsigned skills cannot be made active"),
            SkillError::Store(e) => e.to_string(),
        }
    }
}

/// The moves the skill lifecycle allows:
/// Candidate -> Scanning; Scanning -> Testing | Rejected;
/// Testing -> Review | Failed; Review -> Approved | Rejected;
/// Approved -> Staged; Staged -> Active; Active -> Deprecated | Quarantined;
/// Deprecated -> Retired | Active; Quarantined -> Scanning | Retired.
pub open spec fn skill_transition_allowed(from: SkillState, to: SkillState) -> bool {
    match (from, to) {
        (Candidate, Scanning) => true,
        (Scanning, Testing) | (Scanning, Rejected) => true,
        (Testing, Review) | (Testing, Failed) => true,
        (Review, Approved) | (Review, Rejected) => true,
        (Approved, Staged) => true,
        (Staged, Active) => true,
        (Active, Deprecated) | (Active, Quarantined) => true,
        (Deprecated, Retired) | (Deprecated, Active) => true,
        (Quarantined, Scanning) | (Quarantined, Retired) => true,
        _ => false,
    }
}

/// Is the move allowed by the skill lifecycle?
pub fn is_valid_transition(from: &SkillState, to: &SkillState) -> (r: bool)
    ensures
        r == skill_transition_allowed(*from, *to),
{
    match (from, to) {
        (Candidate, Scanning) => true,
        (Scanning, Testing) | (Scanning, Rejected) => true,
        (Testing, Review) | (Testing, Failed) => true,
        (Review, Approved) | (Review, Rejected) => true,
        (Approved, Staged) => true,
        (Staged, Active) => true,
        (Active, Deprecated) | (Active, Quarantined) => true,
        (Deprecated, Retired) | (Deprecated, Active) => true,
        (Quarantined, Scanning) | (Quarantined, Retired) => true,
        _ => false,
    }
}

/// The skill with only `state` and `updated_at` changed.
pub open spec fn skill_moved(old: Skill, new: Skill, to: SkillState) -> bool {
    &&& new.state == to
    &&& new.id == old.id
    &&& new.name == old.name
    &&& new.purpose == old.purpose
    &&& new.version == old.version
    &&& new.input_schema == old.input_schema
    &&& new.output_schema == old.output_schema
    &&& new.steps == old.steps
    &&& new.required_tools == old.required_tools
    &&& new.required_permissions == old.required_permissions
    &&& new.signature == old.signature
    &&& new.cost_profile == old.cost_profile
    &&& new.created_at == old.created_at
}

/// The skill with only `signature` and `updated_at` changed.
pub open spec fn skill_signed(old: Skill, new: Skill, signature: Seq<char>) -> bool {
    &&& new.signature matches Some(sig) && sig@ == signature
    &&& new.id == old.id
    &&& new.name == old.name
    &&& new.purpose == old.purpose
    &&& new.version == old.version
    &&& new.input_schema == old.input_schema
    &&& new.output_schema == old.output_schema
    &&& new.steps == old.steps
    &&& new.required_tools == old.required_tools
    &&& new.required_permissions == old.required_permissions
    &&& new.state == old.state
    &&& new.cost_profile == old.cost_profile
    &&& new.created_at == old.created_at
}

/// The skills of `s` in a given state, in order.
pub open spec fn skills_in_state(s: Seq<Skill>, st: SkillState) -> Seq<Skill>
    decreases s.len(),
{
    if s.len() == 0 {
        s
    } else if s.last().state == st {
        skills_in_state(s.drop_last(), st).push(s.last())
    } else {
        skills_in_state(s.drop_last(), st)
    }
}

/// Does the skill require a tool of that name?
pub open spec fn requires_tool(sk: Skill, tool: Seq<char>) -> bool {
    exists|j: int| 0 <= j < sk.required_tools@.len() && #[trigger] sk.required_tools@[j]@ == tool
}

/// The skills of `s` that require a tool, in order.
pub open spec fn skills_requiring(s: Seq<Skill>, tool: Seq<char>) -> Seq<Skill>
    decreases s.len(),
{
    if s.len() == 0 {
        s
    } else if requires_tool(s.last(), tool) {
        skills_requiring(s.drop_last(), tool).push(s.last())
    } else {
        skills_requiring(s.drop_last(), tool)
    }
}

/// How many skills of `s` are in a state.
pub open spec fn count_in_state(s: Seq<Skill>, st: SkillState) -> nat {
    skills_in_state(s, st).len()
}

/// `r` is a copy of `s`, element by element.
pub open spec fn copies_of(s: Seq<Skill>, r: Seq<Skill>) -> bool {
    &&& r.len() == s.len()
    &&& forall|i: int| 0 <= i < s.len() ==> skill_copy(#[trigger] s[i], r[i])
}

/// After putting the record `x` (whose copy is `r`) into `old`, the table
/// holds `x` in place of any record with its id, and every other record.
pub open spec fn skills_after_put(old: Seq<Skill>, new: Seq<Skill>, r: Skill) -> bool {
    &&& exists|y: Skill| new.contains(y) && y.id == r.id
    &&& forall|y: Skill| new.contains(y) ==> (y.id == r.id && skill_copy(y, r)) || (old.contains(y) && y.id != r.id)
    &&& forall|y: Skill| old.contains(y) && y.id != r.id ==> new.contains(y)
}

/// `(state name, count)` for each state of `states` that some skill of
/// `s` is in, in the order of `states`.
pub open spec fn state_counts(states: Seq<SkillState>, s: Seq<Skill>) -> Seq<(Seq<char>, nat)>
    decreases states.len(),
{
    if states.len() == 0 {
        Seq::empty()
    } else if count_in_state(s, states.last()) > 0 {
        state_counts(states.drop_last(), s).push(
            (skill_state_name(states.last()), count_in_state(s, states.last())),
        )
    } else {
        state_counts(states.drop_last(), s)
    }
}

/// The content of count entries.
pub open spec fn count_entries(v: Seq<(String, usize)>) -> Seq<(Seq<char>, nat)> {
    Seq::new(v.len(), |i: int| (v[i].0@, v[i].1 as nat))
}

/// Every state, in declaration order.
pub open spec fn all_skill_states() -> Seq<SkillState> {
    seq![Candidate, Scanning, Testing, Review, Approved, Staged, Active, Deprecated, Quarantined, Retired, Rejected, Failed]
}

/// The skill registry: skills in ascending id order, and their recorded
/// versions.
pub struct SkillService {
    skills: Vec<Skill>,
    versions: Vec<SkillVersion>,
}

impl SkillService {
    /// The registered skills, in ascending id order.
    pub closed spec fn skills(&self) -> Seq<Skill> {
        self.skills@
    }

    /// The recorded versions.
    pub closed spec fn versions(&self) -> Seq<SkillVersion> {
        self.versions@
    }

    #[verifier::type_invariant]
    closed spec fn wf(&self) -> bool {
        keys_ascending(self.skills@) && version_keys_unique(self.versions@)
    }

    /// An empty registry.
    pub fn new() -> (s: SkillService)
        ensures
            s.skills().len() == 0,
            s.versions().len() == 0,
    {
        SkillService { skills: Vec::new(), versions: Vec::new() }
    }

    /// Registers a new skill in `Candidate` state, unsigned.
    pub fn create_skill(
        &mut self,
        name: String,
        purpose: String,
        version: String,
        input_schema: JsonValue,
        output_schema: JsonValue,
        steps: Vec<String>,
        required_tools: Vec<String>,
        required_permissions: Vec<Permission>,
        cost_profile: SkillCostProfile,
    ) -> (r: Result<Skill, SkillError>)
        ensures
            r matches Ok(sk) && {
                &&& sk.name == name
                &&& sk.purpose == purpose
                &&& sk.version == version
                &&& sk.input_schema@ == input_schema@
                &&& sk.output_schema@ == output_schema@
                &&& sk.steps@ == steps@
                &&& sk.required_tools@ == required_tools@
                &&& sk.required_permissions@ == required_permissions@
                &&& sk.state == Candidate
                &&& sk.signature is None
                &&& sk.cost_profile == cost_profile
                &&& sk.created_at == sk.updated_at
                &&& skills_after_put(old(self).skills(), final(self).skills(), sk)
            },
            final(self).versions() == old(self).versions(),
    {
        let now = now_millis();
        let skill = Skill {
            id: SkillId(new_uuid_v7()),
            name,
            purpose,
            version,
            input_schema,
            output_schema,
            steps,
            required_tools,
            required_permissions,
            state: Candidate,
            signature: None,
            cost_profile,
            created_at: now,
            updated_at: now,
        };
        let copy = skill.duplicate();
        let mut v: Vec<Skill> = Vec::new();
        proof {
            use_type_invariant(&*self);
        }
        std::mem::swap(&mut v, &mut self.skills);
        let ghost before = v@;
        table_put(&mut v, skill);
        proof {
            assert(v@.contains(skill));
            assert(skill.key() == copy.id.0);
            assert forall|y: Skill| v@.contains(y) implies (y.id == copy.id && skill_copy(y, copy)) || (before.contains(y) && y.id != copy.id) by {
                if y == skill {
                } else {
                    assert(y.key() != skill.key());
                }
            }
            assert forall|y: Skill| before.contains(y) && y.id != copy.id implies v@.contains(y) by {
                assert(y.key() != skill.key());
            }
        }
        self.skills = v;
        Ok(copy)
    }

    /// Moves a skill through its lifecycle. Becoming `Active` also needs a
    /// signature. On any refusal the registry is left as it was.
    pub fn transition_state(&mut self, id: &SkillId, to: SkillState) -> (r: Result<Skill, SkillError>)
        ensures
            final(self).versions() == old(self).versions(),
            key_absent(old(self).skills(), id.0) ==> (r matches Err(SkillError::NotFound(n)) && n@ == uuid_text(id.0))
                && final(self).skills() == old(self).skills(),
            forall|i: int| 0 <= i < old(self).skills().len() && #[trigger] old(self).skills()[i].id == *id ==> {
                let s = old(self).skills()[i];
                if !skill_transition_allowed(s.state, to) {
                    r == Err::<Skill, SkillError>(SkillError::InvalidTransition { from: s.state, to })
                        && final(self).skills() == old(self).skills()
                } else if to == Active && s.signature is None {
                    r == Err::<Skill, SkillError>(SkillError::Unsigned) && final(self).skills() == old(self).skills()
                } else {
                    r matches Ok(c) && final(self).skills().len() == old(self).skills().len()
                        && skill_moved(s, final(self).skills()[i], to)
                        && skill_copy(final(self).skills()[i], c)
                        && forall|j: int| 0 <= j < old(self).skills().len() && j != i ==> final(self).skills()[j]
                            == old(self).skills()[j]
                }
            },
    {
        proof {
            use_type_invariant(&*self);
        }
        let found = table_find(&self.skills, id.0);
        let i = match found {
            None => return Err(SkillError::NotFound(uuid_string(id.0))),
            Some(i) => i,
        };
        proof {
            assert(self.skills@[i as int].id == *id);
            assert forall|k: int| 0 <= k < self.skills@.len() && #[trigger] self.skills@[k].id == *id implies k == i by {
                crate::table::lemma_key_unique(self.skills@, k, i as int);
            }
        }
        let from = self.skills[i].state;
        if !is_valid_transition(&from, &to) {
            return Err(SkillError::InvalidTransition { from, to });
        }
        if to == Active && self.skills[i].signature.is_none() {
            return Err(SkillError::Unsigned);
        }
        let now = now_millis();
        let mut v: Vec<Skill> = Vec::new();
        std::mem::swap(&mut v, &mut self.skills);
        let ghost before = v@;
        let mut s = v.remove(i);
        s.state = to;
        s.updated_at = now;
        let copy = s.duplicate();
        v.insert(i, s);
        proof {
            assert(v@[i as int] == s);
            assert(v@.len() == before.len());
            assert forall|j: int| 0 <= j < before.len() && j != i implies v@[j] == before[j] by {}
            assert forall|a: int, b: int| 0 <= a < b < v@.len() implies v@[a].key() < v@[b].key() by {
                assert(before[a].key() < before[b].key());
            }
        }
        self.skills = v;
        Ok(copy)
    }

    /// Signs a skill so that it can be activated.
    pub fn sign_skill(&mut self, id: &SkillId, signature: String) -> (r: Result<Skill, SkillError>)
        ensures
            final(self).versions() == old(self).versions(),
            key_absent(old(self).skills(), id.0) ==> (r matches Err(SkillError::NotFound(n)) && n@ == uuid_text(id.0))
                && final(self).skills() == old(self).skills(),
            forall|i: int| 0 <= i < old(self).skills().len() && #[trigger] old(self).skills()[i].id == *id ==> {
                r matches Ok(c) && final(self).skills().len() == old(self).skills().len()
                    && skill_signed(old(self).skills()[i], final(self).skills()[i], signature@)
                    && skill_copy(final(self).skills()[i], c)
                    && forall|j: int| 0 <= j < old(self).skills().len() && j != i ==> final(self).skills()[j]
                        == old(self).skills()[j]
            },
    {
        proof {
            use_type_invariant(&*self);
        }
        let found = table_find(&self.skills, id.0);
        let i = match found {
            None => return Err(SkillError::NotFound(uuid_string(id.0))),
            Some(i) => i,
        };
        proof {
            assert(self.skills@[i as int].id == *id);
            assert forall|k: int| 0 <= k < self.skills@.len() && #[trigger] self.skills@[k].id == *id implies k == i by {
                crate::table::lemma_key_unique(self.skills@, k, i as int);
            }
        }
        let now = now_millis();
        let mut v: Vec<Skill> = Vec::new();
        std::mem::swap(&mut v, &mut self.skills);
        let ghost before = v@;
        let mut s = v.remove(i);
        s.signature = Some(signature);
        s.updated_at = now;
        let copy = s.duplicate();
        v.insert(i, s);
        proof {
            assert(v@[i as int] == s);
            assert(v@.len() == before.len());
            assert forall|j: int| 0 <= j < before.len() && j != i implies v@[j] == before[j] by {}
            assert forall|a: int, b: int| 0 <= a < b < v@.len() implies v@[a].key() < v@[b].key() by {
                assert(before[a].key() < before[b].key());
            }
        }
        self.skills = v;
        Ok(copy)
    }

    /// Records a version entry for a registered skill; a record with the
    /// same skill and version text is overwritten.
    pub fn create_version(
        &mut self,
        skill_id: &SkillId,
        version: String,
        previous_version: Option<String>,
        change_log: String,
    ) -> (r: Result<SkillVersion, SkillError>)
        ensures
            final(self).skills() == old(self).skills(),
            key_absent(old(self).skills(), skill_id.0) ==> (r matches Err(SkillError::NotFound(n)) && n@ == uuid_text(
                skill_id.0,
            )) && final(self).versions() == old(self).versions(),
            !key_absent(old(self).skills(), skill_id.0) ==> (r matches Ok(sv) && version_record(
                sv,
                *skill_id,
                version@,
                previous_version,
                change_log@,
            ) && versions_after_write(old(self).versions(), final(self).versions(), sv)),
    {
        proof {
            use_type_invariant(&*self);
        }
        if table_find(&self.skills, skill_id.0).is_none() {
            return Err(SkillError::NotFound(uuid_string(skill_id.0)));
        }
        let now = now_millis();
        let sv = SkillVersion {
            skill_id: *skill_id,
            version,
            previous_version,
            change_log,
            is_deprecated: false,
            created_at: now,
        };
        let mut found: Option<usize> = None;
        let mut i: usize = 0;
        while i < self.versions.len()
            invariant_except_break
                i <= self.versions@.len(),
                found is None,
                forall|j: int| 0 <= j < i ==> !same_version_key(#[trigger] self.versions@[j], sv.skill_id, sv.version@),
            ensures
                found is None ==> forall|j: int|
                    0 <= j < self.versions@.len() ==> !same_version_key(
                        #[trigger] self.versions@[j],
                        sv.skill_id,
                        sv.version@,
                    ),
                found matches Some(k) ==> k < self.versions@.len() && same_version_key(
                    self.versions@[k as int],
                    sv.skill_id,
                    sv.version@,
                ),
            decreases self.versions.len() - i,
        {
            if self.versions[i].skill_id == sv.skill_id && str_equal(self.versions[i].version.as_str(), sv.version.as_str()) {
                found = Some(i);
                break;
            }
            i = i + 1;
        }
        let copy = sv.duplicate();
        let mut v: Vec<SkillVersion> = Vec::new();
        std::mem::swap(&mut v, &mut self.versions);
        let ghost before = v@;
        match found {
            Some(k) => {
                proof {
                    assert(same_version_key(before[k as int], sv.skill_id, sv.version@));
                }
                v.set(k, sv);
                proof {
                    assert(v@ == before.update(k as int, copy));
                    assert forall|a: int, b: int| 0 <= a < b < v@.len() implies !same_version_key(
                        #[trigger] v@[a],
                        v@[b].skill_id,
                        (#[trigger] v@[b]).version@,
                    ) by {
                        assert(!same_version_key(before[a], before[b].skill_id, before[b].version@));
                    }
                }
            },
            None => {
                v.push(sv);
                proof {
                    assert(v@ == before.push(copy));
                    assert forall|a: int, b: int| 0 <= a < b < v@.len() implies !same_version_key(
                        #[trigger] v@[a],
                        v@[b].skill_id,
                        (#[trigger] v@[b]).version@,
                    ) by {
                        if b < before.len() {
                            assert(!same_version_key(before[a], before[b].skill_id, before[b].version@));
                        }
                    }
                }
            },
        }
        self.versions = v;
        Ok(copy)
    }

    /// The skill with that id, if registered.
    pub fn get_skill(&self, id: &SkillId) -> (r: Result<Option<Skill>, SkillError>)
        ensures
            key_absent(self.skills(), id.0) ==> r matches Ok(None),
            forall|i: int| 0 <= i < self.skills().len() && #[trigger] self.skills()[i].id == *id ==> (r matches Ok(
                Some(c),
            ) && skill_copy(self.skills()[i], c)),
    {
        proof {
            use_type_invariant(self);
        }
        match table_find(&self.skills, id.0) {
            None => {
                assert forall|k: int| 0 <= k < self.skills@.len() implies #[trigger] self.skills@[k].id != *id by {
                    assert(self.skills@[k].key() != id.0);
                }
                Ok(None)
            },
            Some(i) => {
                proof {
                    assert(self.skills@[i as int].id == *id);
                    assert forall|k: int| 0 <= k < self.skills@.len() && #[trigger] self.skills@[k].id == *id implies k == i by {
                        crate::table::lemma_key_unique(self.skills@, k, i as int);
                    }
                }
                let d = self.skills[i].duplicate();
                assert(skill_copy(self.skills()[i as int], d));
                Ok(Some(d))
            },
        }
    }

    /// All skills, or those in the given state, in ascending id order.
    pub fn list_skills(&self, state_filter: Option<SkillState>) -> (r: Result<Vec<Skill>, SkillError>)
        ensures
            r matches Ok(v) && match state_filter {
                Some(st) => copies_of(skills_in_state(self.skills(), st), v@),
                None => copies_of(self.skills(), v@),
            },
    {
        let mut out: Vec<Skill> = Vec::new();
        let mut i: usize = 0;
        while i < self.skills.len()
            invariant
                i <= self.skills@.len(),
                match state_filter {
                    Some(st) => copies_of(skills_in_state(self.skills@.subrange(0, i as int), st), out@),
                    None => copies_of(self.skills@.subrange(0, i as int), out@),
                },
            decreases self.skills.len() - i,
        {
            let ghost pre = self.skills@.subrange(0, i as int);
            let ghost post = self.skills@.subrange(0, i + 1);
            assert(post.drop_last() =~= pre);
            let keep = match state_filter {
                Some(st) => self.skills[i].state == st,
                None => true,
            };
            if keep {
                let c = self.skills[i].duplicate();
                out.push(c);
            }
            i = i + 1;
        }
        assert(self.skills@.subrange(0, self.skills@.len() as int) =~= self.skills@);
        Ok(out)
    }

    /// The skills that require a tool of that name, in ascending id order.
    pub fn list_by_required_tool(&self, tool_name: &str) -> (r: Result<Vec<Skill>, SkillError>)
        ensures
            r matches Ok(v) && copies_of(skills_requiring(self.skills(), tool_name@), v@),
    {
        let mut out: Vec<Skill> = Vec::new();
        let mut i: usize = 0;
        while i < self.skills.len()
            invariant
                i <= self.skills@.len(),
                copies_of(skills_requiring(self.skills@.subrange(0, i as int), tool_name@), out@),
            decreases self.skills.len() - i,
        {
            let ghost pre = self.skills@.subrange(0, i as int);
            let ghost post = self.skills@.subrange(0, i + 1);
            assert(post.drop_last() =~= pre);
            if strings_contain(&self.skills[i].required_tools, tool_name) {
                let c = self.skills[i].duplicate();
                out.push(c);
            }
            i = i + 1;
        }
        assert(self.skills@.subrange(0, self.skills@.len() as int) =~= self.skills@);
        Ok(out)
    }

    /// How many skills are in each state: one `(state name, count)` entry
    /// for each state that at least one skill is in, in declaration order.
    pub fn count_by_state(&self) -> (r: Result<Vec<(String, usize)>, SkillError>)
        ensures
            r matches Ok(v) && count_entries(v@) == state_counts(all_skill_states(), self.skills()),
    {
        let states: Vec<SkillState> = vec![
            Candidate, Scanning, Testing, Review, Approved, Staged, Active, Deprecated, Quarantined, Retired,
            Rejected, Failed,
        ];
        let mut out: Vec<(String, usize)> = Vec::new();
        let mut k: usize = 0;
        while k < states.len()
            invariant
                k <= states@.len(),
                count_entries(out@) == state_counts(states@.subrange(0, k as int), self.skills@),
            decreases states.len() - k,
        {
            let ghost pre = states@.subrange(0, k as int);
            let ghost post = states@.subrange(0, k + 1);
            assert(post.drop_last() =~= pre);
            let st = states[k];
            let n = self.count_state(st);
            let ghost before = out@;
            if n > 0 {
                out.push((String::from_str(st.name()), n));
                assert(count_entries(out@) =~= count_entries(before).push((skill_state_name(st), n as nat)));
            }
            k = k + 1;
        }
        assert(states@.subrange(0, states@.len() as int) =~= all_skill_states());
        Ok(out)
    }

    fn count_state(&self, st: SkillState) -> (n: usize)
        ensures
            n == count_in_state(self.skills@, st),
    {
        let mut n: usize = 0;
        let mut i: usize = 0;
        while i < self.skills.len()
            invariant
                i <= self.skills@.len(),
                n == count_in_state(self.skills@.subrange(0, i as int), st),
                n <= i,
            decreases self.skills.len() - i,
        {
            let ghost pre = self.skills@.subrange(0, i as int);
            let ghost post = self.skills@.subrange(0, i + 1);
            assert(post.drop_last() =~= pre);
            if self.skills[i].state == st {
                n = n + 1;
            }
            i = i + 1;
        }
        assert(self.skills@.subrange(0, self.skills@.len() as int) =~= self.skills@);
        n
    }
}

/// `Retired`, `Rejected` and `Failed` end the lifecycle, and a skill only
/// becomes active from `Staged` or `Deprecated`.
pub proof fn law_skill_lifecycle_shape(to: SkillState, from: SkillState)
    ensures
        !skill_transition_allowed(Retired, to),
        !skill_transition_allowed(Rejected, to),
        !skill_transition_allowed(Failed, to),
        skill_transition_allowed(from, Active) ==> from == Staged || from == Deprecated,
{
}

} // verus!
