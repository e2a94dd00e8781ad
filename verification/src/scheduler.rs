//! Cron schedules of agents: validated on entry, kept per agent in the
//! order they were added, and checked for being due.
use vstd::prelude::*;
use crate::domain::AgentId;
use crate::ids::{uuid_string, uuid_text};
use crate::table::{Keyed, key_absent, keys_ascending, lemma_key_unique, table_find, table_put};
use crate::text::{decimal_text, push_decimal};

verus! {

#[verifier::external_type_specification]
#[verifier::external_body]
pub struct ExCronSchedule(cron::Schedule);

#[verifier::external_type_specification]
#[verifier::external_body]
pub struct ExTz(chrono_tz::Tz);

/// The name for how the `cron` crate parses an expression: `None` when
/// `cron::Schedule::from_str` accepts it, else the text of its error.
pub uninterp spec fn cron_parse_error(expr: Seq<char>) -> Option<Seq<char>>;

/// The name for whether `chrono_tz` knows a time-zone name (it looks the
/// name up in its table of IANA zones).
pub uninterp spec fn timezone_known(name: Seq<char>) -> bool;

/// Parses a cron expression (`cron::Schedule::from_str`). Claimed: it
/// succeeds exactly when `cron_parse_error` is `None`, and fails with the
/// text of the crate's error otherwise, both functions of the text alone.
#[verifier::external_body]
fn parse_cron(expr: &str) -> (r: Result<cron::Schedule, String>)
    ensures
        r is Ok <==> cron_parse_error(expr@) is None,
        r matches Err(m) ==> cron_parse_error(expr@) == Some(m@),
{
    match <cron::Schedule as std::str::FromStr>::from_str(expr) {
        Ok(s) => Ok(s),
        Err(e) => Err(e.to_string()),
    }
}

/// Parses a time-zone name (`chrono_tz::Tz::from_str`). Claimed: it
/// succeeds exactly when the name is known, and its error always prints
/// "failed to parse timezone", as the crate's `Display` for `ParseError`
/// writes.
#[verifier::external_body]
fn parse_timezone(name: &str) -> (r: Result<chrono_tz::Tz, String>)
    ensures
        r is Ok <==> timezone_known(name@),
        r matches Err(m) ==> m@ == "failed to parse timezone"@,
{
    match name.parse::<chrono_tz::Tz>() {
        Ok(tz) => Ok(tz),
        Err(e) => Err(e.to_string()),
    }
}

/// The name for the first time, in milliseconds since the epoch, at which
/// a cron expression read in a named zone fires after the instant `now`
/// (milliseconds since the epoch): what `cron::Schedule::after`, started
/// at `now` in that zone, yields first. `None` when it yields nothing or
/// `now` is out of the calendar's range. It depends on its arguments alone.
pub uninterp spec fn next_fire_after(expr: Seq<char>, zone: Seq<char>, now: i64) -> Option<i64>;

/// The earliest instant, in milliseconds since the epoch, that a schedule
/// can be checked at: a day after the first instant `chrono` represents,
/// so that no zone's offset takes the local time out of its range.
pub const EARLIEST_CHECK_MILLIS: i64 = -8_334_601_228_800_000;

/// The latest instant, in milliseconds since the epoch, that a schedule
/// can be checked at: a day before the last instant `chrono` represents.
/// `cron` steps a second past the instant it starts from and reads its
/// local date, which panics within an offset of `chrono`'s limits.
pub const LATEST_CHECK_MILLIS: i64 = 8_210_266_790_399_999;

/// The first fire time after `now` of a cron expression in a zone
/// (`cron::Schedule::after(..).next()`, the expression and zone read by
/// `cron::Schedule::from_str` and `chrono_tz::Tz::from_str`, `now` placed
/// in the zone by `chrono`). Claimed: the result is `next_fire_after` of
/// the arguments.
#[verifier::external_body]
fn fire_after(expr: &str, zone: &str, now: i64) -> (r: Option<i64>)
    requires
        cron_parse_error(expr@) is None,
        timezone_known(zone@),
        EARLIEST_CHECK_MILLIS <= now <= LATEST_CHECK_MILLIS,
    ensures
        r == next_fire_after(expr@, zone@, now),
{
    let schedule = <cron::Schedule as std::str::FromStr>::from_str(expr).ok()?;
    let tz = zone.parse::<chrono_tz::Tz>().ok()?;
    let start = chrono::TimeZone::timestamp_millis_opt(&chrono::Utc, now).single()?.with_timezone(&tz);
    schedule.after(&start).next().map(|t| t.timestamp_millis())
}

/// A recurring schedule: a cron expression read in a named time zone.
pub struct AgentSchedule {
    pub cron: String,
    pub timezone: String,
}

impl View for AgentSchedule {
    type V = (Seq<char>, Seq<char>);

    open spec fn view(&self) -> (Seq<char>, Seq<char>) {
        (self.cron@, self.timezone@)
    }
}

impl AgentSchedule {
    /// A copy of the schedule.
    pub fn duplicate(&self) -> (r: AgentSchedule)
        ensures
            r@ == self@,
    {
        AgentSchedule { cron: self.cron.clone(), timezone: self.timezone.clone() }
    }
}

/// A schedule found due, with the agent it belongs to.
pub struct DueSchedule {
    pub agent_id: AgentId,
    pub schedule: AgentSchedule,
}

impl View for DueSchedule {
    type V = (u128, (Seq<char>, Seq<char>));

    open spec fn view(&self) -> (u128, (Seq<char>, Seq<char>)) {
        (self.agent_id.0, self.schedule@)
    }
}

/// The agent and schedule texts of each due schedule.
pub open spec fn due_views(v: Seq<DueSchedule>) -> Seq<(u128, (Seq<char>, Seq<char>))> {
    Seq::new(v.len(), |a: int| v[a]@)
}

/// A schedule is due at `now`: its expression parses, its zone is known,
/// and its first fire time after `now` lies within a minute of it.
pub open spec fn schedule_due(s: (Seq<char>, Seq<char>), now: i64) -> bool {
    schedule_parses(s) && match next_fire_after(s.0, s.1, now) {
        Some(u) => fires_within_minute(u as int, now as int),
        None => false,
    }
}

/// The entries of `all` whose schedule is due at `now`, in order.
pub open spec fn due_among(all: Seq<(u128, (Seq<char>, Seq<char>))>, now: i64) -> Seq<(u128, (Seq<char>, Seq<char>))>
    decreases all.len(),
{
    if all.len() == 0 {
        Seq::empty()
    } else {
        let rest = due_among(all.drop_last(), now);
        if schedule_due(all.last().1, now) {
            rest.push(all.last())
        } else {
            rest
        }
    }
}

/// Why a scheduling operation failed.
pub enum SchedulerError {
    InvalidCron(String),
    AgentNotFound(String),
    ScheduleNotFound { agent_id: String, schedule_id: String },
    InvalidTimezone(String),
    Other(String),
}

impl SchedulerError {
    /// The message of the error, as its `Display` prints it.
    pub fn to_string(&self) -> (s: String)
        ensures
            s@ == match self {
                SchedulerError::InvalidCron(m) => "invalid cron expression: "@ + m@,
                SchedulerError::AgentNotFound(m) => "agent not found: "@ + m@,
                SchedulerError::ScheduleNotFound { agent_id, schedule_id } => "schedule not found for agent "@
                    + agent_id@ + ": "@ + schedule_id@,
                SchedulerError::InvalidTimezone(m) => "timezone parsing failed: "@ + m@,
                SchedulerError::Other(m) => m@,
            },
    {
        match self {
            SchedulerError::InvalidCron(m) => {
                let mut s = String::from_str("invalid cron expression: ");
                s.append(m.as_str());
                s
            },
            SchedulerError::AgentNotFound(m) => {
                let mut s = String::from_str("agent not found: ");
                s.append(m.as_str());
                s
            },
            SchedulerError::ScheduleNotFound { agent_id, schedule_id } => {
                let mut s = String::from_str("schedule not found for agent ");
                s.append(agent_id.as_str());
                s.append(": ");
                s.append(schedule_id.as_str());
                s
            },
            SchedulerError::InvalidTimezone(m) => {
                let mut s = String::from_str("timezone parsing failed: ");
                s.append(m.as_str());
                s
            },
            SchedulerError::Other(m) => m.clone(),
        }
    }
}

/// The schedules of one agent, in the order they were added.
pub struct ScheduleRow {
    pub agent_id: AgentId,
    pub schedules: Vec<AgentSchedule>,
}

impl Keyed for ScheduleRow {
    open spec fn key(&self) -> u128 {
        self.agent_id.0
    }

    fn key_of(&self) -> (k: u128) {
        self.agent_id.0
    }
}

/// The schedules of a vector, as cron and zone texts.
pub open spec fn schedule_views(v: Seq<AgentSchedule>) -> Seq<(Seq<char>, Seq<char>)> {
    Seq::new(v.len(), |i: int| v[i]@)
}

/// The schedules kept for `agent` in table `t` (none if it has no row).
pub open spec fn schedules_in(t: Seq<ScheduleRow>, agent: u128) -> Seq<(Seq<char>, Seq<char>)> {
    if exists|i: int| 0 <= i < t.len() && #[trigger] t[i].key() == agent {
        schedule_views(t[choose|i: int| 0 <= i < t.len() && #[trigger] t[i].key() == agent].schedules@)
    } else {
        Seq::empty()
    }
}

/// Every schedule of the table with its agent, agents in ascending id
/// order, each agent's schedules in the order they were added.
pub open spec fn all_schedules(t: Seq<ScheduleRow>) -> Seq<(u128, (Seq<char>, Seq<char>))>
    decreases t.len(),
{
    if t.len() == 0 {
        Seq::empty()
    } else {
        all_schedules(t.drop_last()) + Seq::new(
            t.last().schedules@.len(),
            |j: int| (t.last().agent_id.0, t.last().schedules@[j]@),
        )
    }
}

/// A schedule can only ever be due when its cron expression parses and
/// its zone is known.
pub open spec fn schedule_parses(s: (Seq<char>, Seq<char>)) -> bool {
    cron_parse_error(s.0) is None && timezone_known(s.1)
}

/// Is a fire time within a minute of `now` (both in milliseconds since the
/// epoch)? The difference is counted in whole seconds, truncated toward
/// zero, so it must stay below 61 seconds.
pub open spec fn fires_within_minute(upcoming: int, now: int) -> bool {
    -61000 < upcoming - now < 61000
}

proof fn lemma_schedules_in_at(t: Seq<ScheduleRow>, i: int)
    requires
        keys_ascending(t),
        0 <= i < t.len(),
    ensures
        schedules_in(t, t[i].key()) == schedule_views(t[i].schedules@),
{
    let a = t[i].key();
    assert(exists|k: int| 0 <= k < t.len() && #[trigger] t[k].key() == a);
    let j = choose|k: int| 0 <= k < t.len() && #[trigger] t[k].key() == a;
    lemma_key_unique(t, i, j);
}

proof fn lemma_schedules_in_absent(t: Seq<ScheduleRow>, a: u128)
    requires
        key_absent(t, a),
    ensures
        schedules_in(t, a) == Seq::<(Seq<char>, Seq<char>)>::empty(),
{
    if exists|i: int| 0 <= i < t.len() && #[trigger] t[i].key() == a {
        let i = choose|i: int| 0 <= i < t.len() && #[trigger] t[i].key() == a;
        assert(t[i].key() != a);
    }
}

proof fn lemma_all_schedules_step(t: Seq<ScheduleRow>, i: int)
    requires
        0 <= i < t.len(),
    ensures
        all_schedules(t.subrange(0, i + 1)) == all_schedules(t.subrange(0, i)) + Seq::new(
            t[i].schedules@.len(),
            |j: int| (t[i].agent_id.0, t[i].schedules@[j]@),
        ),
{
    assert(t.subrange(0, i + 1).drop_last() =~= t.subrange(0, i));
}

/// Decides from a fire time whether a schedule is due at `now`: there must
/// be a fire time, no more than sixty whole seconds away.
pub fn schedule_due_at(upcoming: Option<i64>, now: i64) -> (r: bool)
    ensures
        r == match upcoming {
            Some(u) => fires_within_minute(u as int, now as int),
            None => false,
        },
{
    match upcoming {
        Some(u) => {
            let d: i128 = (u as i128) - (now as i128);
            -61000 < d && d < 61000
        },
        None => false,
    }
}

/// The schedules of all agents.
pub struct ScheduleService {
    agents: Vec<ScheduleRow>,
}

impl ScheduleService {
    #[verifier::type_invariant]
    closed spec fn wf(&self) -> bool {
        &&& keys_ascending(self.agents@)
        &&& forall|i: int| 0 <= i < self.agents@.len() ==> (#[trigger] self.agents@[i]).schedules@.len() > 0
    }

    /// The schedules kept for an agent, in the order they were added.
    pub closed spec fn schedules(&self, agent: u128) -> Seq<(Seq<char>, Seq<char>)> {
        schedules_in(self.agents@, agent)
    }

    /// Every kept schedule with its agent, agents in ascending id order.
    pub closed spec fn all(&self) -> Seq<(u128, (Seq<char>, Seq<char>))> {
        all_schedules(self.agents@)
    }

    /// A service that keeps no schedule.
    pub fn new() -> (s: ScheduleService)
        ensures
            forall|a: u128| #[trigger] s.schedules(a) == Seq::<(Seq<char>, Seq<char>)>::empty(),
            s.all() == Seq::<(u128, (Seq<char>, Seq<char>))>::empty(),
    {
        let s = ScheduleService { agents: Vec::new() };
        assert forall|a: u128| #[trigger] s.schedules(a) == Seq::<(Seq<char>, Seq<char>)>::empty() by {
            lemma_schedules_in_absent(s.agents@, a);
        }
        s
    }

    /// Adds a schedule for an agent after checking its cron expression and
    /// then its time zone.
    pub fn add_schedule(&mut self, agent_id: &AgentId, schedule: AgentSchedule) -> (r: Result<(), SchedulerError>)
        ensures
            cron_parse_error(schedule.cron@) matches Some(m) ==> (r matches Err(SchedulerError::InvalidCron(e))
                && e@ == m),
            cron_parse_error(schedule.cron@) is None && !timezone_known(schedule.timezone@) ==> (r matches Err(
                SchedulerError::InvalidTimezone(e),
            ) && e@ == "failed to parse timezone"@),
            r is Err ==> forall|a: u128| #[trigger] final(self).schedules(a) == old(self).schedules(a),
            schedule_parses(schedule@) ==> r is Ok,
            r is Ok ==> final(self).schedules(agent_id.0) == old(self).schedules(agent_id.0).push(schedule@),
            r is Ok ==> forall|a: u128|
                a != agent_id.0 ==> #[trigger] final(self).schedules(a) == old(self).schedules(a),
    {
        proof {
            use_type_invariant(&*self);
        }
        match parse_cron(schedule.cron.as_str()) {
            Err(m) => return Err(SchedulerError::InvalidCron(m)),
            Ok(_) => {},
        }
        match parse_timezone(schedule.timezone.as_str()) {
            Err(m) => return Err(SchedulerError::InvalidTimezone(m)),
            Ok(_) => {},
        }
        let ghost sv = schedule@;
        let ghost before = self.agents@;
        let mut v: Vec<ScheduleRow> = Vec::new();
        std::mem::swap(&mut v, &mut self.agents);
        match table_find(&v, agent_id.0) {
            Some(i) => {
                let mut e = v.remove(i);
                let ghost old_list = e.schedules@;
                e.schedules.push(schedule);
                v.insert(i, e);
                proof {
                    assert(v@ =~= before.update(i as int, e));
                    assert(keys_ascending(v@)) by {
                        assert forall|a: int, b: int| 0 <= a < b < v@.len() implies v@[a].key() < v@[b].key() by {
                            assert(before[a].key() < before[b].key());
                        }
                    }
                    lemma_schedules_in_at(before, i as int);
                    lemma_schedules_in_at(v@, i as int);
                    assert(schedule_views(e.schedules@) =~= schedule_views(old_list).push(sv));
                    assert forall|a: u128| a != agent_id.0 implies #[trigger] schedules_in(v@, a) == schedules_in(
                        before,
                        a,
                    ) by {
                        if exists|k: int| 0 <= k < before.len() && #[trigger] before[k].key() == a {
                            let k = choose|k: int| 0 <= k < before.len() && #[trigger] before[k].key() == a;
                            assert(v@[k] == before[k]);
                            lemma_schedules_in_at(before, k);
                            lemma_schedules_in_at(v@, k);
                        } else {
                            assert(key_absent(before, a));
                            assert(key_absent(v@, a));
                            lemma_schedules_in_absent(before, a);
                            lemma_schedules_in_absent(v@, a);
                        }
                    }
                }
            },
            None => {
                let mut list: Vec<AgentSchedule> = Vec::new();
                list.push(schedule);
                let e = ScheduleRow { agent_id: *agent_id, schedules: list };
                proof {
                    assert(schedule_views(e.schedules@) =~= seq![sv]);
                    lemma_schedules_in_absent(before, agent_id.0);
                    assert(Seq::<(Seq<char>, Seq<char>)>::empty().push(sv) =~= seq![sv]);
                }
                table_put(&mut v, e);
                proof {
                    let k = choose|k: int| 0 <= k < v@.len() && v@[k] == e;
                    lemma_schedules_in_at(v@, k);
                    assert forall|a: u128| a != agent_id.0 implies #[trigger] schedules_in(v@, a) == schedules_in(
                        before,
                        a,
                    ) by {
                        if exists|j: int| 0 <= j < before.len() && #[trigger] before[j].key() == a {
                            let j = choose|j: int| 0 <= j < before.len() && #[trigger] before[j].key() == a;
                            assert(before.contains(before[j]));
                            assert(v@.contains(before[j]));
                            let n = choose|n: int| 0 <= n < v@.len() && v@[n] == before[j];
                            lemma_schedules_in_at(before, j);
                            lemma_schedules_in_at(v@, n);
                        } else {
                            assert forall|n: int| 0 <= n < v@.len() implies #[trigger] v@[n].key() != a by {
                                assert(v@.contains(v@[n]));
                                if v@[n] != e {
                                    assert(before.contains(v@[n]));
                                    let j = choose|j: int| 0 <= j < before.len() && before[j] == v@[n];
                                    assert(before[j].key() != a);
                                }
                            }
                            lemma_schedules_in_absent(before, a);
                            lemma_schedules_in_absent(v@, a);
                        }
                    }
                    assert forall|n: int| 0 <= n < v@.len() implies (#[trigger] v@[n]).schedules@.len() > 0 by {
                        assert(v@.contains(v@[n]));
                        if v@[n] != e {
                            let j = choose|j: int| 0 <= j < before.len() && before[j] == v@[n];
                        }
                    }
                }
            },
        }
        self.agents = v;
        Ok(())
    }

    /// Removes the schedule at `schedule_index` from an agent's list; an
    /// agent left with none is dropped.
    pub fn remove_schedule(&mut self, agent_id: &AgentId, schedule_index: usize) -> (r: Result<
        (),
        SchedulerError,
    >)
        ensures
            old(self).schedules(agent_id.0).len() == 0 ==> (r matches Err(SchedulerError::AgentNotFound(e)) && e@
                == uuid_text(agent_id.0)),
            0 < old(self).schedules(agent_id.0).len() <= schedule_index ==> (r matches Err(
                SchedulerError::ScheduleNotFound { agent_id: a, schedule_id: s },
            ) && a@ == uuid_text(agent_id.0) && s@ == decimal_text(schedule_index as nat)),
            r is Err ==> forall|a: u128| #[trigger] final(self).schedules(a) == old(self).schedules(a),
            schedule_index < old(self).schedules(agent_id.0).len() ==> r is Ok,
            r is Ok ==> final(self).schedules(agent_id.0) == old(self).schedules(agent_id.0).remove(
                schedule_index as int,
            ),
            r is Ok ==> forall|a: u128|
                a != agent_id.0 ==> #[trigger] final(self).schedules(a) == old(self).schedules(a),
    {
        proof {
            use_type_invariant(&*self);
        }
        let ghost before = self.agents@;
        let i = match table_find(&self.agents, agent_id.0) {
            None => {
                proof {
                    lemma_schedules_in_absent(before, agent_id.0);
                }
                return Err(SchedulerError::AgentNotFound(uuid_string(agent_id.0)));
            },
            Some(i) => i,
        };
        proof {
            lemma_schedules_in_at(before, i as int);
        }
        if schedule_index >= self.agents[i].schedules.len() {
            let mut idx = String::new();
            push_decimal(&mut idx, schedule_index as u64);
            return Err(
                SchedulerError::ScheduleNotFound { agent_id: uuid_string(agent_id.0), schedule_id: idx },
            );
        }
        let mut v: Vec<ScheduleRow> = Vec::new();
        std::mem::swap(&mut v, &mut self.agents);
        let mut e = v.remove(i);
        let ghost old_list = e.schedules@;
        e.schedules.remove(schedule_index);
        proof {
            assert(schedule_views(e.schedules@) =~= schedule_views(old_list).remove(schedule_index as int));
        }
        if e.schedules.len() == 0 {
            proof {
                assert(v@ == before.remove(i as int));
                assert forall|a: int, b: int| 0 <= a < b < v@.len() implies v@[a].key() < v@[b].key() by {
                    if b < i {
                    } else if a < i {
                        assert(v@[b] == before[b + 1]);
                    } else {
                        assert(v@[a] == before[a + 1]);
                        assert(v@[b] == before[b + 1]);
                    }
                }
                assert forall|n: int| 0 <= n < v@.len() implies #[trigger] v@[n].key() != agent_id.0 by {
                    if n < i {
                        assert(before[n].key() < before[i as int].key());
                    } else {
                        assert(v@[n] == before[n + 1]);
                        assert(before[i as int].key() < before[n + 1].key());
                    }
                }
                lemma_schedules_in_absent(v@, agent_id.0);
                assert(schedule_views(e.schedules@) =~= Seq::<(Seq<char>, Seq<char>)>::empty());
                assert forall|a: u128| a != agent_id.0 implies #[trigger] schedules_in(v@, a) == schedules_in(
                    before,
                    a,
                ) by {
                    if exists|k: int| 0 <= k < before.len() && #[trigger] before[k].key() == a {
                        let k = choose|k: int| 0 <= k < before.len() && #[trigger] before[k].key() == a;
                        lemma_schedules_in_at(before, k);
                        if k < i {
                            assert(v@[k] == before[k]);
                            lemma_schedules_in_at(v@, k);
                        } else {
                            assert(k != i);
                            assert(v@[k - 1] == before[k]);
                            lemma_schedules_in_at(v@, k - 1);
                        }
                    } else {
                        assert forall|n: int| 0 <= n < v@.len() implies #[trigger] v@[n].key() != a by {
                            if n < i {
                                assert(v@[n] == before[n]);
                            } else {
                                assert(v@[n] == before[n + 1]);
                            }
                        }
                        lemma_schedules_in_absent(before, a);
                        lemma_schedules_in_absent(v@, a);
                    }
                }
                assert forall|n: int| 0 <= n < v@.len() implies (#[trigger] v@[n]).schedules@.len() > 0 by {
                    if n < i {
                        assert(v@[n] == before[n]);
                    } else {
                        assert(v@[n] == before[n + 1]);
                    }
                }
            }
        } else {
            v.insert(i, e);
            proof {
                assert(v@ =~= before.update(i as int, e));
                assert forall|a: int, b: int| 0 <= a < b < v@.len() implies v@[a].key() < v@[b].key() by {
                    assert(before[a].key() < before[b].key());
                }
                lemma_schedules_in_at(v@, i as int);
                assert forall|a: u128| a != agent_id.0 implies #[trigger] schedules_in(v@, a) == schedules_in(
                    before,
                    a,
                ) by {
                    if exists|k: int| 0 <= k < before.len() && #[trigger] before[k].key() == a {
                        let k = choose|k: int| 0 <= k < before.len() && #[trigger] before[k].key() == a;
                        assert(v@[k] == before[k]);
                        lemma_schedules_in_at(before, k);
                        lemma_schedules_in_at(v@, k);
                    } else {
                        assert(key_absent(before, a));
                        assert(key_absent(v@, a));
                        lemma_schedules_in_absent(before, a);
                        lemma_schedules_in_absent(v@, a);
                    }
                }
                assert forall|n: int| 0 <= n < v@.len() implies (#[trigger] v@[n]).schedules@.len() > 0 by {
                    if n != i {
                        assert(v@[n] == before[n]);
                    }
                }
            }
        }
        self.agents = v;
        Ok(())
    }

    /// The schedules of an agent, in the order they were added.
    pub fn list_schedules(&self, agent_id: &AgentId) -> (r: Result<Vec<AgentSchedule>, SchedulerError>)
        ensures
            r matches Ok(v) && schedule_views(v@) == self.schedules(agent_id.0),
    {
        proof {
            use_type_invariant(self);
        }
        let mut out: Vec<AgentSchedule> = Vec::new();
        match table_find(&self.agents, agent_id.0) {
            None => {
                proof {
                    lemma_schedules_in_absent(self.agents@, agent_id.0);
                    assert(schedule_views(out@) =~= Seq::<(Seq<char>, Seq<char>)>::empty());
                }
            },
            Some(i) => {
                proof {
                    lemma_schedules_in_at(self.agents@, i as int);
                }
                let list = &self.agents[i].schedules;
                let mut j: usize = 0;
                while j < list.len()
                    invariant
                        j <= list@.len(),
                        schedule_views(out@) =~= schedule_views(list@).subrange(0, j as int),
                    decreases list.len() - j,
                {
                    let ghost before = schedule_views(out@);
                    out.push(list[j].duplicate());
                    proof {
                        assert(schedule_views(out@) =~= before.push(list@[j as int]@));
                    }
                    j = j + 1;
                }
            },
        }
        Ok(out)
    }

    /// Is the schedule due at `now` (milliseconds since the epoch)? It is
    /// when its expression parses, its zone is known, and its first fire
    /// time after `now` lies within a minute of `now`.
    pub fn is_schedule_due(schedule: &AgentSchedule, now: i64) -> (r: bool)
        requires
            EARLIEST_CHECK_MILLIS <= now <= LATEST_CHECK_MILLIS,
        ensures
            r == schedule_due(schedule@, now),
    {
        if parse_cron(schedule.cron.as_str()).is_err() {
            return false;
        }
        if parse_timezone(schedule.timezone.as_str()).is_err() {
            return false;
        }
        let upcoming = fire_after(schedule.cron.as_str(), schedule.timezone.as_str(), now);
        schedule_due_at(upcoming, now)
    }

    /// The schedules due at `now`, agents in ascending id order, each
    /// agent's in the order they were added.
    pub fn get_due_schedules(&self, now: i64) -> (r: Result<Vec<DueSchedule>, SchedulerError>)
        requires
            EARLIEST_CHECK_MILLIS <= now <= LATEST_CHECK_MILLIS,
        ensures
            r matches Ok(v) && due_views(v@) == due_among(self.all(), now),
    {
        let mut out: Vec<DueSchedule> = Vec::new();
        let mut i: usize = 0;
        proof {
            assert(self.agents@.subrange(0, 0) =~= Seq::<ScheduleRow>::empty());
            assert(due_views(out@) =~= Seq::empty());
        }
        while i < self.agents.len()
            invariant
                i <= self.agents@.len(),
                EARLIEST_CHECK_MILLIS <= now <= LATEST_CHECK_MILLIS,
                due_views(out@) == due_among(all_schedules(self.agents@.subrange(0, i as int)), now),
            decreases self.agents.len() - i,
        {
            let ghost prev = all_schedules(self.agents@.subrange(0, i as int));
            proof {
                lemma_all_schedules_step(self.agents@, i as int);
            }
            let ghost next = all_schedules(self.agents@.subrange(0, i + 1));
            let entry = &self.agents[i];
            let ghost row = |k: int| (entry.agent_id.0, entry.schedules@[k]@);
            proof {
                assert(prev + Seq::new(0, row) =~= prev);
            }
            let mut j: usize = 0;
            while j < entry.schedules.len()
                invariant
                    j <= entry.schedules@.len(),
                    EARLIEST_CHECK_MILLIS <= now <= LATEST_CHECK_MILLIS,
                    next == prev + Seq::new(entry.schedules@.len(), row),
                    row == (|k: int| (entry.agent_id.0, entry.schedules@[k]@)),
                    due_views(out@) == due_among(prev + Seq::new(j as nat, row), now),
                decreases entry.schedules.len() - j,
            {
                let ghost upto = prev + Seq::new((j + 1) as nat, row);
                proof {
                    assert(upto.drop_last() =~= prev + Seq::new(j as nat, row));
                    assert(upto.last() == (entry.agent_id.0, entry.schedules@[j as int]@));
                }
                if Self::is_schedule_due(&entry.schedules[j], now) {
                    let ghost before = due_views(out@);
                    let d = DueSchedule { agent_id: entry.agent_id, schedule: entry.schedules[j].duplicate() };
                    out.push(d);
                    proof {
                        assert(due_views(out@) =~= before.push(upto.last()));
                    }
                }
                j = j + 1;
            }
            proof {
                assert(prev + Seq::new(entry.schedules@.len(), row) =~= next);
            }
            i = i + 1;
        }
        proof {
            assert(self.agents@.subrange(0, self.agents@.len() as int) =~= self.agents@);
        }
        Ok(out)
    }
}

/// Removing the schedule just added undoes the addition: every agent's
/// schedules are back as they were.
pub proof fn law_remove_undoes_add(
    s0: ScheduleService,
    s1: ScheduleService,
    s2: ScheduleService,
    agent: u128,
    added: (Seq<char>, Seq<char>),
)
    requires
        s1.schedules(agent) == s0.schedules(agent).push(added),
        forall|a: u128| a != agent ==> #[trigger] s1.schedules(a) == s0.schedules(a),
        s2.schedules(agent) == s1.schedules(agent).remove(s0.schedules(agent).len() as int),
        forall|a: u128| a != agent ==> #[trigger] s2.schedules(a) == s1.schedules(a),
    ensures
        forall|a: u128| #[trigger] s2.schedules(a) == s0.schedules(a),
{
    assert(s0.schedules(agent).push(added).remove(s0.schedules(agent).len() as int) =~= s0.schedules(agent));
}

} // verus!
