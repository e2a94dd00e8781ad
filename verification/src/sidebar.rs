//! The rows the sidebar's tabs list: the note an empty tab shows and one
//! line per agent, worker, spawn request, mission, task, memory, policy,
//! skill or artifact.
use vstd::prelude::*;
use crate::agent::Agent;
use crate::ids::{hex_text, uuid_string, uuid_text};
use crate::memory::Memory;
use crate::mission::{mission_state_name, Mission};
use crate::policy::PolicyBundle;
use crate::skill::{skill_state_name, Skill};
use crate::spawn::{SpawnRequest, SpawnState};
use crate::task::{task_state_name, Task};
use crate::text::{decimal_text, push_char, push_decimal};
use crate::tui::Tab;
use crate::worker::{worker_state_name, Worker};

verus! {

/// The note a tab shows when it has nothing to list (the session tab
/// always shows it); the costs tab has none.
pub open spec fn placeholder_spec(tab: Tab) -> Option<Seq<char>> {
    match tab {
        Tab::Session => Some("  Default session active"@),
        Tab::Agents => Some("  No active agents."@),
        Tab::Workers => Some("  No registered workers."@),
        Tab::SpawnRequests => Some("  No spawn requests."@),
        Tab::Missions => Some("  No missions."@),
        Tab::Tasks => Some("  No tasks."@),
        Tab::Memory => Some("  No memories."@),
        Tab::Approvals => Some("  No tool approvals."@),
        Tab::Costs => None,
        Tab::Policies => Some("  No policies."@),
        Tab::Skills => Some("  No skills."@),
        Tab::Artifacts => Some("  No artifacts."@),
        Tab::Incidents => Some("  No incidents."@),
    }
}

/// The note a tab shows when it has nothing to list.
pub fn accordion_placeholder(tab: Tab) -> (r: Option<&'static str>)
    ensures
        match r {
            Some(t) => placeholder_spec(tab) == Some(t@),
            None => placeholder_spec(tab) is None,
        },
{
    match tab {
        Tab::Session => Some("  Default session active"),
        Tab::Agents => Some("  No active agents."),
        Tab::Workers => Some("  No registered workers."),
        Tab::SpawnRequests => Some("  No spawn requests."),
        Tab::Missions => Some("  No missions."),
        Tab::Tasks => Some("  No tasks."),
        Tab::Memory => Some("  No memories."),
        Tab::Approvals => Some("  No tool approvals."),
        Tab::Costs => None,
        Tab::Policies => Some("  No policies."),
        Tab::Skills => Some("  No skills."),
        Tab::Artifacts => Some("  No artifacts."),
        Tab::Incidents => Some("  No incidents."),
    }
}

/// The first `n` characters of a text, or all of it when shorter.
pub open spec fn take_chars(s: Seq<char>, n: nat) -> Seq<char> {
    if s.len() > n {
        s.take(n as int)
    } else {
        s
    }
}

fn push_taken(out: &mut String, s: &str, n: usize)
    ensures
        final(out)@ == old(out)@ + take_chars(s@, n as nat),
{
    let ghost start = out@;
    let len = s.unicode_len();
    let keep = if len > n {
        n
    } else {
        len
    };
    let mut k: usize = 0;
    while k < keep
        invariant
            len == s@.len(),
            keep <= len,
            keep as nat == take_chars(s@, n as nat).len(),
            k <= keep,
            out@ =~= start + s@.take(k as int),
        decreases keep - k,
    {
        push_char(out, s.get_char(k));
        assert(s@.take(k + 1) =~= s@.take(k as int).push(s@[k as int]));
        k = k + 1;
    }
    assert(s@.take(keep as int) =~= take_chars(s@, n as nat));
}

proof fn lemma_hex_len(x: nat, w: nat)
    ensures
        hex_text(x, w).len() == w,
    decreases w,
{
    if w > 0 {
        lemma_hex_len(x / 16, (w - 1) as nat);
    }
}

/// The first eight characters of an id's hyphenated form.
pub open spec fn id_prefix(x: u128) -> Seq<char> {
    uuid_text(x).take(8)
}

fn push_id_prefix(out: &mut String, x: u128)
    ensures
        final(out)@ == old(out)@ + id_prefix(x),
{
    proof {
        lemma_hex_len(x as nat, 32);
    }
    let u = uuid_string(x);
    assert(u@.len() >= 8);
    push_taken(out, u.as_str(), 8);
}

/// A text with every occurrence of `pat` removed, scanning from the left
/// as `str::replace(pat, "")` does.
pub open spec fn remove_all(s: Seq<char>, pat: Seq<char>) -> Seq<char>
    decreases s.len(),
{
    if pat.len() == 0 || s.len() < pat.len() {
        s
    } else if pat.is_prefix_of(s) {
        remove_all(s.skip(pat.len() as int), pat)
    } else {
        seq![s[0]] + remove_all(s.drop_first(), pat)
    }
}

fn push_removed(out: &mut String, s: &str, pat: &str)
    ensures
        final(out)@ == old(out)@ + remove_all(s@, pat@),
{
    let ghost start = out@;
    let n = s.unicode_len();
    let m = pat.unicode_len();
    if m == 0 {
        out.append(s);
        return;
    }
    let mut i: usize = 0;
    assert(s@.skip(0) =~= s@);
    while i < n
        invariant
            n == s@.len(),
            m == pat@.len(),
            m > 0,
            i <= n,
            start + remove_all(s@, pat@) == out@ + remove_all(s@.skip(i as int), pat@),
        decreases n - i,
    {
        let ghost rest = s@.skip(i as int);
        let ghost before = out@;
        if m <= n - i && crate::text::str_starts_with(s.substring_char(i, i + m), pat) {
            assert(s@.subrange(i as int, (i + m) as int) =~= rest.take(m as int));
            assert(pat@ =~= rest.take(m as int));
            assert(pat@.is_prefix_of(rest));
            assert(rest.skip(m as int) =~= s@.skip((i + m) as int));
            i = i + m;
        } else {
            if m <= n - i {
                assert(s@.subrange(i as int, (i + m) as int) =~= rest.take(m as int));
                assert(!pat@.is_prefix_of(rest));
            } else {
                assert(rest =~= seq![rest[0]] + rest.drop_first());
            }
            push_char(out, s.get_char(i));
            assert(rest.drop_first() =~= s@.skip(i + 1));
            assert(rest[0] == s@[i as int]);
            assert(out@ =~= before + seq![rest[0]]);
            i = i + 1;
        }
    }
    assert(s@.skip(n as int) =~= Seq::<char>::empty());
}

/// An agent's row: a status dot and its name.
pub fn agent_row(a: &Agent) -> (r: String)
    ensures
        r@ == "  ● "@ + a.name@,
{
    let mut r = String::from_str("  ● ");
    r.append(a.name.as_str());
    r
}

/// A worker's row: the start of its id and its state.
pub fn worker_row(w: &Worker) -> (r: String)
    ensures
        r@ == "  "@ + id_prefix(w.id.0) + " "@ + worker_state_name(w.state),
{
    let mut r = String::from_str("  ");
    push_id_prefix(&mut r, w.id.0);
    r.append(" ");
    r.append(w.state.name());
    r
}

/// The label of a spawn request's state.
pub open spec fn spawn_state_label(s: SpawnState) -> Seq<char> {
    match s {
        SpawnState::Pending => " Pending"@,
        SpawnState::Approved => " Approved"@,
        SpawnState::Denied => " Denied"@,
        SpawnState::Completed => " Completed"@,
    }
}

/// A spawn request's row: its team name without `-team`, cut to ten
/// characters, with the start of its id; and the label of its state.
pub fn spawn_request_row(req: &SpawnRequest) -> (r: (String, String))
    ensures
        r.0@ == "  "@ + take_chars(remove_all(req.team.name@, "-team"@), 10) + " ("@ + id_prefix(req.id.0) + ")"@,
        r.1@ == spawn_state_label(req.state),
{
    let mut name = String::new();
    push_removed(&mut name, req.team.name.as_str(), "-team");
    let mut r = String::from_str("  ");
    push_taken(&mut r, name.as_str(), 10);
    r.append(" (");
    push_id_prefix(&mut r, req.id.0);
    r.append(")");
    let status = match req.state {
        SpawnState::Pending => " Pending",
        SpawnState::Approved => " Approved",
        SpawnState::Denied => " Denied",
        SpawnState::Completed => " Completed",
    };
    (r, String::from_str(status))
}

fn bracketed_row(text: &str, n: usize, state: &str) -> (r: String)
    ensures
        r@ == "  "@ + take_chars(text@, n as nat) + " ["@ + state@ + "]"@,
{
    let mut r = String::from_str("  ");
    push_taken(&mut r, text, n);
    r.append(" [");
    r.append(state);
    r.append("]");
    r
}

/// A mission's row: its objective cut to twenty characters, and its state.
pub fn mission_row(m: &Mission) -> (r: String)
    ensures
        r@ == "  "@ + take_chars(m.objective@, 20) + " ["@ + mission_state_name(m.state) + "]"@,
{
    bracketed_row(m.objective.as_str(), 20, m.state.name())
}

/// A task's row: its objective cut to twenty characters, and its state.
pub fn task_row(t: &Task) -> (r: String)
    ensures
        r@ == "  "@ + take_chars(t.objective@, 20) + " ["@ + task_state_name(t.state) + "]"@,
{
    bracketed_row(t.objective.as_str(), 20, t.state.name())
}

/// A memory's row: its scope cut to twenty characters.
pub fn memory_row(m: &Memory) -> (r: String)
    ensures
        r@ == "  "@ + take_chars(m.scope@, 20),
{
    let mut r = String::from_str("  ");
    push_taken(&mut r, m.scope.as_str(), 20);
    r
}

/// A policy bundle's row: its name and how many rules it holds.
pub fn policy_row(b: &PolicyBundle) -> (r: String)
    ensures
        r@ == "  "@ + b.name@ + " ("@ + decimal_text(b.rules@.len()) + " rules)"@,
{
    let mut r = String::from_str("  ");
    r.append(b.name.as_str());
    r.append(" (");
    push_decimal(&mut r, b.rules.len() as u64);
    r.append(" rules)");
    r
}

/// A skill's row: its whole name and its state.
pub fn skill_row(s: &Skill) -> (r: String)
    ensures
        r@ == "  "@ + s.name@ + " ["@ + skill_state_name(s.state) + "]"@,
{
    let mut r = String::from_str("  ");
    r.append(s.name.as_str());
    r.append(" [");
    r.append(s.state.name());
    r.append("]");
    r
}

/// An artifact's row: its name and the start of its id.
pub fn artifact_row(name: &str, id: u128) -> (r: String)
    ensures
        r@ == "  "@ + name@ + " ("@ + id_prefix(id) + ")"@,
{
    let mut r = String::from_str("  ");
    r.append(name);
    r.append(" (");
    push_id_prefix(&mut r, id);
    r.append(")");
    r
}

/// The costs tab's count of agents.
pub fn costs_agents_line(count: usize) -> (r: String)
    ensures
        r@ == "  Agents: "@ + decimal_text(count as nat),
{
    let mut r = String::from_str("  Agents: ");
    push_decimal(&mut r, count as u64);
    r
}

} // verus!
