//! TOON: the compact, line-oriented context format handed to models.
use vstd::prelude::*;
use crate::agent::{Agent, Evidence, Lineage, agent_state_name, evidence_type_name};
use crate::domain::{lifecycle_mode_name, AgentId};
use crate::ids::{id_debug_text, push_id_debug, utc_seconds_string, utc_seconds_text};
use crate::memory::{Memory, memory_type_name};
use crate::mission::Mission;
use crate::policy::{PolicyBundle, PolicyEffect};
use crate::skill::{Skill, skill_state_name};
use crate::task::{Task, task_state_name};
use crate::text::{
    lemma_texts_push,
    bool_text, concat_all, decimal_text, escape_quotes, join_lines, join_with_newlines, micro_text, push_char,
    push_decimal, push_escaped_quotes, push_micro, str_debug_string, str_debug_text, texts,
};
use crate::worker::{Worker, worker_state_name, worker_type_name};

verus! {

/// Why encoding failed.
pub enum ToonError {
    Encoding(String),
}

impl ToonError {
    /// The message of the error, as its `Display` prints it.
    pub fn to_string(&self) -> (s: String)
        ensures
            s@ == match self {
                ToonError::Encoding(m) => "Encoding error: "@ + m@,
            },
    {
        match self {
            ToonError::Encoding(m) => {
                let mut s = String::from_str("Encoding error: ");
                s.append(m.as_str());
                s
            },
        }
    }
}

/// The text of one section: a newline, `[name]`, a newline, the content.
pub open spec fn section_text(name: Seq<char>, content: Seq<char>) -> Seq<char> {
    seq!['\n', '['] + name + seq![']', '\n'] + content
}

/// The header every TOON document starts with.
pub open spec fn toon_header() -> Seq<char> {
    "[TOON v1]"@
}

/// The sections that adding `names[i]` with `contents[i]`, for each `i` in
/// turn, puts into a new context.
pub open spec fn added_sections(names: Seq<Seq<char>>, contents: Seq<Seq<char>>) -> Seq<Seq<char>>
    decreases names.len(),
{
    if names.len() == 0 {
        Seq::empty()
    } else {
        added_sections(names.drop_last(), contents).push(section_text(names.last(), contents[names.len() - 1]))
    }
}

/// The document listing the sections in call order: the header, then for
/// each section a line break, its name in brackets, a line break and its
/// content.
pub open spec fn listing(names: Seq<Seq<char>>, contents: Seq<Seq<char>>) -> Seq<char>
    decreases names.len(),
{
    if names.len() == 0 {
        toon_header()
    } else {
        listing(names.drop_last(), contents) + "\n["@ + names.last() + "]\n"@ + contents[names.len() - 1]
    }
}

/// Building after a new context took `k` sections gives the header and the
/// sections in the order they were added; building reads the context
/// only, so building again gives the same text.
pub proof fn law_build_lists_sections(names: Seq<Seq<char>>, contents: Seq<Seq<char>>)
    requires
        names.len() <= contents.len(),
    ensures
        toon_header() + concat_all(added_sections(names, contents)) == listing(names, contents),
    decreases names.len(),
{
    reveal_strlit("\n[");
    reveal_strlit("]\n");
    if names.len() == 0 {
        assert(toon_header() + Seq::<char>::empty() =~= toon_header());
    } else {
        let d = names.drop_last();
        law_build_lists_sections(d, contents);
        let secs = added_sections(names, contents);
        assert(secs.drop_last() =~= added_sections(d, contents));
        assert(toon_header() + concat_all(secs) =~= listing(names, contents));
    }
}

/// A TOON document under construction: its sections in order.
pub struct ToonContext {
    sections: Vec<String>,
}

impl ToonContext {
    /// The section texts added so far.
    pub closed spec fn sections(&self) -> Seq<Seq<char>> {
        texts(self.sections@)
    }

    /// An empty document.
    pub fn new() -> (c: ToonContext)
        ensures
            c.sections().len() == 0,
    {
        ToonContext { sections: Vec::new() }
    }

    /// Appends a section.
    pub fn add_section(&mut self, name: &str, content: String)
        ensures
            final(self).sections() == old(self).sections().push(section_text(name@, content@)),
    {
        let mut s = String::new();
        push_char(&mut s, '\n');
        push_char(&mut s, '[');
        s.append(name);
        push_char(&mut s, ']');
        push_char(&mut s, '\n');
        s.append(content.as_str());
        assert(s@ =~= section_text(name@, content@));
        self.sections.push(s);
        assert(texts(self.sections@) =~= texts(old(self).sections@).push(section_text(name@, content@)));
    }

    /// The document: the header followed by the sections.
    pub fn build(&self) -> (out: String)
        ensures
            out@ == toon_header() + concat_all(self.sections()),
    {
        let mut out = String::from_str("[TOON v1]");
        let mut i: usize = 0;
        while i < self.sections.len()
            invariant
                i <= self.sections@.len(),
                out@ == toon_header() + concat_all(texts(self.sections@).subrange(0, i as int)),
            decreases self.sections.len() - i,
        {
            assert(texts(self.sections@).subrange(0, i + 1).drop_last() =~= texts(self.sections@).subrange(0, i as int));
            out.append(self.sections[i].as_str());
            i = i + 1;
            assert(out@ =~= toon_header() + concat_all(texts(self.sections@).subrange(0, i as int)));
        }
        assert(texts(self.sections@).subrange(0, self.sections@.len() as int) =~= texts(self.sections@));
        out
    }
}

// ── Line texts ───────────────────────────────────────────────────

pub open spec fn quoted(s: Seq<char>) -> Seq<char> {
    seq!['"'] + escape_quotes(s) + seq!['"']
}

/// The deadline as chrono prints it, or nothing.
pub open spec fn deadline_text(d: Option<i64>) -> Seq<char> {
    match d {
        Some(ms) => match utc_seconds_text(ms) {
            Some(t) => t,
            None => Seq::empty(),
        },
        None => Seq::empty(),
    }
}

pub open spec fn task_lines(t: Task) -> Seq<Seq<char>> {
    seq![
        "id: "@ + id_debug_text("TaskId"@, t.id.0),
        "objective: "@ + quoted(t.objective@),
        "state: "@ + task_state_name(t.state),
        "risk: "@ + id_like_text("RiskLevel"@, str_debug_text(t.risk.0@)),
        "deadline: "@ + deadline_text(t.deadline),
    ]
}

/// `name(inner)`.
pub open spec fn id_like_text(name: Seq<char>, inner: Seq<char>) -> Seq<char> {
    name.push('(') + inner + seq![')']
}

pub open spec fn mission_lines(m: Mission) -> Seq<Seq<char>> {
    seq![
        "id: "@ + id_debug_text("MissionId"@, m.id.0),
        "objective: "@ + quoted(m.objective@),
        "mode: "@ + lifecycle_mode_name(m.lifecycle_mode),
    ]
}

pub open spec fn memory_line(m: Memory) -> Seq<char> {
    "- "@ + quoted(m.content@) + " (type: "@ + memory_type_name(m.memory_type) + ", confidence: "@
        + micro_text(m.confidence as nat) + seq![')']
}

pub open spec fn agent_line(a: Agent) -> Seq<char> {
    id_debug_text("AgentId"@, a.id.0) + " role: "@ + a.role@ + " state: "@ + agent_state_name(a.state)
}

pub open spec fn evidence_line(e: Evidence) -> Seq<char> {
    "- "@ + id_debug_text("EvidenceId"@, e.id.0) + " ("@ + evidence_type_name(e.evidence_type) + ", accepted: "@
        + bool_text(e.accepted) + seq![')']
}

pub open spec fn skill_line(s: Skill) -> Seq<char> {
    "- "@ + s.name@ + " v"@ + s.version@ + " (state: "@ + skill_state_name(s.state) + ", cost: $"@ + micro_text(
        s.cost_profile.estimated_cost_usd as nat,
    ) + seq![')']
}

pub open spec fn worker_line(w: Worker) -> Seq<char> {
    "- "@ + w.name@ + " (type: "@ + worker_type_name(w.worker_type) + ", state: "@ + worker_state_name(w.state)
        + seq![')']
}

pub open spec fn tool_line(t: Seq<char>) -> Seq<char> {
    "- "@ + t
}

pub open spec fn history_line(i: nat, msg: Seq<char>) -> Seq<char> {
    seq!['['] + decimal_text(i) + "] "@ + msg
}

pub open spec fn parent_text(p: Option<AgentId>) -> Seq<char> {
    match p {
        Some(a) => id_debug_text("AgentId"@, a.0),
        None => "none"@,
    }
}

pub open spec fn lineage_lines(l: Lineage) -> Seq<Seq<char>> {
    seq![
        "root: "@ + id_debug_text("AgentId"@, l.root_agent_id.0),
        "entries: "@ + decimal_text(l.entries@.len()) + " total"@,
    ] + Seq::new(
        l.entries@.len(),
        |i: int|
            "  - "@ + id_debug_text("AgentId"@, l.entries@[i].agent_id.0) + " (parent: "@ + parent_text(
                l.entries@[i].parent_agent_id,
            ) + ", state: "@ + l.entries@[i].state@ + seq![')'],
    )
}

pub open spec fn effect_word(e: PolicyEffect) -> Seq<char> {
    if e == PolicyEffect::Allow {
        "ALLOW"@
    } else {
        "DENY"@
    }
}

/// The lines one bundle contributes to a policy summary: none for an
/// inactive bundle; for an active one a header line and a line per rule.
pub open spec fn bundle_lines(b: PolicyBundle) -> Seq<Seq<char>> {
    if b.is_active {
        seq![
            "- "@ + id_debug_text("PolicyBundleId"@, b.id) + " ("@ + decimal_text(b.rules@.len()) + " rules)"@,
        ] + Seq::new(
            b.rules@.len(),
            |i: int|
                "  "@ + effect_word(b.rules@[i].effect) + seq![' '] + b.rules@[i].action@ + " on "@
                    + b.rules@[i].resource@,
        )
    } else {
        Seq::empty()
    }
}

/// All lines of a policy summary, bundle after bundle.
pub open spec fn summary_lines(bundles: Seq<PolicyBundle>) -> Seq<Seq<char>>
    decreases bundles.len(),
{
    if bundles.len() == 0 {
        Seq::empty()
    } else {
        summary_lines(bundles.drop_last()) + bundle_lines(bundles.last())
    }
}

pub open spec fn opt_task_section(task: Option<&Task>) -> Seq<Seq<char>> {
    match task {
        Some(t) => seq![section_text("task"@, join_lines(task_lines(*t)))],
        None => Seq::empty(),
    }
}

pub open spec fn opt_mission_section(mission: Option<&Mission>) -> Seq<Seq<char>> {
    match mission {
        Some(m) => seq![section_text("mission"@, join_lines(mission_lines(*m)))],
        None => Seq::empty(),
    }
}

pub open spec fn opt_memory_section(memories: Seq<Memory>) -> Seq<Seq<char>> {
    if memories.len() > 0 {
        seq![section_text("memory"@, join_lines(Seq::new(memories.len(), |i: int| memory_line(memories[i]))))]
    } else {
        Seq::empty()
    }
}

pub open spec fn opt_policy_section(policies: Seq<PolicyBundle>) -> Seq<Seq<char>> {
    if policies.len() > 0 {
        seq![section_text("policy"@, join_lines(summary_lines(policies)))]
    } else {
        Seq::empty()
    }
}

pub open spec fn opt_agents_section(agents: Seq<Agent>) -> Seq<Seq<char>> {
    if agents.len() > 0 {
        seq![section_text("agents"@, join_lines(Seq::new(agents.len(), |i: int| agent_line(agents[i]))))]
    } else {
        Seq::empty()
    }
}

pub open spec fn opt_lineage_section(lineage: Option<&Lineage>) -> Seq<Seq<char>> {
    match lineage {
        Some(l) => seq![section_text("lineage"@, join_lines(lineage_lines(*l)))],
        None => Seq::empty(),
    }
}

pub open spec fn opt_evidence_section(evidence: Seq<Evidence>) -> Seq<Seq<char>> {
    if evidence.len() > 0 {
        seq![section_text("evidence"@, join_lines(Seq::new(evidence.len(), |i: int| evidence_line(evidence[i]))))]
    } else {
        Seq::empty()
    }
}

/// The sections of a context, in order, present only when filled.
pub open spec fn context_sections(
    task: Option<&Task>,
    mission: Option<&Mission>,
    memories: Seq<Memory>,
    policies: Seq<PolicyBundle>,
    agents: Seq<Agent>,
    lineage: Option<&Lineage>,
    evidence: Seq<Evidence>,
) -> Seq<Seq<char>> {
    opt_task_section(task) + opt_mission_section(mission) + opt_memory_section(memories) + opt_policy_section(
        policies,
    ) + opt_agents_section(agents) + opt_lineage_section(lineage) + opt_evidence_section(evidence)
}

/// Encodes domain values as TOON sections.
pub struct ToonEncoder;

fn quoted_string(s: &str) -> (r: String)
    ensures
        r@ == quoted(s@),
{
    let mut r = String::new();
    push_char(&mut r, '"');
    push_escaped_quotes(&mut r, s);
    push_char(&mut r, '"');
    assert(r@ =~= quoted(s@));
    r
}

fn id_line(head: &str, name: &str, id: u128) -> (r: String)
    ensures
        r@ == head@ + id_debug_text(name@, id),
{
    let mut r = String::from_str(head);
    push_id_debug(&mut r, name, id);
    r
}

fn prefixed(head: &str, tail: &str) -> (r: String)
    ensures
        r@ == head@ + tail@,
{
    let mut r = String::from_str(head);
    r.append(tail);
    r
}

impl ToonEncoder {
    /// The task's id, objective, state, risk and deadline, one per line.
    pub fn encode_task(task: &Task) -> (r: String)
        ensures
            r@ == join_lines(task_lines(*task)),
    {
        let deadline = match task.deadline {
            Some(ms) => match utc_seconds_string(ms) {
                Some(t) => t,
                None => String::new(),
            },
            None => String::new(),
        };
        let mut lines: Vec<String> = Vec::new();
        lines.push(id_line("id: ", "TaskId", task.id.0));
        let q = quoted_string(task.objective.as_str());
        lines.push(prefixed("objective: ", q.as_str()));
        lines.push(prefixed("state: ", task.state.name()));
        let mut risk = String::from_str("RiskLevel");
        push_char(&mut risk, '(');
        let d = str_debug_string(task.risk.0.as_str());
        risk.append(d.as_str());
        push_char(&mut risk, ')');
        assert(risk@ =~= id_like_text("RiskLevel"@, str_debug_text(task.risk.0@)));
        lines.push(prefixed("risk: ", risk.as_str()));
        lines.push(prefixed("deadline: ", deadline.as_str()));
        assert(texts(lines@) =~= task_lines(*task));
        join_with_newlines(&lines)
    }

    /// The mission's id, objective and lifecycle mode, one per line.
    pub fn encode_mission(mission: &Mission) -> (r: String)
        ensures
            r@ == join_lines(mission_lines(*mission)),
    {
        let mut lines: Vec<String> = Vec::new();
        lines.push(id_line("id: ", "MissionId", mission.id.0));
        let q = quoted_string(mission.objective.as_str());
        lines.push(prefixed("objective: ", q.as_str()));
        lines.push(prefixed("mode: ", mission.lifecycle_mode.name()));
        assert(texts(lines@) =~= mission_lines(*mission));
        join_with_newlines(&lines)
    }

    /// One line per memory: its quoted content, type and confidence.
    pub fn encode_memories(memories: &[Memory]) -> (r: String)
        ensures
            r@ == join_lines(Seq::new(memories@.len(), |i: int| memory_line(memories@[i]))),
    {
        let mut lines: Vec<String> = Vec::new();
        let mut i: usize = 0;
        while i < memories.len()
            invariant
                i <= memories@.len(),
                texts(lines@) =~= Seq::new(i as nat, |j: int| memory_line(memories@[j])),
            decreases memories.len() - i,
        {
            let m = &memories[i];
            let mut line = String::from_str("- ");
            let q = quoted_string(m.content.as_str());
            line.append(q.as_str());
            line.append(" (type: ");
            line.append(m.memory_type.name());
            line.append(", confidence: ");
            push_micro(&mut line, m.confidence);
            push_char(&mut line, ')');
            assert(line@ =~= memory_line(*m));
            let ghost prev = lines@;
            lines.push(line);
            proof {
                lemma_texts_push(prev, line);
            }
            i = i + 1;
        }
        join_with_newlines(&lines)
    }

    /// For each active bundle, a header line with its rule count and one
    /// `ALLOW`/`DENY action on resource` line per rule; inactive bundles
    /// are left out.
    pub fn encode_policy_summary(bundles: &[PolicyBundle]) -> (r: String)
        ensures
            r@ == join_lines(summary_lines(bundles@)),
    {
        let mut lines: Vec<String> = Vec::new();
        let mut i: usize = 0;
        while i < bundles.len()
            invariant
                i <= bundles@.len(),
                texts(lines@) == summary_lines(bundles@.subrange(0, i as int)),
            decreases bundles.len() - i,
        {
            assert(bundles@.subrange(0, i + 1).drop_last() =~= bundles@.subrange(0, i as int));
            let b = &bundles[i];
            let ghost before = texts(lines@);
            if b.is_active {
                let mut head = id_line("- ", "PolicyBundleId", b.id);
                head.append(" (");
                push_decimal(&mut head, b.rules.len() as u64);
                head.append(" rules)");
                lines.push(head);
                let mut k: usize = 0;
                while k < b.rules.len()
                    invariant
                        k <= b.rules@.len(),
                        b.is_active,
                        texts(lines@) =~= before + bundle_lines(*b).subrange(0, k + 1),
                    decreases b.rules.len() - k,
                {
                    let rule = &b.rules[k];
                    let mut line = String::from_str("  ");
                    if rule.effect == PolicyEffect::Allow {
                        line.append("ALLOW");
                    } else {
                        line.append("DENY");
                    }
                    push_char(&mut line, ' ');
                    line.append(rule.action.as_str());
                    line.append(" on ");
                    line.append(rule.resource.as_str());
                    assert(line@ =~= bundle_lines(*b)[k + 1]);
                    let ghost prev = lines@;
                    lines.push(line);
                    proof {
                        lemma_texts_push(prev, line);
                        assert(bundle_lines(*b).subrange(0, k + 2) =~= bundle_lines(*b).subrange(0, k + 1).push(
                            bundle_lines(*b)[k + 1],
                        ));
                    }
                    k = k + 1;
                }
                assert(bundle_lines(*b).subrange(0, b.rules@.len() as int + 1) =~= bundle_lines(*b));
            } else {
                assert(bundle_lines(*b) =~= Seq::<Seq<char>>::empty());
                assert(texts(lines@) =~= before + bundle_lines(*b));
            }
            i = i + 1;
        }
        assert(bundles@.subrange(0, bundles@.len() as int) =~= bundles@);
        join_with_newlines(&lines)
    }

    /// One line per agent: its id, role and state.
    pub fn encode_agent_roster(agents: &[Agent]) -> (r: String)
        ensures
            r@ == join_lines(Seq::new(agents@.len(), |i: int| agent_line(agents@[i]))),
    {
        let mut lines: Vec<String> = Vec::new();
        let mut i: usize = 0;
        while i < agents.len()
            invariant
                i <= agents@.len(),
                texts(lines@) =~= Seq::new(i as nat, |j: int| agent_line(agents@[j])),
            decreases agents.len() - i,
        {
            let a = &agents[i];
            let mut line = String::new();
            push_id_debug(&mut line, "AgentId", a.id.0);
            line.append(" role: ");
            line.append(a.role.as_str());
            line.append(" state: ");
            line.append(a.state.name());
            assert(line@ =~= agent_line(*a));
            let ghost prev = lines@;
            lines.push(line);
            proof {
                lemma_texts_push(prev, line);
            }
            i = i + 1;
        }
        join_with_newlines(&lines)
    }

    /// The root agent, the entry count and one line per entry.
    pub fn encode_lineage(lineage: &Lineage) -> (r: String)
        ensures
            r@ == join_lines(lineage_lines(*lineage)),
    {
        let mut lines: Vec<String> = Vec::new();
        lines.push(id_line("root: ", "AgentId", lineage.root_agent_id.0));
        let mut count = String::from_str("entries: ");
        push_decimal(&mut count, lineage.entries.len() as u64);
        count.append(" total");
        lines.push(count);
        let ghost head = texts(lines@);
        let mut i: usize = 0;
        while i < lineage.entries.len()
            invariant
                i <= lineage.entries@.len(),
                head.len() == 2,
                texts(lines@) =~= lineage_lines(*lineage).subrange(0, i + 2),
            decreases lineage.entries.len() - i,
        {
            let e = &lineage.entries[i];
            let mut line = String::from_str("  - ");
            push_id_debug(&mut line, "AgentId", e.agent_id.0);
            line.append(" (parent: ");
            match e.parent_agent_id {
                Some(p) => push_id_debug(&mut line, "AgentId", p.0),
                None => line.append("none"),
            }
            line.append(", state: ");
            line.append(e.state.as_str());
            push_char(&mut line, ')');
            assert(line@ =~= lineage_lines(*lineage)[i + 2]);
            let ghost prev = lines@;
            lines.push(line);
            proof {
                lemma_texts_push(prev, line);
                assert(lineage_lines(*lineage).subrange(0, i + 3) =~= lineage_lines(*lineage).subrange(0, i + 2).push(
                    lineage_lines(*lineage)[i + 2],
                ));
            }
            i = i + 1;
        }
        assert(lineage_lines(*lineage).subrange(0, lineage.entries@.len() as int + 2) =~= lineage_lines(*lineage));
        join_with_newlines(&lines)
    }

    /// One line per piece of evidence: its id, type and whether it was
    /// accepted.
    pub fn encode_evidence(evidence: &[Evidence]) -> (r: String)
        ensures
            r@ == join_lines(Seq::new(evidence@.len(), |i: int| evidence_line(evidence@[i]))),
    {
        let mut lines: Vec<String> = Vec::new();
        let mut i: usize = 0;
        while i < evidence.len()
            invariant
                i <= evidence@.len(),
                texts(lines@) =~= Seq::new(i as nat, |j: int| evidence_line(evidence@[j])),
            decreases evidence.len() - i,
        {
            let e = &evidence[i];
            let mut line = id_line("- ", "EvidenceId", e.id.0);
            line.append(" (");
            line.append(e.evidence_type.name());
            line.append(", accepted: ");
            if e.accepted {
                line.append("true");
            } else {
                line.append("false");
            }
            push_char(&mut line, ')');
            assert(line@ =~= evidence_line(*e));
            let ghost prev = lines@;
            lines.push(line);
            proof {
                lemma_texts_push(prev, line);
            }
            i = i + 1;
        }
        join_with_newlines(&lines)
    }

    /// One line per skill: name, version, state and estimated cost.
    pub fn encode_skills(skills: &[Skill]) -> (r: String)
        ensures
            r@ == join_lines(Seq::new(skills@.len(), |i: int| skill_line(skills@[i]))),
    {
        let mut lines: Vec<String> = Vec::new();
        let mut i: usize = 0;
        while i < skills.len()
            invariant
                i <= skills@.len(),
                texts(lines@) =~= Seq::new(i as nat, |j: int| skill_line(skills@[j])),
            decreases skills.len() - i,
        {
            let sk = &skills[i];
            let mut line = String::from_str("- ");
            line.append(sk.name.as_str());
            line.append(" v");
            line.append(sk.version.as_str());
            line.append(" (state: ");
            line.append(sk.state.name());
            line.append(", cost: $");
            push_micro(&mut line, sk.cost_profile.estimated_cost_usd);
            push_char(&mut line, ')');
            assert(line@ =~= skill_line(*sk));
            let ghost prev = lines@;
            lines.push(line);
            proof {
                lemma_texts_push(prev, line);
            }
            i = i + 1;
        }
        join_with_newlines(&lines)
    }

    /// One line per message: `[index] message`.
    pub fn encode_history(history: &[String]) -> (r: String)
        ensures
            r@ == join_lines(Seq::new(history@.len(), |i: int| history_line(i as nat, history@[i]@))),
    {
        let mut lines: Vec<String> = Vec::new();
        let mut i: usize = 0;
        while i < history.len()
            invariant
                i <= history@.len(),
                texts(lines@) =~= Seq::new(i as nat, |j: int| history_line(j as nat, history@[j]@)),
            decreases history.len() - i,
        {
            let mut line = String::new();
            push_char(&mut line, '[');
            push_decimal(&mut line, i as u64);
            line.append("] ");
            line.append(history[i].as_str());
            assert(line@ =~= history_line(i as nat, history@[i as int]@));
            let ghost prev = lines@;
            lines.push(line);
            proof {
                lemma_texts_push(prev, line);
            }
            i = i + 1;
        }
        join_with_newlines(&lines)
    }

    /// One line per worker: name, type and state.
    pub fn encode_workers(workers: &[Worker]) -> (r: String)
        ensures
            r@ == join_lines(Seq::new(workers@.len(), |i: int| worker_line(workers@[i]))),
    {
        let mut lines: Vec<String> = Vec::new();
        let mut i: usize = 0;
        while i < workers.len()
            invariant
                i <= workers@.len(),
                texts(lines@) =~= Seq::new(i as nat, |j: int| worker_line(workers@[j])),
            decreases workers.len() - i,
        {
            let w = &workers[i];
            let mut line = String::from_str("- ");
            line.append(w.name.as_str());
            line.append(" (type: ");
            line.append(w.worker_type.name());
            line.append(", state: ");
            line.append(w.state.name());
            push_char(&mut line, ')');
            assert(line@ =~= worker_line(*w));
            let ghost prev = lines@;
            lines.push(line);
            proof {
                lemma_texts_push(prev, line);
            }
            i = i + 1;
        }
        join_with_newlines(&lines)
    }

    /// One line per tool: `- name`.
    pub fn encode_tools(tools: &[String]) -> (r: String)
        ensures
            r@ == join_lines(Seq::new(tools@.len(), |i: int| tool_line(tools@[i]@))),
    {
        let mut lines: Vec<String> = Vec::new();
        let mut i: usize = 0;
        while i < tools.len()
            invariant
                i <= tools@.len(),
                texts(lines@) =~= Seq::new(i as nat, |j: int| tool_line(tools@[j]@)),
            decreases tools.len() - i,
        {
            let line = prefixed("- ", tools[i].as_str());
            let ghost prev = lines@;
            lines.push(line);
            proof {
                lemma_texts_push(prev, line);
            }
            i = i + 1;
        }
        join_with_newlines(&lines)
    }

    /// The whole context: the header, then the task, mission, memory,
    /// policy, agents, lineage and evidence sections, each only when there
    /// is something to put in it.
    pub fn build_context(
        task: Option<&Task>,
        mission: Option<&Mission>,
        memories: &[Memory],
        policies: &[PolicyBundle],
        agents: &[Agent],
        lineage: Option<&Lineage>,
        evidence: &[Evidence],
    ) -> (r: String)
        ensures
            r@ == toon_header() + concat_all(
                context_sections(task, mission, memories@, policies@, agents@, lineage, evidence@),
            ),
    {
        let mut ctx = ToonContext::new();
        if let Some(t) = task {
            ctx.add_section("task", Self::encode_task(t));
        }
        assert(ctx.sections() =~= opt_task_section(task));
        if let Some(m) = mission {
            ctx.add_section("mission", Self::encode_mission(m));
        }
        assert(ctx.sections() =~= opt_task_section(task) + opt_mission_section(mission));
        if memories.len() > 0 {
            ctx.add_section("memory", Self::encode_memories(memories));
        }
        assert(ctx.sections() =~= opt_task_section(task) + opt_mission_section(mission) + opt_memory_section(
            memories@,
        ));
        if policies.len() > 0 {
            ctx.add_section("policy", Self::encode_policy_summary(policies));
        }
        assert(ctx.sections() =~= opt_task_section(task) + opt_mission_section(mission) + opt_memory_section(
            memories@,
        ) + opt_policy_section(policies@));
        if agents.len() > 0 {
            ctx.add_section("agents", Self::encode_agent_roster(agents));
        }
        assert(ctx.sections() =~= opt_task_section(task) + opt_mission_section(mission) + opt_memory_section(
            memories@,
        ) + opt_policy_section(policies@) + opt_agents_section(agents@));
        if let Some(l) = lineage {
            ctx.add_section("lineage", Self::encode_lineage(l));
        }
        assert(ctx.sections() =~= opt_task_section(task) + opt_mission_section(mission) + opt_memory_section(
            memories@,
        ) + opt_policy_section(policies@) + opt_agents_section(agents@) + opt_lineage_section(lineage));
        if evidence.len() > 0 {
            ctx.add_section("evidence", Self::encode_evidence(evidence));
        }
        assert(ctx.sections() =~= context_sections(task, mission, memories@, policies@, agents@, lineage, evidence@));
        ctx.build()
    }
}

} // verus!
