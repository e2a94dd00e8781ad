//! Memory entries and the admission pipeline that decides which candidate
//! memories become active.
use vstd::prelude::*;
use crate::domain::{AgentId, EvidenceId, MemoryId, TaskId};
use crate::ids::{uuid_string, uuid_text};
use crate::text::{
    decimal_text, digit_char, has_infix, lowercase_text, push_char, push_decimal, str_contains, str_equal,
    to_lowercase_string, trim_str, trim_text,
};

verus! {

/// What kind of knowledge a memory holds.
#[derive(Clone, Copy, Debug, PartialEq, Eq, Structural)]
pub enum MemoryType {
    Semantic,
    Episodic,
    Procedural,
}

pub open spec fn memory_type_name(t: MemoryType) -> Seq<char> {
    match t {
        MemoryType::Semantic => "Semantic"@,
        MemoryType::Episodic => "Episodic"@,
        MemoryType::Procedural => "Procedural"@,
    }
}

impl MemoryType {
    /// The variant's name, as `{:?}` prints it.
    pub fn name(&self) -> (s: &'static str)
        ensures
            s@ == memory_type_name(*self),
    {
        match self {
            MemoryType::Semantic => "Semantic",
            MemoryType::Episodic => "Episodic",
            MemoryType::Procedural => "Procedural",
        }
    }
}

/// Where a memory stands.
#[derive(Clone, Copy, Debug, PartialEq, Eq, Structural)]
pub enum MemoryStatus {
    Candidate,
    Scanning,
    Active,
    Rejected,
    Archived,
}

pub open spec fn memory_status_name(t: MemoryStatus) -> Seq<char> {
    match t {
        MemoryStatus::Candidate => "Candidate"@,
        MemoryStatus::Scanning => "Scanning"@,
        MemoryStatus::Active => "Active"@,
        MemoryStatus::Rejected => "Rejected"@,
        MemoryStatus::Archived => "Archived"@,
    }
}

impl MemoryStatus {
    /// The variant's name, as `{:?}` prints it.
    pub fn name(&self) -> (s: &'static str)
        ensures
            s@ == memory_status_name(*self),
    {
        match self {
            MemoryStatus::Candidate => "Candidate",
            MemoryStatus::Scanning => "Scanning",
            MemoryStatus::Active => "Active",
            MemoryStatus::Rejected => "Rejected",
            MemoryStatus::Archived => "Archived",
        }
    }
}

/// Who produced a memory.
#[derive(Clone, Copy, Debug, PartialEq, Eq, Structural)]
pub struct MemorySource {
    pub agent_id: AgentId,
    pub task_id: TaskId,
    pub evidence_id: Option<EvidenceId>,
}

/// A remembered fact.
pub struct Memory {
    pub id: MemoryId,
    pub tenant_id: String,
    pub scope: String,
    pub memory_type: MemoryType,
    pub content: String,
    pub source: MemorySource,
    /// Confidence in millionths (`950_000` is 0.95).
    pub confidence: u64,
    pub classification: String,
    pub status: MemoryStatus,
    pub verified_by: Vec<AgentId>,
    /// Milliseconds since the epoch.
    pub created_at: i64,
    /// Milliseconds since the epoch.
    pub updated_at: i64,
}

// ── Admission ────────────────────────────────────────────────────

/// The outcome of one stage of the admission pipeline.
pub enum AdmissionDecision {
    /// Go on to the next stage.
    Continue,
    /// The pipeline is done; the memory is activated.
    Activate,
    /// The memory is rejected.
    Reject { reason: String },
}

/// How the admission pipeline judges candidates.
pub struct AdmissionConfig {
    /// The least confidence that passes, in millionths.
    pub min_confidence: u64,
    /// Phrases that betray an injection attempt.
    pub injection_keywords: Vec<String>,
    /// Whether a memory may repeat an active one (same scope and content).
    pub allow_duplicates: bool,
}

impl AdmissionConfig {
    /// Minimum confidence 0.6, the usual injection phrases, no duplicates.
    pub fn default() -> (c: AdmissionConfig)
        ensures
            c.min_confidence == 600_000,
            c.injection_keywords@.len() == 7,
            c.injection_keywords@[0]@ == "ignore previous"@,
            c.injection_keywords@[1]@ == "disregard"@,
            c.injection_keywords@[2]@ == "forget all"@,
            c.injection_keywords@[3]@ == "system prompt"@,
            c.injection_keywords@[4]@ == "jailbreak"@,
            c.injection_keywords@[5]@ == "</system>"@,
            c.injection_keywords@[6]@ == "<|im_start|>"@,
            !c.allow_duplicates,
    {
        AdmissionConfig {
            min_confidence: 600_000,
            injection_keywords: vec![
                String::from_str("ignore previous"),
                String::from_str("disregard"),
                String::from_str("forget all"),
                String::from_str("system prompt"),
                String::from_str("jailbreak"),
                String::from_str("</system>"),
                String::from_str("<|im_start|>"),
            ],
            allow_duplicates: false,
        }
    }
}

/// The final verdict on a candidate memory.
pub enum AdmissionResult {
    Activated,
    Rejected { reason: String },
}

/// The first keyword, in order, that occurs in `text`.
pub open spec fn first_keyword_in(text: Seq<char>, keywords: Seq<String>) -> Option<Seq<char>>
    decreases keywords.len(),
{
    if keywords.len() == 0 {
        None
    } else if has_infix(text, keywords[0]@) {
        Some(keywords[0]@)
    } else {
        first_keyword_in(text, keywords.drop_first())
    }
}

/// The normalised content used to detect duplicates: trimmed, then
/// lowercased.
pub open spec fn normalized(s: Seq<char>) -> Seq<char> {
    lowercase_text(trim_text(s))
}

/// `mem` duplicates the candidate: another active memory in the same
/// scope with the same normalised content.
pub open spec fn duplicates(mem: Memory, candidate: Memory) -> bool {
    &&& mem.id != candidate.id
    &&& mem.scope@ == candidate.scope@
    &&& normalized(mem.content@) == normalized(candidate.content@)
    &&& mem.status == MemoryStatus::Active
}

/// The first existing memory, in order, that the candidate duplicates.
pub open spec fn first_duplicate(candidate: Memory, existing: Seq<Memory>) -> Option<Memory>
    decreases existing.len(),
{
    if existing.len() == 0 {
        None
    } else if duplicates(existing[0], candidate) {
        Some(existing[0])
    } else {
        first_duplicate(candidate, existing.drop_first())
    }
}

/// A value in millionths, rounded half up to hundredths, printed with two
/// decimals.
pub open spec fn hundredths_text(v: nat) -> Seq<char> {
    let h = (v + 5000) / 10000;
    decimal_text(h / 100) + seq!['.', digit_char((h % 100) / 10), digit_char(h % 10)]
}

/// Why the pipeline rejects a candidate, or `None` when it activates it.
/// The stages run in order: status, injection scan, confidence,
/// deduplication, source, classification.
pub open spec fn admission_rejection(config: AdmissionConfig, candidate: Memory, existing: Seq<Memory>) -> Option<
    Seq<char>,
> {
    if candidate.status != MemoryStatus::Candidate && candidate.status != MemoryStatus::Scanning {
        Some("status tidak valid untuk admission: "@ + memory_status_name(candidate.status))
    } else if first_keyword_in(lowercase_text(candidate.content@), config.injection_keywords@) is Some {
        Some(
            "injection pattern terdeteksi: '"@ + first_keyword_in(
                lowercase_text(candidate.content@),
                config.injection_keywords@,
            )->0 + seq!['\''],
        )
    } else if candidate.confidence < config.min_confidence {
        Some(
            "confidence "@ + hundredths_text(candidate.confidence as nat) + " di bawah minimum "@ + hundredths_text(
                config.min_confidence as nat,
            ),
        )
    } else if !config.allow_duplicates && first_duplicate(candidate, existing) is Some {
        Some(
            "duplikat dengan memory aktif "@ + uuid_text(first_duplicate(candidate, existing)->0.id.0)
                + " dalam scope '"@ + candidate.scope@ + seq!['\''],
        )
    } else if candidate.source.agent_id.0 == 0 {
        Some("source agent_id tidak valid (nil UUID)"@)
    } else if trim_text(candidate.classification@).len() == 0 {
        Some("classification tidak boleh kosong"@)
    } else {
        None
    }
}

fn push_hundredths(s: &mut String, v: u64)
    ensures
        final(s)@ == old(s)@ + hundredths_text(v as nat),
{
    let h: u64 = (v / 10000) + (if v % 10000 >= 5000 { 1u64 } else { 0u64 });
    assert(h == (v + 5000) / 10000);
    push_decimal(s, h / 100);
    push_char(s, '.');
    let d1: u8 = (48 + (h % 100) / 10) as u8;
    let d2: u8 = (48 + h % 10) as u8;
    push_char(s, d1 as char);
    push_char(s, d2 as char);
    assert(s@ =~= old(s)@ + hundredths_text(v as nat));
}

/// The memory admission pipeline.
pub struct AdmissionPipeline {
    config: AdmissionConfig,
}

impl AdmissionPipeline {
    /// The configuration the pipeline judges by.
    pub closed spec fn config(&self) -> AdmissionConfig {
        self.config
    }

    /// A pipeline with the given configuration.
    pub fn new(config: AdmissionConfig) -> (p: AdmissionPipeline)
        ensures
            p.config() == config,
    {
        AdmissionPipeline { config }
    }

    /// A pipeline with the default configuration.
    pub fn with_defaults() -> (p: AdmissionPipeline)
        ensures
            p.config().min_confidence == 600_000,
            !p.config().allow_duplicates,
            p.config().injection_keywords@.len() == 7,
            p.config().injection_keywords@[0]@ == "ignore previous"@,
            p.config().injection_keywords@[1]@ == "disregard"@,
            p.config().injection_keywords@[2]@ == "forget all"@,
            p.config().injection_keywords@[3]@ == "system prompt"@,
            p.config().injection_keywords@[4]@ == "jailbreak"@,
            p.config().injection_keywords@[5]@ == "</system>"@,
            p.config().injection_keywords@[6]@ == "<|im_start|>"@,
    {
        Self::new(AdmissionConfig::default())
    }

    /// Runs every stage on one candidate; the first stage that rejects
    /// decides.
    pub fn evaluate(&self, candidate: &Memory, existing: &[Memory]) -> (r: AdmissionResult)
        ensures
            match admission_rejection(self.config(), *candidate, existing@) {
                None => r is Activated,
                Some(reason) => r matches AdmissionResult::Rejected { reason: got } && got@ == reason,
            },
    {
        if candidate.status != MemoryStatus::Candidate && candidate.status != MemoryStatus::Scanning {
            let mut reason = String::from_str("status tidak valid untuk admission: ");
            reason.append(candidate.status.name());
            return AdmissionResult::Rejected { reason };
        }
        if let AdmissionDecision::Reject { reason } = self.scan_injection(candidate.content.as_str()) {
            return AdmissionResult::Rejected { reason };
        }
        if let AdmissionDecision::Reject { reason } = self.check_confidence(candidate.confidence) {
            return AdmissionResult::Rejected { reason };
        }
        if let AdmissionDecision::Reject { reason } = self.check_duplicate(candidate, existing) {
            return AdmissionResult::Rejected { reason };
        }
        if let AdmissionDecision::Reject { reason } = self.check_source(candidate) {
            return AdmissionResult::Rejected { reason };
        }
        if let AdmissionDecision::Reject { reason } = self.check_classification(candidate) {
            return AdmissionResult::Rejected { reason };
        }
        AdmissionResult::Activated
    }

    fn scan_injection(&self, content: &str) -> (d: AdmissionDecision)
        ensures
            match first_keyword_in(lowercase_text(content@), self.config.injection_keywords@) {
                None => d is Continue,
                Some(k) => d matches AdmissionDecision::Reject { reason } && reason@ == "injection pattern terdeteksi: '"@
                    + k + seq!['\''],
            },
    {
        let lower = to_lowercase_string(content);
        let kws = &self.config.injection_keywords;
        let mut i: usize = 0;
        assert(kws@.subrange(0, kws@.len() as int) =~= kws@);
        while i < kws.len()
            invariant
                i <= kws@.len(),
                lower@ == lowercase_text(content@),
                *kws == self.config.injection_keywords,
                first_keyword_in(lower@, kws@) == first_keyword_in(lower@, kws@.subrange(i as int, kws@.len() as int)),
            decreases kws.len() - i,
        {
            let ghost rest = kws@.subrange(i as int, kws@.len() as int);
            assert(rest.drop_first() =~= kws@.subrange(i + 1, kws@.len() as int));
            assert(rest[0] == kws@[i as int]);
            if str_contains(lower.as_str(), kws[i].as_str()) {
                let mut reason = String::from_str("injection pattern terdeteksi: '");
                reason.append(kws[i].as_str());
                push_char(&mut reason, '\'');
                return AdmissionDecision::Reject { reason };
            }
            i = i + 1;
        }
        assert(kws@.subrange(i as int, kws@.len() as int).len() == 0);
        AdmissionDecision::Continue
    }

    fn check_confidence(&self, confidence: u64) -> (d: AdmissionDecision)
        ensures
            confidence < self.config.min_confidence ==> (d matches AdmissionDecision::Reject { reason } && reason@
                == "confidence "@ + hundredths_text(confidence as nat) + " di bawah minimum "@ + hundredths_text(
                self.config.min_confidence as nat,
            )),
            confidence >= self.config.min_confidence ==> d is Continue,
    {
        if confidence < self.config.min_confidence {
            let mut reason = String::from_str("confidence ");
            push_hundredths(&mut reason, confidence);
            reason.append(" di bawah minimum ");
            push_hundredths(&mut reason, self.config.min_confidence);
            AdmissionDecision::Reject { reason }
        } else {
            AdmissionDecision::Continue
        }
    }

    fn check_duplicate(&self, candidate: &Memory, existing: &[Memory]) -> (d: AdmissionDecision)
        ensures
            self.config.allow_duplicates ==> d is Continue,
            !self.config.allow_duplicates ==> match first_duplicate(*candidate, existing@) {
                None => d is Continue,
                Some(m) => d matches AdmissionDecision::Reject { reason } && reason@ == "duplikat dengan memory aktif "@
                    + uuid_text(m.id.0) + " dalam scope '"@ + candidate.scope@ + seq!['\''],
            },
    {
        if self.config.allow_duplicates {
            return AdmissionDecision::Continue;
        }
        let cand_norm = to_lowercase_string(trim_str(candidate.content.as_str()));
        let mut i: usize = 0;
        assert(existing@.subrange(0, existing@.len() as int) =~= existing@);
        while i < existing.len()
            invariant
                i <= existing@.len(),
                !self.config.allow_duplicates,
                cand_norm@ == normalized(candidate.content@),
                first_duplicate(*candidate, existing@) == first_duplicate(
                    *candidate,
                    existing@.subrange(i as int, existing@.len() as int),
                ),
            decreases existing.len() - i,
        {
            let ghost rest = existing@.subrange(i as int, existing@.len() as int);
            assert(rest.drop_first() =~= existing@.subrange(i + 1, existing@.len() as int));
            assert(rest[0] == existing@[i as int]);
            let mem = &existing[i];
            if mem.id != candidate.id && mem.status == MemoryStatus::Active && mem.scope == candidate.scope {
                let norm = to_lowercase_string(trim_str(mem.content.as_str()));
                if str_equal(norm.as_str(), cand_norm.as_str()) {
                    let mut reason = String::from_str("duplikat dengan memory aktif ");
                    let u = uuid_string(mem.id.0);
                    reason.append(u.as_str());
                    reason.append(" dalam scope '");
                    reason.append(candidate.scope.as_str());
                    push_char(&mut reason, '\'');
                    return AdmissionDecision::Reject { reason };
                }
            }
            i = i + 1;
        }
        assert(existing@.subrange(i as int, existing@.len() as int).len() == 0);
        AdmissionDecision::Continue
    }

    fn check_source(&self, candidate: &Memory) -> (d: AdmissionDecision)
        ensures
            candidate.source.agent_id.0 == 0 ==> (d matches AdmissionDecision::Reject { reason } && reason@
                == "source agent_id tidak valid (nil UUID)"@),
            candidate.source.agent_id.0 != 0 ==> d is Continue,
    {
        if candidate.source.agent_id.0 == 0 {
            AdmissionDecision::Reject { reason: String::from_str("source agent_id tidak valid (nil UUID)") }
        } else {
            AdmissionDecision::Continue
        }
    }

    fn check_classification(&self, candidate: &Memory) -> (d: AdmissionDecision)
        ensures
            trim_text(candidate.classification@).len() == 0 ==> (d matches AdmissionDecision::Reject { reason } && reason@
                == "classification tidak boleh kosong"@),
            trim_text(candidate.classification@).len() != 0 ==> d is Continue,
    {
        if trim_str(candidate.classification.as_str()).unicode_len() == 0 {
            AdmissionDecision::Reject { reason: String::from_str("classification tidak boleh kosong") }
        } else {
            AdmissionDecision::Continue
        }
    }
}

/// `memory <uuid> ditolak: <reason>`.
pub fn rejection_reason_for(id: &MemoryId, reason: &str) -> (s: String)
    ensures
        s@ == "memory "@ + uuid_text(id.0) + " ditolak: "@ + reason@,
{
    let mut s = String::from_str("memory ");
    let u = uuid_string(id.0);
    s.append(u.as_str());
    s.append(" ditolak: ");
    s.append(reason);
    s
}

/// A memory is activated exactly when it passes every stage: its status
/// allows admission, its content holds no injection phrase, its
/// confidence reaches the minimum, it repeats no active memory of its
/// scope unless repeats are allowed, its source agent is set and it is
/// classified.
pub proof fn law_activated_memory_passed_every_stage(config: AdmissionConfig, candidate: Memory, existing: Seq<Memory>)
    ensures
        admission_rejection(config, candidate, existing) is None <==> {
            &&& candidate.status == MemoryStatus::Candidate || candidate.status == MemoryStatus::Scanning
            &&& first_keyword_in(lowercase_text(candidate.content@), config.injection_keywords@) is None
            &&& candidate.confidence >= config.min_confidence
            &&& !config.allow_duplicates ==> first_duplicate(candidate, existing) is None
            &&& candidate.source.agent_id.0 != 0
            &&& trim_text(candidate.classification@).len() > 0
        },
{
}

/// Deduplication looks only at active memories of the candidate's own
/// scope: a memory is reported as the duplicate only if it is one of the
/// existing memories, has another id, lives in the same scope, is active
/// and holds the same trimmed, lowercased content; and one is reported
/// exactly when such a memory exists. Memories of other scopes never make
/// a candidate a duplicate.
pub proof fn law_duplicate_is_same_scope_active(candidate: Memory, existing: Seq<Memory>)
    ensures
        first_duplicate(candidate, existing) matches Some(m) ==> {
            &&& existing.contains(m)
            &&& m.id != candidate.id
            &&& m.scope@ == candidate.scope@
            &&& m.status == MemoryStatus::Active
            &&& lowercase_text(trim_text(m.content@)) == lowercase_text(trim_text(candidate.content@))
        },
        first_duplicate(candidate, existing) is Some <==> exists|k: int|
            0 <= k < existing.len() && (#[trigger] existing[k]).id != candidate.id && existing[k].scope@
                == candidate.scope@ && existing[k].status == MemoryStatus::Active && lowercase_text(
                trim_text(existing[k].content@),
            ) == lowercase_text(trim_text(candidate.content@)),
    decreases existing.len(),
{
    if existing.len() > 0 {
        let rest = existing.drop_first();
        law_duplicate_is_same_scope_active(candidate, rest);
        if duplicates(existing[0], candidate) {
            assert(existing.contains(existing[0]));
        } else {
            if first_duplicate(candidate, rest) is Some {
                let m = first_duplicate(candidate, rest)->0;
                let p = choose|p: int| 0 <= p < rest.len() && rest[p] == m;
                assert(existing[p + 1] == m);
            }
            if exists|k: int|
                0 <= k < existing.len() && (#[trigger] existing[k]).id != candidate.id && existing[k].scope@
                    == candidate.scope@ && existing[k].status == MemoryStatus::Active && lowercase_text(
                    trim_text(existing[k].content@),
                ) == lowercase_text(trim_text(candidate.content@)) {
                let k = choose|k: int|
                    0 <= k < existing.len() && (#[trigger] existing[k]).id != candidate.id && existing[k].scope@
                        == candidate.scope@ && existing[k].status == MemoryStatus::Active && lowercase_text(
                        trim_text(existing[k].content@),
                    ) == lowercase_text(trim_text(candidate.content@));
                assert(k != 0);
                assert(rest[k - 1] == existing[k]);
            }
            if first_duplicate(candidate, rest) is Some {
                let k = choose|k: int|
                    0 <= k < rest.len() && (#[trigger] rest[k]).id != candidate.id && rest[k].scope@
                        == candidate.scope@ && rest[k].status == MemoryStatus::Active && lowercase_text(
                        trim_text(rest[k].content@),
                    ) == lowercase_text(trim_text(candidate.content@));
                assert(existing[k + 1] == rest[k]);
            }
        }
    }
}

} // verus!
