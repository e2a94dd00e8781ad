//! The inputs a prompt is assembled from, the policy digest shown to the
//! model, and the output contracts its answers are checked against.
use vstd::prelude::*;
use crate::ids::{uuid_string, uuid_text};
use crate::json::JsonValue;
use crate::policy::{PolicyEffect, PolicyRule, PolicyRuleView, rule_views};
use crate::text::{concat_all, decimal_text, push_decimal};

verus! {

/// Which format the context message was written in.
#[derive(Clone, Copy, Debug, PartialEq, Eq, Structural)]
pub enum ContextFormat {
    Toon,
    Json,
}

/// Metadata attached to every prompt bundle, for audit and versioning.
pub struct PromptMetadata {
    pub prompt_bundle_id: String,
    pub prompt_version: String,
    pub agent_id: String,
    pub agent_role: String,
    pub lifecycle_mode: String,
    pub mission_id: String,
    pub task_id: String,
    pub policy_bundle_id: String,
    pub policy_hash: String,
    pub context_format: ContextFormat,
}

/// The agent a prompt is for.
pub struct AgentPromptInput {
    pub id: String,
    pub role: String,
    pub lifecycle_mode: String,
    pub organization_id: String,
    pub memory_scopes: Vec<String>,
}

/// The mission a prompt works on.
pub struct MissionPromptInput {
    pub id: String,
    pub objective: String,
    pub scope: Option<String>,
    pub status: String,
    pub risk_level: String,
}

/// The task a prompt works on.
pub struct TaskPromptInput {
    pub id: String,
    pub objective: String,
    pub status: String,
    pub deadline: Option<String>,
    pub acceptance_criteria: Vec<String>,
    pub required_evidence: Vec<String>,
}

/// A memory shown to the model; confidence in millionths.
pub struct MemoryPromptInput {
    pub content: String,
    pub memory_type: String,
    pub confidence: u64,
}

/// A member of the agent's team.
pub struct TeamMemberInput {
    pub id: String,
    pub role: String,
    pub status: String,
    pub objective: Option<String>,
}

/// The budget shown to the model, in millionths of a dollar.
pub struct BudgetPromptInput {
    pub allocated: u64,
    pub spent: u64,
    pub remaining: u64,
    pub reserved: u64,
}

/// The policy source the prompt is bound by.
pub struct PolicyIrInput {
    pub id: String,
    pub hash: String,
    pub rules: String,
}

/// A tool the model may call.
pub struct ToolDefinition {
    pub name: String,
    pub description: String,
    pub input_schema: JsonValue,
}

/// The contract the model's answer must meet.
pub struct OutputContractInput {
    pub output_type: String,
    pub schema: JsonValue,
}

/// A model answer after schema and policy checks.
pub struct ValidatedAgentResponse {
    pub raw: JsonValue,
    pub parsed: JsonValue,
    pub schema_valid: bool,
    pub policy_valid: bool,
    pub response_hash: String,
}

/// The request a prompt is assembled from.
pub struct PromptBuildRequest {
    pub agent: AgentPromptInput,
    pub mission: MissionPromptInput,
    pub task: TaskPromptInput,
    pub memories: Vec<MemoryPromptInput>,
    pub team: Vec<TeamMemberInput>,
    pub budget: BudgetPromptInput,
    pub tools: Vec<ToolDefinition>,
    pub policy_ir: PolicyIrInput,
    pub model_profile: String,
    pub output_contract: OutputContractInput,
}

/// Everything sent to the model for one call. The response schema is kept
/// as its compact JSON text.
pub struct PromptBundle {
    pub system_messages: Vec<String>,
    pub context_message: String,
    pub response_schema: String,
    pub tools: Vec<ToolDefinition>,
    pub metadata: PromptMetadata,
}

/// The tokens estimated for a text of that many bytes: four for every ten
/// bytes, rounded down.
pub open spec fn byte_tokens(bytes: nat) -> nat {
    bytes * 2 / 5
}

/// The tokens estimated for a text, from its UTF-8 length.
pub open spec fn text_tokens(s: Seq<char>) -> nat {
    byte_tokens(vstd::utf8::encode_utf8(s).len())
}

/// The tokens estimated for a list of messages, each on its own.
pub open spec fn messages_tokens(ms: Seq<String>) -> nat
    decreases ms.len(),
{
    if ms.len() == 0 {
        0
    } else {
        messages_tokens(ms.drop_last()) + text_tokens(ms.last()@)
    }
}

/// The input tokens a bundle is estimated to cost: its system messages,
/// its context message and its response schema.
pub open spec fn bundle_tokens(b: PromptBundle) -> nat {
    messages_tokens(b.system_messages@) + text_tokens(b.context_message@) + text_tokens(b.response_schema@)
}

/// Every text of the bundle has a UTF-8 length that fits in `usize`.
pub open spec fn texts_fit(b: PromptBundle) -> bool {
    &&& forall|i: int|
        0 <= i < b.system_messages@.len() ==> vstd::utf8::encode_utf8(#[trigger] b.system_messages@[i]@).len()
            <= usize::MAX
    &&& vstd::utf8::encode_utf8(b.context_message@).len() <= usize::MAX
    &&& vstd::utf8::encode_utf8(b.response_schema@).len() <= usize::MAX
}

fn tokens_of(s: &String) -> (n: u64)
    requires
        vstd::utf8::encode_utf8(s@).len() <= usize::MAX,
    ensures
        n == text_tokens(s@),
{
    let bytes = s.as_str().len();
    let b: u64 = bytes as u64;
    let n = b / 5 * 2 + (b % 5) * 2 / 5;
    assert(n == b * 2 / 5) by (nonlinear_arith)
        requires
            n == b / 5 * 2 + (b % 5) * 2 / 5,
    ;
    n
}

impl PromptBundle {
    /// A rough count of the input tokens the bundle costs: four tokens per
    /// ten bytes of each system message, of the context message and of the
    /// response schema's JSON text.
    pub fn estimate_input_tokens(&self) -> (n: u32)
        requires
            texts_fit(*self),
            bundle_tokens(*self) <= u32::MAX,
        ensures
            n == bundle_tokens(*self),
    {
        let mut total: u64 = 0;
        let mut i: usize = 0;
        while i < self.system_messages.len()
            invariant
                i <= self.system_messages@.len(),
                total == messages_tokens(self.system_messages@.subrange(0, i as int)),
                messages_tokens(self.system_messages@) <= u32::MAX,
                texts_fit(*self),
            decreases self.system_messages.len() - i,
        {
            let ghost ms = self.system_messages@.subrange(0, i + 1);
            assert(ms.drop_last() =~= self.system_messages@.subrange(0, i as int));
            proof {
                lemma_messages_tokens_prefix(self.system_messages@, i + 1);
            }
            total = total + tokens_of(&self.system_messages[i]);
            i = i + 1;
        }
        assert(self.system_messages@.subrange(0, i as int) =~= self.system_messages@);
        total = total + tokens_of(&self.context_message);
        total = total + tokens_of(&self.response_schema);
        total as u32
    }
}

proof fn lemma_messages_tokens_prefix(ms: Seq<String>, n: int)
    requires
        0 <= n <= ms.len(),
    ensures
        messages_tokens(ms.subrange(0, n)) <= messages_tokens(ms),
    decreases ms.len() - n,
{
    if n < ms.len() {
        lemma_messages_tokens_prefix(ms, n + 1);
        assert(ms.subrange(0, n + 1).drop_last() =~= ms.subrange(0, n));
    } else {
        assert(ms.subrange(0, n) =~= ms);
    }
}

// ----- policy digest -----
/// The word a digest line uses for an effect.
pub open spec fn effect_word(e: PolicyEffect) -> Seq<char> {
    match e {
        PolicyEffect::Allow => "allow"@,
        PolicyEffect::ExplicitDeny => "deny"@,
        PolicyEffect::ExplicitDenyPriority => "deny_priority"@,
    }
}

/// One digest line: `  - <effect>: <rule id> (resource: <resource>)`.
pub open spec fn digest_line(r: PolicyRuleView) -> Seq<char> {
    "  - "@ + effect_word(r.effect) + ": "@ + uuid_text(r.id) + " (resource: "@ + r.resource + ")\n"@
}

/// The digest of a non-empty list of compiled rules.
pub open spec fn digest_text(rules: Seq<PolicyRuleView>) -> Seq<char> {
    "Policy Digest:\n"@ + concat_all(Seq::new(rules.len(), |i: int| digest_line(rules[i]))) + "\nTotal rules: "@
        + decimal_text(rules.len())
}

/// What the digest says for a policy source and the rules the policy
/// compiler produced from it (none when it failed).
pub open spec fn policy_digest(source: Seq<char>, compiled: Seq<PolicyRuleView>) -> Seq<char> {
    if source.len() == 0 {
        "No active policy rules."@
    } else if compiled.len() == 0 {
        "No actionable policy rules in source."@
    } else {
        digest_text(compiled)
    }
}

/// Writes the short policy summary included in prompts.
pub struct PolicyDigestBuilder;

impl PolicyDigestBuilder {
    /// The digest of a policy: a fixed sentence for an empty source or one
    /// that compiles to no rule, else one line per compiled rule and the
    /// count. `compiled` is what the policy compiler produced from
    /// `input.rules` (empty when it failed).
    pub fn build(input: &PolicyIrInput, compiled: &Vec<PolicyRule>) -> (d: String)
        ensures
            d@ == policy_digest(input.rules@, rule_views(compiled@)),
    {
        if input.rules.unicode_len() == 0 {
            return String::from_str("No active policy rules.");
        }
        if compiled.len() == 0 {
            return String::from_str("No actionable policy rules in source.");
        }
        let ghost rv = rule_views(compiled@);
        let mut d = String::from_str("Policy Digest:\n");
        let mut i: usize = 0;
        while i < compiled.len()
            invariant
                i <= compiled@.len(),
                rv == rule_views(compiled@),
                d@ == "Policy Digest:\n"@ + concat_all(Seq::new(i as nat, |k: int| digest_line(rv[k]))),
            decreases compiled.len() - i,
        {
            let rule = &compiled[i];
            let ghost before = d@;
            d.append("  - ");
            let word = match rule.effect {
                PolicyEffect::Allow => "allow",
                PolicyEffect::ExplicitDeny => "deny",
                PolicyEffect::ExplicitDenyPriority => "deny_priority",
            };
            d.append(word);
            d.append(": ");
            let id = uuid_string(rule.id);
            d.append(id.as_str());
            d.append(" (resource: ");
            d.append(rule.resource.as_str());
            d.append(")\n");
            proof {
                let lines = Seq::new((i + 1) as nat, |k: int| digest_line(rv[k]));
                assert(lines.drop_last() =~= Seq::new(i as nat, |k: int| digest_line(rv[k])));
                assert(rv[i as int] == compiled@[i as int]@);
                assert(d@ =~= before + digest_line(rv[i as int]));
            }
            i = i + 1;
        }
        d.append("\nTotal rules: ");
        push_decimal(&mut d, compiled.len() as u64);
        proof {
            assert(Seq::new(compiled@.len(), |k: int| digest_line(rv[k])) =~= Seq::new(
                rv.len(),
                |k: int| digest_line(rv[k]),
            ));
        }
        d
    }
}

// ----- semantic validation -----
/// What a semantic check of an answer knows of the asking agent.
pub struct SemanticValidationContext {
    pub agent_role: String,
    pub objective: String,
    pub mission_context: String,
}

/// The result of a semantic check: valid exactly when no risk was found.
pub struct SemanticValidationOutcome {
    pub valid: bool,
    pub risks: Vec<String>,
}

/// The semantic check applied when no other is configured: it flags
/// answers of low confidence.
pub struct DefaultSemanticValidator;

} // verus!
