//! Policy bundles and their evaluation: which rule decides whether a
//! subject may perform an action on a resource.
use vstd::prelude::*;
use crate::ids::{new_uuid_v7, now_millis, uuid_string, uuid_text};
use crate::json::{JsonValue, JsonView, json_clone, json_eq, json_get, json_lookup};
use crate::text::{has_infix, str_contains, str_ends_with, str_starts_with};

verus! {

/// What a matching rule does.
#[derive(Clone, Copy, Debug, PartialEq, Eq, Structural)]
pub enum PolicyEffect {
    /// Permits the action.
    Allow,
    /// Denies at once, whatever the rules after it say.
    ExplicitDeny,
    /// Denies unless an `Allow` of higher priority permits the action.
    ExplicitDenyPriority,
}

/// Who a rule is about.
pub enum PolicySubject {
    Role(String),
    Agent(String),
    Organization(String),
    Department(String),
    Mission(String),
    Task(String),
    Tool(String),
    Worker(String),
    Tenant(String),
    DataClass(String),
}

/// A subject as its kind (in declaration order) and its name.
pub type SubjectView = (nat, Seq<char>);

impl View for PolicySubject {
    type V = SubjectView;

    open spec fn view(&self) -> SubjectView {
        match self {
            PolicySubject::Role(s) => (0, s@),
            PolicySubject::Agent(s) => (1, s@),
            PolicySubject::Organization(s) => (2, s@),
            PolicySubject::Department(s) => (3, s@),
            PolicySubject::Mission(s) => (4, s@),
            PolicySubject::Task(s) => (5, s@),
            PolicySubject::Tool(s) => (6, s@),
            PolicySubject::Worker(s) => (7, s@),
            PolicySubject::Tenant(s) => (8, s@),
            PolicySubject::DataClass(s) => (9, s@),
        }
    }
}

impl PolicySubject {
    /// A copy of the subject.
    pub fn duplicate(&self) -> (r: PolicySubject)
        ensures
            r@ == self@,
    {
        match self {
            PolicySubject::Role(s) => PolicySubject::Role(s.clone()),
            PolicySubject::Agent(s) => PolicySubject::Agent(s.clone()),
            PolicySubject::Organization(s) => PolicySubject::Organization(s.clone()),
            PolicySubject::Department(s) => PolicySubject::Department(s.clone()),
            PolicySubject::Mission(s) => PolicySubject::Mission(s.clone()),
            PolicySubject::Task(s) => PolicySubject::Task(s.clone()),
            PolicySubject::Tool(s) => PolicySubject::Tool(s.clone()),
            PolicySubject::Worker(s) => PolicySubject::Worker(s.clone()),
            PolicySubject::Tenant(s) => PolicySubject::Tenant(s.clone()),
            PolicySubject::DataClass(s) => PolicySubject::DataClass(s.clone()),
        }
    }
}

/// One rule of a policy bundle.
pub struct PolicyRule {
    pub id: u128,
    pub subject: PolicySubject,
    /// Action pattern (`*`, exact, `*suffix` or `prefix*`).
    pub action: String,
    /// Resource pattern, written like the action pattern.
    pub resource: String,
    /// Optional condition: an object whose fields the context must carry.
    pub condition: Option<JsonValue>,
    pub effect: PolicyEffect,
    pub priority: i32,
}

/// The content of a [`PolicyRule`].
pub struct PolicyRuleView {
    pub id: u128,
    pub subject: SubjectView,
    pub action: Seq<char>,
    pub resource: Seq<char>,
    pub condition: Option<JsonView>,
    pub effect: PolicyEffect,
    pub priority: i32,
}

pub open spec fn opt_json_view(v: Option<JsonValue>) -> Option<JsonView> {
    match v {
        Some(x) => Some(x@),
        None => None,
    }
}

impl View for PolicyRule {
    type V = PolicyRuleView;

    open spec fn view(&self) -> PolicyRuleView {
        PolicyRuleView {
            id: self.id,
            subject: self.subject@,
            action: self.action@,
            resource: self.resource@,
            condition: opt_json_view(self.condition),
            effect: self.effect,
            priority: self.priority,
        }
    }
}

impl PolicyRule {
    /// A copy of the rule.
    pub fn duplicate(&self) -> (r: PolicyRule)
        ensures
            r@ == self@,
    {
        let condition = match &self.condition {
            Some(c) => Some(json_clone(c)),
            None => None,
        };
        PolicyRule {
            id: self.id,
            subject: self.subject.duplicate(),
            action: self.action.clone(),
            resource: self.resource.clone(),
            condition,
            effect: self.effect,
            priority: self.priority,
        }
    }
}

/// The content of each rule of a sequence.
pub open spec fn rule_views(rules: Seq<PolicyRule>) -> Seq<PolicyRuleView> {
    Seq::new(rules.len(), |i: int| rules[i]@)
}

/// A versioned set of rules.
pub struct PolicyBundle {
    pub id: u128,
    pub name: String,
    pub version: String,
    pub rules: Vec<PolicyRule>,
    pub is_active: bool,
    pub signed_by: Option<String>,
    pub signature: Option<String>,
    /// Milliseconds since the epoch.
    pub activated_at: Option<i64>,
    /// Milliseconds since the epoch.
    pub created_at: i64,
}

/// The answer to an evaluation.
pub struct PolicyEvaluateResult {
    pub allowed: bool,
    pub matched_rule: Option<PolicyRule>,
    pub evaluation_time_ms: u64,
    pub reason: String,
}

/// Why a bundle could not be evaluated.
pub enum PolicyError {
    NotFound(String),
    Inactive(String),
    Unsigned(String),
    Other(String),
}

// ── Matching ─────────────────────────────────────────────────────

/// A rule's subject covers the target: the role `*` covers every subject,
/// otherwise kind and name must agree.
pub open spec fn subject_covers(rule: SubjectView, target: SubjectView) -> bool {
    (rule.0 == 0 && rule.1 == seq!['*']) || (rule.0 == target.0 && rule.1 == target.1)
}

/// Glob matching: `*` matches anything, a pattern matches itself,
/// `*middle*` matches values containing `middle`, `*rest` values ending
/// with `rest`, `prefix*` values starting with `prefix`.
pub open spec fn glob_matches(pattern: Seq<char>, value: Seq<char>) -> bool {
    if pattern == seq!['*'] {
        true
    } else if pattern == value {
        true
    } else if pattern.len() >= 2 && pattern[0] == '*' && pattern.last() == '*' {
        has_infix(value, pattern.subrange(1, pattern.len() - 1))
    } else if pattern.len() > 0 && pattern[0] == '*' {
        pattern.drop_first().is_suffix_of(value)
    } else if pattern.len() > 0 && pattern.last() == '*' {
        pattern.drop_last().is_prefix_of(value)
    } else {
        false
    }
}

/// A condition holds in a context: no condition, or no context, always
/// holds; an object condition requires each of its fields to be present
/// in the context with an equal value; any other condition holds.
pub open spec fn condition_holds(condition: Option<JsonView>, context: Option<JsonView>) -> bool {
    match condition {
        None => true,
        Some(cond) => match context {
            None => true,
            Some(ctx) => match cond {
                JsonView::Object(entries) => forall|i: int|
                    0 <= i < entries.len() ==> json_lookup(ctx, #[trigger] entries[i].0) == Some(
                        entries[i].1,
                    ),
                _ => true,
            },
        },
    }
}

/// A rule applies to a request.
pub open spec fn rule_applies(
    rule: PolicyRuleView,
    subject: SubjectView,
    action: Seq<char>,
    resource: Seq<char>,
    context: Option<JsonView>,
) -> bool {
    &&& subject_covers(rule.subject, subject)
    &&& glob_matches(rule.action, action)
    &&& glob_matches(rule.resource, resource)
    &&& condition_holds(rule.condition, context)
}

// ── Ordering ─────────────────────────────────────────────────────

/// Inserts `r` after every leading rule of priority at least its own.
pub open spec fn insert_by_priority(r: PolicyRuleView, s: Seq<PolicyRuleView>) -> Seq<PolicyRuleView>
    decreases s.len(),
{
    if s.len() == 0 {
        seq![r]
    } else if s[0].priority >= r.priority {
        seq![s[0]] + insert_by_priority(r, s.drop_first())
    } else {
        seq![r] + s
    }
}

/// The rules by descending priority, rules of equal priority in the
/// order they were given (a stable sort).
pub open spec fn by_priority(s: Seq<PolicyRuleView>) -> Seq<PolicyRuleView>
    decreases s.len(),
{
    if s.len() == 0 {
        s
    } else {
        insert_by_priority(s.last(), by_priority(s.drop_last()))
    }
}

/// Priorities never increase along the sequence.
pub open spec fn descending(s: Seq<PolicyRuleView>) -> bool {
    forall|i: int, j: int| 0 <= i < j < s.len() ==> s[i].priority >= s[j].priority
}

// ── Verdict ──────────────────────────────────────────────────────

/// How an evaluation ends.
pub enum Verdict {
    /// An `Allow` rule permitted the action.
    Allowed(PolicyRuleView),
    /// An `ExplicitDeny` rule denied it.
    Denied(PolicyRuleView),
    /// An `ExplicitDenyPriority` rule denied it and no higher-priority
    /// `Allow` overrode it.
    DeniedByPriority(PolicyRuleView),
    /// No rule applied.
    DefaultDeny,
}

/// Walks the rules in order from index `i`, `pending` being the last
/// `ExplicitDenyPriority` rule that applied so far.
pub open spec fn verdict_from(
    rules: Seq<PolicyRuleView>,
    subject: SubjectView,
    action: Seq<char>,
    resource: Seq<char>,
    context: Option<JsonView>,
    i: int,
    pending: Option<PolicyRuleView>,
) -> Verdict
    decreases rules.len() - i,
{
    if i < 0 || i >= rules.len() {
        match pending {
            Some(p) => Verdict::DeniedByPriority(p),
            None => Verdict::DefaultDeny,
        }
    } else if !rule_applies(rules[i], subject, action, resource, context) {
        verdict_from(rules, subject, action, resource, context, i + 1, pending)
    } else {
        match rules[i].effect {
            PolicyEffect::ExplicitDeny => Verdict::Denied(rules[i]),
            PolicyEffect::ExplicitDenyPriority => verdict_from(
                rules,
                subject,
                action,
                resource,
                context,
                i + 1,
                Some(rules[i]),
            ),
            PolicyEffect::Allow => match pending {
                Some(p) => if rules[i].priority > p.priority {
                    Verdict::Allowed(rules[i])
                } else {
                    verdict_from(rules, subject, action, resource, context, i + 1, pending)
                },
                None => Verdict::Allowed(rules[i]),
            },
        }
    }
}

/// The verdict of a set of rules on a request: the rules are walked by
/// descending priority.
pub open spec fn verdict(
    rules: Seq<PolicyRuleView>,
    subject: SubjectView,
    action: Seq<char>,
    resource: Seq<char>,
    context: Option<JsonView>,
) -> Verdict {
    verdict_from(by_priority(rules), subject, action, resource, context, 0, None)
}

pub open spec fn verdict_allows(v: Verdict) -> bool {
    v is Allowed
}

pub open spec fn verdict_rule(v: Verdict) -> Option<PolicyRuleView> {
    match v {
        Verdict::Allowed(r) => Some(r),
        Verdict::Denied(r) => Some(r),
        Verdict::DeniedByPriority(r) => Some(r),
        Verdict::DefaultDeny => None,
    }
}

/// The reason text of a verdict.
pub open spec fn verdict_reason(v: Verdict) -> Seq<char> {
    match v {
        Verdict::Allowed(r) => "allowed by rule "@ + uuid_text(r.id) + ": "@ + r.action,
        Verdict::Denied(r) => "denied by rule "@ + uuid_text(r.id) + ": "@ + r.action,
        Verdict::DeniedByPriority(r) => "denied by priority rule "@ + uuid_text(r.id) + ": "@
            + r.action,
        Verdict::DefaultDeny => "no matching rule — default deny"@,
    }
}

pub open spec fn opt_rule_view(r: Option<PolicyRule>) -> Option<PolicyRuleView> {
    match r {
        Some(x) => Some(x@),
        None => None,
    }
}

/// The result states the verdict.
pub open spec fn states_verdict(res: PolicyEvaluateResult, v: Verdict) -> bool {
    &&& res.allowed == verdict_allows(v)
    &&& opt_rule_view(res.matched_rule) == verdict_rule(v)
    &&& res.reason@ == verdict_reason(v)
}

pub open spec fn opt_ref_json_view(v: Option<&JsonValue>) -> Option<JsonView> {
    match v {
        Some(x) => Some(x@),
        None => None,
    }
}

impl PolicyError {
    /// The message of the error, as its `Display` prints it.
    pub fn to_string(&self) -> (s: String)
        ensures
            s@ == match self {
                PolicyError::NotFound(n) => "policy bundle not found: "@ + n@,
                PolicyError::Inactive(n) => "inactive policy bundle: "@ + n@,
                PolicyError::Unsigned(n) => "unsigned policy bundle: "@ + n@,
                PolicyError::Other(n) => n@,
            },
    {
        match self {
            PolicyError::NotFound(n) => {
                let mut s = String::from_str("policy bundle not found: ");
                s.append(n.as_str());
                s
            },
            PolicyError::Inactive(n) => {
                let mut s = String::from_str("inactive policy bundle: ");
                s.append(n.as_str());
                s
            },
            PolicyError::Unsigned(n) => {
                let mut s = String::from_str("unsigned policy bundle: ");
                s.append(n.as_str());
                s
            },
            PolicyError::Other(n) => n.clone(),
        }
    }
}

proof fn lemma_insert_at(r: PolicyRuleView, s: Seq<PolicyRuleView>, pos: int)
    requires
        0 <= pos <= s.len(),
        forall|j: int| 0 <= j < pos ==> s[j].priority >= r.priority,
        pos < s.len() ==> s[pos].priority < r.priority,
    ensures
        insert_by_priority(r, s) == s.insert(pos, r),
    decreases s.len(),
{
    if s.len() == 0 {
        assert(s.insert(pos, r) =~= seq![r]);
    } else if pos == 0 {
        assert(seq![r] + s =~= s.insert(0, r));
    } else {
        lemma_insert_at(r, s.drop_first(), pos - 1);
        assert(seq![s[0]] + s.drop_first().insert(pos - 1, r) =~= s.insert(pos, r));
    }
}

/// The rules by descending priority, equal priorities in their order.
fn sort_rules(rules: &Vec<PolicyRule>) -> (out: Vec<PolicyRule>)
    ensures
        rule_views(out@) == by_priority(rule_views(rules@)),
{
    let mut out: Vec<PolicyRule> = Vec::new();
    let mut i: usize = 0;
    while i < rules.len()
        invariant
            i <= rules.len(),
            rule_views(out@) == by_priority(rule_views(rules@).subrange(0, i as int)),
        decreases rules.len() - i,
    {
        let x = rules[i].duplicate();
        let mut pos: usize = 0;
        while pos < out.len() && out[pos].priority >= x.priority
            invariant
                pos <= out.len(),
                forall|j: int| 0 <= j < pos ==> out@[j].priority >= x.priority,
            decreases out.len() - pos,
        {
            pos = pos + 1;
        }
        proof {
            let pre = rule_views(rules@).subrange(0, i as int);
            let post = rule_views(rules@).subrange(0, i + 1);
            assert(post.drop_last() =~= pre);
            assert(post.last() == x@);
            lemma_insert_at(x@, rule_views(out@), pos as int);
        }
        let ghost before = out@;
        out.insert(pos, x);
        proof {
            assert(rule_views(out@) =~= rule_views(before).insert(pos as int, x@));
        }
        i = i + 1;
    }
    assert(rule_views(rules@).subrange(0, rules.len() as int) =~= rule_views(rules@));
    out
}

/// Evaluation and administration of policy bundles.
pub struct PolicyService;

/// The reason text `head` + rule id + `: ` + action.
fn rule_reason(head: &str, rule: &PolicyRule) -> (s: String)
    ensures
        s@ == head@ + uuid_text(rule.id) + ": "@ + rule.action@,
{
    let mut s = String::from_str(head);
    let u = uuid_string(rule.id);
    s.append(u.as_str());
    s.append(": ");
    s.append(rule.action.as_str());
    s
}

impl PolicyService {
    /// Does the rule's subject cover the target? The role `*` covers every
    /// subject; otherwise kinds and names must agree.
    pub fn subject_matches(rule_subject: &PolicySubject, target: &PolicySubject) -> (r: bool)
        ensures
            r == subject_covers(rule_subject@, target@),
    {
        match (rule_subject, target) {
            (PolicySubject::Role(r), _) if str_is_star(r.as_str()) => true,
            (PolicySubject::Role(r), PolicySubject::Role(t)) => *r == *t,
            (PolicySubject::Agent(a), PolicySubject::Agent(t)) => *a == *t,
            (PolicySubject::Organization(a), PolicySubject::Organization(t)) => *a == *t,
            (PolicySubject::Department(a), PolicySubject::Department(t)) => *a == *t,
            (PolicySubject::Mission(a), PolicySubject::Mission(t)) => *a == *t,
            (PolicySubject::Task(a), PolicySubject::Task(t)) => *a == *t,
            (PolicySubject::Tool(a), PolicySubject::Tool(t)) => *a == *t,
            (PolicySubject::Worker(a), PolicySubject::Worker(t)) => *a == *t,
            (PolicySubject::Tenant(a), PolicySubject::Tenant(t)) => *a == *t,
            (PolicySubject::DataClass(a), PolicySubject::DataClass(t)) => *a == *t,
            _ => false,
        }
    }

    /// Simple glob-style pattern matching: `*` matches anything.
    pub fn pattern_matches(pattern: &str, value: &str) -> (r: bool)
        ensures
            r == glob_matches(pattern@, value@),
    {
        let n = pattern.unicode_len();
        if str_is_star(pattern) {
            return true;
        }
        if n == value.unicode_len() && str_starts_with(value, pattern) {
            assert(pattern@ =~= value@);
            return true;
        }
        assert(pattern@ != value@ ==> !(pattern@.len() == value@.len() && pattern@.is_prefix_of(value@)));
        if n >= 2 && pattern.get_char(0) == '*' && pattern.get_char(n - 1) == '*' {
            let middle = pattern.substring_char(1, n - 1);
            return str_contains(value, middle);
        }
        if n > 0 && pattern.get_char(0) == '*' {
            let rest = pattern.substring_char(1, n);
            assert(rest@ =~= pattern@.drop_first());
            return str_ends_with(value, rest);
        }
        if n > 0 && pattern.get_char(n - 1) == '*' {
            let prefix = pattern.substring_char(0, n - 1);
            assert(prefix@ =~= pattern@.drop_last());
            return str_starts_with(value, prefix);
        }
        false
    }

    /// Evaluate an optional condition against the context: every field of
    /// an object condition must be present in the context with an equal
    /// value. A missing condition or a missing context always matches.
    pub fn evaluate_condition(condition: &Option<JsonValue>, context: Option<&JsonValue>) -> (r: bool)
        ensures
            r == condition_holds(opt_json_view(*condition), opt_ref_json_view(context)),
    {
        let cond = match condition {
            None => return true,
            Some(c) => c,
        };
        let ctx = match context {
            None => return true,
            Some(c) => c,
        };
        assert(opt_json_view(*condition) == Some(cond@));
        assert(opt_ref_json_view(context) == Some(ctx@));
        match cond {
            JsonValue::Object(entries) => {
                let r = fields_present(entries, ctx);
                proof {
                    let es = cond@->Object_0;
                    assert forall|i: int| 0 <= i < es.len() implies #[trigger] es[i] == (
                        entries@[i].0@,
                        entries@[i].1@,
                    ) by {}
                    if !r {
                        let i = choose|i: int|
                            0 <= i < entries@.len() && json_lookup(ctx@, entries@[i].0@) != Some(
                                entries@[i].1@,
                            );
                        assert(json_lookup(ctx@, es[i].0) != Some(es[i].1));
                    }
                }
                r
            },
            _ => true,
        }
    }

    /// Evaluate an action against a policy bundle.
    ///
    /// Rules are evaluated in priority order (highest first).
    /// - `ExplicitDeny` immediately denies regardless of subsequent rules.
    /// - `ExplicitDenyPriority` denies but can be overridden by a higher-priority `Allow`.
    /// - `Allow` permits the action.
    /// With no applicable rule the request is denied.
    pub fn evaluate(
        bundle: &PolicyBundle,
        subject: &PolicySubject,
        action: &str,
        resource: &str,
        context: Option<&JsonValue>,
    ) -> (r: Result<PolicyEvaluateResult, PolicyError>)
        ensures
            !bundle.is_active ==> (r matches Err(PolicyError::Inactive(n)) && n@ == bundle.name@),
            bundle.is_active ==> (r matches Ok(res) && states_verdict(
                res,
                verdict(
                    rule_views(bundle.rules@),
                    subject@,
                    action@,
                    resource@,
                    opt_ref_json_view(context),
                ),
            )),
    {
        if !bundle.is_active {
            return Err(PolicyError::Inactive(bundle.name.clone()));
        }
        let start = instant_now();
        let sorted = Self::compile_ref(&bundle.rules);
        let ghost sv = rule_views(sorted@);
        let ghost ctxv = opt_ref_json_view(context);
        let mut pending: Option<usize> = None;
        let mut i: usize = 0;
        while i < sorted.len()
            invariant
                i <= sorted.len(),
                bundle.is_active,
                sv == rule_views(sorted@),
                sv == by_priority(rule_views(bundle.rules@)),
                ctxv == opt_ref_json_view(context),
                pending matches Some(k) ==> k < sorted.len(),
                verdict_from(sv, subject@, action@, resource@, ctxv, 0, None) == verdict_from(
                    sv,
                    subject@,
                    action@,
                    resource@,
                    ctxv,
                    i as int,
                    match pending {
                        Some(k) => Some(sv[k as int]),
                        None => None,
                    },
                ),
            decreases sorted.len() - i,
        {
            let rule = &sorted[i];
            let applies = Self::subject_matches(&rule.subject, subject) && Self::pattern_matches(
                rule.action.as_str(),
                action,
            ) && Self::pattern_matches(rule.resource.as_str(), resource)
                && Self::evaluate_condition(&rule.condition, context);
            assert(sv[i as int] == rule@);
            if applies {
                match rule.effect {
                    PolicyEffect::ExplicitDeny => {
                        let elapsed = elapsed_millis(&start);
                        return Ok(
                            PolicyEvaluateResult {
                                allowed: false,
                                matched_rule: Some(rule.duplicate()),
                                evaluation_time_ms: elapsed,
                                reason: rule_reason("denied by rule ", rule),
                            },
                        );
                    },
                    PolicyEffect::ExplicitDenyPriority => {
                        pending = Some(i);
                    },
                    PolicyEffect::Allow => {
                        let overridden = match pending {
                            Some(k) => rule.priority <= sorted[k].priority,
                            None => false,
                        };
                        if !overridden {
                            let elapsed = elapsed_millis(&start);
                            return Ok(
                                PolicyEvaluateResult {
                                    allowed: true,
                                    matched_rule: Some(rule.duplicate()),
                                    evaluation_time_ms: elapsed,
                                    reason: rule_reason("allowed by rule ", rule),
                                },
                            );
                        }
                    },
                }
            }
            i = i + 1;
        }
        let elapsed = elapsed_millis(&start);
        match pending {
            Some(k) => Ok(
                PolicyEvaluateResult {
                    allowed: false,
                    matched_rule: Some(sorted[k].duplicate()),
                    evaluation_time_ms: elapsed,
                    reason: rule_reason("denied by priority rule ", &sorted[k]),
                },
            ),
            None => Ok(
                PolicyEvaluateResult {
                    allowed: false,
                    matched_rule: None,
                    evaluation_time_ms: elapsed,
                    reason: String::from_str("no matching rule — default deny"),
                },
            ),
        }
    }

    /// Create a new, inactive and unsigned policy bundle.
    pub fn create_bundle(name: String, version: String, rules: Vec<PolicyRule>) -> (b: PolicyBundle)
        ensures
            b.name@ == name@,
            b.version@ == version@,
            rule_views(b.rules@) == rule_views(rules@),
            !b.is_active,
            b.signed_by is None,
            b.signature is None,
            b.activated_at is None,
    {
        let id = new_uuid_v7();
        let now = now_millis();
        PolicyBundle {
            id,
            name,
            version,
            rules,
            is_active: false,
            signed_by: None,
            signature: None,
            activated_at: None,
            created_at: now,
        }
    }

    /// Activate a policy bundle, stamping the activation time.
    pub fn activate(bundle: &mut PolicyBundle)
        ensures
            final(bundle).is_active,
            final(bundle).activated_at is Some,
            final(bundle).id == old(bundle).id,
            final(bundle).name == old(bundle).name,
            final(bundle).version == old(bundle).version,
            final(bundle).rules == old(bundle).rules,
            final(bundle).signed_by == old(bundle).signed_by,
            final(bundle).signature == old(bundle).signature,
            final(bundle).created_at == old(bundle).created_at,
    {
        bundle.is_active = true;
        bundle.activated_at = Some(now_millis());
    }

    /// Deactivate a policy bundle; nothing else changes.
    pub fn deactivate(bundle: &mut PolicyBundle)
        ensures
            !final(bundle).is_active,
            final(bundle).id == old(bundle).id,
            final(bundle).name == old(bundle).name,
            final(bundle).version == old(bundle).version,
            final(bundle).rules == old(bundle).rules,
            final(bundle).signed_by == old(bundle).signed_by,
            final(bundle).signature == old(bundle).signature,
            final(bundle).activated_at == old(bundle).activated_at,
            final(bundle).created_at == old(bundle).created_at,
    {
        bundle.is_active = false;
    }

    /// Simulate evaluation without requiring an active bundle: the rules
    /// are evaluated as an active bundle would evaluate them.
    pub fn simulate(
        rules: &[PolicyRule],
        subject: &PolicySubject,
        action: &str,
        resource: &str,
        context: Option<&JsonValue>,
    ) -> (res: PolicyEvaluateResult)
        ensures
            states_verdict(
                res,
                verdict(rule_views(rules@), subject@, action@, resource@, opt_ref_json_view(context)),
            ),
    {
        let mut copies: Vec<PolicyRule> = Vec::new();
        let mut i: usize = 0;
        while i < rules.len()
            invariant
                i <= rules.len(),
                copies@.len() == i,
                forall|j: int| 0 <= j < i ==> copies@[j]@ == rules@[j]@,
            decreases rules.len() - i,
        {
            copies.push(rules[i].duplicate());
            i = i + 1;
        }
        assert(rule_views(copies@) =~= rule_views(rules@));
        let bundle = Self::create_bundle(String::from_str("simulation"), String::from_str("0.0.0"), copies);
        let mut sim_bundle = bundle;
        sim_bundle.is_active = true;
        match Self::evaluate(&sim_bundle, subject, action, resource, context) {
            Ok(result) => result,
            Err(e) => PolicyEvaluateResult {
                allowed: false,
                matched_rule: None,
                evaluation_time_ms: 0,
                reason: e.to_string(),
            },
        }
    }

    fn compile_ref(rules: &Vec<PolicyRule>) -> (sorted: Vec<PolicyRule>)
        ensures
            rule_views(sorted@) == by_priority(rule_views(rules@)),
    {
        sort_rules(rules)
    }

    /// Compile a set of rules: sort them by descending priority, rules of
    /// equal priority keeping their order.
    pub fn compile(rules: Vec<PolicyRule>) -> (sorted: Vec<PolicyRule>)
        ensures
            rule_views(sorted@) == by_priority(rule_views(rules@)),
    {
        sort_rules(&rules)
    }
}

/// Every field of an object condition is present in the context with an
/// equal value.
fn fields_present(entries: &Vec<(String, JsonValue)>, ctx: &JsonValue) -> (r: bool)
    ensures
        r == forall|i: int|
            0 <= i < entries@.len() ==> json_lookup(ctx@, #[trigger] entries@[i].0@) == Some(
                entries@[i].1@,
            ),
{
    let mut i: usize = 0;
    while i < entries.len()
        invariant
            i <= entries.len(),
            forall|j: int|
                0 <= j < i ==> json_lookup(ctx@, #[trigger] entries@[j].0@) == Some(
                    entries@[j].1@,
                ),
        decreases entries.len() - i,
    {
        match json_get(ctx, &entries[i].0) {
            Some(val) => {
                if !json_eq(val, &entries[i].1) {
                    return false;
                }
            },
            None => {
                return false;
            },
        }
        i = i + 1;
    }
    true
}

// ── Laws ─────────────────────────────────────────────────────────

proof fn lemma_insert_somewhere(r: PolicyRuleView, s: Seq<PolicyRuleView>) -> (pos: int)
    ensures
        0 <= pos <= s.len(),
        insert_by_priority(r, s) == s.insert(pos, r),
    decreases s.len(),
{
    if s.len() == 0 {
        assert(s.insert(0, r) =~= seq![r]);
        0
    } else if s[0].priority >= r.priority {
        let p = lemma_insert_somewhere(r, s.drop_first());
        assert(seq![s[0]] + s.drop_first().insert(p, r) =~= s.insert(p + 1, r));
        p + 1
    } else {
        assert(seq![r] + s =~= s.insert(0, r));
        0
    }
}

proof fn lemma_insert_descending(r: PolicyRuleView, s: Seq<PolicyRuleView>)
    requires
        descending(s),
    ensures
        descending(insert_by_priority(r, s)),
    decreases s.len(),
{
    if s.len() > 0 && s[0].priority >= r.priority {
        let t = s.drop_first();
        assert(descending(t));
        lemma_insert_descending(r, t);
        let u = insert_by_priority(r, t);
        let p = lemma_insert_somewhere(r, t);
        assert forall|j: int| 0 <= j < u.len() implies s[0].priority >= #[trigger] u[j].priority by {
            if j < p {
                assert(u[j] == t[j]);
            } else if j > p {
                assert(u[j] == t[j - 1]);
            }
        }
        let w = seq![s[0]] + u;
        assert forall|i: int, j: int| 0 <= i < j < w.len() implies w[i].priority >= w[j].priority by {
            if i > 0 {
                assert(w[i] == u[i - 1] && w[j] == u[j - 1]);
            } else {
                assert(w[j] == u[j - 1]);
            }
        }
    } else if s.len() > 0 {
        let w = seq![r] + s;
        assert forall|i: int, j: int| 0 <= i < j < w.len() implies w[i].priority >= w[j].priority by {
            if i > 0 {
                assert(w[i] == s[i - 1] && w[j] == s[j - 1]);
            } else {
                assert(w[j] == s[j - 1]);
                assert(s[0].priority >= s[j - 1].priority);
            }
        }
    }
}

/// Compiled rules are ordered by descending priority.
pub proof fn law_by_priority_descending(s: Seq<PolicyRuleView>)
    ensures
        descending(by_priority(s)),
    decreases s.len(),
{
    if s.len() > 0 {
        law_by_priority_descending(s.drop_last());
        lemma_insert_descending(s.last(), by_priority(s.drop_last()));
    }
}

/// Compiling keeps exactly the rules it was given: the result is a
/// permutation of the input.
pub proof fn law_by_priority_same_rules(s: Seq<PolicyRuleView>)
    ensures
        by_priority(s).to_multiset() == s.to_multiset(),
    decreases s.len(),
{
    broadcast use vstd::seq_lib::to_multiset_insert, vstd::seq_lib::to_multiset_build;

    if s.len() > 0 {
        law_by_priority_same_rules(s.drop_last());
        let p = lemma_insert_somewhere(s.last(), by_priority(s.drop_last()));
        assert(s.drop_last().push(s.last()) =~= s);
    }
}

proof fn lemma_insert_position(r: PolicyRuleView, s: Seq<PolicyRuleView>) -> (pos: int)
    requires
        descending(s),
    ensures
        0 <= pos <= s.len(),
        insert_by_priority(r, s) == s.insert(pos, r),
        forall|k: int| 0 <= k < pos ==> #[trigger] s[k].priority >= r.priority,
        forall|k: int| pos <= k < s.len() ==> #[trigger] s[k].priority < r.priority,
    decreases s.len(),
{
    if s.len() == 0 {
        assert(s.insert(0, r) =~= seq![r]);
        0
    } else if s[0].priority >= r.priority {
        let t = s.drop_first();
        assert(descending(t));
        let p = lemma_insert_position(r, t);
        assert(seq![s[0]] + t.insert(p, r) =~= s.insert(p + 1, r));
        assert forall|k: int| 0 <= k < p + 1 implies #[trigger] s[k].priority >= r.priority by {
            if k > 0 {
                assert(s[k] == t[k - 1]);
            }
        }
        assert forall|k: int| p + 1 <= k < s.len() implies #[trigger] s[k].priority < r.priority by {
            assert(s[k] == t[k - 1]);
        }
        p + 1
    } else {
        assert(seq![r] + s =~= s.insert(0, r));
        assert forall|k: int| 0 <= k < s.len() implies #[trigger] s[k].priority < r.priority by {
            if k > 0 {
                assert(s[0].priority >= s[k].priority);
            }
        }
        0
    }
}

/// `out` lists the rules of `s` once each, `idx` giving the position in
/// `s` of each, and rules of equal priority stand in `out` in the order
/// they stand in `s`.
pub open spec fn stable_order(s: Seq<PolicyRuleView>, out: Seq<PolicyRuleView>, idx: Seq<int>) -> bool {
    &&& idx.len() == out.len() == s.len()
    &&& forall|k: int| 0 <= k < idx.len() ==> 0 <= #[trigger] idx[k] < s.len() && out[k] == s[idx[k]]
    &&& forall|a: int, b: int| 0 <= a < b < idx.len() ==> #[trigger] idx[a] != #[trigger] idx[b]
    &&& forall|a: int, b: int|
        0 <= a < b < idx.len() && (#[trigger] out[a]).priority == (#[trigger] out[b]).priority ==> idx[a]
            < idx[b]
}

/// Compiling is a stable sort: every rule is kept once, and rules of equal
/// priority keep the order they were given in.
pub proof fn law_by_priority_stable(s: Seq<PolicyRuleView>) -> (idx: Seq<int>)
    ensures
        stable_order(s, by_priority(s), idx),
    decreases s.len(),
{
    if s.len() == 0 {
        Seq::empty()
    } else {
        let d = s.drop_last();
        let r = s.last();
        let n = s.len() - 1;
        let t = by_priority(d);
        let idx0 = law_by_priority_stable(d);
        law_by_priority_descending(d);
        let pos = lemma_insert_position(r, t);
        let out = by_priority(s);
        assert(out == t.insert(pos, r));
        let idx = idx0.insert(pos, n);
        assert forall|k: int| 0 <= k < idx.len() implies 0 <= #[trigger] idx[k] < s.len() && out[k] == s[idx[k]] by {
            if k < pos {
                assert(idx[k] == idx0[k] && out[k] == t[k] && d[idx0[k]] == s[idx0[k]]);
            } else if k > pos {
                assert(idx[k] == idx0[k - 1] && out[k] == t[k - 1] && d[idx0[k - 1]] == s[idx0[k - 1]]);
            }
        }
        assert forall|a: int, b: int| 0 <= a < b < idx.len() implies #[trigger] idx[a] != #[trigger] idx[b] by {
            if a != pos && b != pos {
                let a0 = if a < pos { a } else { a - 1 };
                let b0 = if b < pos { b } else { b - 1 };
                assert(idx[a] == idx0[a0] && idx[b] == idx0[b0]);
            } else if a == pos {
                let b0 = b - 1;
                assert(idx[b] == idx0[b0]);
            } else {
                assert(idx[a] == idx0[a]);
            }
        }
        assert forall|a: int, b: int|
            0 <= a < b < idx.len() && (#[trigger] out[a]).priority == (#[trigger] out[b]).priority implies idx[a]
                < idx[b] by {
            if a != pos && b != pos {
                let a0 = if a < pos { a } else { a - 1 };
                let b0 = if b < pos { b } else { b - 1 };
                assert(idx[a] == idx0[a0] && idx[b] == idx0[b0]);
                assert(out[a] == t[a0] && out[b] == t[b0]);
            } else if b == pos {
                assert(idx[a] == idx0[a]);
            } else {
                assert(out[b] == t[b - 1]);
                assert(t[b - 1].priority < r.priority);
            }
        }
        idx
    }
}

proof fn lemma_same_elements(s: Seq<PolicyRuleView>, x: PolicyRuleView)
    ensures
        by_priority(s).contains(x) <==> s.contains(x),
{
    law_by_priority_same_rules(s);
    by_priority(s).to_multiset_ensures();
    s.to_multiset_ensures();
    assert(by_priority(s).to_multiset().count(x) == s.to_multiset().count(x));
}

proof fn lemma_allowed_walk(
    t: Seq<PolicyRuleView>,
    subject: SubjectView,
    action: Seq<char>,
    resource: Seq<char>,
    context: Option<JsonView>,
    i: int,
    pending: Option<PolicyRuleView>,
)
    requires
        descending(t),
        0 <= i <= t.len(),
        pending matches Some(p) ==> forall|j: int| i <= j < t.len() ==> #[trigger] t[j].priority <= p.priority,
    ensures
        verdict_from(t, subject, action, resource, context, i, pending) matches Verdict::Allowed(a) ==> {
            &&& pending is None
            &&& exists|k: int| i <= k < t.len() && t[k] == a
            &&& a.effect == PolicyEffect::Allow
            &&& rule_applies(a, subject, action, resource, context)
            &&& forall|j: int|
                i <= j < t.len() && rule_applies(#[trigger] t[j], subject, action, resource, context)
                    && t[j].effect != PolicyEffect::Allow ==> t[j].priority <= a.priority
        },
    decreases t.len() - i,
{
    if i < t.len() {
        if !rule_applies(t[i], subject, action, resource, context) {
            lemma_allowed_walk(t, subject, action, resource, context, i + 1, pending);
        } else {
            match t[i].effect {
                PolicyEffect::ExplicitDeny => {},
                PolicyEffect::ExplicitDenyPriority => {
                    lemma_allowed_walk(t, subject, action, resource, context, i + 1, Some(t[i]));
                },
                PolicyEffect::Allow => {
                    match pending {
                        Some(p) => {
                            assert(t[i].priority <= p.priority);
                            lemma_allowed_walk(t, subject, action, resource, context, i + 1, pending);
                        },
                        None => {},
                    }
                },
            }
        }
    }
}

proof fn lemma_top_allow_walk(
    t: Seq<PolicyRuleView>,
    subject: SubjectView,
    action: Seq<char>,
    resource: Seq<char>,
    context: Option<JsonView>,
    i: int,
    k: int,
)
    requires
        descending(t),
        0 <= i <= k < t.len(),
        t[k].effect == PolicyEffect::Allow,
        rule_applies(t[k], subject, action, resource, context),
        forall|j: int|
            i <= j < t.len() && rule_applies(#[trigger] t[j], subject, action, resource, context)
                && t[j].effect != PolicyEffect::Allow ==> t[j].priority < t[k].priority,
    ensures
        verdict_from(t, subject, action, resource, context, i, None) is Allowed,
    decreases t.len() - i,
{
    if !rule_applies(t[i], subject, action, resource, context) {
        lemma_top_allow_walk(t, subject, action, resource, context, i + 1, k);
    } else if t[i].effect != PolicyEffect::Allow {
        assert(t[i].priority < t[k].priority);
        assert(i != k);
    }
}

proof fn lemma_nothing_applies_walk(
    t: Seq<PolicyRuleView>,
    subject: SubjectView,
    action: Seq<char>,
    resource: Seq<char>,
    context: Option<JsonView>,
    i: int,
)
    requires
        0 <= i <= t.len(),
        forall|j: int| i <= j < t.len() ==> !rule_applies(#[trigger] t[j], subject, action, resource, context),
    ensures
        verdict_from(t, subject, action, resource, context, i, None) == Verdict::DefaultDeny,
    decreases t.len() - i,
{
    if i < t.len() {
        lemma_nothing_applies_walk(t, subject, action, resource, context, i + 1);
    }
}

proof fn lemma_sound_walk(
    t: Seq<PolicyRuleView>,
    subject: SubjectView,
    action: Seq<char>,
    resource: Seq<char>,
    context: Option<JsonView>,
    i: int,
    pending: Option<PolicyRuleView>,
)
    requires
        0 <= i <= t.len(),
        pending matches Some(p) ==> t.contains(p) && rule_applies(p, subject, action, resource, context)
            && p.effect == PolicyEffect::ExplicitDenyPriority,
    ensures
        match verdict_from(t, subject, action, resource, context, i, pending) {
            Verdict::Allowed(r) => t.contains(r) && rule_applies(r, subject, action, resource, context)
                && r.effect == PolicyEffect::Allow,
            Verdict::Denied(r) => t.contains(r) && rule_applies(r, subject, action, resource, context)
                && r.effect == PolicyEffect::ExplicitDeny,
            Verdict::DeniedByPriority(r) => t.contains(r) && rule_applies(
                r,
                subject,
                action,
                resource,
                context,
            ) && r.effect == PolicyEffect::ExplicitDenyPriority,
            Verdict::DefaultDeny => true,
        },
    decreases t.len() - i,
{
    if i < t.len() {
        assert(t[i] == t[i]);
        if !rule_applies(t[i], subject, action, resource, context) {
            lemma_sound_walk(t, subject, action, resource, context, i + 1, pending);
        } else {
            match t[i].effect {
                PolicyEffect::ExplicitDeny => {},
                PolicyEffect::ExplicitDenyPriority => {
                    lemma_sound_walk(t, subject, action, resource, context, i + 1, Some(t[i]));
                },
                PolicyEffect::Allow => {
                    lemma_sound_walk(t, subject, action, resource, context, i + 1, pending);
                },
            }
        }
    }
}

/// Whatever decides an evaluation is one of the bundle's rules, applies to
/// the request, and has the effect the verdict names: only an `Allow` rule
/// allows, only an `ExplicitDeny` rule denies outright, only an
/// `ExplicitDenyPriority` rule denies by priority.
pub proof fn law_verdict_comes_from_applicable_rule(
    rules: Seq<PolicyRuleView>,
    subject: SubjectView,
    action: Seq<char>,
    resource: Seq<char>,
    context: Option<JsonView>,
)
    ensures
        match verdict(rules, subject, action, resource, context) {
            Verdict::Allowed(r) => rules.contains(r) && rule_applies(r, subject, action, resource, context)
                && r.effect == PolicyEffect::Allow,
            Verdict::Denied(r) => rules.contains(r) && rule_applies(r, subject, action, resource, context)
                && r.effect == PolicyEffect::ExplicitDeny,
            Verdict::DeniedByPriority(r) => rules.contains(r) && rule_applies(
                r,
                subject,
                action,
                resource,
                context,
            ) && r.effect == PolicyEffect::ExplicitDenyPriority,
            Verdict::DefaultDeny => true,
        },
{
    let t = by_priority(rules);
    lemma_sound_walk(t, subject, action, resource, context, 0, None);
    match verdict(rules, subject, action, resource, context) {
        Verdict::Allowed(r) => lemma_same_elements(rules, r),
        Verdict::Denied(r) => lemma_same_elements(rules, r),
        Verdict::DeniedByPriority(r) => lemma_same_elements(rules, r),
        Verdict::DefaultDeny => {},
    }
}

proof fn lemma_skip_inapplicable(
    t: Seq<PolicyRuleView>,
    subject: SubjectView,
    action: Seq<char>,
    resource: Seq<char>,
    context: Option<JsonView>,
    i: int,
    k: int,
)
    requires
        0 <= i <= k < t.len(),
        forall|j: int| 0 <= j < k ==> !rule_applies(#[trigger] t[j], subject, action, resource, context),
    ensures
        verdict_from(t, subject, action, resource, context, i, None) == verdict_from(
            t,
            subject,
            action,
            resource,
            context,
            k,
            None,
        ),
    decreases k - i,
{
    if i < k {
        lemma_skip_inapplicable(t, subject, action, resource, context, i + 1, k);
    }
}

/// The first applicable rule, by descending priority (equal priorities in
/// the order given), decides a plain deny or an allow: an `ExplicitDeny`
/// denies with that rule, an `Allow` allows with it.
pub proof fn law_first_applicable_decides(
    rules: Seq<PolicyRuleView>,
    subject: SubjectView,
    action: Seq<char>,
    resource: Seq<char>,
    context: Option<JsonView>,
    k: int,
)
    requires
        0 <= k < by_priority(rules).len(),
        rule_applies(by_priority(rules)[k], subject, action, resource, context),
        forall|j: int|
            0 <= j < k ==> !rule_applies(#[trigger] by_priority(rules)[j], subject, action, resource, context),
    ensures
        by_priority(rules)[k].effect == PolicyEffect::ExplicitDeny ==> verdict(
            rules,
            subject,
            action,
            resource,
            context,
        ) == Verdict::Denied(by_priority(rules)[k]),
        by_priority(rules)[k].effect == PolicyEffect::Allow ==> verdict(rules, subject, action, resource, context)
            == Verdict::Allowed(by_priority(rules)[k]),
{
    let t = by_priority(rules);
    lemma_skip_inapplicable(t, subject, action, resource, context, 0, k);
}

/// An object condition holds in a context exactly when every one of its
/// fields, the first and all the others, is present in the context with
/// an equal value.
pub proof fn law_condition_needs_every_field(entries: Seq<(Seq<char>, JsonView)>, ctx: JsonView)
    ensures
        condition_holds(Some(JsonView::Object(entries)), Some(ctx)) <==> forall|i: int|
            0 <= i < entries.len() ==> json_lookup(ctx, #[trigger] entries[i].0) == Some(entries[i].1),
        forall|i: int|
            0 <= i < entries.len() && json_lookup(ctx, #[trigger] entries[i].0) != Some(entries[i].1)
                ==> !condition_holds(Some(JsonView::Object(entries)), Some(ctx)),
{
}

/// Default deny: when no rule applies, the request is denied with no
/// matched rule.
pub proof fn law_default_deny(
    rules: Seq<PolicyRuleView>,
    subject: SubjectView,
    action: Seq<char>,
    resource: Seq<char>,
    context: Option<JsonView>,
)
    requires
        forall|j: int| 0 <= j < rules.len() ==> !rule_applies(#[trigger] rules[j], subject, action, resource, context),
    ensures
        verdict(rules, subject, action, resource, context) == Verdict::DefaultDeny,
{
    let t = by_priority(rules);
    assert forall|j: int| 0 <= j < t.len() implies !rule_applies(#[trigger] t[j], subject, action, resource, context) by {
        lemma_same_elements(rules, t[j]);
        assert(t.contains(t[j]));
    }
    lemma_nothing_applies_walk(t, subject, action, resource, context, 0);
}

/// A deny is never overridden by an `Allow` of lower priority: when a
/// request is allowed, every applicable denying rule has a priority no
/// higher than the allowing rule.
pub proof fn law_allow_outranks_every_deny(
    rules: Seq<PolicyRuleView>,
    subject: SubjectView,
    action: Seq<char>,
    resource: Seq<char>,
    context: Option<JsonView>,
)
    ensures
        verdict(rules, subject, action, resource, context) matches Verdict::Allowed(a) ==> forall|j: int|
            0 <= j < rules.len() && rule_applies(#[trigger] rules[j], subject, action, resource, context)
                && rules[j].effect != PolicyEffect::Allow ==> rules[j].priority <= a.priority,
{
    let t = by_priority(rules);
    law_by_priority_descending(rules);
    lemma_allowed_walk(t, subject, action, resource, context, 0, None);
    if let Verdict::Allowed(a) = verdict(rules, subject, action, resource, context) {
        assert forall|j: int|
            0 <= j < rules.len() && rule_applies(#[trigger] rules[j], subject, action, resource, context)
                && rules[j].effect != PolicyEffect::Allow implies rules[j].priority <= a.priority by {
            lemma_same_elements(rules, rules[j]);
            assert(rules.contains(rules[j]));
            let k = choose|k: int| 0 <= k < t.len() && t[k] == rules[j];
            assert(rule_applies(t[k], subject, action, resource, context));
        }
    }
}

/// An applicable `Allow` that outranks every applicable denying rule
/// allows the request.
pub proof fn law_top_allow_allows(
    rules: Seq<PolicyRuleView>,
    subject: SubjectView,
    action: Seq<char>,
    resource: Seq<char>,
    context: Option<JsonView>,
    a: PolicyRuleView,
)
    requires
        rules.contains(a),
        a.effect == PolicyEffect::Allow,
        rule_applies(a, subject, action, resource, context),
        forall|j: int|
            0 <= j < rules.len() && rule_applies(#[trigger] rules[j], subject, action, resource, context)
                && rules[j].effect != PolicyEffect::Allow ==> rules[j].priority < a.priority,
    ensures
        verdict(rules, subject, action, resource, context) is Allowed,
{
    let t = by_priority(rules);
    law_by_priority_descending(rules);
    lemma_same_elements(rules, a);
    let k = choose|k: int| 0 <= k < t.len() && t[k] == a;
    assert forall|j: int|
        0 <= j < t.len() && rule_applies(#[trigger] t[j], subject, action, resource, context)
            && t[j].effect != PolicyEffect::Allow implies t[j].priority < t[k].priority by {
        lemma_same_elements(rules, t[j]);
        assert(t.contains(t[j]));
        let m = choose|m: int| 0 <= m < rules.len() && rules[m] == t[j];
        assert(rule_applies(rules[m], subject, action, resource, context));
    }
    lemma_top_allow_walk(t, subject, action, resource, context, 0, k);
}

/// Is the text exactly `*`?
fn str_is_star(s: &str) -> (r: bool)
    ensures
        r == (s@ == seq!['*']),
{
    if s.unicode_len() == 1 && s.get_char(0) == '*' {
        assert(s@ =~= seq!['*']);
        true
    } else {
        false
    }
}

/// Milliseconds elapsed since a start instant (`std::time::Instant::elapsed`).
/// Nothing is claimed of the value: it depends on the clock.
#[verifier::external_body]
fn elapsed_millis(start: &std::time::Instant) -> (ms: u64) {
    start.elapsed().as_millis() as u64
}

/// The current instant (`std::time::Instant::now`).
#[verifier::external_body]
fn instant_now() -> std::time::Instant {
    std::time::Instant::now()
}

#[verifier::external_type_specification]
#[verifier::external_body]
pub struct ExInstant(std::time::Instant);

} // verus!
