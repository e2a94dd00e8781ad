//! Model providers: the errors of model calls, and the resolution of
//! configured aliases, custom providers and built-in slots into providers
//! ready to register.
use vstd::prelude::*;
use crate::domain::MicroUsd;
use crate::openai_compat::OpenAiCompatibleProvider;
use crate::text::{decimal_text, lowercase_text, push_decimal, str_ends_with, str_equal, str_starts_with, to_lowercase_string};

verus! {

/// Why a model call failed.
#[derive(Debug)]
pub enum ModelError {
    ProviderNotFound(String),
    ModelNotAvailable(String),
    ApiError(String),
    RateLimited(u64),
    ContextLengthExceeded { max: u32, requested: u32 },
    ToonParseFailed(String),
    AllFallbacksExhausted,
    BudgetExceeded,
    Other(String),
}

/// The message of a model error, as its `Display` prints it.
pub open spec fn model_error_text(e: ModelError) -> Seq<char> {
    match e {
        ModelError::ProviderNotFound(m) => "provider not found: "@ + m@,
        ModelError::ModelNotAvailable(m) => "model not available: "@ + m@,
        ModelError::ApiError(m) => "API error: "@ + m@,
        ModelError::RateLimited(n) => "rate limited, retry after "@ + decimal_text(n as nat) + "s"@,
        ModelError::ContextLengthExceeded { max, requested } => "context length exceeded: max "@ + decimal_text(
            max as nat,
        ) + ", requested "@ + decimal_text(requested as nat),
        ModelError::ToonParseFailed(m) => "TOON parse failed: "@ + m@,
        ModelError::AllFallbacksExhausted => "all fallback profiles exhausted"@,
        ModelError::BudgetExceeded => "budget exceeded for model call"@,
        ModelError::Other(m) => "model error: "@ + m@,
    }
}

fn prefixed(prefix: &str, m: &String) -> (s: String)
    ensures
        s@ == prefix@ + m@,
{
    let mut s = String::from_str(prefix);
    s.append(m.as_str());
    s
}

impl ModelError {
    /// The message of the error, as its `Display` prints it.
    pub fn to_string(&self) -> (s: String)
        ensures
            s@ == model_error_text(*self),
    {
        match self {
            ModelError::ProviderNotFound(m) => prefixed("provider not found: ", m),
            ModelError::ModelNotAvailable(m) => prefixed("model not available: ", m),
            ModelError::ApiError(m) => prefixed("API error: ", m),
            ModelError::RateLimited(n) => {
                let mut s = String::from_str("rate limited, retry after ");
                push_decimal(&mut s, *n);
                s.append("s");
                s
            },
            ModelError::ContextLengthExceeded { max, requested } => {
                let mut s = String::from_str("context length exceeded: max ");
                push_decimal(&mut s, *max as u64);
                s.append(", requested ");
                push_decimal(&mut s, *requested as u64);
                s
            },
            ModelError::ToonParseFailed(m) => prefixed("TOON parse failed: ", m),
            ModelError::AllFallbacksExhausted => String::from_str("all fallback profiles exhausted"),
            ModelError::BudgetExceeded => String::from_str("budget exceeded for model call"),
            ModelError::Other(m) => prefixed("model error: ", m),
        }
    }
}

/// A model a provider serves. Costs are per million tokens, in millionths
/// of a dollar.
pub struct ModelProfile {
    pub id: String,
    pub provider: String,
    pub model_name: String,
    pub context_window: u32,
    pub max_output_tokens: u32,
    pub cost_per_1m_input: MicroUsd,
    pub cost_per_1m_output: MicroUsd,
    pub suitable_for: Vec<String>,
}

/// The content of a model profile.
#[verifier::ext_equal]
pub struct ModelProfileView {
    pub id: Seq<char>,
    pub provider: Seq<char>,
    pub model_name: Seq<char>,
    pub context_window: u32,
    pub max_output_tokens: u32,
    pub cost_per_1m_input: MicroUsd,
    pub cost_per_1m_output: MicroUsd,
    pub suitable_for: Seq<Seq<char>>,
}

/// The texts of a vector of strings.
pub open spec fn str_views(v: Seq<String>) -> Seq<Seq<char>> {
    Seq::new(v.len(), |i: int| v[i]@)
}

impl View for ModelProfile {
    type V = ModelProfileView;

    open spec fn view(&self) -> ModelProfileView {
        ModelProfileView {
            id: self.id@,
            provider: self.provider@,
            model_name: self.model_name@,
            context_window: self.context_window,
            max_output_tokens: self.max_output_tokens,
            cost_per_1m_input: self.cost_per_1m_input,
            cost_per_1m_output: self.cost_per_1m_output,
            suitable_for: str_views(self.suitable_for@),
        }
    }
}

/// The profiles of a vector.
pub open spec fn profile_views(v: Seq<ModelProfile>) -> Seq<ModelProfileView> {
    Seq::new(v.len(), |i: int| v[i]@)
}

fn copy_strings(v: &Vec<String>) -> (r: Vec<String>)
    ensures
        str_views(r@) == str_views(v@),
{
    let mut out: Vec<String> = Vec::new();
    let mut i: usize = 0;
    while i < v.len()
        invariant
            i <= v@.len(),
            str_views(out@) =~= str_views(v@).subrange(0, i as int),
        decreases v.len() - i,
    {
        let ghost before = str_views(out@);
        out.push(v[i].clone());
        assert(str_views(out@) =~= before.push(v@[i as int]@));
        i = i + 1;
    }
    out
}

impl ModelProfile {
    /// A copy of the profile.
    pub fn duplicate(&self) -> (r: ModelProfile)
        ensures
            r@ == self@,
    {
        ModelProfile {
            id: self.id.clone(),
            provider: self.provider.clone(),
            model_name: self.model_name.clone(),
            context_window: self.context_window,
            max_output_tokens: self.max_output_tokens,
            cost_per_1m_input: self.cost_per_1m_input,
            cost_per_1m_output: self.cost_per_1m_output,
            suitable_for: copy_strings(&self.suitable_for),
        }
    }
}

fn copy_profiles(v: &Vec<ModelProfile>) -> (r: Vec<ModelProfile>)
    ensures
        profile_views(r@) == profile_views(v@),
{
    let mut out: Vec<ModelProfile> = Vec::new();
    let mut i: usize = 0;
    while i < v.len()
        invariant
            i <= v@.len(),
            profile_views(out@) =~= profile_views(v@).subrange(0, i as int),
        decreases v.len() - i,
    {
        let ghost before = profile_views(out@);
        out.push(v[i].duplicate());
        assert(profile_views(out@) =~= before.push(v@[i as int]@));
        i = i + 1;
    }
    out
}

/// A built-in provider slot: where it lives, the environment variable of
/// its key, its models, and whether it is a native provider that registers
/// itself rather than through this resolution.
pub struct ProviderConfig {
    pub name: String,
    pub base_url: String,
    pub api_key_env: String,
    pub notes: String,
    pub models: Vec<ModelProfile>,
    pub native: bool,
}

/// An alias of a built-in slot with a specific model. The key is a
/// literal, or `$NAME` for an environment variable. Temperature is in
/// millionths.
pub struct ProviderAlias {
    pub slot: String,
    pub model: String,
    pub api_key: String,
    pub temperature: Option<u64>,
    pub max_tokens: Option<u32>,
    pub fallback: Option<String>,
    pub fallback_models: Vec<String>,
}

/// Metadata of a custom provider's model. Costs per million tokens, in
/// millionths of a dollar.
pub struct CustomModelMeta {
    pub context_window: u32,
    pub max_output_tokens: u32,
    pub cost_per_1m_input: MicroUsd,
    pub cost_per_1m_output: MicroUsd,
    pub suitable_for: Vec<String>,
}

/// An OpenAI-compatible provider outside the built-in catalog.
pub struct CustomProvider {
    pub base_url: String,
    pub api_key: String,
    pub models: Vec<String>,
    pub model_meta: Vec<(String, CustomModelMeta)>,
}

/// The context window a custom model is given when its metadata names
/// none.
pub fn default_context_window() -> (n: u32)
    ensures
        n == 128_000,
{
    128_000
}

/// The output budget a custom model is given when its metadata names none.
pub fn default_max_output() -> (n: u32)
    ensures
        n == 8_192,
{
    8_192
}

/// The configuration file: aliases and custom providers, each under its
/// name.
pub struct Claw10Config {
    pub alias: Vec<(String, ProviderAlias)>,
    pub custom: Vec<(String, CustomProvider)>,
}

/// A provider ready to register.
pub struct ResolvedProvider {
    pub name: String,
    pub base_url: String,
    pub api_key: String,
    pub models: Vec<ModelProfile>,
}

/// The content of a resolved provider.
pub struct ResolvedView {
    pub name: Seq<char>,
    pub base_url: Seq<char>,
    pub api_key: Seq<char>,
    pub models: Seq<ModelProfileView>,
}

impl View for ResolvedProvider {
    type V = ResolvedView;

    open spec fn view(&self) -> ResolvedView {
        ResolvedView {
            name: self.name@,
            base_url: self.base_url@,
            api_key: self.api_key@,
            models: profile_views(self.models@),
        }
    }
}

/// Why a configured provider could not be resolved.
pub enum ConfigError {
    SlotNotFound(String),
    ModelNotFound { slot: String, model: String },
    NoApiKey(String),
}

/// The content of a configuration error.
pub enum ConfigErrorView {
    SlotNotFound(Seq<char>),
    ModelNotFound(Seq<char>, Seq<char>),
    NoApiKey(Seq<char>),
}

impl View for ConfigError {
    type V = ConfigErrorView;

    open spec fn view(&self) -> ConfigErrorView {
        match self {
            ConfigError::SlotNotFound(s) => ConfigErrorView::SlotNotFound(s@),
            ConfigError::ModelNotFound { slot, model } => ConfigErrorView::ModelNotFound(slot@, model@),
            ConfigError::NoApiKey(s) => ConfigErrorView::NoApiKey(s@),
        }
    }
}

// ----- key lookup -----
/// The value of the first pair with that name.
pub open spec fn lookup(pairs: Seq<(String, String)>, name: Seq<char>) -> Option<Seq<char>>
    decreases pairs.len(),
{
    if pairs.len() == 0 {
        None
    } else if pairs[0].0@ == name {
        Some(pairs[0].1@)
    } else {
        lookup(pairs.drop_first(), name)
    }
}

/// A present, non-empty value.
pub open spec fn usable(v: Option<Seq<char>>) -> bool {
    v matches Some(x) && x.len() > 0
}

/// `s` with every trailing repetition of `pat` removed, as
/// `str::trim_end_matches` with a string pattern.
pub open spec fn trim_end_all(s: Seq<char>, pat: Seq<char>) -> Seq<char>
    decreases s.len(),
{
    if pat.len() > 0 && pat.len() <= s.len() && s.subrange(s.len() - pat.len(), s.len() as int) == pat {
        trim_end_all(s.subrange(0, s.len() - pat.len()), pat)
    } else {
        s
    }
}

/// The store key under which a key for an environment variable name may
/// be kept: `config:<lowercased name>_api_key`.
pub open spec fn store_key(name: Seq<char>) -> Seq<char> {
    "config:"@ + name + "_api_key"@
}

/// The API key for an inline value or `$VAR` reference and a slot's
/// environment variable: an inline literal; else the referenced variable,
/// or the stored key for it; else the slot's variable, or the stored key
/// for the slot; empty values do not count.
pub open spec fn api_key_for(
    inline: Seq<char>,
    slot_env: Seq<char>,
    env: Seq<(String, String)>,
    kv: Seq<(String, String)>,
) -> Option<Seq<char>> {
    let from_ref = if inline.len() > 0 && inline[0] == '$' {
        let name = inline.drop_first();
        if usable(lookup(env, name)) {
            lookup(env, name)
        } else if usable(lookup(kv, store_key(lowercase_text(name)))) {
            lookup(kv, store_key(lowercase_text(name)))
        } else {
            None
        }
    } else if inline.len() > 0 {
        Some(inline)
    } else {
        None
    };
    if from_ref is Some {
        from_ref
    } else if slot_env.len() > 0 {
        if usable(lookup(env, slot_env)) {
            lookup(env, slot_env)
        } else if usable(lookup(kv, store_key(trim_end_all(lowercase_text(slot_env), "_API_KEY"@)))) {
            lookup(kv, store_key(trim_end_all(lowercase_text(slot_env), "_API_KEY"@)))
        } else {
            None
        }
    } else {
        None
    }
}

pub(crate) fn lookup_exec(pairs: &Vec<(String, String)>, name: &str) -> (r: Option<String>)
    ensures
        match r {
            Some(v) => lookup(pairs@, name@) == Some(v@),
            None => lookup(pairs@, name@) is None,
        },
{
    let mut i: usize = 0;
    assert(pairs@.skip(0) =~= pairs@);
    while i < pairs.len()
        invariant
            i <= pairs@.len(),
            lookup(pairs@, name@) == lookup(pairs@.skip(i as int), name@),
        decreases pairs.len() - i,
    {
        assert(pairs@.skip(i as int).drop_first() =~= pairs@.skip(i + 1));
        if str_equal(pairs[i].0.as_str(), name) {
            return Some(pairs[i].1.clone());
        }
        i = i + 1;
    }
    None
}

fn usable_lookup(pairs: &Vec<(String, String)>, name: &str) -> (r: Option<String>)
    ensures
        match r {
            Some(v) => usable(lookup(pairs@, name@)) && lookup(pairs@, name@) == Some(v@),
            None => !usable(lookup(pairs@, name@)),
        },
{
    match lookup_exec(pairs, name) {
        Some(v) => {
            if v.unicode_len() > 0 {
                Some(v)
            } else {
                None
            }
        },
        None => None,
    }
}

pub(crate) fn trim_end_all_exec(s: &str, pat: &str) -> (r: String)
    ensures
        r@ == trim_end_all(s@, pat@),
{
    let m = pat.unicode_len();
    let mut end = s.unicode_len();
    if m == 0 {
        return String::from_str(s);
    }
    proof {
        assert(s@.subrange(0, end as int) =~= s@);
    }
    while end >= m
        invariant
            m == pat@.len(),
            m > 0,
            end <= s@.len(),
            trim_end_all(s@, pat@) == trim_end_all(s@.subrange(0, end as int), pat@),
        decreases end,
    {
        let mut k: usize = 0;
        let mut same = true;
        while k < m
            invariant
                k <= m,
                m == pat@.len(),
                m <= end <= s@.len(),
                same == forall|j: int| 0 <= j < k ==> s@[end - m + j] == pat@[j],
            decreases m - k,
        {
            if s.get_char(end - m + k) != pat.get_char(k) {
                same = false;
            }
            k = k + 1;
        }
        let ghost cur = s@.subrange(0, end as int);
        if same {
            assert(cur.subrange(cur.len() - m, cur.len() as int) =~= pat@);
            assert(cur.subrange(0, cur.len() - m) =~= s@.subrange(0, end - m));
            end = end - m;
        } else {
            proof {
                let j = choose|j: int| 0 <= j < m && s@[end - m + j] != pat@[j];
                assert(cur.subrange(cur.len() - m, cur.len() as int)[j] != pat@[j]);
            }
            return String::from_str(s.substring_char(0, end));
        }
    }
    let ghost cur = s@.subrange(0, end as int);
    assert(cur.len() < m);
    String::from_str(s.substring_char(0, end))
}

/// Resolves an API key as [`api_key_for`] says, reading environment
/// variables from `env` and stored keys from `kv`.
pub fn resolve_api_key(
    inline_or_ref: &str,
    slot_env: &str,
    env: &Vec<(String, String)>,
    kv: &Vec<(String, String)>,
) -> (r: Option<String>)
    ensures
        match r {
            Some(k) => api_key_for(inline_or_ref@, slot_env@, env@, kv@) == Some(k@),
            None => api_key_for(inline_or_ref@, slot_env@, env@, kv@) is None,
        },
{
    let n = inline_or_ref.unicode_len();
    if n > 0 {
        if inline_or_ref.get_char(0) == '$' {
            let name = inline_or_ref.substring_char(1, n);
            assert(name@ =~= inline_or_ref@.drop_first());
            match usable_lookup(env, name) {
                Some(v) => return Some(v),
                None => {},
            }
            let lower = to_lowercase_string(name);
            let mut key = String::from_str("config:");
            key.append(lower.as_str());
            key.append("_api_key");
            match usable_lookup(kv, key.as_str()) {
                Some(v) => return Some(v),
                None => {},
            }
        } else {
            return Some(String::from_str(inline_or_ref));
        }
    }
    if slot_env.unicode_len() > 0 {
        match usable_lookup(env, slot_env) {
            Some(v) => return Some(v),
            None => {},
        }
        let lower = to_lowercase_string(slot_env);
        let trimmed = trim_end_all_exec(lower.as_str(), "_API_KEY");
        let mut key = String::from_str("config:");
        key.append(trimmed.as_str());
        key.append("_api_key");
        match usable_lookup(kv, key.as_str()) {
            Some(v) => return Some(v),
            None => {},
        }
    }
    None
}


// ----- provider resolution -----
/// The position of the slot a name refers to: the last one of that name,
/// as a map built from the catalog keeps.
pub open spec fn slot_for(builtin: Seq<ProviderConfig>, name: Seq<char>) -> Option<int>
    decreases builtin.len(),
{
    if builtin.len() == 0 {
        None
    } else if builtin.last().name@ == name {
        Some(builtin.len() - 1)
    } else {
        slot_for(builtin.drop_last(), name)
    }
}

/// The position of the first model whose id or model name is `model`.
pub open spec fn model_match(models: Seq<ModelProfile>, model: Seq<char>) -> Option<int>
    decreases models.len(),
{
    if models.len() == 0 {
        None
    } else {
        match model_match(models.drop_last(), model) {
            Some(i) => Some(i),
            None => if models.last().id@ == model || models.last().model_name@ == model {
                Some(models.len() - 1)
            } else {
                None
            },
        }
    }
}

/// The profile of an alias: the slot's model it names, or a minimal
/// profile of that model when the catalog lacks it.
pub open spec fn alias_profile(slot: ProviderConfig, alias: ProviderAlias, registry: Seq<char>) -> ModelProfileView {
    match model_match(slot.models@, alias.model@) {
        Some(i) => slot.models@[i]@,
        None => ModelProfileView {
            id: alias.model@,
            provider: registry,
            model_name: alias.model@,
            context_window: 128_000,
            max_output_tokens: match alias.max_tokens {
                Some(t) => t,
                None => 8_192,
            },
            cost_per_1m_input: 0,
            cost_per_1m_output: 0,
            suitable_for: seq!["general"@],
        },
    }
}

/// Providers resolved so far, errors so far, and the slots an alias
/// accounts for.
pub type Resolution = (Seq<ResolvedView>, Seq<ConfigErrorView>, Set<Seq<char>>);

/// Resolves one alias.
pub open spec fn alias_step(
    st: Resolution,
    entry: (String, ProviderAlias),
    builtin: Seq<ProviderConfig>,
    env: Seq<(String, String)>,
    kv: Seq<(String, String)>,
) -> Resolution {
    let (res, errs, acc) = st;
    let alias = entry.1;
    let registry = alias.slot@ + "."@ + entry.0@;
    match slot_for(builtin, alias.slot@) {
        None => (res, errs.push(ConfigErrorView::SlotNotFound(alias.slot@)), acc),
        Some(si) => {
            let slot = builtin[si];
            if slot.native {
                (res, errs, acc.insert(alias.slot@))
            } else {
                match api_key_for(alias.api_key@, slot.api_key_env@, env, kv) {
                    None => (res, errs.push(ConfigErrorView::NoApiKey(registry)), acc),
                    Some(k) => (
                        res.push(
                            ResolvedView {
                                name: registry,
                                base_url: slot.base_url@,
                                api_key: k,
                                models: seq![alias_profile(slot, alias, registry)],
                            },
                        ),
                        errs,
                        acc.insert(alias.slot@),
                    ),
                }
            }
        },
    }
}

/// Resolves the aliases in order.
pub open spec fn after_aliases(
    aliases: Seq<(String, ProviderAlias)>,
    builtin: Seq<ProviderConfig>,
    env: Seq<(String, String)>,
    kv: Seq<(String, String)>,
) -> Resolution
    decreases aliases.len(),
{
    if aliases.len() == 0 {
        (Seq::empty(), Seq::empty(), Set::empty())
    } else {
        alias_step(after_aliases(aliases.drop_last(), builtin, env, kv), aliases.last(), builtin, env, kv)
    }
}

/// The metadata given for a custom model.
pub open spec fn meta_for(metas: Seq<(String, CustomModelMeta)>, model: Seq<char>) -> Option<CustomModelMeta>
    decreases metas.len(),
{
    if metas.len() == 0 {
        None
    } else if metas[0].0@ == model {
        Some(metas[0].1)
    } else {
        meta_for(metas.drop_first(), model)
    }
}

/// The profile of a custom provider's model.
pub open spec fn custom_profile(metas: Seq<(String, CustomModelMeta)>, model: Seq<char>, provider: Seq<char>) -> ModelProfileView {
    let meta = meta_for(metas, model);
    ModelProfileView {
        id: model,
        provider: provider,
        model_name: model,
        context_window: match meta {
            Some(m) => m.context_window,
            None => 128_000,
        },
        max_output_tokens: match meta {
            Some(m) => m.max_output_tokens,
            None => 8_192,
        },
        cost_per_1m_input: match meta {
            Some(m) => m.cost_per_1m_input,
            None => 0,
        },
        cost_per_1m_output: match meta {
            Some(m) => m.cost_per_1m_output,
            None => 0,
        },
        suitable_for: match meta {
            Some(m) => str_views(m.suitable_for@).push("general"@),
            None => seq!["general"@],
        },
    }
}

/// Resolves one custom provider.
pub open spec fn custom_step(
    st: Resolution,
    entry: (String, CustomProvider),
    env: Seq<(String, String)>,
    kv: Seq<(String, String)>,
) -> Resolution {
    let (res, errs, acc) = st;
    let custom = entry.1;
    let name = "custom."@ + entry.0@;
    match api_key_for(custom.api_key@, Seq::empty(), env, kv) {
        None => (res, errs.push(ConfigErrorView::NoApiKey(name)), acc),
        Some(k) => (
            res.push(
                ResolvedView {
                    name: name,
                    base_url: custom.base_url@,
                    api_key: k,
                    models: Seq::new(
                        custom.models@.len(),
                        |i: int| custom_profile(custom.model_meta@, custom.models@[i]@, name),
                    ),
                },
            ),
            errs,
            acc,
        ),
    }
}

/// Resolves the custom providers in order.
pub open spec fn after_customs(
    st: Resolution,
    customs: Seq<(String, CustomProvider)>,
    env: Seq<(String, String)>,
    kv: Seq<(String, String)>,
) -> Resolution
    decreases customs.len(),
{
    if customs.len() == 0 {
        st
    } else {
        custom_step(after_customs(st, customs.drop_last(), env, kv), customs.last(), env, kv)
    }
}

/// Registers one bare slot, when no alias accounts for it, it is not
/// native, and its key is found.
pub open spec fn slot_step(
    st: Resolution,
    slot: ProviderConfig,
    env: Seq<(String, String)>,
    kv: Seq<(String, String)>,
) -> Resolution {
    let (res, errs, acc) = st;
    if acc.contains(slot.name@) || slot.native {
        st
    } else {
        match api_key_for(Seq::empty(), slot.api_key_env@, env, kv) {
            Some(k) => (
                res.push(
                    ResolvedView {
                        name: slot.name@,
                        base_url: slot.base_url@,
                        api_key: k,
                        models: profile_views(slot.models@),
                    },
                ),
                errs,
                acc,
            ),
            None => st,
        }
    }
}

/// Registers the bare slots in catalog order.
pub open spec fn after_slots(
    st: Resolution,
    slots: Seq<ProviderConfig>,
    env: Seq<(String, String)>,
    kv: Seq<(String, String)>,
) -> Resolution
    decreases slots.len(),
{
    if slots.len() == 0 {
        st
    } else {
        slot_step(after_slots(st, slots.drop_last(), env, kv), slots.last(), env, kv)
    }
}

/// The whole resolution: aliases, then custom providers, then the bare
/// slots no alias accounts for.
pub open spec fn resolution(
    config: Option<Claw10Config>,
    builtin: Seq<ProviderConfig>,
    env: Seq<(String, String)>,
    kv: Seq<(String, String)>,
) -> Resolution {
    let configured = match config {
        Some(c) => after_customs(after_aliases(c.alias@, builtin, env, kv), c.custom@, env, kv),
        None => (Seq::empty(), Seq::empty(), Set::empty()),
    };
    after_slots(configured, builtin, env, kv)
}

/// Every resolved provider carries a key.
pub open spec fn all_keyed(res: Seq<ResolvedView>) -> bool {
    forall|i: int| 0 <= i < res.len() ==> (#[trigger] res[i]).api_key.len() > 0
}

proof fn lemma_found_key_nonempty(inline: Seq<char>, slot_env: Seq<char>, env: Seq<(String, String)>, kv: Seq<(String, String)>)
    ensures
        api_key_for(inline, slot_env, env, kv) matches Some(k) ==> k.len() > 0,
{
}

proof fn lemma_keyed_push(res: Seq<ResolvedView>, r: ResolvedView)
    requires
        all_keyed(res),
        r.api_key.len() > 0,
    ensures
        all_keyed(res.push(r)),
{
    assert forall|i: int| 0 <= i < res.push(r).len() implies (#[trigger] res.push(r)[i]).api_key.len() > 0 by {
        if i < res.len() {
            assert(res.push(r)[i] == res[i]);
        }
    }
}

/// The errors of `before` stand, in order, at the start of `after`.
pub open spec fn errors_kept(before: Seq<ConfigErrorView>, after: Seq<ConfigErrorView>) -> bool {
    before.len() <= after.len() && forall|i: int| 0 <= i < before.len() ==> #[trigger] after[i] == before[i]
}

proof fn lemma_contains_kept(before: Seq<ConfigErrorView>, after: Seq<ConfigErrorView>, e: ConfigErrorView)
    requires
        errors_kept(before, after),
        before.contains(e),
    ensures
        after.contains(e),
{
    let j = choose|j: int| 0 <= j < before.len() && before[j] == e;
    assert(after[j] == e);
}

proof fn lemma_aliases_shape(
    aliases: Seq<(String, ProviderAlias)>,
    builtin: Seq<ProviderConfig>,
    env: Seq<(String, String)>,
    kv: Seq<(String, String)>,
)
    ensures
        all_keyed(after_aliases(aliases, builtin, env, kv).0),
        forall|k: int|
            0 <= k < aliases.len() && slot_for(builtin, (#[trigger] aliases[k]).1.slot@) is None ==> after_aliases(
                aliases,
                builtin,
                env,
                kv,
            ).1.contains(ConfigErrorView::SlotNotFound(aliases[k].1.slot@)),
    decreases aliases.len(),
{
    if aliases.len() > 0 {
        let d = aliases.drop_last();
        lemma_aliases_shape(d, builtin, env, kv);
        let st = after_aliases(d, builtin, env, kv);
        let nx = after_aliases(aliases, builtin, env, kv);
        let a = aliases.last().1;
        match slot_for(builtin, a.slot@) {
            None => {
                assert(nx.1 == st.1.push(ConfigErrorView::SlotNotFound(a.slot@)));
                assert(nx.1[st.1.len() as int] == ConfigErrorView::SlotNotFound(a.slot@));
            },
            Some(si) => {
                let slot = builtin[si];
                lemma_found_key_nonempty(a.api_key@, slot.api_key_env@, env, kv);
                if !slot.native {
                    if let Some(k) = api_key_for(a.api_key@, slot.api_key_env@, env, kv) {
                        lemma_keyed_push(st.0, nx.0.last());
                        assert(nx.0 == st.0.push(nx.0.last()));
                    }
                }
            },
        }
        assert(errors_kept(st.1, nx.1));
        assert forall|k: int|
            0 <= k < aliases.len() && slot_for(builtin, (#[trigger] aliases[k]).1.slot@) is None implies nx.1.contains(
            ConfigErrorView::SlotNotFound(aliases[k].1.slot@),
        ) by {
            if k < aliases.len() - 1 {
                assert(d[k] == aliases[k]);
                lemma_contains_kept(st.1, nx.1, ConfigErrorView::SlotNotFound(aliases[k].1.slot@));
            } else {
                assert(nx.1[st.1.len() as int] == ConfigErrorView::SlotNotFound(aliases[k].1.slot@));
            }
        }
    }
}

proof fn lemma_customs_keep(
    st: Resolution,
    customs: Seq<(String, CustomProvider)>,
    env: Seq<(String, String)>,
    kv: Seq<(String, String)>,
)
    requires
        all_keyed(st.0),
    ensures
        all_keyed(after_customs(st, customs, env, kv).0),
        errors_kept(st.1, after_customs(st, customs, env, kv).1),
    decreases customs.len(),
{
    if customs.len() > 0 {
        let d = customs.drop_last();
        lemma_customs_keep(st, d, env, kv);
        let mid = after_customs(st, d, env, kv);
        let nx = after_customs(st, customs, env, kv);
        let c = customs.last().1;
        lemma_found_key_nonempty(c.api_key@, Seq::empty(), env, kv);
        if let Some(k) = api_key_for(c.api_key@, Seq::empty(), env, kv) {
            lemma_keyed_push(mid.0, nx.0.last());
            assert(nx.0 == mid.0.push(nx.0.last()));
        }
        assert(errors_kept(mid.1, nx.1));
    }
}

proof fn lemma_slots_keep(
    st: Resolution,
    slots: Seq<ProviderConfig>,
    env: Seq<(String, String)>,
    kv: Seq<(String, String)>,
)
    requires
        all_keyed(st.0),
    ensures
        all_keyed(after_slots(st, slots, env, kv).0),
        errors_kept(st.1, after_slots(st, slots, env, kv).1),
    decreases slots.len(),
{
    if slots.len() > 0 {
        let d = slots.drop_last();
        lemma_slots_keep(st, d, env, kv);
        let mid = after_slots(st, d, env, kv);
        let nx = after_slots(st, slots, env, kv);
        let slot = slots.last();
        lemma_found_key_nonempty(Seq::empty(), slot.api_key_env@, env, kv);
        if !(mid.2.contains(slot.name@) || slot.native) {
            if let Some(k) = api_key_for(Seq::empty(), slot.api_key_env@, env, kv) {
                lemma_keyed_push(mid.0, nx.0.last());
                assert(nx.0 == mid.0.push(nx.0.last()));
            }
        }
        assert(errors_kept(mid.1, nx.1));
    }
}

/// A name given to an entry of a slot that is not native: the slot's own
/// name, or that name, a dot and an alias.
pub open spec fn from_plain_slot(name: Seq<char>, builtin: Seq<ProviderConfig>) -> bool {
    exists|si: int|
        0 <= si < builtin.len() && !(#[trigger] builtin[si]).native && (name == builtin[si].name@ || exists|
            a: Seq<char>,
        | name == builtin[si].name@ + "."@ + a)
}

/// Every resolved entry is a custom provider (`custom.` and its key) or
/// comes from a slot that is not native.
pub open spec fn well_sourced(res: Seq<ResolvedView>, builtin: Seq<ProviderConfig>) -> bool {
    forall|i: int|
        0 <= i < res.len() ==> from_plain_slot((#[trigger] res[i]).name, builtin) || exists|x: Seq<char>|
            res[i].name == "custom."@ + x
}

proof fn lemma_slot_for_named(builtin: Seq<ProviderConfig>, name: Seq<char>)
    ensures
        slot_for(builtin, name) matches Some(si) ==> 0 <= si < builtin.len() && builtin[si].name@ == name,
    decreases builtin.len(),
{
    if builtin.len() > 0 {
        lemma_slot_for_named(builtin.drop_last(), name);
    }
}

proof fn lemma_sourced_push(res: Seq<ResolvedView>, r: ResolvedView, builtin: Seq<ProviderConfig>)
    requires
        well_sourced(res, builtin),
        from_plain_slot(r.name, builtin) || exists|x: Seq<char>| r.name == "custom."@ + x,
    ensures
        well_sourced(res.push(r), builtin),
{
    assert forall|i: int| 0 <= i < res.push(r).len() implies from_plain_slot((#[trigger] res.push(r)[i]).name, builtin)
        || exists|x: Seq<char>| res.push(r)[i].name == "custom."@ + x by {
        if i < res.len() {
            assert(res.push(r)[i] == res[i]);
        }
    }
}

proof fn lemma_aliases_sourced(
    aliases: Seq<(String, ProviderAlias)>,
    builtin: Seq<ProviderConfig>,
    env: Seq<(String, String)>,
    kv: Seq<(String, String)>,
)
    ensures
        well_sourced(after_aliases(aliases, builtin, env, kv).0, builtin),
    decreases aliases.len(),
{
    if aliases.len() > 0 {
        lemma_aliases_sourced(aliases.drop_last(), builtin, env, kv);
        let st = after_aliases(aliases.drop_last(), builtin, env, kv);
        let nx = after_aliases(aliases, builtin, env, kv);
        let e = aliases.last();
        lemma_slot_for_named(builtin, e.1.slot@);
        if let Some(si) = slot_for(builtin, e.1.slot@) {
            if !builtin[si].native {
                if let Some(k) = api_key_for(e.1.api_key@, builtin[si].api_key_env@, env, kv) {
                    let r = nx.0.last();
                    assert(r.name == builtin[si].name@ + "."@ + e.0@);
                    assert(from_plain_slot(r.name, builtin));
                    lemma_sourced_push(st.0, r, builtin);
                    assert(nx.0 == st.0.push(r));
                }
            }
        }
    }
}

proof fn lemma_customs_sourced(
    st: Resolution,
    customs: Seq<(String, CustomProvider)>,
    builtin: Seq<ProviderConfig>,
    env: Seq<(String, String)>,
    kv: Seq<(String, String)>,
)
    requires
        well_sourced(st.0, builtin),
    ensures
        well_sourced(after_customs(st, customs, env, kv).0, builtin),
    decreases customs.len(),
{
    if customs.len() > 0 {
        lemma_customs_sourced(st, customs.drop_last(), builtin, env, kv);
        let mid = after_customs(st, customs.drop_last(), env, kv);
        let nx = after_customs(st, customs, env, kv);
        let c = customs.last();
        if let Some(k) = api_key_for(c.1.api_key@, Seq::empty(), env, kv) {
            let r = nx.0.last();
            assert(r.name == "custom."@ + c.0@);
            lemma_sourced_push(mid.0, r, builtin);
            assert(nx.0 == mid.0.push(r));
        }
    }
}

proof fn lemma_slots_sourced(
    st: Resolution,
    n: int,
    builtin: Seq<ProviderConfig>,
    env: Seq<(String, String)>,
    kv: Seq<(String, String)>,
)
    requires
        well_sourced(st.0, builtin),
        0 <= n <= builtin.len(),
    ensures
        well_sourced(after_slots(st, builtin.take(n), env, kv).0, builtin),
    decreases n,
{
    if n > 0 {
        lemma_slots_sourced(st, n - 1, builtin, env, kv);
        let slots = builtin.take(n);
        assert(slots.drop_last() =~= builtin.take(n - 1));
        let mid = after_slots(st, builtin.take(n - 1), env, kv);
        let nx = after_slots(st, slots, env, kv);
        let slot = slots.last();
        assert(slot == builtin[n - 1]);
        if !(mid.2.contains(slot.name@) || slot.native) {
            if let Some(k) = api_key_for(Seq::empty(), slot.api_key_env@, env, kv) {
                let r = nx.0.last();
                assert(r.name == builtin[n - 1].name@);
                assert(from_plain_slot(r.name, builtin));
                lemma_sourced_push(mid.0, r, builtin);
                assert(nx.0 == mid.0.push(r));
            }
        }
    }
}

/// Every provider that resolution yields is a custom provider or comes
/// from a built-in slot that is not native: a native slot, and an alias
/// of one, yield no entry.
pub proof fn law_resolution_sources(
    config: Option<Claw10Config>,
    builtin: Seq<ProviderConfig>,
    env: Seq<(String, String)>,
    kv: Seq<(String, String)>,
)
    ensures
        well_sourced(resolution(config, builtin, env, kv).0, builtin),
{
    let configured = match config {
        Some(c) => {
            lemma_aliases_sourced(c.alias@, builtin, env, kv);
            lemma_customs_sourced(after_aliases(c.alias@, builtin, env, kv), c.custom@, builtin, env, kv);
            after_customs(after_aliases(c.alias@, builtin, env, kv), c.custom@, env, kv)
        },
        None => (Seq::<ResolvedView>::empty(), Seq::<ConfigErrorView>::empty(), Set::<Seq<char>>::empty()),
    };
    lemma_slots_sourced(configured, builtin.len() as int, builtin, env, kv);
    assert(builtin.take(builtin.len() as int) =~= builtin);
}

/// Resolution never yields a provider without a key, and an alias of a
/// slot that the catalog lacks is reported as `SlotNotFound`.
pub proof fn law_resolution_shape(
    config: Option<Claw10Config>,
    builtin: Seq<ProviderConfig>,
    env: Seq<(String, String)>,
    kv: Seq<(String, String)>,
)
    ensures
        all_keyed(resolution(config, builtin, env, kv).0),
        config matches Some(c) ==> forall|k: int|
            0 <= k < c.alias@.len() && slot_for(builtin, (#[trigger] c.alias@[k]).1.slot@) is None
                ==> resolution(config, builtin, env, kv).1.contains(
                ConfigErrorView::SlotNotFound(c.alias@[k].1.slot@),
            ),
{
    match config {
        Some(c) => {
            lemma_aliases_shape(c.alias@, builtin, env, kv);
            let al = after_aliases(c.alias@, builtin, env, kv);
            lemma_customs_keep(al, c.custom@, env, kv);
            let cu = after_customs(al, c.custom@, env, kv);
            lemma_slots_keep(cu, builtin, env, kv);
            let fin = resolution(config, builtin, env, kv);
            assert forall|k: int|
                0 <= k < c.alias@.len() && slot_for(builtin, (#[trigger] c.alias@[k]).1.slot@) is None implies fin.1.contains(
                ConfigErrorView::SlotNotFound(c.alias@[k].1.slot@),
            ) by {
                lemma_contains_kept(al.1, cu.1, ConfigErrorView::SlotNotFound(c.alias@[k].1.slot@));
                lemma_contains_kept(cu.1, fin.1, ConfigErrorView::SlotNotFound(c.alias@[k].1.slot@));
            }
        },
        None => {
            let st: Resolution = (Seq::empty(), Seq::empty(), Set::empty());
            lemma_slots_keep(st, builtin, env, kv);
        },
    }
}

/// The providers of a resolution.
pub open spec fn resolved_views(v: Seq<ResolvedProvider>) -> Seq<ResolvedView> {
    Seq::new(v.len(), |i: int| v[i]@)
}

/// The errors of a resolution.
pub open spec fn error_views(v: Seq<ConfigError>) -> Seq<ConfigErrorView> {
    Seq::new(v.len(), |i: int| v[i]@)
}

fn find_slot(builtin: &Vec<ProviderConfig>, name: &str) -> (r: Option<usize>)
    ensures
        match r {
            Some(i) => slot_for(builtin@, name@) == Some(i as int) && i < builtin@.len(),
            None => slot_for(builtin@, name@) is None,
        },
{
    let mut k: usize = builtin.len();
    assert(builtin@.subrange(0, k as int) =~= builtin@);
    while k > 0
        invariant
            k <= builtin@.len(),
            slot_for(builtin@, name@) == slot_for(builtin@.subrange(0, k as int), name@),
        decreases k,
    {
        let ghost pre = builtin@.subrange(0, k as int);
        assert(pre.drop_last() =~= builtin@.subrange(0, k - 1));
        if str_equal(builtin[k - 1].name.as_str(), name) {
            return Some(k - 1);
        }
        k = k - 1;
    }
    None
}

pub(crate) fn find_model(models: &Vec<ModelProfile>, model: &str) -> (r: Option<usize>)
    ensures
        match r {
            Some(i) => model_match(models@, model@) == Some(i as int) && i < models@.len(),
            None => model_match(models@, model@) is None,
        },
{
    let mut i: usize = 0;
    while i < models.len()
        invariant
            i <= models@.len(),
            model_match(models@.subrange(0, i as int), model@) is None,
        decreases models.len() - i,
    {
        assert(models@.subrange(0, i + 1).drop_last() =~= models@.subrange(0, i as int));
        if str_equal(models[i].id.as_str(), model) || str_equal(models[i].model_name.as_str(), model) {
            proof {
                lemma_model_match_prefix(models@, model@, i + 1);
            }
            return Some(i);
        }
        i = i + 1;
    }
    assert(models@.subrange(0, models@.len() as int) =~= models@);
    None
}

proof fn lemma_model_match_prefix(models: Seq<ModelProfile>, model: Seq<char>, n: int)
    requires
        0 < n <= models.len(),
        model_match(models.subrange(0, n), model) is Some,
    ensures
        model_match(models, model) == model_match(models.subrange(0, n), model),
    decreases models.len() - n,
{
    if n < models.len() {
        assert(models.subrange(0, n + 1).drop_last() =~= models.subrange(0, n));
        lemma_model_match_prefix(models, model, n + 1);
    } else {
        assert(models.subrange(0, n) =~= models);
    }
}

fn find_meta<'a>(metas: &'a Vec<(String, CustomModelMeta)>, model: &str) -> (r: Option<&'a CustomModelMeta>)
    ensures
        match r {
            Some(m) => meta_for(metas@, model@) == Some(*m),
            None => meta_for(metas@, model@) is None,
        },
{
    let mut i: usize = 0;
    assert(metas@.skip(0) =~= metas@);
    while i < metas.len()
        invariant
            i <= metas@.len(),
            meta_for(metas@, model@) == meta_for(metas@.skip(i as int), model@),
        decreases metas.len() - i,
    {
        assert(metas@.skip(i as int).drop_first() =~= metas@.skip(i + 1));
        if str_equal(metas[i].0.as_str(), model) {
            return Some(&metas[i].1);
        }
        i = i + 1;
    }
    None
}

fn concat3(a: &str, b: &str, c: &str) -> (s: String)
    ensures
        s@ == a@ + b@ + c@,
{
    let mut s = String::from_str(a);
    s.append(b);
    s.append(c);
    s
}

fn custom_profiles(custom: &CustomProvider, provider: &String) -> (r: Vec<ModelProfile>)
    ensures
        profile_views(r@) == Seq::new(
            custom.models@.len(),
            |i: int| custom_profile(custom.model_meta@, custom.models@[i]@, provider@),
        ),
{
    let ghost want = Seq::new(
        custom.models@.len(),
        |i: int| custom_profile(custom.model_meta@, custom.models@[i]@, provider@),
    );
    let mut out: Vec<ModelProfile> = Vec::new();
    let mut i: usize = 0;
    while i < custom.models.len()
        invariant
            i <= custom.models@.len(),
            want == Seq::new(
                custom.models@.len(),
                |i: int| custom_profile(custom.model_meta@, custom.models@[i]@, provider@),
            ),
            profile_views(out@) =~= want.subrange(0, i as int),
        decreases custom.models.len() - i,
    {
        let m = &custom.models[i];
        let meta = find_meta(&custom.model_meta, m.as_str());
        let p = match meta {
            Some(md) => {
                let mut suitable = copy_strings(&md.suitable_for);
                let ghost before = str_views(suitable@);
                suitable.push(String::from_str("general"));
                assert(str_views(suitable@) =~= before.push("general"@));
                ModelProfile {
                    id: m.clone(),
                    provider: provider.clone(),
                    model_name: m.clone(),
                    context_window: md.context_window,
                    max_output_tokens: md.max_output_tokens,
                    cost_per_1m_input: md.cost_per_1m_input,
                    cost_per_1m_output: md.cost_per_1m_output,
                    suitable_for: suitable,
                }
            },
            None => {
                let mut suitable: Vec<String> = Vec::new();
                suitable.push(String::from_str("general"));
                assert(str_views(suitable@) =~= seq!["general"@]);
                ModelProfile {
                    id: m.clone(),
                    provider: provider.clone(),
                    model_name: m.clone(),
                    context_window: 128_000,
                    max_output_tokens: 8_192,
                    cost_per_1m_input: 0,
                    cost_per_1m_output: 0,
                    suitable_for: suitable,
                }
            },
        };
        let ghost before = profile_views(out@);
        assert(p@ == want[i as int]);
        out.push(p);
        assert(profile_views(out@) =~= before.push(want[i as int]));
        i = i + 1;
    }
    out
}

/// Resolves every configured provider: aliases of built-in slots first,
/// then custom providers, then each built-in slot that no alias accounts
/// for and whose key can be found. Environment variables are read from
/// `env`, stored keys from `kv`. Unresolvable entries are reported as
/// errors and skipped.
pub fn resolve_providers(
    config: Option<&Claw10Config>,
    builtin: &Vec<ProviderConfig>,
    env: &Vec<(String, String)>,
    kv: &Vec<(String, String)>,
) -> (r: (Vec<ResolvedProvider>, Vec<ConfigError>))
    ensures
        ({
            let want = resolution(
                match config {
                    Some(c) => Some(*c),
                    None => None,
                },
                builtin@,
                env@,
                kv@,
            );
            resolved_views(r.0@) == want.0 && error_views(r.1@) == want.1
        }),
{
    let mut resolved: Vec<ResolvedProvider> = Vec::new();
    let mut errors: Vec<ConfigError> = Vec::new();
    let mut accounted: Vec<String> = Vec::new();
    let ghost cfg = match config {
        Some(c) => Some(*c),
        None => None,
    };
    match config {
        Some(c) => {
            let mut i: usize = 0;
            while i < c.alias.len()
                invariant
                    i <= c.alias@.len(),
                    ({
                        let st = after_aliases(c.alias@.subrange(0, i as int), builtin@, env@, kv@);
                        &&& resolved_views(resolved@) == st.0
                        &&& error_views(errors@) == st.1
                        &&& forall|x: Seq<char>| st.2.contains(x) <==> exists|k: int|
                            0 <= k < accounted@.len() && #[trigger] accounted@[k]@ == x
                    }),
                decreases c.alias.len() - i,
            {
                let ghost prev = after_aliases(c.alias@.subrange(0, i as int), builtin@, env@, kv@);
                assert(c.alias@.subrange(0, i + 1).drop_last() =~= c.alias@.subrange(0, i as int));
                let alias_name = &c.alias[i].0;
                let alias = &c.alias[i].1;
                let registry = concat3(alias.slot.as_str(), ".", alias_name.as_str());
                let ghost rb = resolved_views(resolved@);
                let ghost eb = error_views(errors@);
                match find_slot(builtin, alias.slot.as_str()) {
                    None => {
                        errors.push(ConfigError::SlotNotFound(alias.slot.clone()));
                        assert(error_views(errors@) =~= eb.push(ConfigErrorView::SlotNotFound(alias.slot@)));
                    },
                    Some(si) => {
                        let slot = &builtin[si];
                        if slot.native {
                            let ghost ab = accounted@;
                            accounted.push(alias.slot.clone());
                            proof {
                                assert forall|x: Seq<char>| prev.2.insert(alias.slot@).contains(x) <==> exists|k: int|
                                    0 <= k < accounted@.len() && #[trigger] accounted@[k]@ == x by {
                                    if x == alias.slot@ {
                                        assert(accounted@[ab.len() as int]@ == x);
                                    }
                                    if exists|k: int| 0 <= k < accounted@.len() && #[trigger] accounted@[k]@ == x {
                                        let k = choose|k: int| 0 <= k < accounted@.len() && #[trigger] accounted@[k]@ == x;
                                        if k < ab.len() {
                                            assert(ab[k] == accounted@[k]);
                                        }
                                    }
                                    if prev.2.contains(x) {
                                        let k = choose|k: int| 0 <= k < ab.len() && #[trigger] ab[k]@ == x;
                                        assert(accounted@[k] == ab[k]);
                                    }
                                }
                            }
                        } else {
                            match resolve_api_key(alias.api_key.as_str(), slot.api_key_env.as_str(), env, kv) {
                                None => {
                                    let ghost rv = registry@;
                                    errors.push(ConfigError::NoApiKey(registry));
                                    assert(error_views(errors@) =~= eb.push(ConfigErrorView::NoApiKey(rv)));
                                },
                                Some(key) => {
                                    let profile = match find_model(&slot.models, alias.model.as_str()) {
                                        Some(mi) => slot.models[mi].duplicate(),
                                        None => {
                                            let mut suitable: Vec<String> = Vec::new();
                                            suitable.push(String::from_str("general"));
                                            assert(str_views(suitable@) =~= seq!["general"@]);
                                            ModelProfile {
                                                id: alias.model.clone(),
                                                provider: registry.clone(),
                                                model_name: alias.model.clone(),
                                                context_window: 128_000,
                                                max_output_tokens: match alias.max_tokens {
                                                    Some(t) => t,
                                                    None => 8_192,
                                                },
                                                cost_per_1m_input: 0,
                                                cost_per_1m_output: 0,
                                                suitable_for: suitable,
                                            }
                                        },
                                    };
                                    assert(profile@ == alias_profile(*slot, *alias, registry@));
                                    let mut models: Vec<ModelProfile> = Vec::new();
                                    models.push(profile);
                                    assert(profile_views(models@) =~= seq![alias_profile(*slot, *alias, registry@)]);
                                    let rp = ResolvedProvider {
                                        name: registry,
                                        base_url: slot.base_url.clone(),
                                        api_key: key,
                                        models,
                                    };
                                    let ghost rpv = rp@;
                                    resolved.push(rp);
                                    assert(resolved_views(resolved@) =~= rb.push(rpv));
                                    let ghost ab = accounted@;
                                    accounted.push(alias.slot.clone());
                                    proof {
                                        assert forall|x: Seq<char>| prev.2.insert(alias.slot@).contains(x) <==> exists|
                                            k: int,
                                        | 0 <= k < accounted@.len() && #[trigger] accounted@[k]@ == x by {
                                            if x == alias.slot@ {
                                                assert(accounted@[ab.len() as int]@ == x);
                                            }
                                            if exists|k: int| 0 <= k < accounted@.len() && #[trigger] accounted@[k]@ == x {
                                                let k = choose|k: int|
                                                    0 <= k < accounted@.len() && #[trigger] accounted@[k]@ == x;
                                                if k < ab.len() {
                                                    assert(ab[k] == accounted@[k]);
                                                }
                                            }
                                            if prev.2.contains(x) {
                                                let k = choose|k: int| 0 <= k < ab.len() && #[trigger] ab[k]@ == x;
                                                assert(accounted@[k] == ab[k]);
                                            }
                                        }
                                    }
                                },
                            }
                        }
                    },
                }
                i = i + 1;
            }
            assert(c.alias@.subrange(0, c.alias@.len() as int) =~= c.alias@);
            let ghost base = after_aliases(c.alias@, builtin@, env@, kv@);
            let mut j: usize = 0;
            assert(c.custom@.subrange(0, 0) =~= Seq::<(String, CustomProvider)>::empty());
            while j < c.custom.len()
                invariant
                    j <= c.custom@.len(),
                    base == after_aliases(c.alias@, builtin@, env@, kv@),
                    ({
                        let st = after_customs(base, c.custom@.subrange(0, j as int), env@, kv@);
                        &&& resolved_views(resolved@) == st.0
                        &&& error_views(errors@) == st.1
                        &&& st.2 == base.2
                        &&& forall|x: Seq<char>| st.2.contains(x) <==> exists|k: int|
                            0 <= k < accounted@.len() && #[trigger] accounted@[k]@ == x
                    }),
                decreases c.custom.len() - j,
            {
                assert(c.custom@.subrange(0, j + 1).drop_last() =~= c.custom@.subrange(0, j as int));
                let cname = &c.custom[j].0;
                let custom = &c.custom[j].1;
                let name = prefixed("custom.", cname);
                let ghost rb = resolved_views(resolved@);
                let ghost eb = error_views(errors@);
                match resolve_api_key(custom.api_key.as_str(), "", env, kv) {
                    None => {
                        let ghost nv = name@;
                        proof {
                            reveal_strlit("");
                            assert(""@ =~= Seq::<char>::empty());
                        }
                        errors.push(ConfigError::NoApiKey(name));
                        assert(error_views(errors@) =~= eb.push(ConfigErrorView::NoApiKey(nv)));
                    },
                    Some(key) => {
                        proof {
                            reveal_strlit("");
                            assert(""@ =~= Seq::<char>::empty());
                        }
                        let models = custom_profiles(custom, &name);
                        let rp = ResolvedProvider { name, base_url: custom.base_url.clone(), api_key: key, models };
                        let ghost rpv = rp@;
                        resolved.push(rp);
                        assert(resolved_views(resolved@) =~= rb.push(rpv));
                    },
                }
                j = j + 1;
            }
            assert(c.custom@.subrange(0, c.custom@.len() as int) =~= c.custom@);
        },
        None => {
            assert(resolved_views(resolved@) =~= Seq::<ResolvedView>::empty());
            assert(error_views(errors@) =~= Seq::<ConfigErrorView>::empty());
        },
    }
    let ghost configured = match cfg {
        Some(c) => after_customs(after_aliases(c.alias@, builtin@, env@, kv@), c.custom@, env@, kv@),
        None => (Seq::<ResolvedView>::empty(), Seq::<ConfigErrorView>::empty(), Set::<Seq<char>>::empty()),
    };
    let mut k: usize = 0;
    assert(builtin@.subrange(0, 0) =~= Seq::<ProviderConfig>::empty());
    while k < builtin.len()
        invariant
            k <= builtin@.len(),
            ({
                let st = after_slots(configured, builtin@.subrange(0, k as int), env@, kv@);
                &&& resolved_views(resolved@) == st.0
                &&& error_views(errors@) == st.1
                &&& st.2 == configured.2
                &&& forall|x: Seq<char>| configured.2.contains(x) <==> exists|q: int|
                    0 <= q < accounted@.len() && #[trigger] accounted@[q]@ == x
            }),
        decreases builtin.len() - k,
    {
        assert(builtin@.subrange(0, k + 1).drop_last() =~= builtin@.subrange(0, k as int));
        let slot = &builtin[k];
        let mut taken = false;
        let mut q: usize = 0;
        while q < accounted.len()
            invariant
                q <= accounted@.len(),
                taken == exists|p: int| 0 <= p < q && #[trigger] accounted@[p]@ == slot.name@,
            decreases accounted.len() - q,
        {
            if str_equal(accounted[q].as_str(), slot.name.as_str()) {
                taken = true;
            }
            q = q + 1;
        }
        if !taken && !slot.native {
            proof {
                reveal_strlit("");
                assert(""@ =~= Seq::<char>::empty());
            }
            match resolve_api_key("", slot.api_key_env.as_str(), env, kv) {
                Some(key) => {
                    let ghost rb = resolved_views(resolved@);
                    let rp = ResolvedProvider {
                        name: slot.name.clone(),
                        base_url: slot.base_url.clone(),
                        api_key: key,
                        models: copy_profiles(&slot.models),
                    };
                    let ghost rpv = rp@;
                    resolved.push(rp);
                    assert(resolved_views(resolved@) =~= rb.push(rpv));
                },
                None => {},
            }
        }
        k = k + 1;
    }
    assert(builtin@.subrange(0, builtin@.len() as int) =~= builtin@);
    (resolved, errors)
}


// ----- the model registry and router -----
/// The profile is suitable for the task.
pub open spec fn suits(p: ModelProfileView, task: Seq<char>) -> bool {
    exists|k: int| 0 <= k < p.suitable_for.len() && p.suitable_for[k] == task
}

/// The profiles suitable for a task, in order.
pub open spec fn suitable_profiles(ps: Seq<ModelProfileView>, task: Seq<char>) -> Seq<ModelProfileView>
    decreases ps.len(),
{
    if ps.len() == 0 {
        Seq::empty()
    } else if suits(ps.last(), task) {
        suitable_profiles(ps.drop_last(), task).push(ps.last())
    } else {
        suitable_profiles(ps.drop_last(), task)
    }
}

/// Some profile has that id and provider.
pub open spec fn profile_listed(ps: Seq<ModelProfileView>, id: Seq<char>) -> bool {
    exists|i: int| 0 <= i < ps.len() && ps[i].id == id
}

/// The profiles after injecting `p`: added unless one with its id is
/// there, so injecting adds no duplicate id.
pub open spec fn after_inject(ps: Seq<ModelProfileView>, p: ModelProfileView) -> Seq<ModelProfileView> {
    if profile_listed(ps, p.id) {
        ps
    } else {
        ps.push(p)
    }
}

/// The profiles after injecting several, one after the other.
pub open spec fn after_injects(ps: Seq<ModelProfileView>, new: Seq<ModelProfileView>) -> Seq<ModelProfileView>
    decreases new.len(),
{
    if new.len() == 0 {
        ps
    } else {
        after_inject(after_injects(ps, new.drop_last()), new.last())
    }
}

/// Injecting a profile is idempotent: injecting it a second time changes
/// nothing, and injecting never drops or reorders a known profile.
pub proof fn law_inject_idempotent(ps: Seq<ModelProfileView>, p: ModelProfileView)
    ensures
        after_inject(after_inject(ps, p), p) == after_inject(ps, p),
        after_inject(ps, p).subrange(0, ps.len() as int) == ps,
        profile_listed(after_inject(ps, p), p.id),
{
    let once = after_inject(ps, p);
    if !profile_listed(ps, p.id) {
        assert(once[ps.len() as int] == p);
        assert(profile_listed(once, p.id));
    }
    assert(once.subrange(0, ps.len() as int) =~= ps);
}

/// The position of the first profile with that id.
pub open spec fn profile_index(ps: Seq<ModelProfileView>, id: Seq<char>) -> Option<int>
    decreases ps.len(),
{
    if ps.len() == 0 {
        None
    } else {
        match profile_index(ps.drop_last(), id) {
            Some(i) => Some(i),
            None => if ps.last().id == id {
                Some(ps.len() - 1)
            } else {
                None
            },
        }
    }
}

/// What a profile costs per million tokens in and out together.
pub open spec fn profile_cost(p: ModelProfileView) -> int {
    p.cost_per_1m_input + p.cost_per_1m_output
}

/// A candidate for a task: suitable and with a large enough window.
pub open spec fn fits_task(p: ModelProfileView, task: Seq<char>, context_tokens: u32) -> bool {
    suits(p, task) && p.context_window >= context_tokens
}

/// `i` is the first candidate of least cost.
pub open spec fn cheapest_at(ps: Seq<ModelProfileView>, task: Seq<char>, context_tokens: u32, i: int) -> bool {
    &&& 0 <= i < ps.len()
    &&& fits_task(ps[i], task, context_tokens)
    &&& forall|j: int|
        0 <= j < ps.len() && fits_task(#[trigger] ps[j], task, context_tokens) ==> profile_cost(ps[i])
            <= profile_cost(ps[j])
    &&& forall|j: int|
        0 <= j < i && fits_task(#[trigger] ps[j], task, context_tokens) ==> profile_cost(ps[i]) < profile_cost(
            ps[j],
        )
}

proof fn lemma_suitable_members(ps: Seq<ModelProfileView>, task: Seq<char>)
    ensures
        forall|j: int|
            0 <= j < suitable_profiles(ps, task).len() ==> ps.contains(#[trigger] suitable_profiles(ps, task)[j])
                && suits(suitable_profiles(ps, task)[j], task),
        forall|k: int| 0 <= k < ps.len() && suits(#[trigger] ps[k], task) ==> suitable_profiles(ps, task).contains(ps[k]),
    decreases ps.len(),
{
    if ps.len() > 0 {
        let d = ps.drop_last();
        lemma_suitable_members(d, task);
        let sd = suitable_profiles(d, task);
        let s = suitable_profiles(ps, task);
        assert forall|j: int| 0 <= j < s.len() implies ps.contains(#[trigger] s[j]) && suits(s[j], task) by {
            if j < sd.len() {
                assert(s[j] == sd[j]);
                let k = choose|k: int| 0 <= k < d.len() && d[k] == sd[j];
                assert(ps[k] == d[k]);
            } else {
                assert(s[j] == ps[ps.len() - 1]);
            }
        }
        assert forall|k: int| 0 <= k < ps.len() && suits(#[trigger] ps[k], task) implies s.contains(ps[k]) by {
            if k < d.len() {
                assert(d[k] == ps[k]);
                let j = choose|j: int| 0 <= j < sd.len() && sd[j] == d[k];
                assert(s[j] == sd[j]);
            } else {
                assert(s[s.len() - 1] == ps[k]);
            }
        }
    }
}

/// The optimal profile is a known profile that suits the task and holds
/// the context, and none that does costs less in input and output cost
/// together; when there is none, no
/// known profile suits the task and holds the context.
pub proof fn law_optimal_profile(ps: Seq<ModelProfileView>, task: Seq<char>, context_tokens: u32)
    ensures
        forall|i: int|
            #[trigger] cheapest_at(suitable_profiles(ps, task), task, context_tokens, i) ==> {
                let r = suitable_profiles(ps, task)[i];
                &&& ps.contains(r)
                &&& fits_task(r, task, context_tokens)
                &&& forall|k: int|
                    0 <= k < ps.len() && fits_task(#[trigger] ps[k], task, context_tokens) ==> r.cost_per_1m_input
                        + r.cost_per_1m_output <= ps[k].cost_per_1m_input + ps[k].cost_per_1m_output
            },
        (forall|j: int|
            0 <= j < suitable_profiles(ps, task).len() ==> !fits_task(
                #[trigger] suitable_profiles(ps, task)[j],
                task,
                context_tokens,
            )) ==> forall|k: int| 0 <= k < ps.len() ==> !fits_task(#[trigger] ps[k], task, context_tokens),
{
    lemma_suitable_members(ps, task);
    let s = suitable_profiles(ps, task);
    assert forall|i: int| #[trigger] cheapest_at(s, task, context_tokens, i) implies {
        let r = s[i];
        &&& ps.contains(r)
        &&& fits_task(r, task, context_tokens)
        &&& forall|k: int|
            0 <= k < ps.len() && fits_task(#[trigger] ps[k], task, context_tokens) ==> r.cost_per_1m_input
                + r.cost_per_1m_output <= ps[k].cost_per_1m_input + ps[k].cost_per_1m_output
    } by {
        assert(ps.contains(s[i]));
        assert forall|k: int| 0 <= k < ps.len() && fits_task(#[trigger] ps[k], task, context_tokens) implies s[i].cost_per_1m_input
            + s[i].cost_per_1m_output <= ps[k].cost_per_1m_input + ps[k].cost_per_1m_output by {
            assert(s.contains(ps[k]));
            let j = choose|j: int| 0 <= j < s.len() && s[j] == ps[k];
            assert(fits_task(s[j], task, context_tokens));
            assert(profile_cost(s[i]) <= profile_cost(s[j]));
        }
    }
    if forall|j: int| 0 <= j < s.len() ==> !fits_task(#[trigger] s[j], task, context_tokens) {
        assert forall|k: int| 0 <= k < ps.len() implies !fits_task(#[trigger] ps[k], task, context_tokens) by {
            if fits_task(ps[k], task, context_tokens) {
                assert(s.contains(ps[k]));
                let j = choose|j: int| 0 <= j < s.len() && s[j] == ps[k];
                assert(fits_task(s[j], task, context_tokens));
            }
        }
    }
}

fn contains_text(v: &Vec<String>, x: &str) -> (r: bool)
    ensures
        r == exists|k: int| 0 <= k < v@.len() && #[trigger] v@[k]@ == x@,
{
    let mut k: usize = 0;
    while k < v.len()
        invariant
            k <= v@.len(),
            forall|j: int| 0 <= j < k ==> #[trigger] v@[j]@ != x@,
        decreases v.len() - k,
    {
        if str_equal(v[k].as_str(), x) {
            return true;
        }
        k = k + 1;
    }
    false
}

/// The names after registering `name`: unchanged when it is there,
/// else with it added last.
pub open spec fn with_name(names: Seq<Seq<char>>, name: Seq<char>) -> Seq<Seq<char>> {
    if names.contains(name) {
        names
    } else {
        names.push(name)
    }
}

/// The profiles a provider built from `models` serves: for each model,
/// the first model whose id or model name is that model's id.
pub open spec fn served_profiles(models: Seq<ModelProfile>) -> Seq<ModelProfileView> {
    Seq::new(models.len(), |i: int| models[model_match(models, models[i].id@)->0]@)
}

/// The profiles after registering resolved providers in order.
pub open spec fn profiles_after_resolved(start: Seq<ModelProfileView>, ps: Seq<ResolvedProvider>) -> Seq<
    ModelProfileView,
>
    decreases ps.len(),
{
    if ps.len() == 0 {
        start
    } else {
        profiles_after_resolved(start, ps.drop_last()) + served_profiles(ps.last().models@)
    }
}

/// The provider names after registering resolved providers in order.
pub open spec fn names_after_resolved(start: Seq<Seq<char>>, ps: Seq<ResolvedProvider>) -> Seq<Seq<char>>
    decreases ps.len(),
{
    if ps.len() == 0 {
        start
    } else {
        with_name(names_after_resolved(start, ps.drop_last()), ps.last().name@)
    }
}

proof fn lemma_model_match_found(models: Seq<ModelProfile>, i: int)
    requires
        0 <= i < models.len(),
    ensures
        model_match(models, models[i].id@) matches Some(j) && 0 <= j <= i,
    decreases models.len(),
{
    if i < models.len() - 1 {
        lemma_model_match_found(models.drop_last(), i);
        assert(models.drop_last()[i] == models[i]);
    } else {
        lemma_model_match_in_range(models.drop_last(), models[i].id@);
    }
}

proof fn lemma_model_match_in_range(models: Seq<ModelProfile>, model: Seq<char>)
    ensures
        model_match(models, model) matches Some(j) ==> 0 <= j < models.len(),
    decreases models.len(),
{
    if models.len() > 0 {
        lemma_model_match_in_range(models.drop_last(), model);
    }
}

/// The registered providers and every model profile known to the router.
pub struct ModelRegistry {
    providers: Vec<String>,
    profiles: Vec<ModelProfile>,
}

impl ModelRegistry {
    /// The names of the registered providers, each once.
    pub closed spec fn provider_names(&self) -> Seq<Seq<char>> {
        str_views(self.providers@)
    }

    /// The known profiles, in the order they were added.
    pub closed spec fn profiles(&self) -> Seq<ModelProfileView> {
        profile_views(self.profiles@)
    }

    /// A registry with no provider and no profile.
    pub fn new() -> (r: ModelRegistry)
        ensures
            r.provider_names().len() == 0,
            r.profiles().len() == 0,
    {
        let r = ModelRegistry { providers: Vec::new(), profiles: Vec::new() };
        assert(str_views(r.providers@) =~= Seq::<Seq<char>>::empty());
        assert(profile_views(r.profiles@) =~= Seq::<ModelProfileView>::empty());
        r
    }

    /// Registers a provider under its name, with the profiles of the
    /// models it serves; a provider of the same name is replaced.
    pub fn register(&mut self, name: &str, served: Vec<ModelProfile>)
        ensures
            final(self).profiles() == old(self).profiles() + profile_views(served@),
            final(self).provider_names() == with_name(old(self).provider_names(), name@),
    {
        let ghost start = profile_views(self.profiles@);
        let ghost names0 = self.providers@;
        let mut i: usize = 0;
        while i < served.len()
            invariant
                i <= served@.len(),
                self.providers@ == names0,
                profile_views(self.profiles@) =~= start + profile_views(served@).subrange(0, i as int),
            decreases served.len() - i,
        {
            let ghost before = profile_views(self.profiles@);
            self.profiles.push(served[i].duplicate());
            assert(profile_views(self.profiles@) =~= before.push(served@[i as int]@));
            i = i + 1;
        }
        let ghost before = str_views(self.providers@);
        if !contains_text(&self.providers, name) {
            proof {
                if before.contains(name@) {
                    let k = choose|k: int| 0 <= k < before.len() && before[k] == name@;
                    assert(self.providers@[k]@ == name@);
                }
            }
            self.providers.push(String::from_str(name));
            assert(str_views(self.providers@) =~= before.push(name@));
        } else {
            proof {
                let k = choose|k: int| 0 <= k < self.providers@.len() && #[trigger] self.providers@[k]@ == name@;
                assert(before[k] == name@);
            }
        }
    }

    /// Registers an OpenAI-compatible provider under its name, with the
    /// profile it gives for each model it serves.
    pub fn register_provider(&mut self, provider: OpenAiCompatibleProvider)
        ensures
            final(self).profiles() == old(self).profiles() + served_profiles(provider.models_view()),
            final(self).provider_names() == with_name(old(self).provider_names(), provider.name_view()),
    {
        let ghost models = provider.models_view();
        let ids = provider.supported_models();
        let mut served: Vec<ModelProfile> = Vec::new();
        let mut i: usize = 0;
        while i < ids.len()
            invariant
                i <= ids@.len(),
                ids@.len() == models.len(),
                models == provider.models_view(),
                forall|k: int| 0 <= k < ids@.len() ==> (#[trigger] ids@[k])@ == models[k].id@,
                profile_views(served@) =~= served_profiles(models).subrange(0, i as int),
            decreases ids.len() - i,
        {
            proof {
                lemma_model_match_found(models, i as int);
            }
            match provider.get_profile(ids[i].as_str()) {
                Some(p) => {
                    let ghost before = profile_views(served@);
                    served.push(p);
                    assert(profile_views(served@) =~= before.push(served_profiles(models)[i as int]));
                },
                None => {},
            }
            i = i + 1;
        }
        self.register(provider.name(), served);
    }

    /// Registers a resolved provider as an OpenAI-compatible one.
    pub fn register_resolved(&mut self, resolved: ResolvedProvider)
        ensures
            final(self).profiles() == old(self).profiles() + served_profiles(resolved.models@),
            final(self).provider_names() == with_name(old(self).provider_names(), resolved.name@),
    {
        let provider = OpenAiCompatibleProvider::with_config(
            resolved.name.as_str(),
            resolved.base_url.as_str(),
            resolved.api_key,
            resolved.models,
        );
        self.register_provider(provider);
    }

    /// Registers resolved providers, one after the other.
    pub fn register_resolved_providers(&mut self, providers: Vec<ResolvedProvider>)
        ensures
            final(self).profiles() == profiles_after_resolved(old(self).profiles(), providers@),
            final(self).provider_names() == names_after_resolved(old(self).provider_names(), providers@),
    {
        let ghost all = providers@;
        let mut rest = providers;
        let total: usize = rest.len();
        let mut i: usize = 0;
        while rest.len() > 0
            invariant
                i <= all.len(),
                all.len() == total,
                rest@ == all.subrange(i as int, all.len() as int),
                self.profiles() == profiles_after_resolved(old(self).profiles(), all.subrange(0, i as int)),
                self.provider_names() == names_after_resolved(old(self).provider_names(), all.subrange(0, i as int)),
            decreases rest.len(),
        {
            assert(i < all.len());
            let p = rest.remove(0);
            assert(p == all[i as int]);
            assert(all.subrange(0, i + 1).drop_last() =~= all.subrange(0, i as int));
            assert(all.subrange(0, i + 1).last() == all[i as int]);
            self.register_resolved(p);
            i = i + 1;
            assert(rest@ =~= all.subrange(i as int, all.len() as int));
        }
        assert(all.subrange(0, i as int) =~= all);
    }

    /// Adds a profile unless one with its id is known.
    pub fn inject_profile(&mut self, profile: ModelProfile)
        ensures
            final(self).profiles() == after_inject(old(self).profiles(), profile@),
            final(self).provider_names() == old(self).provider_names(),
    {
        let ghost before = profile_views(self.profiles@);
        let mut i: usize = 0;
        while i < self.profiles.len()
            invariant
                i <= self.profiles@.len(),
                before == profile_views(self.profiles@),
                forall|j: int| 0 <= j < i ==> !(#[trigger] before[j].id == profile.id@),
            decreases self.profiles.len() - i,
        {
            assert(before[i as int] == self.profiles@[i as int]@);
            if str_equal(self.profiles[i].id.as_str(), profile.id.as_str()) {
                return;
            }
            i = i + 1;
        }
        let ghost pv = profile@;
        self.profiles.push(profile);
        assert(profile_views(self.profiles@) =~= before.push(pv));
    }

    /// Injects several profiles, one after the other.
    pub fn inject_profiles(&mut self, new_profiles: Vec<ModelProfile>)
        ensures
            final(self).profiles() == after_injects(old(self).profiles(), profile_views(new_profiles@)),
            final(self).provider_names() == old(self).provider_names(),
    {
        let ghost start = profile_views(self.profiles@);
        let ghost nv = profile_views(new_profiles@);
        let mut rest = new_profiles;
        let mut taken: Vec<ModelProfile> = Vec::new();
        let mut i: usize = 0;
        let n = rest.len();
        while i < n
            invariant
                n == nv.len(),
                i <= n,
                nv == profile_views(rest@),
                profile_views(self.profiles@) == after_injects(start, nv.subrange(0, i as int)),
                self.provider_names() == old(self).provider_names(),
            decreases n - i,
        {
            assert(nv.subrange(0, i + 1).drop_last() =~= nv.subrange(0, i as int));
            let p = rest[i].duplicate();
            self.inject_profile(p);
            i = i + 1;
        }
        assert(nv.subrange(0, n as int) =~= nv);
    }

    /// The names of the registered providers.
    pub fn list_providers(&self) -> (v: Vec<String>)
        ensures
            str_views(v@) == self.provider_names(),
    {
        copy_strings(&self.providers)
    }

    /// Checks that a provider of that name is registered.
    pub fn get_provider(&self, name: &str) -> (r: Result<(), ModelError>)
        ensures
            r is Ok <==> exists|k: int| 0 <= k < self.provider_names().len() && self.provider_names()[k] == name@,
            r matches Err(e) ==> (e matches ModelError::ProviderNotFound(n) && n@ == name@),
    {
        if contains_text(&self.providers, name) {
            proof {
                let k = choose|k: int| 0 <= k < self.providers@.len() && #[trigger] self.providers@[k]@ == name@;
                assert(self.provider_names()[k] == name@);
            }
            Ok(())
        } else {
            proof {
                assert forall|k: int| 0 <= k < self.provider_names().len() implies self.provider_names()[k] != name@ by {
                    assert(self.provider_names()[k] == self.providers@[k]@);
                }
            }
            Err(ModelError::ProviderNotFound(String::from_str(name)))
        }
    }

    /// The first profile with that id.
    pub fn get_profile(&self, model_id: &str) -> (r: Option<ModelProfile>)
        ensures
            match profile_index(self.profiles(), model_id@) {
                Some(i) => r matches Some(p) && p@ == self.profiles()[i],
                None => r is None,
            },
    {
        let ghost ps = profile_views(self.profiles@);
        let mut i: usize = 0;
        while i < self.profiles.len()
            invariant
                i <= self.profiles@.len(),
                ps == profile_views(self.profiles@),
                profile_index(ps.subrange(0, i as int), model_id@) is None,
            decreases self.profiles.len() - i,
        {
            assert(ps.subrange(0, i + 1).drop_last() =~= ps.subrange(0, i as int));
            assert(ps[i as int] == self.profiles@[i as int]@);
            if str_equal(self.profiles[i].id.as_str(), model_id) {
                proof {
                    lemma_profile_index_prefix(ps, model_id@, i + 1);
                }
                return Some(self.profiles[i].duplicate());
            }
            i = i + 1;
        }
        assert(ps.subrange(0, ps.len() as int) =~= ps);
        None
    }

    /// Does some profile of that provider have `model` as id or model name?
    pub fn serves(&self, provider: &str, model: &str) -> (r: bool)
        ensures
            r == provider_serves(self.profiles(), provider@, model@),
    {
        let ghost ps = self.profiles();
        let mut k: usize = 0;
        while k < self.profiles.len()
            invariant
                k <= self.profiles@.len(),
                ps == profile_views(self.profiles@),
                forall|j: int|
                    0 <= j < k ==> !(#[trigger] ps[j].provider == provider@ && (ps[j].id == model@
                        || ps[j].model_name == model@)),
            decreases self.profiles.len() - k,
        {
            assert(ps[k as int] == self.profiles@[k as int]@);
            let p = &self.profiles[k];
            if str_equal(p.provider.as_str(), provider) && (str_equal(p.id.as_str(), model) || str_equal(
                p.model_name.as_str(),
                model,
            )) {
                return true;
            }
            k = k + 1;
        }
        false
    }

    /// Every known profile.
    pub fn list_profiles(&self) -> (v: Vec<ModelProfile>)
        ensures
            profile_views(v@) == self.profiles(),
    {
        copy_profiles(&self.profiles)
    }

    /// The profiles suitable for a task, in order.
    pub fn find_profiles_by_suitability(&self, task: &str) -> (v: Vec<ModelProfile>)
        ensures
            profile_views(v@) == suitable_profiles(self.profiles(), task@),
    {
        let ghost ps = profile_views(self.profiles@);
        let mut out: Vec<ModelProfile> = Vec::new();
        let mut i: usize = 0;
        while i < self.profiles.len()
            invariant
                i <= self.profiles@.len(),
                ps == profile_views(self.profiles@),
                profile_views(out@) == suitable_profiles(ps.subrange(0, i as int), task@),
            decreases self.profiles.len() - i,
        {
            assert(ps.subrange(0, i + 1).drop_last() =~= ps.subrange(0, i as int));
            assert(ps[i as int] == self.profiles@[i as int]@);
            let p = &self.profiles[i];
            if contains_text(&p.suitable_for, task) {
                proof {
                    let k = choose|k: int| 0 <= k < p.suitable_for@.len() && #[trigger] p.suitable_for@[k]@ == task@;
                    assert(ps[i as int].suitable_for == str_views(p.suitable_for@));
                    assert(ps[i as int].suitable_for[k] == task@);
                }
                assert(suits(ps[i as int], task@));
                let ghost before = profile_views(out@);
                out.push(p.duplicate());
                assert(profile_views(out@) =~= before.push(ps[i as int]));
            } else {
                proof {
                    assert forall|k: int| 0 <= k < str_views(p.suitable_for@).len() implies str_views(
                        p.suitable_for@,
                    )[k] != task@ by {
                        assert(str_views(p.suitable_for@)[k] == p.suitable_for@[k]@);
                    }
                    assert(!suits(ps[i as int], task@));
                }
            }
            i = i + 1;
        }
        assert(ps.subrange(0, ps.len() as int) =~= ps);
        out
    }
}

proof fn lemma_profile_index_prefix(ps: Seq<ModelProfileView>, id: Seq<char>, n: int)
    requires
        0 < n <= ps.len(),
        profile_index(ps.subrange(0, n), id) is Some,
    ensures
        profile_index(ps, id) == profile_index(ps.subrange(0, n), id),
    decreases ps.len() - n,
{
    if n < ps.len() {
        assert(ps.subrange(0, n + 1).drop_last() =~= ps.subrange(0, n));
        lemma_profile_index_prefix(ps, id, n + 1);
    } else {
        assert(ps.subrange(0, n) =~= ps);
    }
}

/// Picks models for calls: the registry, and the order in which fallbacks
/// are tried.
pub struct ModelRouter {
    registry: ModelRegistry,
}

/// The candidates tried for a call, in order: the primary profile, each
/// fallback model the primary's provider serves (as `model@primary`), then
/// fallback aliases while fewer than four candidates are lined up.
pub open spec fn fallback_order(
    primary: Seq<char>,
    primary_provider: Option<Seq<char>>,
    profiles: Seq<ModelProfileView>,
    models: Seq<String>,
    aliases: Seq<String>,
    tag_models: bool,
) -> Seq<Seq<char>> {
    let with_models = fallback_models_upto(primary, primary_provider, profiles, models, tag_models);
    add_aliases(with_models, aliases)
}

/// The primary followed by the fallback models the primary's provider
/// serves.
pub open spec fn fallback_models_upto(
    primary: Seq<char>,
    primary_provider: Option<Seq<char>>,
    profiles: Seq<ModelProfileView>,
    models: Seq<String>,
    tag_models: bool,
) -> Seq<Seq<char>>
    decreases models.len(),
{
    if models.len() == 0 {
        seq![primary]
    } else {
        let rest = fallback_models_upto(primary, primary_provider, profiles, models.drop_last(), tag_models);
        let m = models.last()@;
        if primary_provider matches Some(prov) && exists|k: int|
            0 <= k < profiles.len() && profiles[k].provider == prov && (profiles[k].id == m || profiles[k].model_name
                == m) {
            rest.push(if tag_models {
                m + "@"@ + primary
            } else {
                m
            })
        } else {
            rest
        }
    }
}

/// The candidates with aliases appended while there are fewer than four.
pub open spec fn add_aliases(cands: Seq<Seq<char>>, aliases: Seq<String>) -> Seq<Seq<char>>
    decreases aliases.len(),
{
    if aliases.len() == 0 {
        cands
    } else {
        let rest = add_aliases(cands, aliases.drop_last());
        if rest.len() >= 4 {
            rest
        } else {
            rest.push(aliases.last()@)
        }
    }
}

proof fn lemma_models_upto_shape(
    primary: Seq<char>,
    primary_provider: Option<Seq<char>>,
    profiles: Seq<ModelProfileView>,
    models: Seq<String>,
    tag_models: bool,
)
    ensures
        ({
            let c = fallback_models_upto(primary, primary_provider, profiles, models, tag_models);
            &&& 1 <= c.len() <= models.len() + 1
            &&& c[0] == primary
        }),
    decreases models.len(),
{
    if models.len() > 0 {
        lemma_models_upto_shape(primary, primary_provider, profiles, models.drop_last(), tag_models);
    }
}

proof fn lemma_add_aliases_shape(cands: Seq<Seq<char>>, aliases: Seq<String>)
    ensures
        add_aliases(cands, aliases).subrange(0, cands.len() as int) == cands,
        add_aliases(cands, aliases).len() <= if cands.len() >= 4 {
            cands.len()
        } else {
            4
        },
        add_aliases(cands, aliases).len() >= cands.len(),
    decreases aliases.len(),
{
    if aliases.len() > 0 {
        lemma_add_aliases_shape(cands, aliases.drop_last());
        let rest = add_aliases(cands, aliases.drop_last());
        if rest.len() < 4 {
            assert(rest.push(aliases.last()@).subrange(0, cands.len() as int) =~= rest.subrange(
                0,
                cands.len() as int,
            ));
        }
    } else {
        assert(cands.subrange(0, cands.len() as int) =~= cands);
    }
}

/// The primary profile is always tried first, then the fallback models
/// its provider serves; fallback aliases only fill the list up to four
/// candidates.
pub proof fn law_fallback_order_shape(
    primary: Seq<char>,
    primary_provider: Option<Seq<char>>,
    profiles: Seq<ModelProfileView>,
    models: Seq<String>,
    aliases: Seq<String>,
    tag_models: bool,
)
    ensures
        ({
            let with_models = fallback_models_upto(primary, primary_provider, profiles, models, tag_models);
            let all = fallback_order(primary, primary_provider, profiles, models, aliases, tag_models);
            &&& all[0] == primary
            &&& all.subrange(0, with_models.len() as int) == with_models
            &&& with_models.len() <= models.len() + 1
            &&& all.len() <= if with_models.len() >= 4 {
                with_models.len()
            } else {
                4
            }
        }),
{
    let with_models = fallback_models_upto(primary, primary_provider, profiles, models, tag_models);
    lemma_models_upto_shape(primary, primary_provider, profiles, models, tag_models);
    lemma_add_aliases_shape(with_models, aliases);
    let all = add_aliases(with_models, aliases);
    assert(all[0] == all.subrange(0, with_models.len() as int)[0]);
}

/// The profile a candidate names: `model@primary` names `model`.
pub open spec fn candidate_target(candidate: Seq<char>, primary: Seq<char>) -> Seq<char> {
    let suffix = "@"@ + primary;
    if suffix.len() <= candidate.len() && candidate.subrange(candidate.len() - suffix.len(), candidate.len() as int)
        == suffix {
        candidate.subrange(0, candidate.len() - suffix.len())
    } else {
        candidate
    }
}

/// The provider of the first profile with that id.
pub open spec fn provider_of(ps: Seq<ModelProfileView>, id: Seq<char>) -> Option<Seq<char>> {
    match profile_index(ps, id) {
        Some(i) => Some(ps[i].provider),
        None => None,
    }
}

/// Does some profile of that provider have `model` as id or model name?
pub open spec fn provider_serves(ps: Seq<ModelProfileView>, provider: Seq<char>, model: Seq<char>) -> bool {
    exists|k: int| 0 <= k < ps.len() && ps[k].provider == provider && (ps[k].id == model || ps[k].model_name == model)
}

/// What a call with fallbacks does next, once the candidates before
/// `next` have failed.
pub enum FallbackStep {
    /// Call the profile that the candidate at `index` names.
    Try { index: usize, profile: String },
    /// Every candidate failed: the call ends with `AllFallbacksExhausted`.
    Exhausted,
}

/// The step of a call with fallbacks after the first `next` candidates
/// failed: the next candidate's profile (the fallback model itself for a
/// `model@primary` candidate), or the end when none is left. A candidate
/// that succeeds ends the call with its reply.
pub fn fallback_step(candidates: &Vec<String>, primary: &str, next: usize) -> (s: FallbackStep)
    ensures
        next < candidates@.len() ==> (s matches FallbackStep::Try { index, profile } && index == next
            && profile@ == candidate_target(candidates@[next as int]@, primary@)),
        next >= candidates@.len() ==> s is Exhausted,
{
    if next < candidates.len() {
        FallbackStep::Try { index: next, profile: candidate_profile(candidates[next].as_str(), primary) }
    } else {
        FallbackStep::Exhausted
    }
}

/// The profile a fallback candidate names.
pub fn candidate_profile(candidate: &str, primary: &str) -> (r: String)
    ensures
        r@ == candidate_target(candidate@, primary@),
{
    let mut suffix = String::from_str("@");
    suffix.append(primary);
    if str_ends_with(candidate, suffix.as_str()) {
        let n = candidate.unicode_len();
        let m = suffix.unicode_len();
        assert(candidate@.subrange(n - m, n as int) =~= suffix@);
        String::from_str(candidate.substring_char(0, n - m))
    } else {
        proof {
            let suf = "@"@ + primary@;
            if suf.len() <= candidate@.len() && candidate@.subrange(candidate@.len() - suf.len(), candidate@.len() as int)
                == suf {
                assert(suf.is_suffix_of(candidate@));
            }
        }
        String::from_str(candidate)
    }
}

impl ModelRouter {
    /// A router over a registry.
    pub fn new(registry: ModelRegistry) -> (r: ModelRouter)
        ensures
            r.registry_view() == registry,
    {
        ModelRouter { registry }
    }

    /// The registry, as a value.
    pub closed spec fn registry_view(&self) -> ModelRegistry {
        self.registry
    }

    /// The registry.
    pub fn registry(&self) -> (r: &ModelRegistry)
        ensures
            *r == self.registry_view(),
    {
        &self.registry
    }

    /// Injects a profile into the registry.
    pub fn inject_profile(&mut self, profile: ModelProfile)
        ensures
            final(self).registry_view().profiles() == after_inject(old(self).registry_view().profiles(), profile@),
            final(self).registry_view().provider_names() == old(self).registry_view().provider_names(),
    {
        self.registry.inject_profile(profile);
    }

    /// Injects several profiles into the registry.
    pub fn inject_profiles(&mut self, profiles: Vec<ModelProfile>)
        ensures
            final(self).registry_view().profiles() == after_injects(
                old(self).registry_view().profiles(),
                profile_views(profiles@),
            ),
            final(self).registry_view().provider_names() == old(self).registry_view().provider_names(),
    {
        self.registry.inject_profiles(profiles);
    }

    /// The candidates a call with fallbacks tries, in order: the primary,
    /// the fallback models its provider serves (as `model@primary` when
    /// `tag_models`), then fallback aliases while fewer than four are lined
    /// up.
    pub fn fallback_candidates(
        &self,
        primary: &str,
        fallback_models: &Vec<String>,
        fallback_aliases: &Vec<String>,
        tag_models: bool,
    ) -> (r: Vec<String>)
        ensures
            str_views(r@) == fallback_order(
                primary@,
                provider_of(self.registry_view().profiles(), primary@),
                self.registry_view().profiles(),
                fallback_models@,
                fallback_aliases@,
                tag_models,
            ),
    {
        let ghost ps = self.registry_view().profiles();
        let ghost prov = provider_of(ps, primary@);
        let provider: Option<String> = match self.registry.get_profile(primary) {
            Some(p) => Some(p.provider),
            None => None,
        };
        assert(match provider {
            Some(p) => prov == Some(p@),
            None => prov is None,
        });
        let mut out: Vec<String> = Vec::new();
        out.push(String::from_str(primary));
        assert(str_views(out@) =~= seq![primary@]);
        let mut i: usize = 0;
        while i < fallback_models.len()
            invariant
                i <= fallback_models@.len(),
                ps == self.registry_view().profiles(),
                match provider {
                    Some(p) => prov == Some(p@),
                    None => prov is None,
                },
                str_views(out@) == fallback_models_upto(
                    primary@,
                    prov,
                    ps,
                    fallback_models@.subrange(0, i as int),
                    tag_models,
                ),
            decreases fallback_models.len() - i,
        {
            assert(fallback_models@.subrange(0, i + 1).drop_last() =~= fallback_models@.subrange(0, i as int));
            let m = &fallback_models[i];
            let serves = match &provider {
                Some(p) => self.registry.serves(p.as_str(), m.as_str()),
                None => false,
            };
            if serves {
                let cand = if tag_models {
                    concat3(m.as_str(), "@", primary)
                } else {
                    m.clone()
                };
                let ghost before = str_views(out@);
                out.push(cand);
                assert(str_views(out@) =~= before.push(cand@));
            }
            i = i + 1;
        }
        assert(fallback_models@.subrange(0, i as int) =~= fallback_models@);
        let ghost with_models = str_views(out@);
        let mut j: usize = 0;
        while j < fallback_aliases.len()
            invariant
                j <= fallback_aliases@.len(),
                str_views(out@) == add_aliases(with_models, fallback_aliases@.subrange(0, j as int)),
            decreases fallback_aliases.len() - j,
        {
            assert(fallback_aliases@.subrange(0, j + 1).drop_last() =~= fallback_aliases@.subrange(0, j as int));
            if out.len() < 4 {
                let ghost before = str_views(out@);
                out.push(fallback_aliases[j].clone());
                assert(str_views(out@) =~= before.push(fallback_aliases@[j as int]@));
            }
            j = j + 1;
        }
        assert(fallback_aliases@.subrange(0, j as int) =~= fallback_aliases@);
        out
    }

    /// The profile a call to `profile_id` goes to, when the profile is known
    /// and its provider registered.
    pub fn resolve_route(&self, profile_id: &str) -> (r: Result<ModelProfile, ModelError>)
        ensures
            profile_index(self.registry_view().profiles(), profile_id@) is None ==> (r matches Err(
                ModelError::ModelNotAvailable(m),
            ) && m@ == profile_id@),
            profile_index(self.registry_view().profiles(), profile_id@) matches Some(i) ==> {
                let p = self.registry_view().profiles()[i];
                if exists|k: int|
                    0 <= k < self.registry_view().provider_names().len()
                        && self.registry_view().provider_names()[k] == p.provider {
                    r matches Ok(q) && q@ == p
                } else {
                    r matches Err(ModelError::ProviderNotFound(n)) && n@ == p.provider
                }
            },
    {
        let profile = match self.registry.get_profile(profile_id) {
            Some(p) => p,
            None => return Err(ModelError::ModelNotAvailable(String::from_str(profile_id))),
        };
        match self.registry.get_provider(profile.provider.as_str()) {
            Ok(()) => Ok(profile),
            Err(e) => Err(e),
        }
    }

    /// The cheapest profile (input plus output cost) suitable for the task
    /// whose context window holds `context_tokens`; the first of equal
    /// cost.
    pub fn find_optimal_profile(&self, task_type: &str, context_tokens: u32) -> (r: Option<ModelProfile>)
        ensures
            match r {
                Some(p) => exists|i: int|
                    cheapest_at(suitable_profiles(self.registry_view().profiles(), task_type@), task_type@, context_tokens, i)
                        && p@ == suitable_profiles(self.registry_view().profiles(), task_type@)[i],
                None => forall|j: int|
                    0 <= j < suitable_profiles(self.registry_view().profiles(), task_type@).len() ==> !fits_task(
                        #[trigger] suitable_profiles(self.registry_view().profiles(), task_type@)[j],
                        task_type@,
                        context_tokens,
                    ),
            },
    {
        let cands = self.registry.find_profiles_by_suitability(task_type);
        let ghost cs = profile_views(cands@);
        let mut best: Option<usize> = None;
        let mut i: usize = 0;
        while i < cands.len()
            invariant
                i <= cands@.len(),
                cs == profile_views(cands@),
                cs == suitable_profiles(self.registry_view().profiles(), task_type@),
                match best {
                    Some(b) => b < i && fits_task(cs[b as int], task_type@, context_tokens) && (forall|j: int|
                        0 <= j < i && fits_task(#[trigger] cs[j], task_type@, context_tokens) ==> profile_cost(
                            cs[b as int],
                        ) <= profile_cost(cs[j])) && (forall|j: int|
                        0 <= j < b && fits_task(#[trigger] cs[j], task_type@, context_tokens) ==> profile_cost(
                            cs[b as int],
                        ) < profile_cost(cs[j])),
                    None => forall|j: int| 0 <= j < i ==> !fits_task(#[trigger] cs[j], task_type@, context_tokens),
                },
            decreases cands.len() - i,
        {
            assert(cs[i as int] == cands@[i as int]@);
            let p = &cands[i];
            let fits = p.context_window >= context_tokens && contains_text(&p.suitable_for, task_type);
            proof {
                assert(cs[i as int].suitable_for == str_views(p.suitable_for@));
                if fits {
                    let k = choose|k: int| 0 <= k < p.suitable_for@.len() && #[trigger] p.suitable_for@[k]@ == task_type@;
                    assert(cs[i as int].suitable_for[k] == task_type@);
                } else if p.context_window >= context_tokens {
                    assert forall|k: int| 0 <= k < str_views(p.suitable_for@).len() implies str_views(
                        p.suitable_for@,
                    )[k] != task_type@ by {
                        assert(str_views(p.suitable_for@)[k] == p.suitable_for@[k]@);
                    }
                }
            }
            assert(fits == fits_task(cs[i as int], task_type@, context_tokens));
            if fits {
                let cost: u128 = p.cost_per_1m_input as u128 + p.cost_per_1m_output as u128;
                assert(cost == profile_cost(cs[i as int]));
                match best {
                    None => {
                        best = Some(i);
                    },
                    Some(b) => {
                        let bc: u128 = cands[b].cost_per_1m_input as u128 + cands[b].cost_per_1m_output as u128;
                        assert(cs[b as int] == cands@[b as int]@);
                        assert(bc == profile_cost(cs[b as int]));
                        if cost < bc {
                            best = Some(i);
                        }
                    },
                }
            }
            i = i + 1;
        }
        match best {
            Some(b) => {
                assert(cs[b as int] == cands@[b as int]@);
                assert(cheapest_at(cs, task_type@, context_tokens, b as int));
                Some(cands[b].duplicate())
            },
            None => None,
        }
    }
}

} // verus!
