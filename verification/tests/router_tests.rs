use claw10::router::{
    fallback_step, FallbackStep, resolve_api_key, resolve_providers, Claw10Config, ConfigError, CustomModelMeta, CustomProvider, ModelError,
    ModelProfile, ProviderAlias, ProviderConfig,
};

fn pairs(items: &[(&str, &str)]) -> Vec<(String, String)> {
    items.iter().map(|(k, v)| (k.to_string(), v.to_string())).collect()
}

fn profile(id: &str) -> ModelProfile {
    ModelProfile {
        id: id.into(),
        provider: String::new(),
        model_name: id.into(),
        context_window: 128_000,
        max_output_tokens: 16_384,
        cost_per_1m_input: 2_500_000,
        cost_per_1m_output: 10_000_000,
        suitable_for: vec!["general".into()],
    }
}

fn slot(name: &str, env: &str, native: bool) -> ProviderConfig {
    ProviderConfig {
        name: name.into(),
        base_url: format!("https://{name}.example/v1"),
        api_key_env: env.into(),
        notes: String::new(),
        models: vec![profile("gpt-4o")],
        native,
    }
}

fn alias(slot: &str, model: &str, key: &str) -> ProviderAlias {
    ProviderAlias {
        slot: slot.into(),
        model: model.into(),
        api_key: key.into(),
        temperature: None,
        max_tokens: None,
        fallback: None,
        fallback_models: vec![],
    }
}

#[test]
fn api_key_sources_in_order() {
    let env = pairs(&[("MY_KEY", "from-env"), ("EMPTY", ""), ("OPENAI_API_KEY", "slot-env")]);
    let kv = pairs(&[("config:other_api_key", "from-kv"), ("config:groq_api_key_api_key", "slot-kv")]);
    assert_eq!(resolve_api_key("literal", "OPENAI_API_KEY", &env, &kv).unwrap(), "literal");
    assert_eq!(resolve_api_key("$MY_KEY", "", &env, &kv).unwrap(), "from-env");
    assert_eq!(resolve_api_key("$OTHER", "", &env, &kv).unwrap(), "from-kv");
    assert_eq!(resolve_api_key("$EMPTY", "OPENAI_API_KEY", &env, &kv).unwrap(), "slot-env");
    assert_eq!(resolve_api_key("", "GROQ_API_KEY", &env, &kv).unwrap(), "slot-kv");
    assert!(resolve_api_key("", "", &env, &kv).is_none());
    assert!(resolve_api_key("$NOPE", "NOPE_API_KEY", &env, &kv).is_none());
}

#[test]
fn providers_resolve_in_order() {
    let builtin = vec![slot("openai", "OPENAI_API_KEY", false), slot("groq", "GROQ_API_KEY", false), slot("bedrock", "", true)];
    let config = Claw10Config {
        alias: vec![
            ("gpt4".into(), alias("openai", "gpt-4o", "sk-1")),
            ("mini".into(), alias("openai", "o9", "sk-2")),
            ("nope".into(), alias("missing", "x", "k")),
            ("nokey".into(), alias("groq", "llama", "$UNSET")),
            ("native".into(), alias("bedrock", "titan", "k")),
        ],
        custom: vec![(
            "mine".into(),
            CustomProvider {
                base_url: "https://mine.example/v1".into(),
                api_key: "ck".into(),
                models: vec!["m1".into(), "m2".into()],
                model_meta: vec![(
                    "m2".into(),
                    CustomModelMeta {
                        context_window: 32_000,
                        max_output_tokens: 1_000,
                        cost_per_1m_input: 1,
                        cost_per_1m_output: 2,
                        suitable_for: vec!["coding".into()],
                    },
                )],
            },
        )],
    };
    let env = pairs(&[("GROQ_API_KEY", "")]);
    let (resolved, errors) = resolve_providers(Some(&config), &builtin, &env, &vec![]);
    let names: Vec<&str> = resolved.iter().map(|r| r.name.as_str()).collect();
    assert_eq!(names, vec!["openai.gpt4", "openai.mini", "custom.mine"]);
    assert_eq!(resolved[0].models[0].id, "gpt-4o");
    assert_eq!(resolved[0].models[0].cost_per_1m_input, 2_500_000);
    assert_eq!(resolved[1].models[0].id, "o9");
    assert_eq!(resolved[1].models[0].provider, "openai.mini");
    assert_eq!(resolved[1].models[0].max_output_tokens, 8_192);
    assert_eq!(resolved[2].models.len(), 2);
    assert_eq!(resolved[2].models[0].context_window, 128_000);
    assert_eq!(resolved[2].models[1].context_window, 32_000);
    assert_eq!(resolved[2].models[1].suitable_for, vec!["coding".to_string(), "general".to_string()]);
    assert_eq!(errors.len(), 2);
    assert!(matches!(&errors[0], ConfigError::SlotNotFound(s) if s == "missing"));
    assert!(matches!(&errors[1], ConfigError::NoApiKey(s) if s == "groq.nokey"));
}

#[test]
fn bare_slots_register_when_keyed() {
    let builtin = vec![slot("openai", "OPENAI_API_KEY", false), slot("groq", "GROQ_API_KEY", false)];
    let env = pairs(&[("GROQ_API_KEY", "g")]);
    let (resolved, errors) = resolve_providers(None, &builtin, &env, &vec![]);
    assert!(errors.is_empty());
    assert_eq!(resolved.len(), 1);
    assert_eq!(resolved[0].name, "groq");
    assert_eq!(resolved[0].api_key, "g");
    assert_eq!(resolved[0].models.len(), 1);
}

#[test]
fn model_error_messages() {
    assert_eq!(ModelError::RateLimited(5).to_string(), "rate limited, retry after 5s");
    assert_eq!(
        ModelError::ContextLengthExceeded { max: 10, requested: 12 }.to_string(),
        "context length exceeded: max 10, requested 12"
    );
    assert_eq!(ModelError::AllFallbacksExhausted.to_string(), "all fallback profiles exhausted");
}

#[test]
fn fallback_steps_try_candidates_in_order() {
    let c = vec!["gpt-4o".to_string(), "mini@gpt-4o".to_string(), "alias".to_string()];
    let profile_at = |n: usize| match fallback_step(&c, "gpt-4o", n) {
        FallbackStep::Try { index, profile } => Some((index, profile)),
        FallbackStep::Exhausted => None,
    };
    assert_eq!(profile_at(0), Some((0, "gpt-4o".to_string())));
    assert_eq!(profile_at(1), Some((1, "mini".to_string())));
    assert_eq!(profile_at(2), Some((2, "alias".to_string())));
    assert_eq!(profile_at(3), None);
    assert!(matches!(fallback_step(&vec![], "p", 0), FallbackStep::Exhausted));
}
