use claw10::providers::{get_provider_slot, provider_configs};
use claw10::router::{candidate_profile, ModelError, ModelProfile, ModelRegistry, ModelRouter, ResolvedProvider};

fn profile(id: &str, provider: &str, cost_in: u64, cost_out: u64, ctx: u32, tags: &[&str]) -> ModelProfile {
    ModelProfile {
        id: id.into(),
        provider: provider.into(),
        model_name: id.into(),
        context_window: ctx,
        max_output_tokens: 4_096,
        cost_per_1m_input: cost_in,
        cost_per_1m_output: cost_out,
        suitable_for: tags.iter().map(|t| t.to_string()).collect(),
    }
}

fn router() -> ModelRouter {
    let mut registry = ModelRegistry::new();
    registry.register(
        "openai",
        vec![
            profile("gpt-4o", "openai", 2_500_000, 10_000_000, 128_000, &["general", "coding"]),
            profile("gpt-4o-mini", "openai", 150_000, 600_000, 128_000, &["general", "fast"]),
        ],
    );
    registry.register("groq", vec![profile("llama", "groq", 50_000, 80_000, 8_000, &["general"])]);
    ModelRouter::new(registry)
}

#[test]
fn catalog_lists_every_slot() {
    let all = provider_configs();
    assert_eq!(all.len(), 54);
    assert_eq!(all[0].name, "openai");
    assert_eq!(all[53].name, "opencode-go");
    for cfg in &all {
        assert!(!cfg.native);
        for m in &cfg.models {
            assert_eq!(m.provider, cfg.name);
        }
    }
    let openai = get_provider_slot("openai").unwrap();
    assert_eq!(openai.api_key_env, "OPENAI_API_KEY");
    assert_eq!(openai.models[0].id, "gpt-4o");
    assert_eq!(openai.models[0].cost_per_1m_input, 2_500_000);
    assert_eq!(openai.models[0].cost_per_1m_output, 10_000_000);
    assert_eq!(openai.models[0].suitable_for, vec!["general", "reasoning", "coding"]);
    assert!(get_provider_slot("no-such-provider").is_none());
}

#[test]
fn registry_registers_and_finds() {
    let r = router();
    let reg = r.registry();
    assert_eq!(reg.list_providers(), vec!["openai", "groq"]);
    assert!(reg.get_provider("groq").is_ok());
    assert!(matches!(reg.get_provider("nope"), Err(ModelError::ProviderNotFound(n)) if n == "nope"));
    assert_eq!(reg.get_profile("gpt-4o-mini").unwrap().cost_per_1m_input, 150_000);
    assert!(reg.get_profile("missing").is_none());
    assert_eq!(reg.list_profiles().len(), 3);
    let fast: Vec<String> = reg.find_profiles_by_suitability("fast").into_iter().map(|p| p.id).collect();
    assert_eq!(fast, vec!["gpt-4o-mini"]);
}

#[test]
fn injection_skips_known_profiles() {
    let mut r = router();
    r.inject_profile(profile("gpt-4o", "openai", 1, 1, 1, &[]));
    assert_eq!(r.registry().list_profiles().len(), 3);
    r.inject_profiles(vec![
        profile("gpt-4o", "azure", 1, 1, 1, &[]),
        profile("new", "openai", 1, 1, 1, &[]),
        profile("new", "openai", 2, 2, 2, &[]),
    ]);
    assert_eq!(r.registry().list_profiles().len(), 4);
    assert!(!r.registry().list_profiles().iter().any(|p| p.provider == "azure"));
}

#[test]
fn optimal_profile_is_cheapest_that_fits() {
    let r = router();
    assert_eq!(r.find_optimal_profile("general", 10_000).unwrap().id, "gpt-4o-mini");
    assert_eq!(r.find_optimal_profile("general", 1_000).unwrap().id, "llama");
    assert!(r.find_optimal_profile("general", 1_000_000).is_none());
    assert!(r.find_optimal_profile("vision", 1).is_none());
}

#[test]
fn routes_resolve_to_registered_providers() {
    let mut r = router();
    assert_eq!(r.resolve_route("gpt-4o").unwrap().provider, "openai");
    assert!(matches!(r.resolve_route("x"), Err(ModelError::ModelNotAvailable(m)) if m == "x"));
    r.inject_profile(profile("orphan", "nowhere", 1, 1, 1, &[]));
    assert!(matches!(r.resolve_route("orphan"), Err(ModelError::ProviderNotFound(p)) if p == "nowhere"));
}

#[test]
fn fallback_candidates_in_order() {
    let r = router();
    let models = vec!["gpt-4o-mini".to_string(), "llama".to_string()];
    let aliases = vec!["a1".to_string(), "a2".to_string(), "a3".to_string()];
    let tagged = r.fallback_candidates("gpt-4o", &models, &aliases, true);
    assert_eq!(tagged, vec!["gpt-4o", "gpt-4o-mini@gpt-4o", "a1", "a2"]);
    let plain = r.fallback_candidates("gpt-4o", &models, &aliases, false);
    assert_eq!(plain, vec!["gpt-4o", "gpt-4o-mini", "a1", "a2"]);
    let unknown = r.fallback_candidates("missing", &models, &aliases, true);
    assert_eq!(unknown, vec!["missing", "a1", "a2", "a3"]);
    assert_eq!(candidate_profile("gpt-4o-mini@gpt-4o", "gpt-4o"), "gpt-4o-mini");
    assert_eq!(candidate_profile("a1", "gpt-4o"), "a1");
}

#[test]
fn resolved_providers_register_their_models() {
    let mut reg = ModelRegistry::new();
    reg.register_resolved_providers(vec![
        ResolvedProvider {
            name: "local".into(),
            base_url: "http://localhost:11434/v1".into(),
            api_key: String::new(),
            models: vec![profile("m1", "local", 0, 0, 4_096, &["general"])],
        },
        ResolvedProvider {
            name: "local".into(),
            base_url: "http://localhost:11434/v1".into(),
            api_key: String::new(),
            models: vec![profile("m2", "local", 0, 0, 4_096, &["general"])],
        },
    ]);
    assert_eq!(reg.list_providers(), vec!["local"]);
    let ids: Vec<String> = reg.list_profiles().into_iter().map(|p| p.id).collect();
    assert_eq!(ids, vec!["m1", "m2"]);
}
