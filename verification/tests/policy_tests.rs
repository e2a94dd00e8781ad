use claw10::json::JsonValue;
use claw10::policy::{PolicyEffect, PolicyError, PolicyRule, PolicyService, PolicySubject};

fn rule(id: u128, action: &str, resource: &str, effect: PolicyEffect, priority: i32) -> PolicyRule {
    PolicyRule {
        id,
        subject: PolicySubject::Role("*".to_string()),
        action: action.to_string(),
        resource: resource.to_string(),
        condition: None,
        effect,
        priority,
    }
}

fn role(name: &str) -> PolicySubject {
    PolicySubject::Role(name.to_string())
}

#[test]
fn glob_patterns() {
    assert!(PolicyService::pattern_matches("*", "anything"));
    assert!(PolicyService::pattern_matches("read", "read"));
    assert!(PolicyService::pattern_matches("file.*", "file.read"));
    assert!(PolicyService::pattern_matches("*.read", "file.read"));
    assert!(!PolicyService::pattern_matches("file.*", "net.read"));
    assert!(!PolicyService::pattern_matches("write", "read"));
    assert!(PolicyService::pattern_matches("*ell*", "shell_exec"));
    assert!(PolicyService::pattern_matches("**", "x"));
    assert!(!PolicyService::pattern_matches("*ell*", "she_ll"));
}

#[test]
fn subjects_match_by_kind_and_name() {
    assert!(PolicyService::subject_matches(&role("*"), &PolicySubject::Agent("a1".to_string())));
    assert!(PolicyService::subject_matches(&role("coder"), &role("coder")));
    assert!(!PolicyService::subject_matches(&role("coder"), &role("critic")));
    assert!(!PolicyService::subject_matches(&PolicySubject::Agent("coder".to_string()), &role("coder")));
}

#[test]
fn inactive_bundle_is_refused() {
    let bundle = PolicyService::create_bundle("b".to_string(), "1".to_string(), vec![]);
    match PolicyService::evaluate(&bundle, &role("x"), "read", "file", None) {
        Err(PolicyError::Inactive(name)) => assert_eq!(name, "b"),
        _ => panic!("expected an inactive-bundle error"),
    }
}

#[test]
fn default_deny_without_matching_rule() {
    let mut bundle = PolicyService::create_bundle("b".to_string(), "1".to_string(), vec![]);
    PolicyService::activate(&mut bundle);
    let res = PolicyService::evaluate(&bundle, &role("x"), "read", "file", None).ok().unwrap();
    assert!(!res.allowed);
    assert!(res.matched_rule.is_none());
    assert_eq!(res.reason, "no matching rule — default deny");
}

#[test]
fn higher_priority_allow_beats_priority_deny() {
    let rules = vec![
        rule(1, "read", "*", PolicyEffect::ExplicitDenyPriority, 5),
        rule(2, "read", "*", PolicyEffect::Allow, 10),
    ];
    let res = PolicyService::simulate(&rules, &role("x"), "read", "file", None);
    assert!(res.allowed);
    assert_eq!(res.matched_rule.unwrap().id, 2);
    assert_eq!(res.reason, "allowed by rule 00000000-0000-0000-0000-000000000002: read");
}

#[test]
fn explicit_deny_wins_at_once() {
    let rules = vec![
        rule(1, "read", "*", PolicyEffect::ExplicitDeny, 10),
        rule(2, "read", "*", PolicyEffect::Allow, 5),
    ];
    let res = PolicyService::simulate(&rules, &role("x"), "read", "file", None);
    assert!(!res.allowed);
    assert_eq!(res.reason, "denied by rule 00000000-0000-0000-0000-000000000001: read");
}

#[test]
fn priority_deny_without_higher_allow_denies() {
    let rules = vec![rule(7, "write", "db.*", PolicyEffect::ExplicitDenyPriority, 3)];
    let res = PolicyService::simulate(&rules, &role("x"), "write", "db.users", None);
    assert!(!res.allowed);
    assert_eq!(res.reason, "denied by priority rule 00000000-0000-0000-0000-000000000007: write");
}

#[test]
fn compile_orders_by_descending_priority_stably() {
    let rules = vec![
        rule(1, "a", "*", PolicyEffect::Allow, 1),
        rule(2, "b", "*", PolicyEffect::Allow, 9),
        rule(3, "c", "*", PolicyEffect::Allow, 1),
        rule(4, "d", "*", PolicyEffect::Allow, 5),
    ];
    let ids: Vec<u128> = PolicyService::compile(rules).iter().map(|r| r.id).collect();
    assert_eq!(ids, vec![2, 4, 1, 3]);
}

#[test]
fn conditions_need_matching_context_fields() {
    let cond = Some(JsonValue::Object(vec![("env".to_string(), JsonValue::Str("prod".to_string()))]));
    let ctx_ok = JsonValue::Object(vec![
        ("env".to_string(), JsonValue::Str("prod".to_string())),
        ("user".to_string(), JsonValue::Str("u".to_string())),
    ]);
    let ctx_bad = JsonValue::Object(vec![("env".to_string(), JsonValue::Str("dev".to_string()))]);
    assert!(PolicyService::evaluate_condition(&None, None));
    assert!(PolicyService::evaluate_condition(&cond, Some(&ctx_ok)));
    assert!(!PolicyService::evaluate_condition(&cond, Some(&ctx_bad)));
    // Without a context a condition is taken to hold.
    assert!(PolicyService::evaluate_condition(&cond, None));
}

#[test]
fn policy_error_messages() {
    assert_eq!(PolicyError::NotFound("b".to_string()).to_string(), "policy bundle not found: b");
    assert_eq!(PolicyError::Inactive("b".to_string()).to_string(), "inactive policy bundle: b");
    assert_eq!(PolicyError::Unsigned("b".to_string()).to_string(), "unsigned policy bundle: b");
    assert_eq!(PolicyError::Other("x".to_string()).to_string(), "x");
}
