use claw10::json::JsonValue;
use claw10::policy::{PolicyEffect, PolicyRule, PolicySubject};
use claw10::prompt::{PolicyDigestBuilder, PolicyIrInput};
use claw10::roles::AgentRole;
use claw10::validation::{push_json_debug, SchemaValidator};
use std::str::FromStr;

fn s(x: &str) -> JsonValue {
    JsonValue::Str(x.to_string())
}

fn obj(entries: Vec<(&str, JsonValue)>) -> JsonValue {
    JsonValue::Object(entries.into_iter().map(|(k, v)| (k.to_string(), v)).collect())
}

fn arr(items: Vec<JsonValue>) -> JsonValue {
    JsonValue::Array(items)
}

fn string_schema() -> JsonValue {
    obj(vec![("type", s("string"))])
}

fn name_id_schema() -> JsonValue {
    obj(vec![
        ("properties", obj(vec![("id", string_schema()), ("name", string_schema())])),
        ("required", arr(vec![s("name"), s("id")])),
        ("type", s("object")),
    ])
}

#[test]
fn test_all_roles_have_temperature() {
    for role in AgentRole::all_variants() {
        let t = role.temperature();
        assert!(t <= 1_000_000, "role {:?} has out-of-range temperature {}", role, t);
    }
}

#[test]
fn test_all_roles_have_max_output_tokens() {
    for role in AgentRole::all_variants() {
        let t = role.max_output_tokens();
        assert!(t > 0 && t <= 16384, "role {:?} has out-of-range max_output_tokens {}", role, t);
    }
}

#[test]
fn test_all_roles_have_primary_output() {
    for role in AgentRole::all_variants() {
        let o = role.primary_output();
        assert!(!o.is_empty(), "role {:?} has empty primary_output", role);
    }
}

#[test]
fn test_agent_role_display() {
    assert_eq!(AgentRole::Root.to_string(), "Root");
    assert_eq!(AgentRole::Coding.to_string(), "Coding");
    assert_eq!(AgentRole::SecurityGuardian.to_string(), "SecurityGuardian");
}

#[test]
fn test_agent_role_parse() {
    assert_eq!(AgentRole::from_str("Root").unwrap(), AgentRole::Root);
    assert_eq!(AgentRole::from_str("Coding").unwrap(), AgentRole::Coding);
    assert_eq!(AgentRole::from_str("MemoryCurator").unwrap(), AgentRole::MemoryCurator);
    assert!(AgentRole::from_str("Unknown").is_err());
    assert_eq!(AgentRole::from_str("root"), Err("unknown agent role: root".to_string()));
}

#[test]
fn test_specific_role_properties() {
    // Temperatures are in millionths: 300_000 is 0.3.
    assert_eq!(AgentRole::Root.temperature(), 300_000);
    assert_eq!(AgentRole::Root.max_output_tokens(), 4096);
    assert_eq!(AgentRole::Root.primary_output(), "MissionProposal");

    assert_eq!(AgentRole::Coding.temperature(), 100_000);
    assert_eq!(AgentRole::Coding.max_output_tokens(), 8192);
    assert_eq!(AgentRole::Coding.primary_output(), "CodeChangeResult");

    assert_eq!(AgentRole::Critic.temperature(), 200_000);
    assert_eq!(AgentRole::Critic.max_output_tokens(), 2048);
    assert_eq!(AgentRole::Critic.primary_output(), "CritiqueReport");

    assert_eq!(AgentRole::SecurityGuardian.temperature(), 100_000);
    assert_eq!(AgentRole::SecurityGuardian.primary_output(), "SecurityAssessment");
}

#[test]
fn role_names_parse_back() {
    for role in AgentRole::all_variants() {
        assert_eq!(AgentRole::parse(role.name()), Some(role));
    }
    assert_eq!(AgentRole::all_variants().len(), 22);
    assert_eq!(AgentRole::parse("root"), None);
}

#[test]
fn test_empty_policy() {
    let input = PolicyIrInput {
        id: "policy-1".to_string(),
        hash: "abc".to_string(),
        rules: String::new(),
    };
    let digest = PolicyDigestBuilder::build(&input, &Vec::new());
    assert!(digest.contains("No active policy"));
}

fn deny_external_rule() -> PolicyRule {
    PolicyRule {
        id: 0x0192_3456_789a_7bcd_8ef0_1234_5678_9abc,
        subject: PolicySubject::Role("*".to_string()),
        action: "*".to_string(),
        resource: "external_communication".to_string(),
        condition: None,
        effect: PolicyEffect::ExplicitDeny,
        priority: 0,
    }
}

#[test]
fn test_policy_with_rules() {
    let input = PolicyIrInput {
        id: "policy-1".to_string(),
        hash: "abc".to_string(),
        rules: r#"
[node: deny_external]
  type = blocklist
  content = "Deny external communication without approval"

[target: test]
  resolve = [deny_external]
"#
        .to_string(),
    };
    // The rules the policy compiler yields for that source: one blocklist
    // node, which denies.
    let compiled = vec![deny_external_rule()];
    let digest = PolicyDigestBuilder::build(&input, &compiled);
    assert!(digest.contains("deny"));
    assert!(digest.contains("Total rules"));
}

#[test]
fn policy_digest_exact_text() {
    let input = PolicyIrInput { id: "p".to_string(), hash: "h".to_string(), rules: "x".to_string() };
    let digest = PolicyDigestBuilder::build(&input, &vec![deny_external_rule()]);
    assert_eq!(
        digest,
        "Policy Digest:\n  - deny: 01923456-789a-7bcd-8ef0-123456789abc (resource: external_communication)\n\nTotal rules: 1"
    );
    let none = PolicyDigestBuilder::build(&input, &Vec::new());
    assert_eq!(none, "No actionable policy rules in source.");
}

#[test]
fn test_validate_object_missing_field() {
    let value = obj(vec![("name", s("test"))]);
    let outcome = SchemaValidator::validate(&value, &name_id_schema());
    assert!(!outcome.valid);
    assert!(outcome.errors.iter().any(|e| e.contains("id")));
}

#[test]
fn test_validate_object_valid() {
    let value = obj(vec![("id", s("123")), ("name", s("test"))]);
    let outcome = SchemaValidator::validate(&value, &name_id_schema());
    assert!(outcome.valid);
}

#[test]
fn test_validate_enum() {
    let schema = obj(vec![
        ("enum", arr(vec![s("accepted"), s("rejected")])),
        ("type", s("string")),
    ]);
    let outcome = SchemaValidator::validate(&s("accepted"), &schema);
    assert!(outcome.valid);

    let outcome = SchemaValidator::validate(&s("pending"), &schema);
    assert!(!outcome.valid);
}

#[test]
fn validator_messages() {
    let value = obj(vec![("name", s("test"))]);
    let outcome = SchemaValidator::validate(&value, &name_id_schema());
    assert_eq!(outcome.errors, vec!["missing required field: id".to_string()]);

    let outcome = SchemaValidator::validate(&JsonValue::Bool(true), &name_id_schema());
    assert_eq!(outcome.errors, vec!["expected object, got Bool(true)".to_string()]);

    let schema = obj(vec![
        ("enum", arr(vec![s("accepted"), s("rejected")])),
        ("type", s("string")),
    ]);
    let outcome = SchemaValidator::validate(&s("pending"), &schema);
    assert_eq!(
        outcome.errors,
        vec![r#"expected one of [String("accepted"), String("rejected")], got String("pending")"#.to_string()]
    );

    let list_schema = obj(vec![("items", string_schema()), ("type", s("array"))]);
    let value = arr(vec![s("a"), JsonValue::Number("3".to_string())]);
    let outcome = SchemaValidator::validate(&value, &list_schema);
    assert_eq!(outcome.errors, vec!["[1] expected string, got Number(3)".to_string()]);

    let number_schema = obj(vec![("type", s("integer"))]);
    assert!(SchemaValidator::validate(&JsonValue::Number("7".to_string()), &number_schema).valid);
    let outcome = SchemaValidator::validate(&JsonValue::Null, &number_schema);
    assert_eq!(outcome.errors, vec!["expected number, got Null".to_string()]);

    let bool_schema = obj(vec![("type", s("boolean"))]);
    let outcome = SchemaValidator::validate(&s("yes"), &bool_schema);
    assert_eq!(outcome.errors, vec![r#"expected boolean, got String("yes")"#.to_string()]);

    // An unknown type, or no type, checks nothing.
    assert!(SchemaValidator::validate(&JsonValue::Null, &obj(vec![("type", s("null"))])).valid);
    assert!(SchemaValidator::validate(&JsonValue::Null, &obj(vec![])).valid);
}

#[test]
fn nested_property_errors_are_collected() {
    let inner = obj(vec![
        ("properties", obj(vec![("id", string_schema())])),
        ("required", arr(vec![s("id")])),
        ("type", s("object")),
    ]);
    let schema = obj(vec![("properties", obj(vec![("child", inner)])), ("type", s("object"))]);
    let value = obj(vec![("child", obj(vec![("id", JsonValue::Bool(false))]))]);
    let outcome = SchemaValidator::validate(&value, &schema);
    assert_eq!(outcome.errors, vec!["expected string, got Bool(false)".to_string()]);
}

#[test]
fn json_debug_text() {
    let value = obj(vec![
        ("a", arr(vec![JsonValue::Null, JsonValue::Number("1.5".to_string())])),
        ("b", s("x\"y")),
    ]);
    let mut out = String::new();
    push_json_debug(&mut out, &value);
    assert_eq!(out, r#"Object {"a": Array [Null, Number(1.5)], "b": String("x\"y")}"#);
}
