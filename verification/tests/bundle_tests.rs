use claw10::json::JsonValue;
use claw10::prompt::{ContextFormat, PromptBundle, PromptMetadata, ToolDefinition};

fn sample_metadata() -> PromptMetadata {
    PromptMetadata {
        prompt_bundle_id: "bundle-1".into(),
        prompt_version: "1.0.0".into(),
        agent_id: "agent-1".into(),
        agent_role: "root".into(),
        lifecycle_mode: "ephemeral".into(),
        mission_id: "mission-1".into(),
        task_id: "task-1".into(),
        policy_bundle_id: "policy-1".into(),
        policy_hash: "abc123".into(),
        context_format: ContextFormat::Toon,
    }
}

fn sample_bundle() -> PromptBundle {
    PromptBundle {
        system_messages: vec!["You are a helpful agent.".into(), "Follow these rules.".into()],
        context_message: "Mission: Build API\nTask: Design routes".into(),
        response_schema: r#"{"properties":{"plan":{"type":"string"}},"type":"object"}"#.into(),
        tools: vec![ToolDefinition {
            name: "http".into(),
            description: "HTTP client".into(),
            input_schema: JsonValue::Object(vec![]),
        }],
        metadata: sample_metadata(),
    }
}

#[test]
fn test_estimate_input_tokens_non_zero() {
    let bundle = sample_bundle();
    let tokens = bundle.estimate_input_tokens();
    assert!(tokens > 0, "estimated tokens should be > 0");
}

#[test]
fn test_estimate_input_tokens_rough_proportional() {
    let small = PromptBundle {
        system_messages: vec!["short".into()],
        context_message: "short".into(),
        response_schema: "{}".into(),
        tools: vec![],
        metadata: sample_metadata(),
    };
    let large = PromptBundle {
        system_messages: vec!["A longer system message with more content.".into()],
        context_message: "A much longer context message with several sentences and details.".into(),
        response_schema: r#"{"properties":{"field1":{"type":"string"},"field2":{"type":"number"}},"type":"object"}"#
            .into(),
        tools: vec![],
        metadata: sample_metadata(),
    };
    assert!(
        small.estimate_input_tokens() <= large.estimate_input_tokens(),
        "larger input should have >= estimated tokens"
    );
}

#[test]
fn estimate_counts_four_tokens_per_ten_bytes_of_each_text() {
    // 24 and 19 bytes of system messages, 38 of context, 57 of schema text.
    assert_eq!(sample_bundle().estimate_input_tokens(), 9 + 7 + 15 + 22);
    let empty = PromptBundle {
        system_messages: vec![],
        context_message: String::new(),
        response_schema: String::new(),
        tools: vec![],
        metadata: sample_metadata(),
    };
    assert_eq!(empty.estimate_input_tokens(), 0);
    let multibyte = PromptBundle { system_messages: vec!["ééééé".into()], ..empty };
    assert_eq!(multibyte.estimate_input_tokens(), 4);
}

#[test]
fn test_metadata_fields() {
    let bundle = sample_bundle();
    assert_eq!(bundle.metadata.agent_role, "root");
    assert_eq!(bundle.metadata.lifecycle_mode, "ephemeral");
    assert_eq!(bundle.metadata.prompt_version, "1.0.0");
    assert_eq!(bundle.metadata.policy_bundle_id, "policy-1");
    assert_eq!(bundle.metadata.policy_hash, "abc123");
}

#[test]
fn test_bundle_with_empty_tools() {
    let bundle = PromptBundle { tools: vec![], ..sample_bundle() };
    assert!(bundle.tools.is_empty());
}

#[test]
fn test_tool_definition() {
    let tool = ToolDefinition {
        name: "search".into(),
        description: "Web search".into(),
        input_schema: JsonValue::Object(vec![(
            "query".into(),
            JsonValue::Object(vec![("type".into(), JsonValue::Str("string".into()))]),
        )]),
    };
    assert_eq!(tool.name, "search");
    match &tool.input_schema {
        JsonValue::Object(entries) => assert!(entries.iter().any(|(k, _)| k == "query")),
        _ => panic!("input schema should be an object"),
    }
}
