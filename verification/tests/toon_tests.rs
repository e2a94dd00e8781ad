use claw10::domain::{AgentId, Budget, MemoryId, MissionId, RiskLevel, SkillId, TaskId};
use claw10::json::JsonValue;
use claw10::memory::{Memory, MemorySource, MemoryStatus, MemoryType};
use claw10::skill::{Skill, SkillCostProfile, SkillState};
use claw10::task::{RetryPolicy, Task, TaskState};
use claw10::toon::{ToonContext, ToonEncoder};

fn make_test_task() -> Task {
    Task {
        id: TaskId(0),
        mission_id: MissionId(0),
        parent_task_id: None,
        owner_id: AgentId(0),
        objective: "Test payment flow".to_string(),
        dependencies: Vec::new(),
        risk: RiskLevel("medium".to_string()),
        budget: Budget {
            allocated_usd: 0,
            spent_usd: 0,
            soft_limit_usd: None,
            hard_limit_usd: None,
            recurring_monthly_usd: None,
        },
        deadline: None,
        input: JsonValue::Null,
        output_contract: JsonValue::Null,
        evidence_contract: Vec::new(),
        retry_policy: RetryPolicy { max_retries: 0, backoff_seconds: 0 },
        idempotency_key: None,
        lifecycle_mode: "ephemeral".to_string(),
        state: TaskState::Created,
        evidence: Vec::new(),
        created_at: 0,
        updated_at: 0,
    }
}

fn memory(content: &str, confidence: u64) -> Memory {
    Memory {
        id: MemoryId(0),
        tenant_id: "test".to_string(),
        scope: "test".to_string(),
        memory_type: MemoryType::Semantic,
        content: content.to_string(),
        source: MemorySource { agent_id: AgentId(0), task_id: TaskId(0), evidence_id: None },
        confidence,
        classification: "public".to_string(),
        status: MemoryStatus::Active,
        verified_by: Vec::new(),
        created_at: 0,
        updated_at: 0,
    }
}

#[test]
fn test_encode_task() {
    let task = make_test_task();
    let encoded = ToonEncoder::encode_task(&task);
    assert!(encoded.contains("Test payment flow"));
}

#[test]
fn encode_task_lines() {
    let task = make_test_task();
    let encoded = ToonEncoder::encode_task(&task);
    assert_eq!(
        encoded,
        "id: TaskId(00000000-0000-0000-0000-000000000000)\nobjective: \"Test payment flow\"\nstate: Created\nrisk: RiskLevel(\"medium\")\ndeadline: "
    );
}

#[test]
fn test_encode_memories_empty() {
    let encoded = ToonEncoder::encode_memories(&[]);
    assert_eq!(encoded, "");
}

#[test]
fn test_encode_memories() {
    // Confidence 0.95 is 950_000 millionths.
    let memories = vec![memory("Use transactions", 950_000)];
    let encoded = ToonEncoder::encode_memories(&memories);
    assert!(encoded.contains("Use transactions"));
    assert!(encoded.contains("confidence: 0.95"));
}

#[test]
fn test_build_context_empty() {
    let ctx = ToonEncoder::build_context(None, None, &[], &[], &[], None, &[]);
    assert!(ctx.starts_with("[TOON v1]"));
    assert_eq!(ctx, "[TOON v1]");
}

#[test]
fn test_build_context_with_data() {
    let task = make_test_task();
    let ctx = ToonEncoder::build_context(Some(&task), None, &[], &[], &[], None, &[]);
    assert!(ctx.contains("[task]"));
}

#[test]
fn test_encode_skills() {
    let skills = vec![Skill {
        id: SkillId(0),
        name: "web-search".into(),
        purpose: "search".into(),
        version: "1.0".into(),
        input_schema: JsonValue::Null,
        output_schema: JsonValue::Null,
        steps: vec![],
        required_tools: vec![],
        required_permissions: vec![],
        state: SkillState::Active,
        signature: None,
        // 0.01 dollars, one second.
        cost_profile: SkillCostProfile { estimated_cost_usd: 10_000, average_duration_ms: 1_000 },
        created_at: 0,
        updated_at: 0,
    }];
    let encoded = ToonEncoder::encode_skills(&skills);
    assert!(encoded.contains("web-search"));
    assert!(encoded.contains("0.01"));
    assert_eq!(encoded, "- web-search v1.0 (state: Active, cost: $0.01)");
}

#[test]
fn test_encode_history() {
    let history = vec!["user: hello".into(), "assistant: hi".into()];
    let encoded = ToonEncoder::encode_history(&history);
    assert!(encoded.contains("hello"));
    assert!(encoded.contains("hi"));
}

#[test]
fn encode_history_numbers_messages() {
    let history = vec!["user: hello".to_string(), "assistant: hi".to_string()];
    assert_eq!(ToonEncoder::encode_history(&history), "[0] user: hello\n[1] assistant: hi");
}

#[test]
fn test_encode_tools() {
    let tools = vec!["http".into(), "shell".into()];
    let encoded = ToonEncoder::encode_tools(&tools);
    assert!(encoded.contains("http"));
    assert!(encoded.contains("shell"));
    assert_eq!(encoded, "- http\n- shell");
}

#[test]
fn context_sections_follow_the_header() {
    let mut ctx = ToonContext::new();
    assert_eq!(ctx.build(), "[TOON v1]");
    ctx.add_section("team", "- a".to_string());
    ctx.add_section("budget", "10".to_string());
    assert_eq!(ctx.build(), "[TOON v1]\n[team]\n- a\n[budget]\n10");
}
