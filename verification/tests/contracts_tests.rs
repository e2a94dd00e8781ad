use claw10::contracts::{
    checkpoint_schema, final_handoff_schema, get_schema, mission_proposal_schema, spawn_proposal_schema,
    task_graph_proposal_schema, verification_decision_schema, work_result_schema,
};
use claw10::json::JsonValue;
use claw10::validation::SchemaValidator;

fn s(t: &str) -> JsonValue {
    JsonValue::Str(t.into())
}

fn obj(entries: Vec<(&str, JsonValue)>) -> JsonValue {
    JsonValue::Object(entries.into_iter().map(|(k, v)| (k.to_string(), v)).collect())
}

fn field<'a>(v: &'a JsonValue, key: &str) -> &'a JsonValue {
    match v {
        JsonValue::Object(es) => &es.iter().find(|(k, _)| k == key).unwrap().1,
        _ => panic!("not an object"),
    }
}

fn keys(v: &JsonValue) -> Vec<String> {
    match v {
        JsonValue::Object(es) => es.iter().map(|(k, _)| k.clone()).collect(),
        _ => panic!("not an object"),
    }
}

fn strings(v: &JsonValue) -> Vec<String> {
    match v {
        JsonValue::Array(items) => items
            .iter()
            .map(|i| match i {
                JsonValue::Str(t) => t.clone(),
                _ => panic!("not a string"),
            })
            .collect(),
        _ => panic!("not an array"),
    }
}

#[test]
fn every_output_type_has_an_object_schema() {
    for t in ["MissionProposal", "TaskGraphProposal", "SpawnProposal", "WorkResult", "VerificationDecision", "FinalHandoff", "Checkpoint"] {
        let schema = get_schema(t).unwrap();
        assert_eq!(keys(&schema), vec!["properties", "required", "type"]);
        assert!(matches!(field(&schema, "type"), JsonValue::Str(x) if x == "object"));
    }
    assert!(get_schema("Unknown").is_none());
    assert!(get_schema("workresult").is_none());
}

#[test]
fn schemas_list_required_fields_in_order() {
    assert_eq!(
        strings(field(&mission_proposal_schema(), "required")),
        vec!["objective", "scope", "exclusions", "workstreams", "success_criteria", "risks", "termination_conditions"]
    );
    assert_eq!(strings(field(&task_graph_proposal_schema(), "required")), vec!["tasks"]);
    assert_eq!(
        strings(field(&work_result_schema(), "required")),
        vec!["status", "summary", "outputs", "evidence", "confidence"]
    );
    assert_eq!(strings(field(&final_handoff_schema(), "required")), vec!["agent_id", "task_id", "status", "summary"]);
    assert_eq!(
        strings(field(&checkpoint_schema(), "required")),
        vec!["agent_id", "version", "created_at", "responsibilities"]
    );
    let spawn = spawn_proposal_schema();
    assert_eq!(
        keys(field(&spawn, "properties")),
        vec!["children", "expected_benefit", "reason", "spawn_controls", "team"]
    );
    let controls = field(field(&spawn, "properties"), "spawn_controls");
    assert_eq!(strings(field(controls, "required")), vec!["allow_child_spawn", "requested_max_depth"]);
    let verification = verification_decision_schema();
    let decision = field(field(&verification, "properties"), "decision");
    assert_eq!(
        strings(field(decision, "enum")),
        vec!["accepted", "conditionally_accepted", "revision_required", "rejected"]
    );
}

#[test]
fn work_results_validate_against_their_schema() {
    let schema = work_result_schema();
    let incomplete = obj(vec![("status", s("done")), ("summary", s("ok"))]);
    let outcome = SchemaValidator::validate(&incomplete, &schema);
    assert!(!outcome.valid);
    assert_eq!(outcome.errors.len(), 3);
    let complete = obj(vec![
        ("confidence", JsonValue::Number("0.9".into())),
        ("evidence", JsonValue::Array(vec![])),
        ("outputs", JsonValue::Array(vec![])),
        ("status", s("done")),
        ("summary", s("ok")),
    ]);
    assert!(SchemaValidator::validate(&complete, &schema).valid);
}
