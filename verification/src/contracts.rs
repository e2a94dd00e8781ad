//! The JSON schemas of the structured outputs agents hand back, one per
//! output type.
use vstd::prelude::*;
use crate::json::{JsonValue, JsonView};
use crate::providers::literal_texts;
use crate::text::str_equal;

verus! {

/// `{"type": t}`.
pub open spec fn type_view(t: Seq<char>) -> JsonView {
    JsonView::Object(seq![("type"@, JsonView::Str(t))])
}

/// An array schema: `{"items": items, "type": "array"}`.
pub open spec fn array_view(items: JsonView) -> JsonView {
    JsonView::Object(seq![("items"@, items), ("type"@, JsonView::Str("array"@))])
}

/// A schema of type `t` limited to the listed values.
pub open spec fn enum_view(t: Seq<char>, values: Seq<Seq<char>>) -> JsonView {
    JsonView::Object(seq![("enum"@, JsonView::Array(strs_view(values))), ("type"@, JsonView::Str(t))])
}

/// JSON strings of the texts, in order.
pub open spec fn strs_view(values: Seq<Seq<char>>) -> Seq<JsonView> {
    Seq::new(values.len(), |i: int| JsonView::Str(values[i]))
}

/// An object schema with its required keys (in the order given) and the
/// schemas of its properties (in key order).
pub open spec fn object_view(required: Seq<Seq<char>>, props: Seq<(Seq<char>, JsonView)>) -> JsonView {
    JsonView::Object(
        seq![
            ("properties"@, JsonView::Object(props)),
            ("required"@, JsonView::Array(strs_view(required))),
            ("type"@, JsonView::Str("object"@)),
        ],
    )
}

/// The views of named schemas.
pub open spec fn prop_views(props: Seq<(&str, JsonValue)>) -> Seq<(Seq<char>, JsonView)> {
    Seq::new(props.len(), |i: int| (props[i].0@, props[i].1@))
}

fn json_str(s: &str) -> (v: JsonValue)
    ensures
        v@ == JsonView::Str(s@),
{
    JsonValue::Str(String::from_str(s))
}

fn type_schema(t: &str) -> (v: JsonValue)
    ensures
        v@ == type_view(t@),
{
    let mut es: Vec<(String, JsonValue)> = Vec::new();
    es.push((String::from_str("type"), json_str(t)));
    let v = JsonValue::Object(es);
    assert(v@->Object_0 =~= type_view(t@)->Object_0);
    v
}

fn array_schema(items: JsonValue) -> (v: JsonValue)
    ensures
        v@ == array_view(items@),
{
    let ghost iv = items@;
    let mut es: Vec<(String, JsonValue)> = Vec::new();
    es.push((String::from_str("items"), items));
    es.push((String::from_str("type"), json_str("array")));
    let v = JsonValue::Object(es);
    assert(v@->Object_0 =~= array_view(iv)->Object_0);
    v
}

fn str_array(values: Vec<&str>) -> (v: JsonValue)
    ensures
        v@ == JsonView::Array(strs_view(literal_texts(values@))),
{
    let mut items: Vec<JsonValue> = Vec::new();
    let mut i: usize = 0;
    while i < values.len()
        invariant
            i <= values@.len(),
            items@.len() == i,
            forall|k: int| 0 <= k < i ==> (#[trigger] items@[k])@ == JsonView::Str(values@[k]@),
        decreases values.len() - i,
    {
        items.push(json_str(values[i]));
        i = i + 1;
    }
    let v = JsonValue::Array(items);
    assert(v@->Array_0 =~= strs_view(literal_texts(values@)));
    v
}

fn enum_schema(t: &str, values: Vec<&str>) -> (v: JsonValue)
    ensures
        v@ == enum_view(t@, literal_texts(values@)),
{
    let ghost vals = literal_texts(values@);
    let arr = str_array(values);
    let mut es: Vec<(String, JsonValue)> = Vec::new();
    es.push((String::from_str("enum"), arr));
    es.push((String::from_str("type"), json_str(t)));
    let v = JsonValue::Object(es);
    assert(v@->Object_0 =~= enum_view(t@, vals)->Object_0);
    v
}

fn object_schema(required: Vec<&str>, props: Vec<(&str, JsonValue)>) -> (v: JsonValue)
    ensures
        v@ == object_view(literal_texts(required@), prop_views(props@)),
{
    let ghost pv = prop_views(props@);
    let ghost rq = literal_texts(required@);
    let mut rest = props;
    let mut entries: Vec<(String, JsonValue)> = Vec::new();
    let total: usize = rest.len();
    let mut i: usize = 0;
    while rest.len() > 0
        invariant
            i <= pv.len(),
            pv.len() == total,
            rest@.len() == pv.len() - i,
            prop_views(rest@) =~= pv.subrange(i as int, pv.len() as int),
            entries@.len() == i,
            forall|k: int| 0 <= k < i ==> ((#[trigger] entries@[k]).0@, entries@[k].1@) == pv[k],
        decreases rest.len(),
    {
        assert(i < pv.len());
        let ghost before = rest@;
        let (key, value) = rest.remove(0);
        assert(prop_views(before)[0] == pv[i as int]);
        entries.push((String::from_str(key), value));
        i = i + 1;
        assert(prop_views(rest@) =~= prop_views(before).subrange(1, before.len() as int));
    }
    let props_value = JsonValue::Object(entries);
    assert(props_value@->Object_0 =~= pv);
    let required_value = str_array(required);
    let mut top: Vec<(String, JsonValue)> = Vec::new();
    top.push((String::from_str("properties"), props_value));
    top.push((String::from_str("required"), required_value));
    top.push((String::from_str("type"), json_str("object")));
    let v = JsonValue::Object(top);
    assert(v@->Object_0 =~= object_view(rq, pv)->Object_0);
    v
}

/// The schema of a mission proposal.
pub open spec fn mission_proposal_view() -> JsonView {
    object_view(
        seq![
            "objective"@,
            "scope"@,
            "exclusions"@,
            "workstreams"@,
            "success_criteria"@,
            "risks"@,
            "termination_conditions"@,
        ],
        seq![
            ("exclusions"@, array_view(type_view("string"@))),
            ("objective"@, type_view("string"@)),
            ("risks"@, array_view(type_view("object"@))),
            ("scope"@, type_view("string"@)),
            ("success_criteria"@, array_view(type_view("string"@))),
            ("termination_conditions"@, array_view(type_view("string"@))),
            ("workstreams"@, array_view(type_view("object"@))),
        ],
    )
}

/// The schema of a mission proposal.
pub fn mission_proposal_schema() -> (v: JsonValue)
    ensures
        v@ == mission_proposal_view(),
{
    let required = vec!["objective", "scope", "exclusions", "workstreams", "success_criteria", "risks", "termination_conditions"];
    proof {
        assert(literal_texts(required@) =~= seq![
            "objective"@,
            "scope"@,
            "exclusions"@,
            "workstreams"@,
            "success_criteria"@,
            "risks"@,
            "termination_conditions"@,
        ]);
    }
    let props = vec![
        ("exclusions", array_schema(type_schema("string"))),
        ("objective", type_schema("string")),
        ("risks", array_schema(type_schema("object"))),
        ("scope", type_schema("string")),
        ("success_criteria", array_schema(type_schema("string"))),
        ("termination_conditions", array_schema(type_schema("string"))),
        ("workstreams", array_schema(type_schema("object"))),
    ];
    proof {
        assert(prop_views(props@) =~= seq![
            ("exclusions"@, array_view(type_view("string"@))),
            ("objective"@, type_view("string"@)),
            ("risks"@, array_view(type_view("object"@))),
            ("scope"@, type_view("string"@)),
            ("success_criteria"@, array_view(type_view("string"@))),
            ("termination_conditions"@, array_view(type_view("string"@))),
            ("workstreams"@, array_view(type_view("object"@))),
        ]);
    }
    object_schema(required, props)
}

/// The schema of the `tasks item` part of a task graph proposal.
pub open spec fn task_graph_proposal_tasks_item_view() -> JsonView {
    object_view(
        seq![
            "id"@,
            "title"@,
            "objective"@,
            "dependencies"@,
            "required_role"@,
            "estimated_cost"@,
            "risk"@,
        ],
        seq![
            ("dependencies"@, array_view(type_view("string"@))),
            ("estimated_cost"@, type_view("number"@)),
            ("id"@, type_view("string"@)),
            ("objective"@, type_view("string"@)),
            ("required_role"@, type_view("string"@)),
            ("risk"@, type_view("string"@)),
            ("title"@, type_view("string"@)),
        ],
    )
}

/// The schema of a task graph proposal.
pub open spec fn task_graph_proposal_view() -> JsonView {
    object_view(
        seq!["tasks"@],
        seq![("tasks"@, array_view(task_graph_proposal_tasks_item_view()))],
    )
}

/// The schema of a task graph proposal.
pub fn task_graph_proposal_schema() -> (v: JsonValue)
    ensures
        v@ == task_graph_proposal_view(),
{
    let tasks_item_required = vec!["id", "title", "objective", "dependencies", "required_role", "estimated_cost", "risk"];
    proof {
        assert(literal_texts(tasks_item_required@) =~= seq![
            "id"@,
            "title"@,
            "objective"@,
            "dependencies"@,
            "required_role"@,
            "estimated_cost"@,
            "risk"@,
        ]);
    }
    let tasks_item_props = vec![
        ("dependencies", array_schema(type_schema("string"))),
        ("estimated_cost", type_schema("number")),
        ("id", type_schema("string")),
        ("objective", type_schema("string")),
        ("required_role", type_schema("string")),
        ("risk", type_schema("string")),
        ("title", type_schema("string")),
    ];
    proof {
        assert(prop_views(tasks_item_props@) =~= seq![
            ("dependencies"@, array_view(type_view("string"@))),
            ("estimated_cost"@, type_view("number"@)),
            ("id"@, type_view("string"@)),
            ("objective"@, type_view("string"@)),
            ("required_role"@, type_view("string"@)),
            ("risk"@, type_view("string"@)),
            ("title"@, type_view("string"@)),
        ]);
    }
    let required = vec!["tasks"];
    proof {
        assert(literal_texts(required@) =~= seq!["tasks"@]);
    }
    let props = vec![
        ("tasks", array_schema(object_schema(tasks_item_required, tasks_item_props))),
    ];
    proof {
        assert(prop_views(props@) =~= seq![("tasks"@, array_view(task_graph_proposal_tasks_item_view()))]);
    }
    object_schema(required, props)
}

/// The schema of the `children item` part of a spawn proposal.
pub open spec fn spawn_proposal_children_item_view() -> JsonView {
    object_view(
        seq!["role"@, "objective"@, "lifecycle"@, "requested_budget"@, "output_contract"@],
        seq![
            ("lifecycle"@, type_view("string"@)),
            ("objective"@, type_view("string"@)),
            ("output_contract"@, type_view("string"@)),
            ("requested_budget"@, type_view("number"@)),
            ("role"@, type_view("string"@)),
        ],
    )
}

/// The schema of the `spawn controls` part of a spawn proposal.
pub open spec fn spawn_proposal_spawn_controls_view() -> JsonView {
    object_view(
        seq!["allow_child_spawn"@, "requested_max_depth"@],
        seq![
            ("allow_child_spawn"@, type_view("boolean"@)),
            ("requested_max_depth"@, type_view("integer"@)),
        ],
    )
}

/// The schema of the `team` part of a spawn proposal.
pub open spec fn spawn_proposal_team_view() -> JsonView {
    object_view(
        seq!["name"@, "lifecycle"@, "objective"@, "termination_condition"@],
        seq![
            ("lifecycle"@, type_view("string"@)),
            ("name"@, type_view("string"@)),
            ("objective"@, type_view("string"@)),
            ("termination_condition"@, type_view("string"@)),
        ],
    )
}

/// The schema of a spawn proposal.
pub open spec fn spawn_proposal_view() -> JsonView {
    object_view(
        seq!["reason"@, "expected_benefit"@, "team"@, "children"@, "spawn_controls"@],
        seq![
            ("children"@, array_view(spawn_proposal_children_item_view())),
            ("expected_benefit"@, type_view("string"@)),
            ("reason"@, type_view("string"@)),
            ("spawn_controls"@, spawn_proposal_spawn_controls_view()),
            ("team"@, spawn_proposal_team_view()),
        ],
    )
}

/// The schema of a spawn proposal.
pub fn spawn_proposal_schema() -> (v: JsonValue)
    ensures
        v@ == spawn_proposal_view(),
{
    let children_item_required = vec!["role", "objective", "lifecycle", "requested_budget", "output_contract"];
    proof {
        assert(literal_texts(children_item_required@) =~= seq!["role"@, "objective"@, "lifecycle"@, "requested_budget"@, "output_contract"@]);
    }
    let children_item_props = vec![
        ("lifecycle", type_schema("string")),
        ("objective", type_schema("string")),
        ("output_contract", type_schema("string")),
        ("requested_budget", type_schema("number")),
        ("role", type_schema("string")),
    ];
    proof {
        assert(prop_views(children_item_props@) =~= seq![
            ("lifecycle"@, type_view("string"@)),
            ("objective"@, type_view("string"@)),
            ("output_contract"@, type_view("string"@)),
            ("requested_budget"@, type_view("number"@)),
            ("role"@, type_view("string"@)),
        ]);
    }
    let spawn_controls_required = vec!["allow_child_spawn", "requested_max_depth"];
    proof {
        assert(literal_texts(spawn_controls_required@) =~= seq!["allow_child_spawn"@, "requested_max_depth"@]);
    }
    let spawn_controls_props = vec![
        ("allow_child_spawn", type_schema("boolean")),
        ("requested_max_depth", type_schema("integer")),
    ];
    proof {
        assert(prop_views(spawn_controls_props@) =~= seq![
            ("allow_child_spawn"@, type_view("boolean"@)),
            ("requested_max_depth"@, type_view("integer"@)),
        ]);
    }
    let team_required = vec!["name", "lifecycle", "objective", "termination_condition"];
    proof {
        assert(literal_texts(team_required@) =~= seq!["name"@, "lifecycle"@, "objective"@, "termination_condition"@]);
    }
    let team_props = vec![
        ("lifecycle", type_schema("string")),
        ("name", type_schema("string")),
        ("objective", type_schema("string")),
        ("termination_condition", type_schema("string")),
    ];
    proof {
        assert(prop_views(team_props@) =~= seq![
            ("lifecycle"@, type_view("string"@)),
            ("name"@, type_view("string"@)),
            ("objective"@, type_view("string"@)),
            ("termination_condition"@, type_view("string"@)),
        ]);
    }
    let required = vec!["reason", "expected_benefit", "team", "children", "spawn_controls"];
    proof {
        assert(literal_texts(required@) =~= seq!["reason"@, "expected_benefit"@, "team"@, "children"@, "spawn_controls"@]);
    }
    let props = vec![
        ("children", array_schema(object_schema(children_item_required, children_item_props))),
        ("expected_benefit", type_schema("string")),
        ("reason", type_schema("string")),
        ("spawn_controls", object_schema(spawn_controls_required, spawn_controls_props)),
        ("team", object_schema(team_required, team_props)),
    ];
    proof {
        assert(prop_views(props@) =~= seq![
            ("children"@, array_view(spawn_proposal_children_item_view())),
            ("expected_benefit"@, type_view("string"@)),
            ("reason"@, type_view("string"@)),
            ("spawn_controls"@, spawn_proposal_spawn_controls_view()),
            ("team"@, spawn_proposal_team_view()),
        ]);
    }
    object_schema(required, props)
}

/// The schema of a work result.
pub open spec fn work_result_view() -> JsonView {
    object_view(
        seq!["status"@, "summary"@, "outputs"@, "evidence"@, "confidence"@],
        seq![
            ("confidence"@, type_view("number"@)),
            ("evidence"@, array_view(type_view("object"@))),
            ("outputs"@, array_view(type_view("object"@))),
            ("risks"@, array_view(type_view("string"@))),
            ("status"@, type_view("string"@)),
            ("summary"@, type_view("string"@)),
        ],
    )
}

/// The schema of a work result.
pub fn work_result_schema() -> (v: JsonValue)
    ensures
        v@ == work_result_view(),
{
    let required = vec!["status", "summary", "outputs", "evidence", "confidence"];
    proof {
        assert(literal_texts(required@) =~= seq!["status"@, "summary"@, "outputs"@, "evidence"@, "confidence"@]);
    }
    let props = vec![
        ("confidence", type_schema("number")),
        ("evidence", array_schema(type_schema("object"))),
        ("outputs", array_schema(type_schema("object"))),
        ("risks", array_schema(type_schema("string"))),
        ("status", type_schema("string")),
        ("summary", type_schema("string")),
    ];
    proof {
        assert(prop_views(props@) =~= seq![
            ("confidence"@, type_view("number"@)),
            ("evidence"@, array_view(type_view("object"@))),
            ("outputs"@, array_view(type_view("object"@))),
            ("risks"@, array_view(type_view("string"@))),
            ("status"@, type_view("string"@)),
            ("summary"@, type_view("string"@)),
        ]);
    }
    object_schema(required, props)
}

/// The schema of a verification decision.
pub open spec fn verification_decision_view() -> JsonView {
    object_view(
        seq!["decision"@, "reason"@],
        seq![
            ("criteria_results"@, array_view(type_view("object"@))),
            ("decision"@, enum_view("string"@, seq!["accepted"@, "conditionally_accepted"@, "revision_required"@, "rejected"@])),
            ("reason"@, type_view("string"@)),
        ],
    )
}

/// The schema of a verification decision.
pub fn verification_decision_schema() -> (v: JsonValue)
    ensures
        v@ == verification_decision_view(),
{
    let decision_values = vec!["accepted", "conditionally_accepted", "revision_required", "rejected"];
    proof {
        assert(literal_texts(decision_values@) =~= seq!["accepted"@, "conditionally_accepted"@, "revision_required"@, "rejected"@]);
    }
    let required = vec!["decision", "reason"];
    proof {
        assert(literal_texts(required@) =~= seq!["decision"@, "reason"@]);
    }
    let props = vec![
        ("criteria_results", array_schema(type_schema("object"))),
        ("decision", enum_schema("string", decision_values)),
        ("reason", type_schema("string")),
    ];
    proof {
        assert(prop_views(props@) =~= seq![
            ("criteria_results"@, array_view(type_view("object"@))),
            ("decision"@, enum_view("string"@, seq!["accepted"@, "conditionally_accepted"@, "revision_required"@, "rejected"@])),
            ("reason"@, type_view("string"@)),
        ]);
    }
    object_schema(required, props)
}

/// The schema of a final handoff.
pub open spec fn final_handoff_view() -> JsonView {
    object_view(
        seq!["agent_id"@, "task_id"@, "status"@, "summary"@],
        seq![
            ("agent_id"@, type_view("string"@)),
            ("artifacts"@, array_view(type_view("object"@))),
            ("evidence"@, array_view(type_view("object"@))),
            ("memory_candidates"@, array_view(type_view("string"@))),
            ("open_risks"@, array_view(type_view("string"@))),
            ("outputs"@, array_view(type_view("object"@))),
            ("skill_candidates"@, array_view(type_view("string"@))),
            ("status"@, type_view("string"@)),
            ("summary"@, type_view("string"@)),
            ("task_id"@, type_view("string"@)),
        ],
    )
}

/// The schema of a final handoff.
pub fn final_handoff_schema() -> (v: JsonValue)
    ensures
        v@ == final_handoff_view(),
{
    let required = vec!["agent_id", "task_id", "status", "summary"];
    proof {
        assert(literal_texts(required@) =~= seq!["agent_id"@, "task_id"@, "status"@, "summary"@]);
    }
    let props = vec![
        ("agent_id", type_schema("string")),
        ("artifacts", array_schema(type_schema("object"))),
        ("evidence", array_schema(type_schema("object"))),
        ("memory_candidates", array_schema(type_schema("string"))),
        ("open_risks", array_schema(type_schema("string"))),
        ("outputs", array_schema(type_schema("object"))),
        ("skill_candidates", array_schema(type_schema("string"))),
        ("status", type_schema("string")),
        ("summary", type_schema("string")),
        ("task_id", type_schema("string")),
    ];
    proof {
        assert(prop_views(props@) =~= seq![
            ("agent_id"@, type_view("string"@)),
            ("artifacts"@, array_view(type_view("object"@))),
            ("evidence"@, array_view(type_view("object"@))),
            ("memory_candidates"@, array_view(type_view("string"@))),
            ("open_risks"@, array_view(type_view("string"@))),
            ("outputs"@, array_view(type_view("object"@))),
            ("skill_candidates"@, array_view(type_view("string"@))),
            ("status"@, type_view("string"@)),
            ("summary"@, type_view("string"@)),
            ("task_id"@, type_view("string"@)),
        ]);
    }
    object_schema(required, props)
}

/// The schema of a checkpoint.
pub open spec fn checkpoint_view() -> JsonView {
    object_view(
        seq!["agent_id"@, "version"@, "created_at"@, "responsibilities"@],
        seq![
            ("active_children"@, array_view(type_view("object"@))),
            ("active_tasks"@, array_view(type_view("object"@))),
            ("agent_id"@, type_view("string"@)),
            ("budget"@, type_view("object"@)),
            ("created_at"@, type_view("string"@)),
            ("next_wake_condition"@, type_view("string"@)),
            ("responsibilities"@, array_view(type_view("string"@))),
            ("subscriptions"@, array_view(type_view("string"@))),
            ("version"@, type_view("string"@)),
        ],
    )
}

/// The schema of a checkpoint.
pub fn checkpoint_schema() -> (v: JsonValue)
    ensures
        v@ == checkpoint_view(),
{
    let required = vec!["agent_id", "version", "created_at", "responsibilities"];
    proof {
        assert(literal_texts(required@) =~= seq!["agent_id"@, "version"@, "created_at"@, "responsibilities"@]);
    }
    let props = vec![
        ("active_children", array_schema(type_schema("object"))),
        ("active_tasks", array_schema(type_schema("object"))),
        ("agent_id", type_schema("string")),
        ("budget", type_schema("object")),
        ("created_at", type_schema("string")),
        ("next_wake_condition", type_schema("string")),
        ("responsibilities", array_schema(type_schema("string"))),
        ("subscriptions", array_schema(type_schema("string"))),
        ("version", type_schema("string")),
    ];
    proof {
        assert(prop_views(props@) =~= seq![
            ("active_children"@, array_view(type_view("object"@))),
            ("active_tasks"@, array_view(type_view("object"@))),
            ("agent_id"@, type_view("string"@)),
            ("budget"@, type_view("object"@)),
            ("created_at"@, type_view("string"@)),
            ("next_wake_condition"@, type_view("string"@)),
            ("responsibilities"@, array_view(type_view("string"@))),
            ("subscriptions"@, array_view(type_view("string"@))),
            ("version"@, type_view("string"@)),
        ]);
    }
    object_schema(required, props)
}

/// The schema of an output type, for the types that have one.
pub open spec fn schema_for(t: Seq<char>) -> Option<JsonView> {
    if t == "MissionProposal"@ {
        Some(mission_proposal_view())
    } else if t == "TaskGraphProposal"@ {
        Some(task_graph_proposal_view())
    } else if t == "SpawnProposal"@ {
        Some(spawn_proposal_view())
    } else if t == "WorkResult"@ {
        Some(work_result_view())
    } else if t == "VerificationDecision"@ {
        Some(verification_decision_view())
    } else if t == "FinalHandoff"@ {
        Some(final_handoff_view())
    } else if t == "Checkpoint"@ {
        Some(checkpoint_view())
    } else {
        None
    }
}

/// The schema of an output type, if it has one.
pub fn get_schema(output_type: &str) -> (r: Option<JsonValue>)
    ensures
        match schema_for(output_type@) {
            Some(s) => r matches Some(v) && v@ == s,
            None => r is None,
        },
{
    if str_equal(output_type, "MissionProposal") {
        Some(mission_proposal_schema())
    } else if str_equal(output_type, "TaskGraphProposal") {
        Some(task_graph_proposal_schema())
    } else if str_equal(output_type, "SpawnProposal") {
        Some(spawn_proposal_schema())
    } else if str_equal(output_type, "WorkResult") {
        Some(work_result_schema())
    } else if str_equal(output_type, "VerificationDecision") {
        Some(verification_decision_schema())
    } else if str_equal(output_type, "FinalHandoff") {
        Some(final_handoff_schema())
    } else if str_equal(output_type, "Checkpoint") {
        Some(checkpoint_schema())
    } else {
        None
    }
}

} // verus!
