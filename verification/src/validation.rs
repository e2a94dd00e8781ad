//! Checking JSON values against the subset of JSON Schema that agent
//! output contracts use: `type`, `required`, `properties`, `items` and
//! `enum`.
use vstd::prelude::*;
use crate::json::{JsonValue, JsonView, json_eq, json_lookup};
use crate::text::{bool_text, decimal_text, push_char, push_decimal, str_debug_string, str_debug_text, texts};

verus! {

// ----- how `{:?}` prints a JSON value -----
/// What `{:?}` prints for a JSON value: the variant's name and its
/// content, arrays as `[a, b]` and objects as `{"k": v}`.
pub open spec fn json_debug(v: JsonView) -> Seq<char>
    decreases v,
{
    match v {
        JsonView::Null => "Null"@,
        JsonView::Bool(b) => "Bool("@ + bool_text(b) + ")"@,
        JsonView::Number(t) => "Number("@ + t + ")"@,
        JsonView::Str(s) => "String("@ + str_debug_text(s) + ")"@,
        JsonView::Array(xs) => "Array "@ + "["@ + debug_items(xs) + "]"@,
        JsonView::Object(es) => "Object "@ + "{"@ + debug_entries(es) + "}"@,
    }
}

/// The items of a list, printed and separated by `, `.
pub open spec fn debug_items(xs: Seq<JsonView>) -> Seq<char>
    decreases xs,
{
    if xs.len() == 0 {
        Seq::empty()
    } else if xs.len() == 1 {
        json_debug(xs[0])
    } else {
        debug_items(xs.drop_last()) + ", "@ + json_debug(xs.last())
    }
}

/// The entries of a map, printed as `"key": value` and separated by `, `.
pub open spec fn debug_entries(es: Seq<(Seq<char>, JsonView)>) -> Seq<char>
    decreases es,
{
    if es.len() == 0 {
        Seq::empty()
    } else if es.len() == 1 {
        str_debug_text(es[0].0) + ": "@ + json_debug(es[0].1)
    } else {
        debug_entries(es.drop_last()) + ", "@ + str_debug_text(es.last().0) + ": "@ + json_debug(es.last().1)
    }
}

fn push_str(out: &mut String, s: &str)
    ensures
        final(out)@ == old(out)@ + s@,
{
    out.append(s);
}

/// Appends what `{:?}` prints for the value.
pub fn push_json_debug(out: &mut String, v: &JsonValue)
    ensures
        final(out)@ == old(out)@ + json_debug(v@),
    decreases v, 1nat,
{
    match v {
        JsonValue::Null => push_str(out, "Null"),
        JsonValue::Bool(b) => {
            push_str(out, "Bool(");
            if *b {
                push_str(out, "true");
            } else {
                push_str(out, "false");
            }
            push_str(out, ")");
        },
        JsonValue::Number(t) => {
            push_str(out, "Number(");
            push_str(out, t.as_str());
            push_str(out, ")");
        },
        JsonValue::Str(s) => {
            push_str(out, "String(");
            let d = str_debug_string(s.as_str());
            push_str(out, d.as_str());
            push_str(out, ")");
        },
        JsonValue::Array(xs) => {
            let ghost first = out@;
            push_str(out, "Array ");
            push_items_debug(out, v, xs);
            assert(out@ =~= first + json_debug(v@));
        },
        JsonValue::Object(es) => {
            let ghost first = out@;
            push_str(out, "Object ");
            let ghost start = out@;
            push_str(out, "{");
            let mut i: usize = 0;
            while i < es.len()
                invariant
                    i <= es.len(),
                    *v == JsonValue::Object(*es),
                    out@ == start + "{"@ + debug_entries(v@->Object_0.subrange(0, i as int)),
                decreases es.len() - i,
            {
                proof {
                    assert(decreases_to!(*v => v->Object_0));
                    assert(decreases_to!(es => es@));
                    assert(decreases_to!(es@ => es@[i as int]));
                    assert(decreases_to!(es@[i as int] => es@[i as int].1));
                }
                let ghost before = out@;
                let ghost all = v@->Object_0;
                if i > 0 {
                    push_str(out, ", ");
                }
                let k = str_debug_string(es[i].0.as_str());
                push_str(out, k.as_str());
                push_str(out, ": ");
                push_json_debug(out, &es[i].1);
                proof {
                    assert(all[i as int] == (es@[i as int].0@, es@[i as int].1@));
                    assert(all.subrange(0, i + 1).drop_last() =~= all.subrange(0, i as int));
                    if i == 0 {
                        assert(all.subrange(0, 1)[0] == all[0]);
                    }
                    assert(out@ =~= start + "{"@ + debug_entries(all.subrange(0, i + 1)));
                }
                i = i + 1;
            }
            push_str(out, "}");
            proof {
                assert(v@->Object_0.subrange(0, es@.len() as int) =~= v@->Object_0);
                assert(out@ =~= first + json_debug(v@));
            }
        },
    }
}

fn push_items_debug(out: &mut String, v: &JsonValue, xs: &Vec<JsonValue>)
    requires
        *v == JsonValue::Array(*xs),
    ensures
        final(out)@ == old(out)@ + "["@ + debug_items(v@->Array_0) + "]"@,
    decreases v, 0nat,
{
    let ghost start = out@;
    push_str(out, "[");
    let mut i: usize = 0;
    while i < xs.len()
        invariant
            i <= xs.len(),
            *v == JsonValue::Array(*xs),
            out@ == start + "["@ + debug_items(v@->Array_0.subrange(0, i as int)),
        decreases xs.len() - i,
    {
        proof {
            assert(decreases_to!(*v => v->Array_0));
            assert(decreases_to!(xs => xs@));
            assert(decreases_to!(xs@ => xs@[i as int]));
        }
        let ghost all = v@->Array_0;
        if i > 0 {
            push_str(out, ", ");
        }
        push_json_debug(out, &xs[i]);
        proof {
            assert(all[i as int] == xs@[i as int]@);
            assert(all.subrange(0, i + 1).drop_last() =~= all.subrange(0, i as int));
            if i == 0 {
                assert(all.subrange(0, 1)[0] == all[0]);
            }
            assert(out@ =~= start + "["@ + debug_items(all.subrange(0, i + 1)));
        }
        i = i + 1;
    }
    push_str(out, "]");
    proof {
        assert(v@->Array_0.subrange(0, xs@.len() as int) =~= v@->Array_0);
        assert(out@ =~= start + "["@ + debug_items(v@->Array_0) + "]"@);
    }
}


// ----- the schema rules -----
/// The position of the first entry with that key, or the number of
/// entries when none has it.
pub open spec fn key_index(es: Seq<(Seq<char>, JsonView)>, key: Seq<char>) -> int
    decreases es.len(),
{
    if es.len() == 0 {
        0
    } else {
        let k = key_index(es.drop_last(), key);
        if k < es.len() - 1 {
            k
        } else if es.last().0 == key {
            es.len() - 1
        } else {
            es.len() as int
        }
    }
}

proof fn lemma_key_index(es: Seq<(Seq<char>, JsonView)>, key: Seq<char>)
    ensures
        0 <= key_index(es, key) <= es.len(),
        key_index(es, key) < es.len() ==> es[key_index(es, key)].0 == key,
        forall|j: int| 0 <= j < key_index(es, key) ==> #[trigger] es[j].0 != key,
    decreases es.len(),
{
    if es.len() > 0 {
        let d = es.drop_last();
        lemma_key_index(d, key);
        assert forall|j: int| 0 <= j < key_index(es, key) implies #[trigger] es[j].0 != key by {
            if j < d.len() {
                assert(d[j] == es[j]);
            }
        }
    }
}

/// The text of a required field's name: the string, or empty for a
/// non-string entry.
pub open spec fn field_name(f: JsonView) -> Seq<char> {
    match f {
        JsonView::Str(s) => s,
        _ => Seq::empty(),
    }
}

/// One error per required field that the object lacks, in order.
pub open spec fn required_errors(ves: Seq<(Seq<char>, JsonView)>, required: Seq<JsonView>) -> Seq<Seq<char>>
    decreases required.len(),
{
    if required.len() == 0 {
        Seq::empty()
    } else {
        let rest = required_errors(ves, required.drop_last());
        let name = field_name(required.last());
        if key_index(ves, name) < ves.len() {
            rest
        } else {
            rest.push("missing required field: "@ + name)
        }
    }
}

/// Each error of an array item, prefixed with the item's position.
pub open spec fn indexed(i: nat, errs: Seq<Seq<char>>) -> Seq<Seq<char>> {
    Seq::new(errs.len(), |j: int| "["@ + decimal_text(i) + "] "@ + errs[j])
}

/// The enum check: the value must equal one of the listed values.
pub open spec fn enum_errors(value: JsonView, ses: Seq<(Seq<char>, JsonView)>) -> Seq<Seq<char>> {
    let ei = key_index(ses, "enum"@);
    if ei < ses.len() && ses[ei].1 is Array {
        let evs = ses[ei].1->Array_0;
        if exists|k: int| 0 <= k < evs.len() && evs[k] == value {
            Seq::empty()
        } else {
            seq!["expected one of "@ + "["@ + debug_items(evs) + "]"@ + ", got "@ + json_debug(value)]
        }
    } else {
        Seq::empty()
    }
}

/// The errors of `value` against `schema`, in the order the checks run.
pub open spec fn schema_errors(value: JsonView, schema: JsonView) -> Seq<Seq<char>>
    decreases schema, 0int,
{
    match schema {
        JsonView::Object(ses) => {
            let ti = key_index(ses, "type"@);
            if 0 <= ti < ses.len() && ses[ti].1 is Str {
                let t = ses[ti].1->Str_0;
                if t == "object"@ {
                    match value {
                        JsonView::Object(ves) => {
                            let ri = key_index(ses, "required"@);
                            let req = if 0 <= ri < ses.len() && ses[ri].1 is Array {
                                required_errors(ves, ses[ri].1->Array_0)
                            } else {
                                Seq::empty()
                            };
                            let pi = key_index(ses, "properties"@);
                            if 0 <= pi < ses.len() && ses[pi].1 is Object {
                                proof {
                                    assert(decreases_to!(schema => ses));
                                    assert(decreases_to!(ses => ses[pi]));
                                    assert(decreases_to!(ses[pi] => ses[pi].1));
                                    assert(decreases_to!(ses[pi].1 => ses[pi].1->Object_0));
                                }
                                req + property_errors(ves, ses[pi].1->Object_0)
                            } else {
                                req
                            }
                        },
                        _ => seq!["expected object, got "@ + json_debug(value)],
                    }
                } else if t == "array"@ {
                    match value {
                        JsonView::Array(xs) => {
                            let ii = key_index(ses, "items"@);
                            if 0 <= ii < ses.len() {
                                proof {
                                    assert(decreases_to!(schema => ses));
                                    assert(decreases_to!(ses => ses[ii]));
                                    assert(decreases_to!(ses[ii] => ses[ii].1));
                                }
                                item_errors(xs, ses[ii].1)
                            } else {
                                Seq::empty()
                            }
                        },
                        _ => seq!["expected array, got "@ + json_debug(value)],
                    }
                } else if t == "string"@ {
                    let kind = if value is Str {
                        Seq::empty()
                    } else {
                        seq!["expected string, got "@ + json_debug(value)]
                    };
                    kind + enum_errors(value, ses)
                } else if t == "number"@ || t == "integer"@ {
                    if value is Number {
                        Seq::empty()
                    } else {
                        seq!["expected number, got "@ + json_debug(value)]
                    }
                } else if t == "boolean"@ {
                    if value is Bool {
                        Seq::empty()
                    } else {
                        seq!["expected boolean, got "@ + json_debug(value)]
                    }
                } else {
                    Seq::empty()
                }
            } else {
                Seq::empty()
            }
        },
        _ => Seq::empty(),
    }
}

/// The errors of the properties that the object has, property by
/// property in the schema's order.
pub open spec fn property_errors(ves: Seq<(Seq<char>, JsonView)>, pes: Seq<(Seq<char>, JsonView)>) -> Seq<
    Seq<char>,
>
    decreases pes, 0int,
{
    if pes.len() == 0 {
        Seq::empty()
    } else {
        let rest = property_errors(ves, pes.drop_last());
        let vi = key_index(ves, pes.last().0);
        if 0 <= vi < ves.len() {
            proof {
                assert(decreases_to!(pes => pes[pes.len() - 1]));
                assert(decreases_to!(pes[pes.len() - 1] => pes[pes.len() - 1].1));
            }
            rest + schema_errors(ves[vi].1, pes.last().1)
        } else {
            rest
        }
    }
}

/// The errors of the items of an array against the `items` schema, each
/// prefixed with its position.
pub open spec fn item_errors(xs: Seq<JsonView>, items: JsonView) -> Seq<Seq<char>>
    decreases items, xs.len(),
{
    if xs.len() == 0 {
        Seq::empty()
    } else {
        item_errors(xs.drop_last(), items) + indexed((xs.len() - 1) as nat, schema_errors(xs.last(), items))
    }
}


/// A schema that is not an object, or whose `type` is not a string,
/// accepts every value: validation finds no error and the value is valid.
pub proof fn law_untyped_schema_accepts(value: JsonView, schema: JsonView)
    requires
        !(schema is Object) || !({
            let ses = schema->Object_0;
            let ti = key_index(ses, "type"@);
            0 <= ti < ses.len() && ses[ti].1 is Str
        }),
    ensures
        schema_errors(value, schema).len() == 0,
{
}

/// Properties of the schema that the object lacks add no error: only the
/// `required` check reports a missing field.
pub proof fn law_absent_properties_add_nothing(ves: Seq<(Seq<char>, JsonView)>, pes: Seq<(Seq<char>, JsonView)>)
    requires
        forall|k: int| 0 <= k < pes.len() ==> key_index(ves, (#[trigger] pes[k]).0) >= ves.len(),
    ensures
        property_errors(ves, pes).len() == 0,
    decreases pes.len(),
{
    if pes.len() > 0 {
        let d = pes.drop_last();
        assert forall|k: int| 0 <= k < d.len() implies key_index(ves, (#[trigger] d[k]).0) >= ves.len() by {
            assert(d[k] == pes[k]);
        }
        law_absent_properties_add_nothing(ves, d);
        assert(key_index(ves, pes[pes.len() - 1].0) >= ves.len());
    }
}

/// A property of the schema that the object lacks adds no error: the
/// property errors are those of the schema without that property. Only
/// the `required` check reports a missing field.
pub proof fn law_absent_property_adds_nothing(ves: Seq<(Seq<char>, JsonView)>, pes: Seq<(Seq<char>, JsonView)>, k: int)
    requires
        0 <= k < pes.len(),
        key_index(ves, pes[k].0) >= ves.len(),
    ensures
        property_errors(ves, pes) == property_errors(ves, pes.remove(k)),
    decreases pes.len(),
{
    let d = pes.drop_last();
    if k == pes.len() - 1 {
        assert(pes.remove(k) =~= d);
    } else {
        law_absent_property_adds_nothing(ves, d, k);
        let r = pes.remove(k);
        assert(r.drop_last() =~= d.remove(k));
        assert(r.last() == pes.last());
    }
}

/// Every item of an array is checked against the `items` schema, the
/// first as much as the others: each error of item `i` comes out, prefixed
/// with `[i] `, and the items together are free of errors exactly when each
/// one is.
pub proof fn law_every_item_checked(xs: Seq<JsonView>, items: JsonView)
    ensures
        forall|i: int, j: int|
            0 <= i < xs.len() && 0 <= j < schema_errors(xs[i], items).len() ==> #[trigger] item_errors(
                xs,
                items,
            ).contains("["@ + decimal_text(i as nat) + "] "@ + #[trigger] schema_errors(xs[i], items)[j]),
        item_errors(xs, items).len() == 0 <==> forall|i: int|
            0 <= i < xs.len() ==> (#[trigger] schema_errors(xs[i], items)).len() == 0,
    decreases xs.len(),
{
    if xs.len() > 0 {
        let d = xs.drop_last();
        let n = (xs.len() - 1) as nat;
        let head = item_errors(d, items);
        let tail = indexed(n, schema_errors(xs.last(), items));
        law_every_item_checked(d, items);
        assert(item_errors(xs, items) == head + tail);
        assert forall|i: int, j: int|
            0 <= i < xs.len() && 0 <= j < schema_errors(xs[i], items).len() implies #[trigger] item_errors(
                xs,
                items,
            ).contains("["@ + decimal_text(i as nat) + "] "@ + #[trigger] schema_errors(xs[i], items)[j]) by {
            let all = head + tail;
            if i < xs.len() - 1 {
                assert(d[i] == xs[i]);
                let e = "["@ + decimal_text(i as nat) + "] "@ + schema_errors(d[i], items)[j];
                assert(head.contains(e));
                let p = choose|p: int| 0 <= p < head.len() && head[p] == e;
                assert(all[p] == e);
            } else {
                assert(all[head.len() + j] == tail[j]);
            }
        }
        if item_errors(xs, items).len() == 0 {
            assert forall|i: int| 0 <= i < xs.len() implies (#[trigger] schema_errors(xs[i], items)).len() == 0 by {
                if i < xs.len() - 1 {
                    assert(d[i] == xs[i]);
                }
            }
        }
        if forall|i: int| 0 <= i < xs.len() ==> (#[trigger] schema_errors(xs[i], items)).len() == 0 {
            assert forall|i: int| 0 <= i < d.len() implies (#[trigger] schema_errors(d[i], items)).len() == 0 by {
                assert(d[i] == xs[i]);
            }
            assert(schema_errors(xs[xs.len() - 1], items).len() == 0);
        }
    }
}

/// An array checked against an `array` schema with `items` is valid
/// exactly when every one of its items, the first included, is valid
/// against `items`.
pub proof fn law_array_valid_iff_items_valid(xs: Seq<JsonView>, ses: Seq<(Seq<char>, JsonView)>)
    requires
        0 <= key_index(ses, "type"@) < ses.len(),
        ses[key_index(ses, "type"@)].1 == JsonView::Str("array"@),
        0 <= key_index(ses, "items"@) < ses.len(),
    ensures
        schema_errors(JsonView::Array(xs), JsonView::Object(ses)).len() == 0 <==> forall|i: int|
            0 <= i < xs.len() ==> (#[trigger] schema_errors(xs[i], ses[key_index(ses, "items"@)].1)).len() == 0,
{
    law_every_item_checked(xs, ses[key_index(ses, "items"@)].1);
    assert("array"@ != "object"@) by {
        reveal_strlit("array");
        reveal_strlit("object");
        assert("array"@.len() != "object"@.len());
    }
}

// ----- the validator -----
fn entry_index(v: &JsonValue, es: &Vec<(String, JsonValue)>, key: &str) -> (r: usize)
    requires
        *v == JsonValue::Object(*es),
    ensures
        r as int == key_index(v@->Object_0, key@),
        r <= es@.len(),
{
    let ghost view = v@->Object_0;
    proof {
        lemma_key_index(view, key@);
        assert(view.len() == es@.len());
        assert(forall|j: int| 0 <= j < view.len() ==> #[trigger] view[j] == (es@[j].0@, es@[j].1@));
    }
    let mut i: usize = 0;
    while i < es.len()
        invariant
            i <= es@.len(),
            *v == JsonValue::Object(*es),
            view == v@->Object_0,
            view.len() == es@.len(),
            forall|j: int| 0 <= j < view.len() ==> #[trigger] view[j] == (es@[j].0@, es@[j].1@),
            0 <= key_index(view, key@) <= view.len(),
            key_index(view, key@) < view.len() ==> view[key_index(view, key@)].0 == key@,
            forall|j: int| 0 <= j < key_index(view, key@) ==> #[trigger] view[j].0 != key@,
            forall|j: int| 0 <= j < i ==> #[trigger] view[j].0 != key@,
        decreases es.len() - i,
    {
        assert(view[i as int].0 == es@[i as int].0@);
        if crate::text::str_equal(es[i].0.as_str(), key) {
            proof {
                let r = key_index(view, key@);
                if r < i {
                    assert(view[r].0 != key@);
                }
            }
            return i;
        }
        i = i + 1;
    }
    proof {
        let r = key_index(view, key@);
        if r < view.len() {
            assert(view[r].0 != key@);
        }
    }
    i
}

fn append_all(errs: &mut Vec<String>, more: Vec<String>)
    ensures
        texts(final(errs)@) == texts(old(errs)@) + texts(more@),
{
    let ghost start = texts(errs@);
    let mut i: usize = 0;
    let mut more = more;
    let ghost all = texts(more@);
    while i < more.len()
        invariant
            i <= more@.len(),
            all == texts(more@),
            texts(errs@) == start + all.subrange(0, i as int),
        decreases more.len() - i,
    {
        let m = more[i].clone();
        let ghost before = texts(errs@);
        errs.push(m);
        assert(texts(errs@) =~= before.push(all[i as int]));
        assert(all.subrange(0, i + 1) =~= all.subrange(0, i as int).push(all[i as int]));
        i = i + 1;
    }
    assert(all.subrange(0, more@.len() as int) =~= all);
}

fn append_indexed(errs: &mut Vec<String>, index: usize, more: Vec<String>)
    ensures
        texts(final(errs)@) == texts(old(errs)@) + indexed(index as nat, texts(more@)),
{
    let ghost start = texts(errs@);
    let ghost all = indexed(index as nat, texts(more@));
    let mut i: usize = 0;
    while i < more.len()
        invariant
            i <= more@.len(),
            all == indexed(index as nat, texts(more@)),
            texts(errs@) == start + all.subrange(0, i as int),
        decreases more.len() - i,
    {
        let mut m = String::from_str("[");
        push_decimal(&mut m, index as u64);
        m.append("] ");
        m.append(more[i].as_str());
        let ghost before = texts(errs@);
        errs.push(m);
        assert(texts(errs@) =~= before.push(all[i as int]));
        assert(all.subrange(0, i + 1) =~= all.subrange(0, i as int).push(all[i as int]));
        i = i + 1;
    }
    assert(all.subrange(0, more@.len() as int) =~= all);
}

fn expected_message(head: &str, value: &JsonValue) -> (m: String)
    ensures
        m@ == head@ + json_debug(value@),
{
    let mut m = String::from_str(head);
    push_json_debug(&mut m, value);
    m
}

fn one(m: String) -> (v: Vec<String>)
    ensures
        texts(v@) == seq![m@],
{
    let mut v: Vec<String> = Vec::new();
    v.push(m);
    assert(texts(v@) =~= seq![m@]);
    v
}

fn enum_check(value: &JsonValue, schema: &JsonValue, ses: &Vec<(String, JsonValue)>) -> (errs: Vec<String>)
    requires
        *schema == JsonValue::Object(*ses),
    ensures
        texts(errs@) == enum_errors(value@, schema@->Object_0),
{
    let ei = entry_index(schema, ses, "enum");
    let ghost sv = schema@->Object_0;
    if ei < ses.len() {
        assert(sv[ei as int] == (ses@[ei as int].0@, ses@[ei as int].1@));
        let target = &ses[ei].1;
        match target {
            JsonValue::Array(evs) => {
                let ghost ev = target@->Array_0;
                let mut k: usize = 0;
                while k < evs.len()
                    invariant
                        k <= evs@.len(),
                        sv == schema@->Object_0,
                        ei < sv.len(),
                        key_index(sv, "enum"@) == ei,
                        sv[ei as int].1 == target@,
                        *target == JsonValue::Array(*evs),
                        ev == target@->Array_0,
                        ev.len() == evs@.len(),
                        forall|j: int| 0 <= j < k ==> #[trigger] ev[j] != value@,
                    decreases evs.len() - k,
                {
                    assert(ev[k as int] == evs@[k as int]@);
                    if json_eq(&evs[k], value) {
                        assert(ev[k as int] == value@);
                        return Vec::new();
                    }
                    k = k + 1;
                }
                let mut m = String::from_str("expected one of ");
                push_items_debug(&mut m, target, evs);
                m.append(", got ");
                push_json_debug(&mut m, value);
                one(m)
            },
            _ => Vec::new(),
        }
    } else {
        Vec::new()
    }
}

/// The errors of `value` against `schema`.
pub fn validate_value(value: &JsonValue, schema: &JsonValue) -> (errs: Vec<String>)
    ensures
        texts(errs@) == schema_errors(value@, schema@),
    decreases schema,
{
    let ses = match schema {
        JsonValue::Object(ses) => ses,
        _ => return Vec::new(),
    };
    let ghost sv = schema@->Object_0;
    let ti = entry_index(schema, ses, "type");
    if ti >= ses.len() {
        return Vec::new();
    }
    assert(sv[ti as int] == (ses@[ti as int].0@, ses@[ti as int].1@));
    let t = match &ses[ti].1 {
        JsonValue::Str(t) => t,
        _ => return Vec::new(),
    };
    if crate::text::str_equal(t.as_str(), "object") {
        let ves = match value {
            JsonValue::Object(ves) => ves,
            _ => return one(expected_message("expected object, got ", value)),
        };
        let ghost vv = value@->Object_0;
        let mut errs: Vec<String> = Vec::new();
        let ri = entry_index(schema, ses, "required");
        if ri < ses.len() {
            assert(sv[ri as int] == (ses@[ri as int].0@, ses@[ri as int].1@));
            let rv = &ses[ri].1;
            match rv {
                JsonValue::Array(req) => {
                    let ghost reqv = rv@->Array_0;
                    let mut k: usize = 0;
                    while k < req.len()
                        invariant
                            k <= req@.len(),
                            *rv == JsonValue::Array(*req),
                            reqv == rv@->Array_0,
                            reqv.len() == req@.len(),
                            *value == JsonValue::Object(*ves),
                            vv == value@->Object_0,
                            texts(errs@) == required_errors(vv, reqv.subrange(0, k as int)),
                        decreases req.len() - k,
                    {
                        assert(reqv.subrange(0, k + 1).drop_last() =~= reqv.subrange(0, k as int));
                        assert(reqv[k as int] == req@[k as int]@);
                        let name: &str = match &req[k] {
                            JsonValue::Str(s) => s.as_str(),
                            _ => "",
                        };
                        proof {
                            reveal_strlit("");
                        }
                        assert(name@ == field_name(reqv[k as int]));
                        let vi = entry_index(value, ves, name);
                        if vi == ves.len() {
                            let mut m = String::from_str("missing required field: ");
                            m.append(name);
                            let ghost before = texts(errs@);
                            errs.push(m);
                            assert(texts(errs@) =~= before.push("missing required field: "@ + name@));
                        }
                        k = k + 1;
                    }
                    assert(reqv.subrange(0, req@.len() as int) =~= reqv);
                },
                _ => {},
            }
        }
        let pi = entry_index(schema, ses, "properties");
        if pi < ses.len() {
            assert(sv[pi as int] == (ses@[pi as int].0@, ses@[pi as int].1@));
            let pv = &ses[pi].1;
            match pv {
                JsonValue::Object(pes) => {
                    let ghost pesv = pv@->Object_0;
                    let ghost req_errs = texts(errs@);
                    let mut k: usize = 0;
                    while k < pes.len()
                        invariant
                            k <= pes@.len(),
                            *schema == JsonValue::Object(*ses),
                            pi < ses@.len(),
                            *pv == ses@[pi as int].1,
                            *pv == JsonValue::Object(*pes),
                            pesv == pv@->Object_0,
                            pesv.len() == pes@.len(),
                            *value == JsonValue::Object(*ves),
                            vv == value@->Object_0,
                            texts(errs@) == req_errs + property_errors(vv, pesv.subrange(0, k as int)),
                        decreases pes.len() - k,
                    {
                        proof {
                            assert(decreases_to!(*schema => schema->Object_0));
                            assert(decreases_to!(ses => ses@));
                            assert(decreases_to!(ses@ => ses@[pi as int]));
                            assert(decreases_to!(ses@[pi as int] => ses@[pi as int].1));
                            assert(decreases_to!(*pv => pv->Object_0));
                            assert(decreases_to!(pes => pes@));
                            assert(decreases_to!(pes@ => pes@[k as int]));
                            assert(decreases_to!(pes@[k as int] => pes@[k as int].1));
                        }
                        let ghost sub = pesv.subrange(0, k + 1);
                        assert(sub.drop_last() =~= pesv.subrange(0, k as int));
                        assert(pesv[k as int] == (pes@[k as int].0@, pes@[k as int].1@));
                        let vi = entry_index(value, ves, pes[k].0.as_str());
                        if vi < ves.len() {
                            assert(vv[vi as int] == (ves@[vi as int].0@, ves@[vi as int].1@));
                            let more = validate_value(&ves[vi].1, &pes[k].1);
                            append_all(&mut errs, more);
                            assert(req_errs + property_errors(vv, pesv.subrange(0, k as int)) + schema_errors(
                                vv[vi as int].1,
                                pesv[k as int].1,
                            ) =~= req_errs + property_errors(vv, sub));
                        } else {
                            assert(property_errors(vv, sub) == property_errors(vv, pesv.subrange(0, k as int)));
                        }
                        k = k + 1;
                    }
                    assert(pesv.subrange(0, pes@.len() as int) =~= pesv);
                },
                _ => {},
            }
        }
        errs
    } else if crate::text::str_equal(t.as_str(), "array") {
        let xs = match value {
            JsonValue::Array(xs) => xs,
            _ => return one(expected_message("expected array, got ", value)),
        };
        let ghost xv = value@->Array_0;
        let ii = entry_index(schema, ses, "items");
        if ii >= ses.len() {
            return Vec::new();
        }
        assert(sv[ii as int] == (ses@[ii as int].0@, ses@[ii as int].1@));
        let items = &ses[ii].1;
        let mut errs: Vec<String> = Vec::new();
        let mut k: usize = 0;
        while k < xs.len()
            invariant
                k <= xs@.len(),
                *schema == JsonValue::Object(*ses),
                ii < ses@.len(),
                *items == ses@[ii as int].1,
                *value == JsonValue::Array(*xs),
                xv == value@->Array_0,
                xv.len() == xs@.len(),
                texts(errs@) == item_errors(xv.subrange(0, k as int), items@),
            decreases xs.len() - k,
        {
            proof {
                assert(decreases_to!(*schema => schema->Object_0));
                assert(decreases_to!(ses => ses@));
                assert(decreases_to!(ses@ => ses@[ii as int]));
                assert(decreases_to!(ses@[ii as int] => ses@[ii as int].1));
            }
            let ghost sub = xv.subrange(0, k + 1);
            assert(sub.drop_last() =~= xv.subrange(0, k as int));
            assert(xv[k as int] == xs@[k as int]@);
            let more = validate_value(&xs[k], items);
            append_indexed(&mut errs, k, more);
            k = k + 1;
        }
        assert(xv.subrange(0, xs@.len() as int) =~= xv);
        errs
    } else if crate::text::str_equal(t.as_str(), "string") {
        let mut errs: Vec<String> = match value {
            JsonValue::Str(_) => Vec::new(),
            _ => one(expected_message("expected string, got ", value)),
        };
        let more = enum_check(value, schema, ses);
        append_all(&mut errs, more);
        errs
    } else if crate::text::str_equal(t.as_str(), "number") || crate::text::str_equal(t.as_str(), "integer") {
        match value {
            JsonValue::Number(_) => Vec::new(),
            _ => one(expected_message("expected number, got ", value)),
        }
    } else if crate::text::str_equal(t.as_str(), "boolean") {
        match value {
            JsonValue::Bool(_) => Vec::new(),
            _ => one(expected_message("expected boolean, got ", value)),
        }
    } else {
        Vec::new()
    }
}

/// The result of checking a value against a schema.
pub struct SchemaValidationOutcome {
    pub valid: bool,
    pub errors: Vec<String>,
}

/// Checks JSON values against schemas.
pub struct SchemaValidator;

impl SchemaValidator {
    /// Checks `value` against `schema`: valid exactly when no check fails,
    /// with every failure's message in the order the checks run.
    pub fn validate(value: &JsonValue, schema: &JsonValue) -> (o: SchemaValidationOutcome)
        ensures
            texts(o.errors@) == schema_errors(value@, schema@),
            o.valid == (schema_errors(value@, schema@).len() == 0),
            o.valid == (o.errors@.len() == 0),
    {
        let errors = validate_value(value, schema);
        let valid = errors.len() == 0;
        SchemaValidationOutcome { valid, errors }
    }
}

} // verus!
