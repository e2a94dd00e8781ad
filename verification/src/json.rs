//! A JSON document model: the values that policy conditions, schemas and
//! tool payloads carry. Objects keep their entries in key order, as a
//! `serde_json::Map` does.
use vstd::prelude::*;

verus! {

/// A JSON value. Numbers keep their canonical text.
pub enum JsonValue {
    Null,
    Bool(bool),
    Number(String),
    Str(String),
    Array(Vec<JsonValue>),
    Object(Vec<(String, JsonValue)>),
}

/// The mathematical content of a [`JsonValue`].
pub enum JsonView {
    Null,
    Bool(bool),
    Number(Seq<char>),
    Str(Seq<char>),
    Array(Seq<JsonView>),
    Object(Seq<(Seq<char>, JsonView)>),
}

impl JsonValue {
    pub open spec fn json_view(&self) -> JsonView
        decreases self,
    {
        match self {
            JsonValue::Null => JsonView::Null,
            JsonValue::Bool(b) => JsonView::Bool(*b),
            JsonValue::Number(n) => JsonView::Number(n@),
            JsonValue::Str(s) => JsonView::Str(s@),
            JsonValue::Array(items) => JsonView::Array(
                Seq::new(
                    items@.len(),
                    |i: int|
                        if 0 <= i < items@.len() {
                            proof {
                                assert(decreases_to!(items => items@));
                            }
                            items@[i].json_view()
                        } else {
                            JsonView::Null
                        },
                ),
            ),
            JsonValue::Object(entries) => JsonView::Object(
                Seq::new(
                    entries@.len(),
                    |i: int|
                        if 0 <= i < entries@.len() {
                            proof {
                                assert(decreases_to!(entries => entries@));
                                assert(decreases_to!(entries@ => entries@[i]));
                            }
                            (entries@[i].0@, entries@[i].1.json_view())
                        } else {
                            (Seq::empty(), JsonView::Null)
                        },
                ),
            ),
        }
    }
}

impl View for JsonValue {
    type V = JsonView;

    open spec fn view(&self) -> JsonView {
        self.json_view()
    }
}

/// A copy of a JSON value.
pub fn json_clone(v: &JsonValue) -> (r: JsonValue)
    ensures
        r@ == v@,
    decreases v,
{
    match v {
        JsonValue::Null => JsonValue::Null,
        JsonValue::Bool(b) => JsonValue::Bool(*b),
        JsonValue::Number(n) => JsonValue::Number(n.clone()),
        JsonValue::Str(s) => JsonValue::Str(s.clone()),
        JsonValue::Array(xs) => {
            let mut out: Vec<JsonValue> = Vec::new();
            let mut i: usize = 0;
            while i < xs.len()
                invariant
                    i <= xs.len(),
                    *v == JsonValue::Array(*xs),
                    out@.len() == i,
                    forall|j: int| 0 <= j < i ==> out@[j]@ == xs@[j]@,
                decreases xs.len() - i,
            {
                proof {
                    assert(decreases_to!(*v => v->Array_0));
                    assert(decreases_to!(xs => xs@));
                    assert(decreases_to!(xs@ => xs@[i as int]));
                }
                let c = json_clone(&xs[i]);
                out.push(c);
                i = i + 1;
            }
            let r = JsonValue::Array(out);
            assert(r@->Array_0 =~= v@->Array_0);
            r
        },
        JsonValue::Object(xs) => {
            let mut out: Vec<(String, JsonValue)> = Vec::new();
            let mut i: usize = 0;
            while i < xs.len()
                invariant
                    i <= xs.len(),
                    *v == JsonValue::Object(*xs),
                    out@.len() == i,
                    forall|j: int| 0 <= j < i ==> out@[j].0@ == xs@[j].0@ && out@[j].1@ == xs@[j].1@,
                decreases xs.len() - i,
            {
                proof {
                    assert(decreases_to!(xs => xs@));
                    assert(decreases_to!(*v => v->Object_0));
                    assert(decreases_to!(xs@ => xs@[i as int]));
                    assert(decreases_to!(xs@[i as int] => xs@[i as int].1));
                }
                let c = json_clone(&xs[i].1);
                out.push((xs[i].0.clone(), c));
                i = i + 1;
            }
            let r = JsonValue::Object(out);
            assert(r@->Object_0 =~= v@->Object_0);
            r
        },
    }
}

/// The value stored under `key` in an object (the first such entry);
/// `None` for a missing key or a value that is not an object, as
/// `serde_json::Value::get` answers.
#[verifier::opaque]
pub open spec fn json_lookup(v: JsonView, key: Seq<char>) -> Option<JsonView> {
    match v {
        JsonView::Object(entries) => {
            if exists|i: int| 0 <= i < entries.len() && entries[i].0 == key {
                let i = choose|i: int|
                    0 <= i < entries.len() && entries[i].0 == key && forall|j: int|
                        0 <= j < i ==> entries[j].0 != key;
                Some(entries[i].1)
            } else {
                None
            }
        },
        _ => None,
    }
}

proof fn lemma_lookup_at(es: Seq<(Seq<char>, JsonView)>, key: Seq<char>, i: int)
    requires
        0 <= i < es.len(),
        es[i].0 == key,
        forall|j: int| 0 <= j < i ==> es[j].0 != key,
    ensures
        json_lookup(JsonView::Object(es), key) == Some(es[i].1),
{
    reveal(json_lookup);
    let k = choose|k: int|
        0 <= k < es.len() && es[k].0 == key && forall|j: int| 0 <= j < k ==> es[j].0 != key;
    if k < i {
        assert(es[k].0 != key);
    } else if k > i {
        assert(es[i].0 != key);
    }
}

proof fn lemma_lookup_absent(es: Seq<(Seq<char>, JsonView)>, key: Seq<char>)
    requires
        forall|j: int| 0 <= j < es.len() ==> es[j].0 != key,
    ensures
        json_lookup(JsonView::Object(es), key) is None,
{
    reveal(json_lookup);
}

proof fn lemma_lookup_non_object(v: JsonView, key: Seq<char>)
    requires
        !(v is Object),
    ensures
        json_lookup(v, key) is None,
{
    reveal(json_lookup);
}

/// Looks up `key` in an object.
pub fn json_get<'a>(v: &'a JsonValue, key: &String) -> (r: Option<&'a JsonValue>)
    ensures
        match r {
            Some(x) => json_lookup(v@, key@) == Some(x@),
            None => json_lookup(v@, key@) is None,
        },
{
    match v {
        JsonValue::Object(entries) => {
            let ghost es = v@->Object_0;
            assert(es.len() == entries@.len());
            assert(forall|j: int| 0 <= j < es.len() ==> #[trigger] es[j] == (entries@[j].0@, entries@[j].1@));
            let mut i: usize = 0;
            while i < entries.len()
                invariant
                    i <= entries.len(),
                    es.len() == entries@.len(),
                    v@ == JsonView::Object(es),
                    forall|j: int| 0 <= j < es.len() ==> #[trigger] es[j] == (entries@[j].0@, entries@[j].1@),
                    forall|j: int| 0 <= j < i ==> es[j].0 != key@,
                decreases entries.len() - i,
            {
                if entries[i].0 == *key {
                    proof {
                        assert(es[i as int].0 == key@);
                        lemma_lookup_at(es, key@, i as int);
                    }
                    return Some(&entries[i].1);
                }
                assert(es[i as int].0 != key@);
                i = i + 1;
            }
            proof {
                lemma_lookup_absent(es, key@);
            }
            None
        },
        _ => {
            proof {
                lemma_lookup_non_object(v@, key@);
            }
            None
        },
    }
}

/// Structural equality of two JSON values, as `serde_json::Value` compares them.
pub fn json_eq(a: &JsonValue, b: &JsonValue) -> (r: bool)
    ensures
        r == (a@ == b@),
    decreases a,
{
    match (a, b) {
        (JsonValue::Null, JsonValue::Null) => true,
        (JsonValue::Bool(x), JsonValue::Bool(y)) => *x == *y,
        (JsonValue::Number(x), JsonValue::Number(y)) => *x == *y,
        (JsonValue::Str(x), JsonValue::Str(y)) => *x == *y,
        (JsonValue::Array(xs), JsonValue::Array(ys)) => {
            if xs.len() != ys.len() {
                assert(a@->Array_0.len() != b@->Array_0.len());
                return false;
            }
            let mut i: usize = 0;
            while i < xs.len()
                invariant
                    xs.len() == ys.len(),
                    i <= xs.len(),
                    *a == JsonValue::Array(*xs),
                    *b == JsonValue::Array(*ys),
                    forall|j: int| 0 <= j < i ==> xs@[j]@ == ys@[j]@,
                decreases xs.len() - i,
            {
                proof {
                    assert(decreases_to!(xs => xs@));
                }
                let same = json_eq(&xs[i], &ys[i]);
                if !same {
                    assert(a@->Array_0[i as int] != b@->Array_0[i as int]);
                    return false;
                }
                i = i + 1;
            }
            assert(a@->Array_0 =~= b@->Array_0);
            true
        },
        (JsonValue::Object(xs), JsonValue::Object(ys)) => {
            if xs.len() != ys.len() {
                assert(a@->Object_0.len() != b@->Object_0.len());
                return false;
            }
            let mut i: usize = 0;
            while i < xs.len()
                invariant
                    xs.len() == ys.len(),
                    i <= xs.len(),
                    *a == JsonValue::Object(*xs),
                    *b == JsonValue::Object(*ys),
                    forall|j: int| 0 <= j < i ==> xs@[j].0@ == ys@[j].0@ && xs@[j].1@ == ys@[j].1@,
                decreases xs.len() - i,
            {
                proof {
                    assert(decreases_to!(xs => xs@));
                    assert(decreases_to!(xs@ => xs@[i as int]));
                }
                let same_key = xs[i].0 == ys[i].0;
                if !same_key {
                    assert(a@->Object_0[i as int] != b@->Object_0[i as int]);
                    return false;
                }
                let same = json_eq(&xs[i].1, &ys[i].1);
                if !same {
                    assert(a@->Object_0[i as int] != b@->Object_0[i as int]);
                    return false;
                }
                i = i + 1;
            }
            assert(a@->Object_0 =~= b@->Object_0);
            true
        },
        _ => false,
    }
}

} // verus!
