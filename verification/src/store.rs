//! A key-value store of byte values with ordered prefix scans.
use vstd::prelude::*;
use crate::order::{
    lemma_text_lt_asymmetric, lemma_text_lt_irreflexive, lemma_text_lt_total, lemma_text_lt_transitive,
    str_less, text_lt,
};
use crate::text::{str_equal, str_starts_with, texts};

verus! {

/// Why a store operation failed.
pub enum StoreError {
    Serialization(String),
    Database(String),
    NotFound(String),
}

impl StoreError {
    /// The message of the error, as its `Display` prints it.
    pub fn to_string(&self) -> (s: String)
        ensures
            s@ == match self {
                StoreError::Serialization(m) => "Serialization error: "@ + m@,
                StoreError::Database(m) => "Database error: "@ + m@,
                StoreError::NotFound(m) => "Not found: "@ + m@,
            },
    {
        match self {
            StoreError::Serialization(m) => {
                let mut s = String::from_str("Serialization error: ");
                s.append(m.as_str());
                s
            },
            StoreError::Database(m) => {
                let mut s = String::from_str("Database error: ");
                s.append(m.as_str());
                s
            },
            StoreError::NotFound(m) => {
                let mut s = String::from_str("Not found: ");
                s.append(m.as_str());
                s
            },
        }
    }
}

/// A stored row: its key text and its bytes.
pub open spec fn row_view(e: (String, Vec<u8>)) -> (Seq<char>, Seq<u8>) {
    (e.0@, e.1@)
}

/// The rows of a vector, as key texts and bytes.
pub open spec fn rows_view(v: Seq<(String, Vec<u8>)>) -> Seq<(Seq<char>, Seq<u8>)> {
    Seq::new(v.len(), |i: int| row_view(v[i]))
}

/// Keys strictly ascend, so none occurs twice.
pub open spec fn keys_ascend(s: Seq<(Seq<char>, Seq<u8>)>) -> bool {
    forall|i: int, j: int| 0 <= i < j < s.len() ==> text_lt(#[trigger] s[i].0, #[trigger] s[j].0)
}

/// Some row has key `k`.
pub open spec fn rows_have_key(s: Seq<(Seq<char>, Seq<u8>)>, k: Seq<char>) -> bool {
    exists|i: int| 0 <= i < s.len() && #[trigger] s[i].0 == k
}

/// The position of a row with key `k`.
pub open spec fn row_index(s: Seq<(Seq<char>, Seq<u8>)>, k: Seq<char>) -> int {
    choose|i: int| 0 <= i < s.len() && #[trigger] s[i].0 == k
}

/// The rows as a map from key to bytes.
pub open spec fn rows_map(s: Seq<(Seq<char>, Seq<u8>)>) -> Map<Seq<char>, Seq<u8>> {
    Map::new(|k: Seq<char>| rows_have_key(s, k), |k: Seq<char>| s[row_index(s, k)].1)
}

/// What a map holds under a key.
pub open spec fn map_lookup(m: Map<Seq<char>, Seq<u8>>, k: Seq<char>) -> Option<Seq<u8>> {
    if m.contains_key(k) {
        Some(m[k])
    } else {
        None
    }
}

/// The bytes of an optional value.
pub open spec fn bytes_opt_view(o: Option<Vec<u8>>) -> Option<Seq<u8>> {
    match o {
        Some(v) => Some(v@),
        None => None,
    }
}

/// `s` lists, in ascending key order, exactly the entries of `m` whose key
/// starts with `prefix`.
pub open spec fn prefix_listing(m: Map<Seq<char>, Seq<u8>>, prefix: Seq<char>, s: Seq<(Seq<char>, Seq<u8>)>) -> bool {
    &&& keys_ascend(s)
    &&& forall|a: int|
        0 <= a < s.len() ==> prefix.is_prefix_of(#[trigger] s[a].0) && m.contains_key(s[a].0) && m[s[a].0]
            == s[a].1
    &&& forall|k: Seq<char>| #[trigger]
        m.contains_key(k) && prefix.is_prefix_of(k) ==> exists|a: int| 0 <= a < s.len() && #[trigger] s[a].0 == k
}

/// `s` lists, in ascending order, exactly the keys of `m` that start with
/// `prefix`.
pub open spec fn key_listing(m: Map<Seq<char>, Seq<u8>>, prefix: Seq<char>, s: Seq<Seq<char>>) -> bool {
    &&& forall|i: int, j: int| 0 <= i < j < s.len() ==> text_lt(#[trigger] s[i], #[trigger] s[j])
    &&& forall|a: int| 0 <= a < s.len() ==> prefix.is_prefix_of(#[trigger] s[a]) && m.contains_key(s[a])
    &&& forall|k: Seq<char>| #[trigger]
        m.contains_key(k) && prefix.is_prefix_of(k) ==> exists|a: int| 0 <= a < s.len() && #[trigger] s[a] == k
}

/// A row of ascending rows is found under its own key.
pub proof fn lemma_rows_map_at(s: Seq<(Seq<char>, Seq<u8>)>, i: int)
    requires
        keys_ascend(s),
        0 <= i < s.len(),
    ensures
        rows_map(s).contains_key(s[i].0),
        rows_map(s)[s[i].0] == s[i].1,
        row_index(s, s[i].0) == i,
{
    assert(rows_have_key(s, s[i].0));
    let j = row_index(s, s[i].0);
    if j < i {
        assert(text_lt(s[j].0, s[i].0));
        lemma_text_lt_irreflexive(s[i].0);
    } else if i < j {
        assert(text_lt(s[i].0, s[j].0));
        lemma_text_lt_irreflexive(s[i].0);
    }
}

proof fn lemma_insert_row(s: Seq<(Seq<char>, Seq<u8>)>, i: int, k: Seq<char>, v: Seq<u8>)
    requires
        keys_ascend(s),
        0 <= i <= s.len(),
        forall|j: int| 0 <= j < i ==> text_lt(#[trigger] s[j].0, k),
        forall|j: int| i <= j < s.len() ==> text_lt(k, #[trigger] s[j].0),
    ensures
        keys_ascend(s.insert(i, (k, v))),
        rows_map(s.insert(i, (k, v))) == rows_map(s).insert(k, v),
{
    let t = s.insert(i, (k, v));
    assert forall|a: int, b: int| 0 <= a < b < t.len() implies text_lt(#[trigger] t[a].0, #[trigger] t[b].0) by {
        if a < i && b == i {
        } else if a == i {
        } else if a < i && b > i {
            assert(t[a] == s[a]);
            assert(t[b] == s[b - 1]);
        } else if a > i {
            assert(t[a] == s[a - 1]);
            assert(t[b] == s[b - 1]);
        } else {
            assert(t[a] == s[a]);
            assert(t[b] == s[b]);
        }
    }
    let m = rows_map(s);
    let n = rows_map(t);
    assert forall|q: Seq<char>| #[trigger] n.contains_key(q) <==> m.insert(k, v).contains_key(q) by {
        if n.contains_key(q) {
            let j = choose|j: int| 0 <= j < t.len() && #[trigger] t[j].0 == q;
            if j < i {
                assert(s[j].0 == q);
            } else if j > i {
                assert(s[j - 1].0 == q);
            }
        }
        if q == k {
            assert(t[i].0 == q);
        } else if m.contains_key(q) {
            let j = choose|j: int| 0 <= j < s.len() && #[trigger] s[j].0 == q;
            if j < i {
                assert(t[j].0 == q);
            } else {
                assert(t[j + 1].0 == q);
            }
        }
    }
    assert forall|q: Seq<char>| #[trigger] n.contains_key(q) implies n[q] == m.insert(k, v)[q] by {
        let j = choose|j: int| 0 <= j < t.len() && #[trigger] t[j].0 == q;
        lemma_rows_map_at(t, j);
        if j < i {
            lemma_rows_map_at(s, j);
            lemma_text_lt_irreflexive(k);
        } else if j > i {
            lemma_rows_map_at(s, j - 1);
            lemma_text_lt_irreflexive(k);
        }
    }
    assert(n =~= m.insert(k, v));
}

proof fn lemma_update_row(s: Seq<(Seq<char>, Seq<u8>)>, i: int, v: Seq<u8>)
    requires
        keys_ascend(s),
        0 <= i < s.len(),
    ensures
        keys_ascend(s.update(i, (s[i].0, v))),
        rows_map(s.update(i, (s[i].0, v))) == rows_map(s).insert(s[i].0, v),
{
    let k = s[i].0;
    let t = s.update(i, (k, v));
    assert forall|a: int, b: int| 0 <= a < b < t.len() implies text_lt(#[trigger] t[a].0, #[trigger] t[b].0) by {
        assert(t[a].0 == s[a].0);
        assert(t[b].0 == s[b].0);
    }
    let m = rows_map(s);
    let n = rows_map(t);
    assert forall|q: Seq<char>| #[trigger] n.contains_key(q) <==> m.insert(k, v).contains_key(q) by {
        if n.contains_key(q) {
            let j = choose|j: int| 0 <= j < t.len() && #[trigger] t[j].0 == q;
            assert(s[j].0 == q);
        }
        if m.contains_key(q) {
            let j = choose|j: int| 0 <= j < s.len() && #[trigger] s[j].0 == q;
            assert(t[j].0 == q);
        }
        if q == k {
            assert(t[i].0 == q);
        }
    }
    assert forall|q: Seq<char>| #[trigger] n.contains_key(q) implies n[q] == m.insert(k, v)[q] by {
        let j = choose|j: int| 0 <= j < t.len() && #[trigger] t[j].0 == q;
        lemma_rows_map_at(t, j);
        lemma_rows_map_at(s, j);
        if j != i {
            lemma_rows_map_at(s, i);
        }
    }
    assert(n =~= m.insert(k, v));
}

proof fn lemma_remove_row(s: Seq<(Seq<char>, Seq<u8>)>, i: int)
    requires
        keys_ascend(s),
        0 <= i < s.len(),
    ensures
        keys_ascend(s.remove(i)),
        rows_map(s.remove(i)) == rows_map(s).remove(s[i].0),
{
    let k = s[i].0;
    let t = s.remove(i);
    assert forall|a: int, b: int| 0 <= a < b < t.len() implies text_lt(#[trigger] t[a].0, #[trigger] t[b].0) by {
        if b < i {
        } else if a < i {
            assert(t[b] == s[b + 1]);
        } else {
            assert(t[a] == s[a + 1]);
            assert(t[b] == s[b + 1]);
        }
    }
    let m = rows_map(s);
    let n = rows_map(t);
    assert forall|q: Seq<char>| #[trigger] n.contains_key(q) <==> m.remove(k).contains_key(q) by {
        if n.contains_key(q) {
            let j = choose|j: int| 0 <= j < t.len() && #[trigger] t[j].0 == q;
            if j < i {
                assert(s[j].0 == q);
                assert(text_lt(s[j].0, k));
            } else {
                assert(s[j + 1].0 == q);
                assert(text_lt(k, s[j + 1].0));
            }
            lemma_text_lt_irreflexive(q);
        }
        if m.contains_key(q) && q != k {
            let j = choose|j: int| 0 <= j < s.len() && #[trigger] s[j].0 == q;
            if j < i {
                assert(t[j].0 == q);
            } else {
                assert(j != i);
                assert(t[j - 1].0 == q);
            }
        }
    }
    assert forall|q: Seq<char>| #[trigger] n.contains_key(q) implies n[q] == m.remove(k)[q] by {
        let j = choose|j: int| 0 <= j < t.len() && #[trigger] t[j].0 == q;
        lemma_rows_map_at(t, j);
        if j < i {
            lemma_rows_map_at(s, j);
        } else {
            lemma_rows_map_at(s, j + 1);
        }
    }
    assert(n =~= m.remove(k));
}

/// `o` lists, in order, the keys among the first `i` rows of `s` that start
/// with `prefix`.
pub open spec fn keys_listed_upto(s: Seq<(Seq<char>, Seq<u8>)>, prefix: Seq<char>, o: Seq<Seq<char>>, i: int) -> bool {
    &&& forall|a: int, b: int| 0 <= a < b < o.len() ==> text_lt(#[trigger] o[a], #[trigger] o[b])
    &&& forall|a: int|
        0 <= a < o.len() ==> prefix.is_prefix_of(#[trigger] o[a]) && exists|j: int|
            0 <= j < i && #[trigger] s[j].0 == o[a]
    &&& forall|j: int|
        0 <= j < i && prefix.is_prefix_of(#[trigger] s[j].0) ==> exists|a: int|
            0 <= a < o.len() && #[trigger] o[a] == s[j].0
}

proof fn lemma_keys_listed_take(s: Seq<(Seq<char>, Seq<u8>)>, prefix: Seq<char>, o: Seq<Seq<char>>, i: int)
    requires
        0 <= i < s.len(),
        keys_ascend(s),
        keys_listed_upto(s, prefix, o, i),
        prefix.is_prefix_of(s[i].0),
    ensures
        keys_listed_upto(s, prefix, o.push(s[i].0), i + 1),
{
    let now = o.push(s[i].0);
    assert forall|a: int, b: int| 0 <= a < b < now.len() implies text_lt(#[trigger] now[a], #[trigger] now[b]) by {
        assert(now[a] == o[a]);
        if b == o.len() {
            assert(prefix.is_prefix_of(o[a]));
            let j = choose|j: int| 0 <= j < i && #[trigger] s[j].0 == o[a];
            assert(text_lt(s[j].0, s[i].0));
        } else {
            assert(now[b] == o[b]);
        }
    }
    assert forall|a: int| 0 <= a < now.len() implies prefix.is_prefix_of(#[trigger] now[a]) && exists|j: int|
        0 <= j < i + 1 && #[trigger] s[j].0 == now[a] by {
        if a < o.len() {
            assert(now[a] == o[a]);
            assert(prefix.is_prefix_of(o[a]));
            let j = choose|j: int| 0 <= j < i && #[trigger] s[j].0 == o[a];
            assert(s[j].0 == now[a]);
        } else {
            assert(s[i].0 == now[a]);
        }
    }
    assert forall|j: int| 0 <= j < i + 1 && prefix.is_prefix_of(#[trigger] s[j].0) implies exists|a: int|
        0 <= a < now.len() && #[trigger] now[a] == s[j].0 by {
        if j < i {
            let a = choose|a: int| 0 <= a < o.len() && #[trigger] o[a] == s[j].0;
            assert(now[a] == s[j].0);
        } else {
            assert(now[o.len() as int] == s[j].0);
        }
    }
}

proof fn lemma_keys_listed_skip(s: Seq<(Seq<char>, Seq<u8>)>, prefix: Seq<char>, o: Seq<Seq<char>>, i: int)
    requires
        0 <= i < s.len(),
        keys_listed_upto(s, prefix, o, i),
        !prefix.is_prefix_of(s[i].0),
    ensures
        keys_listed_upto(s, prefix, o, i + 1),
{
    assert forall|a: int| 0 <= a < o.len() implies prefix.is_prefix_of(#[trigger] o[a]) && exists|j: int|
        0 <= j < i + 1 && #[trigger] s[j].0 == o[a] by {
        assert(prefix.is_prefix_of(o[a]));
        let j = choose|j: int| 0 <= j < i && #[trigger] s[j].0 == o[a];
        assert(s[j].0 == o[a]);
    }
}

proof fn lemma_keys_listed_done(s: Seq<(Seq<char>, Seq<u8>)>, prefix: Seq<char>, o: Seq<Seq<char>>)
    requires
        keys_ascend(s),
        keys_listed_upto(s, prefix, o, s.len() as int),
    ensures
        key_listing(rows_map(s), prefix, o),
{
    let m = rows_map(s);
    assert forall|a: int| 0 <= a < o.len() implies prefix.is_prefix_of(#[trigger] o[a]) && m.contains_key(o[a]) by {
        assert(prefix.is_prefix_of(o[a]));
        let j = choose|j: int| 0 <= j < s.len() && #[trigger] s[j].0 == o[a];
        lemma_rows_map_at(s, j);
    }
    assert forall|k: Seq<char>| #[trigger] m.contains_key(k) && prefix.is_prefix_of(k) implies exists|a: int|
        0 <= a < o.len() && #[trigger] o[a] == k by {
        let j = choose|j: int| 0 <= j < s.len() && #[trigger] s[j].0 == k;
        assert(prefix.is_prefix_of(s[j].0));
        let a = choose|a: int| 0 <= a < o.len() && #[trigger] o[a] == s[j].0;
    }
}

/// The keys of rows.
pub open spec fn row_keys(o: Seq<(Seq<char>, Seq<u8>)>) -> Seq<Seq<char>> {
    Seq::new(o.len(), |a: int| o[a].0)
}

/// `o` lists, in order, the rows among the first `i` of `s` whose key
/// starts with `prefix`.
pub open spec fn rows_listed_upto(
    s: Seq<(Seq<char>, Seq<u8>)>,
    prefix: Seq<char>,
    o: Seq<(Seq<char>, Seq<u8>)>,
    i: int,
) -> bool {
    &&& keys_listed_upto(s, prefix, row_keys(o), i)
    &&& forall|a: int| 0 <= a < o.len() ==> #[trigger] o[a].1 == rows_map(s)[o[a].0]
}

proof fn lemma_rows_listed_take(s: Seq<(Seq<char>, Seq<u8>)>, prefix: Seq<char>, o: Seq<(Seq<char>, Seq<u8>)>, i: int)
    requires
        0 <= i < s.len(),
        keys_ascend(s),
        rows_listed_upto(s, prefix, o, i),
        prefix.is_prefix_of(s[i].0),
    ensures
        rows_listed_upto(s, prefix, o.push(s[i]), i + 1),
{
    let now = o.push(s[i]);
    assert(row_keys(now) =~= row_keys(o).push(s[i].0));
    lemma_keys_listed_take(s, prefix, row_keys(o), i);
    lemma_rows_map_at(s, i);
    assert forall|a: int| 0 <= a < now.len() implies #[trigger] now[a].1 == rows_map(s)[now[a].0] by {
        if a < o.len() {
            assert(now[a] == o[a]);
        }
    }
}

proof fn lemma_rows_listed_skip(s: Seq<(Seq<char>, Seq<u8>)>, prefix: Seq<char>, o: Seq<(Seq<char>, Seq<u8>)>, i: int)
    requires
        0 <= i < s.len(),
        rows_listed_upto(s, prefix, o, i),
        !prefix.is_prefix_of(s[i].0),
    ensures
        rows_listed_upto(s, prefix, o, i + 1),
{
    lemma_keys_listed_skip(s, prefix, row_keys(o), i);
}

proof fn lemma_rows_listed_done(s: Seq<(Seq<char>, Seq<u8>)>, prefix: Seq<char>, o: Seq<(Seq<char>, Seq<u8>)>)
    requires
        keys_ascend(s),
        rows_listed_upto(s, prefix, o, s.len() as int),
    ensures
        prefix_listing(rows_map(s), prefix, o),
{
    let m = rows_map(s);
    let ks = row_keys(o);
    lemma_keys_listed_done(s, prefix, ks);
    assert forall|a: int, b: int| 0 <= a < b < o.len() implies text_lt(#[trigger] o[a].0, #[trigger] o[b].0) by {
        assert(ks[a] == o[a].0);
        assert(ks[b] == o[b].0);
    }
    assert forall|a: int| 0 <= a < o.len() implies prefix.is_prefix_of(#[trigger] o[a].0) && m.contains_key(o[a].0)
        && m[o[a].0] == o[a].1 by {
        assert(ks[a] == o[a].0);
    }
    assert forall|k: Seq<char>| #[trigger] m.contains_key(k) && prefix.is_prefix_of(k) implies exists|a: int|
        0 <= a < o.len() && #[trigger] o[a].0 == k by {
        let a = choose|a: int| 0 <= a < ks.len() && #[trigger] ks[a] == k;
        assert(o[a].0 == k);
    }
}

/// A store of byte values under text keys.
pub trait Store {
    /// What the store holds.
    spec fn entries(&self) -> Map<Seq<char>, Seq<u8>>;

    /// The bytes stored under `key`.
    fn get_raw(&self, key: &str) -> (r: Result<Option<Vec<u8>>, StoreError>)
        ensures
            r matches Ok(o) ==> bytes_opt_view(o) == map_lookup(self.entries(), key@),
    ;

    /// Stores `value` under `key`, replacing what was there.
    fn set_raw(&mut self, key: &str, value: Vec<u8>) -> (r: Result<(), StoreError>)
        ensures
            r is Ok ==> final(self).entries() == old(self).entries().insert(key@, value@),
    ;

    /// Removes `key`, if present.
    fn delete(&mut self, key: &str) -> (r: Result<(), StoreError>)
        ensures
            r is Ok ==> final(self).entries() == old(self).entries().remove(key@),
    ;

    /// Is `key` present?
    fn key_exists(&self, key: &str) -> (r: Result<bool, StoreError>)
        ensures
            r matches Ok(b) ==> b == self.entries().contains_key(key@),
    ;

    /// The entries whose key starts with `prefix`, in ascending key order.
    fn scan_prefix_raw(&self, prefix: &str) -> (r: Result<Vec<(String, Vec<u8>)>, StoreError>)
        ensures
            r matches Ok(v) ==> prefix_listing(self.entries(), prefix@, rows_view(v@)),
    ;

    /// The keys that start with `prefix`, in ascending order.
    fn list_keys(&self, prefix: &str) -> (r: Result<Vec<String>, StoreError>)
        ensures
            r matches Ok(v) ==> key_listing(self.entries(), prefix@, texts(v@)),
    ;

    /// Removes every entry.
    fn clear(&mut self) -> (r: Result<(), StoreError>)
        ensures
            r is Ok ==> final(self).entries() == Map::<Seq<char>, Seq<u8>>::empty(),
    ;
}

/// A store held in memory: rows in ascending key order.
pub struct InMemoryStore {
    rows: Vec<(String, Vec<u8>)>,
}

impl InMemoryStore {
    #[verifier::type_invariant]
    closed spec fn wf(&self) -> bool {
        keys_ascend(rows_view(self.rows@))
    }

    /// An empty store.
    pub fn new() -> (s: InMemoryStore)
        ensures
            s.entries() == Map::<Seq<char>, Seq<u8>>::empty(),
    {
        let s = InMemoryStore { rows: Vec::new() };
        assert(rows_map(rows_view(s.rows@)) =~= Map::<Seq<char>, Seq<u8>>::empty());
        s
    }

    fn position(&self, key: &str) -> (r: Option<usize>)
        ensures
            match r {
                Some(i) => i < self.rows@.len() && self.rows@[i as int].0@ == key@,
                None => !rows_have_key(rows_view(self.rows@), key@),
            },
    {
        let mut i: usize = 0;
        while i < self.rows.len()
            invariant
                i <= self.rows@.len(),
                forall|j: int| 0 <= j < i ==> #[trigger] self.rows@[j].0@ != key@,
            decreases self.rows.len() - i,
        {
            if str_equal(self.rows[i].0.as_str(), key) {
                return Some(i);
            }
            i = i + 1;
        }
        proof {
            let s = rows_view(self.rows@);
            assert forall|j: int| 0 <= j < s.len() implies #[trigger] s[j].0 != key@ by {
                assert(s[j].0 == self.rows@[j].0@);
            }
        }
        None
    }

    fn insertion_point(&self, key: &str) -> (i: usize)
        ensures
            i <= self.rows@.len(),
            forall|j: int| 0 <= j < i ==> text_lt(#[trigger] self.rows@[j].0@, key@),
            i < self.rows@.len() ==> !text_lt(self.rows@[i as int].0@, key@),
    {
        let mut i: usize = 0;
        while i < self.rows.len()
            invariant_except_break
                i <= self.rows@.len(),
                forall|j: int| 0 <= j < i ==> text_lt(#[trigger] self.rows@[j].0@, key@),
            ensures
                i <= self.rows@.len(),
                forall|j: int| 0 <= j < i ==> text_lt(#[trigger] self.rows@[j].0@, key@),
                i < self.rows@.len() ==> !text_lt(self.rows@[i as int].0@, key@),
            decreases self.rows.len() - i,
        {
            if !str_less(self.rows[i].0.as_str(), key) {
                break;
            }
            i = i + 1;
        }
        i
    }
}

impl Store for InMemoryStore {
    closed spec fn entries(&self) -> Map<Seq<char>, Seq<u8>> {
        rows_map(rows_view(self.rows@))
    }

    fn get_raw(&self, key: &str) -> (r: Result<Option<Vec<u8>>, StoreError>)
        ensures
            r is Ok,
    {
        proof {
            use_type_invariant(self);
        }
        match self.position(key) {
            Some(i) => {
                proof {
                    lemma_rows_map_at(rows_view(self.rows@), i as int);
                }
                Ok(Some(self.rows[i].1.clone()))
            },
            None => Ok(None),
        }
    }

    fn set_raw(&mut self, key: &str, value: Vec<u8>) -> (r: Result<(), StoreError>)
        ensures
            r is Ok,
    {
        proof {
            use_type_invariant(&*self);
        }
        let i = self.insertion_point(key);
        let mut v: Vec<(String, Vec<u8>)> = Vec::new();
        std::mem::swap(&mut v, &mut self.rows);
        let ghost before = rows_view(v@);
        if i < v.len() && str_equal(v[i].0.as_str(), key) {
            let ghost vv = value@;
            let k = v[i].0.clone();
            v.set(i, (k, value));
            proof {
                lemma_update_row(before, i as int, vv);
                assert(rows_view(v@) =~= before.update(i as int, (before[i as int].0, vv)));
            }
        } else {
            proof {
                let k = key@;
                assert forall|j: int| i <= j < before.len() implies text_lt(k, #[trigger] before[j].0) by {
                    assert(before[j].0 == v@[j].0@);
                    if j > i {
                        assert(text_lt(before[i as int].0, before[j].0));
                    }
                    assert(before[i as int].0 != k);
                    lemma_text_lt_total(before[i as int].0, k);
                    if j > i {
                        lemma_text_lt_transitive(k, before[i as int].0, before[j].0);
                    }
                }
                assert forall|j: int| 0 <= j < i implies text_lt(#[trigger] before[j].0, k) by {
                    assert(before[j].0 == v@[j].0@);
                }
                lemma_insert_row(before, i as int, k, value@);
                
            }
            let ghost vv = value@;
            let k = String::from_str(key);
            v.insert(i, (k, value));
            proof {
                assert(rows_view(v@) =~= before.insert(i as int, (key@, vv)));
            }
        }
        self.rows = v;
        Ok(())
    }

    fn delete(&mut self, key: &str) -> (r: Result<(), StoreError>)
        ensures
            r is Ok,
    {
        proof {
            use_type_invariant(&*self);
        }
        match self.position(key) {
            Some(i) => {
                let mut v: Vec<(String, Vec<u8>)> = Vec::new();
                std::mem::swap(&mut v, &mut self.rows);
                let ghost before = rows_view(v@);
                v.remove(i);
                proof {
                    lemma_remove_row(before, i as int);
                    assert(rows_view(v@) =~= before.remove(i as int));
                }
                self.rows = v;
            },
            None => {
                assert(rows_map(rows_view(self.rows@)).remove(key@) =~= rows_map(rows_view(self.rows@)));
            },
        }
        Ok(())
    }

    fn key_exists(&self, key: &str) -> (r: Result<bool, StoreError>)
        ensures
            r is Ok,
    {
        proof {
            use_type_invariant(self);
        }
        match self.position(key) {
            Some(i) => {
                proof {
                    lemma_rows_map_at(rows_view(self.rows@), i as int);
                }
                Ok(true)
            },
            None => Ok(false),
        }
    }

    fn scan_prefix_raw(&self, prefix: &str) -> (r: Result<Vec<(String, Vec<u8>)>, StoreError>)
        ensures
            r is Ok,
    {
        proof {
            use_type_invariant(self);
        }
        let ghost s = rows_view(self.rows@);
        let mut out: Vec<(String, Vec<u8>)> = Vec::new();
        let mut i: usize = 0;
        while i < self.rows.len()
            invariant
                i <= self.rows@.len(),
                s == rows_view(self.rows@),
                keys_ascend(s),
                rows_listed_upto(s, prefix@, rows_view(out@), i as int),
            decreases self.rows.len() - i,
        {
            let ghost before = rows_view(out@);
            if str_starts_with(self.rows[i].0.as_str(), prefix) {
                out.push((self.rows[i].0.clone(), self.rows[i].1.clone()));
                proof {
                    assert(rows_view(out@) =~= before.push(s[i as int]));
                    lemma_rows_listed_take(s, prefix@, before, i as int);
                }
            } else {
                proof {
                    lemma_rows_listed_skip(s, prefix@, before, i as int);
                }
            }
            i = i + 1;
        }
        proof {
            lemma_rows_listed_done(s, prefix@, rows_view(out@));
        }
        Ok(out)
    }

    fn list_keys(&self, prefix: &str) -> (r: Result<Vec<String>, StoreError>)
        ensures
            r is Ok,
    {
        proof {
            use_type_invariant(self);
        }
        let ghost s = rows_view(self.rows@);
        let mut out: Vec<String> = Vec::new();
        let mut i: usize = 0;
        while i < self.rows.len()
            invariant
                i <= self.rows@.len(),
                s == rows_view(self.rows@),
                keys_ascend(s),
                keys_listed_upto(s, prefix@, texts(out@), i as int),
            decreases self.rows.len() - i,
        {
            let ghost before = texts(out@);
            if str_starts_with(self.rows[i].0.as_str(), prefix) {
                out.push(self.rows[i].0.clone());
                proof {
                    assert(texts(out@) =~= before.push(s[i as int].0));
                    lemma_keys_listed_take(s, prefix@, before, i as int);
                }
            } else {
                proof {
                    lemma_keys_listed_skip(s, prefix@, before, i as int);
                }
            }
            i = i + 1;
        }
        proof {
            lemma_keys_listed_done(s, prefix@, texts(out@));
        }
        Ok(out)
    }

    fn clear(&mut self) -> (r: Result<(), StoreError>)
        ensures
            r is Ok,
    {
        self.rows = Vec::new();
        assert(rows_map(rows_view(self.rows@)) =~= Map::<Seq<char>, Seq<u8>>::empty());
        Ok(())
    }
}

/// A read gives back what the last write under that key wrote; writing or
/// deleting one key leaves every other key as it was; a deleted or cleared
/// key reads as absent; a key is present exactly when a read finds bytes.
pub proof fn law_store_read_after_write(m: Map<Seq<char>, Seq<u8>>, k: Seq<char>, v: Seq<u8>, other: Seq<char>)
    ensures
        map_lookup(m.insert(k, v), k) == Some(v),
        other != k ==> map_lookup(m.insert(k, v), other) == map_lookup(m, other),
        map_lookup(m.remove(k), k) is None,
        other != k ==> map_lookup(m.remove(k), other) == map_lookup(m, other),
        map_lookup(Map::<Seq<char>, Seq<u8>>::empty(), k) is None,
        m.contains_key(k) <==> map_lookup(m, k) is Some,
{
}

/// A prefix scan after a write under a key with that prefix lists the key
/// with the written bytes, exactly once.
pub proof fn law_store_scan_sees_write(
    m: Map<Seq<char>, Seq<u8>>,
    prefix: Seq<char>,
    k: Seq<char>,
    v: Seq<u8>,
    listed: Seq<(Seq<char>, Seq<u8>)>,
)
    requires
        prefix_listing(m.insert(k, v), prefix, listed),
        prefix.is_prefix_of(k),
    ensures
        exists|a: int| 0 <= a < listed.len() && #[trigger] listed[a] == (k, v),
        forall|a: int, b: int|
            0 <= a < listed.len() && 0 <= b < listed.len() && listed[a].0 == k && listed[b].0 == k ==> a == b,
{
    let m2 = m.insert(k, v);
    assert(m2.contains_key(k));
    let a = choose|a: int| 0 <= a < listed.len() && #[trigger] listed[a].0 == k;
    assert(listed[a] == (k, v));
    assert forall|a: int, b: int|
        0 <= a < listed.len() && 0 <= b < listed.len() && listed[a].0 == k && listed[b].0 == k implies a == b by {
        if a < b {
            assert(text_lt(listed[a].0, listed[b].0));
            lemma_text_lt_irreflexive(k);
        } else if b < a {
            assert(text_lt(listed[b].0, listed[a].0));
            lemma_text_lt_irreflexive(k);
        }
    }
}

} // verus!
