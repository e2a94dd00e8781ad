//! Tables of records kept in ascending order of a 128-bit key, each key at
//! most once: the order in which a prefix scan of `prefix:<uuid>` keys
//! returns records.
use vstd::prelude::*;

verus! {

/// A record with a 128-bit key.
pub trait Keyed {
    spec fn key(&self) -> u128;

    fn key_of(&self) -> (k: u128)
        ensures
            k == self.key(),
    ;
}

/// Keys strictly ascend along the sequence.
pub open spec fn keys_ascending<T: Keyed>(s: Seq<T>) -> bool {
    forall|i: int, j: int| 0 <= i < j < s.len() ==> s[i].key() < s[j].key()
}

/// No record of the sequence has key `k`.
pub open spec fn key_absent<T: Keyed>(s: Seq<T>, k: u128) -> bool {
    forall|i: int| 0 <= i < s.len() ==> #[trigger] s[i].key() != k
}

/// The position of the record with key `k`.
pub fn table_find<T: Keyed>(v: &Vec<T>, k: u128) -> (r: Option<usize>)
    ensures
        match r {
            Some(i) => i < v@.len() && v@[i as int].key() == k,
            None => key_absent(v@, k),
        },
{
    let mut i: usize = 0;
    while i < v.len()
        invariant
            i <= v@.len(),
            forall|j: int| 0 <= j < i ==> #[trigger] v@[j].key() != k,
        decreases v.len() - i,
    {
        if v[i].key_of() == k {
            return Some(i);
        }
        i = i + 1;
    }
    None
}

/// In an ascending table, the record with a given key is unique.
pub proof fn lemma_key_unique<T: Keyed>(s: Seq<T>, i: int, j: int)
    requires
        keys_ascending(s),
        0 <= i < s.len(),
        0 <= j < s.len(),
        s[i].key() == s[j].key(),
    ensures
        i == j,
{
    if i < j {
        assert(s[i].key() < s[j].key());
    } else if j < i {
        assert(s[j].key() < s[i].key());
    }
}

/// Puts a record into an ascending table: it replaces the record of the
/// same key, or is inserted where its key belongs.
pub fn table_put<T: Keyed>(v: &mut Vec<T>, x: T)
    requires
        keys_ascending(old(v)@),
    ensures
        keys_ascending(final(v)@),
        final(v)@.contains(x),
        forall|y: T| final(v)@.contains(y) <==> (y == x || (old(v)@.contains(y) && y.key() != x.key())),
{
    let k = x.key_of();
    let mut i: usize = 0;
    while i < v.len() && v[i].key_of() < k
        invariant
            i <= v@.len(),
            forall|j: int| 0 <= j < i ==> #[trigger] v@[j].key() < k,
        decreases v.len() - i,
    {
        i = i + 1;
    }
    let ghost before = v@;
    if i < v.len() && v[i].key_of() == k {
        v.set(i, x);
        proof {
            assert forall|y: T| v@.contains(y) <==> (y == x || (before.contains(y) && y.key() != k)) by {
                if v@.contains(y) {
                    let j = choose|j: int| 0 <= j < v@.len() && v@[j] == y;
                    if j != i {
                        assert(before[j] == y);
                        if y.key() == k {
                            lemma_key_unique(before, i as int, j);
                        }
                    }
                }
                if y == x {
                    assert(v@[i as int] == x);
                }
                if before.contains(y) && y.key() != k {
                    let j = choose|j: int| 0 <= j < before.len() && before[j] == y;
                    assert(j != i);
                    assert(v@[j] == y);
                }
            }
            assert(v@[i as int] == x);
        }
    } else {
        v.insert(i, x);
        proof {
            assert(v@ =~= before.insert(i as int, x));
            assert forall|a: int, b: int| 0 <= a < b < v@.len() implies v@[a].key() < v@[b].key() by {
                if b < i {
                } else if a < i && b == i {
                } else if a < i && b > i {
                    assert(v@[b] == before[b - 1]);
                    assert(before[a].key() < before[b - 1].key() || a == b - 1);
                } else if a == i {
                    assert(v@[b] == before[b - 1]);
                    assert(before[i as int].key() >= k);
                    assert(before[i as int].key() != k);
                    assert(i == b - 1 || before[i as int].key() < before[b - 1].key());
                } else {
                    assert(v@[a] == before[a - 1] && v@[b] == before[b - 1]);
                }
            }
            assert forall|y: T| v@.contains(y) <==> (y == x || (before.contains(y) && y.key() != k)) by {
                if v@.contains(y) {
                    let j = choose|j: int| 0 <= j < v@.len() && v@[j] == y;
                    if j < i {
                        assert(before[j] == y);
                    } else if j > i {
                        assert(before[j - 1] == y);
                        assert(before[j - 1].key() >= before[i as int].key());
                        if j - 1 > i {
                            assert(before[i as int].key() < before[j - 1].key());
                        }
                    }
                }
                if y == x {
                    assert(v@[i as int] == x);
                }
                if before.contains(y) && y.key() != k {
                    let j = choose|j: int| 0 <= j < before.len() && before[j] == y;
                    if j < i {
                        assert(v@[j] == y);
                    } else {
                        assert(v@[j + 1] == y);
                    }
                }
            }
            assert(v@[i as int] == x);
        }
    }
}

} // verus!
