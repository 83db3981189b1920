//! Keyed entries kept in a list: a small map from text keys to values,
//! where setting a key replaces its value and looking it up finds it.
use vstd::prelude::*;
use crate::text::str_eq;

verus! {

/// `i` is the first entry of `es` under key `k`.
pub open spec fn first_key_at<V>(es: Seq<(String, V)>, k: Seq<char>, i: int) -> bool {
    &&& 0 <= i < es.len()
    &&& es[i].0@ == k
    &&& forall|j: int| 0 <= j < i ==> (#[trigger] es[j]).0@ != k
}

/// The value of the first entry of `es` under key `k`, if there is one.
pub open spec fn value_of<V>(es: Seq<(String, V)>, k: Seq<char>) -> Option<V> {
    if exists|i: int| first_key_at(es, k, i) {
        let i = choose|i: int| first_key_at(es, k, i);
        Some(es[i].1)
    } else {
        None
    }
}

/// `new` is `old` with key `k` set to `v`: the first entry under `k` gets
/// the value, or, when there is none, an entry is added at the end.
pub open spec fn sets_key<V>(old: Seq<(String, V)>, new: Seq<(String, V)>, k: Seq<char>, v: V) -> bool {
    if exists|i: int| first_key_at(old, k, i) {
        let i = choose|i: int| first_key_at(old, k, i);
        &&& new.len() == old.len()
        &&& new[i].0@ == k
        &&& new[i].1 == v
        &&& forall|j: int| 0 <= j < old.len() && j != i ==> new[j] == old[j]
    } else {
        &&& new.len() == old.len() + 1
        &&& new.take(old.len() as int) == old
        &&& new.last().0@ == k
        &&& new.last().1 == v
    }
}

/// No two entries share a key.
pub open spec fn keys_unique<V>(es: Seq<(String, V)>) -> bool {
    forall|i: int, j: int| 0 <= i < j < es.len() ==> (#[trigger] es[i]).0@ != (#[trigger] es[j]).0@
}

proof fn lemma_first_unique<V>(es: Seq<(String, V)>, k: Seq<char>, i: int, j: int)
    requires
        first_key_at(es, k, i),
        first_key_at(es, k, j),
    ensures
        i == j,
{
    if i < j {
        assert(es[i].0@ != k);
    } else if j < i {
        assert(es[j].0@ != k);
    }
}

proof fn lemma_some_first<V>(es: Seq<(String, V)>, k: Seq<char>, m: int)
    requires
        0 <= m < es.len(),
        es[m].0@ == k,
    ensures
        exists|i: int| first_key_at(es, k, i),
    decreases m,
{
    if forall|j: int| 0 <= j < m ==> (#[trigger] es[j]).0@ != k {
        assert(first_key_at(es, k, m));
    } else {
        let j = choose|j: int| 0 <= j < m && (#[trigger] es[j]).0@ == k;
        lemma_some_first(es, k, j);
    }
}

/// After a key is set, looking it up gives the value it was set to, and
/// every other key keeps its value.
pub proof fn lemma_set_then_get<V>(old: Seq<(String, V)>, new: Seq<(String, V)>, k: Seq<char>, v: V, other: Seq<char>)
    requires
        sets_key(old, new, k, v),
    ensures
        value_of(new, k) == Some(v),
        other != k ==> value_of(new, other) == value_of(old, other),
{
    if exists|i: int| first_key_at(old, k, i) {
        let i = choose|i: int| first_key_at(old, k, i);
        assert(first_key_at(new, k, i)) by {
            assert forall|j: int| 0 <= j < i implies (#[trigger] new[j]).0@ != k by {
                assert(new[j] == old[j]);
            }
        }
        let f = choose|f: int| first_key_at(new, k, f);
        lemma_first_unique(new, k, i, f);
        if other != k {
            assert forall|j: int| 0 <= j < new.len() implies (#[trigger] new[j]).0@ == other <==> old[j].0@ == other by {
                if j != i {
                    assert(new[j] == old[j]);
                }
            }
            if exists|a: int| first_key_at(old, other, a) {
                let a = choose|a: int| first_key_at(old, other, a);
                assert(a != i);
                assert(first_key_at(new, other, a)) by {
                    assert forall|j: int| 0 <= j < a implies (#[trigger] new[j]).0@ != other by {
                        assert(old[j].0@ != other);
                    }
                }
                let b = choose|b: int| first_key_at(new, other, b);
                lemma_first_unique(new, other, a, b);
                assert(new[a] == old[a]);
            } else {
                if exists|b: int| first_key_at(new, other, b) {
                    let b = choose|b: int| first_key_at(new, other, b);
                    lemma_some_first(old, other, b);
                }
            }
        }
    } else {
        let n = old.len() as int;
        assert forall|j: int| 0 <= j < n implies (#[trigger] new[j]).0@ != k by {
            assert(new[j] == new.take(n)[j]);
            if old[j].0@ == k {
                lemma_some_first(old, k, j);
            }
        }
        assert(first_key_at(new, k, n));
        let f = choose|f: int| first_key_at(new, k, f);
        lemma_first_unique(new, k, n, f);
        if other != k {
            assert forall|j: int| 0 <= j < n implies (#[trigger] new[j]) == old[j] by {
                assert(new[j] == new.take(n)[j]);
            }
            if exists|a: int| first_key_at(old, other, a) {
                let a = choose|a: int| first_key_at(old, other, a);
                assert(first_key_at(new, other, a));
                let b = choose|b: int| first_key_at(new, other, b);
                lemma_first_unique(new, other, a, b);
            } else {
                if exists|b: int| first_key_at(new, other, b) {
                    let b = choose|b: int| first_key_at(new, other, b);
                    assert(b != n);
                    lemma_some_first(old, other, b);
                }
            }
        }
    }
}

/// Where key `k` first stands in `es`, if anywhere.
pub fn find_key<V>(es: &Vec<(String, V)>, k: &str) -> (r: Option<usize>)
    ensures
        match r {
            Some(i) => first_key_at(es@, k@, i as int),
            None => forall|j: int| 0 <= j < es@.len() ==> (#[trigger] es@[j]).0@ != k@,
        },
{
    let mut i: usize = 0;
    while i < es.len()
        invariant
            i <= es.len(),
            forall|j: int| 0 <= j < i ==> (#[trigger] es@[j]).0@ != k@,
        decreases es.len() - i,
    {
        if str_eq(es[i].0.as_str(), k) {
            return Some(i);
        }
        i = i + 1;
    }
    None
}

/// Set key `key` to `value`.
pub fn set_key<V>(es: &mut Vec<(String, V)>, key: String, value: V)
    ensures
        sets_key(old(es)@, final(es)@, key@, value),
        keys_unique(old(es)@) ==> keys_unique(final(es)@),
{
    let ghost k = key@;
    match find_key(es, key.as_str()) {
        Some(i) => {
            proof {
                let f = choose|f: int| first_key_at(old(es)@, k, f);
                lemma_first_unique(old(es)@, k, i as int, f);
            }
            es.set(i, (key, value));
            proof {
                if keys_unique(old(es)@) {
                    assert forall|a: int, b: int| 0 <= a < b < es@.len() implies (#[trigger] es@[a]).0@ != (#[trigger] es@[b]).0@ by {
                        if a == i as int {
                            assert(old(es)@[b].0@ != old(es)@[a].0@);
                        } else if b == i as int {
                            assert(old(es)@[a].0@ != old(es)@[b].0@);
                        }
                    }
                }
            }
        },
        None => {
            assert(!exists|f: int| first_key_at(old(es)@, k, f));
            es.push((key, value));
            assert(es@.take(old(es)@.len() as int) =~= old(es)@);
        },
    }
}

/// The value under key `k`, if any.
pub fn get_key<'a, V>(es: &'a Vec<(String, V)>, k: &str) -> (r: Option<&'a V>)
    ensures
        match r {
            Some(v) => value_of(es@, k@) == Some(*v),
            None => value_of(es@, k@) is None,
        },
{
    match find_key(es, k) {
        Some(i) => {
            proof {
                let f = choose|f: int| first_key_at(es@, k@, f);
                lemma_first_unique(es@, k@, i as int, f);
            }
            Some(&es[i].1)
        },
        None => {
            assert(!exists|f: int| first_key_at(es@, k@, f));
            None
        },
    }
}

} // verus!
