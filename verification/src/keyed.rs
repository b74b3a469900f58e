//! Sequences of `(identifier, value)` pairs read as finite maps.
//!
//! The room keeps its sessions and its per-client records in insertion order,
//! and at most one entry per client identifier.  The functions here are the
//! mathematical vocabulary for such sequences; the lemmas relate the
//! sequence operations to the corresponding operations on `Map`.

use vstd::prelude::*;

verus! {

/// `k` is the identifier of some entry of `s`.
pub open spec fn has_key<T>(s: Seq<(Seq<char>, T)>, k: Seq<char>) -> bool {
    exists|i: int| 0 <= i < s.len() && (#[trigger] s[i]).0 == k
}

/// The position of an entry of `s` under `k` (the only one when the
/// identifiers of `s` are distinct).
pub open spec fn position<T>(s: Seq<(Seq<char>, T)>, k: Seq<char>) -> int {
    choose|i: int| 0 <= i < s.len() && (#[trigger] s[i]).0 == k
}

/// No identifier occurs twice in `s`.
pub open spec fn distinct<T>(s: Seq<(Seq<char>, T)>) -> bool {
    forall|i: int, j: int|
        0 <= i < j < s.len() ==> (#[trigger] s[i]).0 != (#[trigger] s[j]).0
}

/// The finite map that `s` stands for.
pub open spec fn as_map<T>(s: Seq<(Seq<char>, T)>) -> Map<Seq<char>, T> {
    Map::new(|k: Seq<char>| has_key(s, k), |k: Seq<char>| s[position(s, k)].1)
}

/// `s` with `v` stored under `k`: an existing entry is overwritten where it
/// stands, a new one goes to the end.
pub open spec fn put<T>(s: Seq<(Seq<char>, T)>, k: Seq<char>, v: T) -> Seq<(Seq<char>, T)> {
    if has_key(s, k) {
        s.update(position(s, k), (k, v))
    } else {
        s.push((k, v))
    }
}

/// `s` without the entry under `k`; the other entries keep their order.
pub open spec fn without<T>(s: Seq<(Seq<char>, T)>, k: Seq<char>) -> Seq<(Seq<char>, T)> {
    if has_key(s, k) {
        s.remove(position(s, k))
    } else {
        s
    }
}

/// With distinct identifiers, an entry is found at the position where it stands.
pub proof fn lemma_position<T>(s: Seq<(Seq<char>, T)>, i: int)
    requires
        distinct(s),
        0 <= i < s.len(),
    ensures
        has_key(s, s[i].0),
        position(s, s[i].0) == i,
{
    let p = position(s, s[i].0);
    assert(0 <= p < s.len() && s[p].0 == s[i].0);
    if p < i {
        assert(s[p].0 != s[i].0);
    } else if i < p {
        assert(s[i].0 != s[p].0);
    }
}

/// The map of `s` holds exactly the entries of `s`.
pub proof fn lemma_as_map<T>(s: Seq<(Seq<char>, T)>)
    requires
        distinct(s),
    ensures
        forall|k: Seq<char>| #[trigger] as_map(s).contains_key(k) <==> has_key(s, k),
        forall|i: int|
            0 <= i < s.len() ==> as_map(s).contains_key((#[trigger] s[i]).0) && as_map(s)[s[i].0]
                == s[i].1,
{
    assert forall|i: int| 0 <= i < s.len() implies as_map(s).contains_key((#[trigger] s[i]).0)
        && as_map(s)[s[i].0] == s[i].1 by {
        lemma_position(s, i);
    }
}

/// Storing under `k` keeps identifiers distinct and is `insert` on the map.
pub proof fn lemma_put<T>(s: Seq<(Seq<char>, T)>, k: Seq<char>, v: T)
    requires
        distinct(s),
    ensures
        distinct(put(s, k, v)),
        as_map(put(s, k, v)) == as_map(s).insert(k, v),
        has_key(s, k) ==> put(s, k, v).len() == s.len(),
        !has_key(s, k) ==> put(s, k, v).len() == s.len() + 1,
        has_key(put(s, k, v), k),
{
    let t = put(s, k, v);
    if has_key(s, k) {
        let p = position(s, k);
        assert(t[p].0 == k);
        assert forall|i: int, j: int| 0 <= i < j < t.len() implies (#[trigger] t[i]).0 != (
        #[trigger] t[j]).0 by {
            assert(t[i].0 == s[i].0);
            assert(t[j].0 == s[j].0);
        }
    } else {
        assert(t[s.len() as int].0 == k);
        assert forall|i: int, j: int| 0 <= i < j < t.len() implies (#[trigger] t[i]).0 != (
        #[trigger] t[j]).0 by {
            if j < s.len() {
                assert(t[i].0 == s[i].0);
                assert(t[j].0 == s[j].0);
            } else {
                assert(t[i] == s[i]);
            }
        }
    }
    lemma_as_map(s);
    lemma_as_map(t);
    assert forall|x: Seq<char>| #[trigger] as_map(t).contains_key(x) <==> as_map(s).insert(
        k,
        v,
    ).contains_key(x) by {
        if has_key(t, x) {
            let i = position(t, x);
            if x != k {
                if has_key(s, k) {
                    assert(s[i].0 == x);
                } else {
                    assert(i < s.len());
                    assert(s[i].0 == x);
                }
            }
        }
        if has_key(s, x) && x != k {
            let i = position(s, x);
            assert(t[i].0 == x);
        }
    }
    assert forall|x: Seq<char>| #[trigger] as_map(t).contains_key(x) implies as_map(t)[x]
        == as_map(s).insert(k, v)[x] by {
        let i = position(t, x);
        lemma_position(t, i);
        if x == k {
            if has_key(s, k) {
                let p = position(s, k);
                assert(t[p].0 == k);
                lemma_position(t, p);
            } else {
                lemma_position(t, s.len() as int);
            }
        } else {
            assert(s[i].0 == x);
            lemma_position(s, i);
        }
    }
    assert(as_map(t) =~= as_map(s).insert(k, v));
}

/// Dropping `k` keeps identifiers distinct and is `remove` on the map.
pub proof fn lemma_without<T>(s: Seq<(Seq<char>, T)>, k: Seq<char>)
    requires
        distinct(s),
    ensures
        distinct(without(s, k)),
        as_map(without(s, k)) == as_map(s).remove(k),
        !has_key(without(s, k), k),
        has_key(s, k) ==> without(s, k).len() == s.len() - 1,
        !has_key(s, k) ==> without(s, k) == s,
        forall|x: Seq<char>| x != k ==> (#[trigger] has_key(without(s, k), x) <==> has_key(s, x)),
{
    let t = without(s, k);
    lemma_as_map(s);
    if has_key(s, k) {
        let p = position(s, k);
        assert forall|i: int| 0 <= i < t.len() implies #[trigger] t[i] == s[if i < p {
            i
        } else {
            i + 1
        }] by {}
        assert forall|i: int, j: int| 0 <= i < j < t.len() implies (#[trigger] t[i]).0 != (
        #[trigger] t[j]).0 by {
            let si = if i < p { i } else { i + 1 };
            let sj = if j < p { j } else { j + 1 };
            assert(t[i] == s[si]);
            assert(t[j] == s[sj]);
            assert(s[si].0 != s[sj].0);
        }
        assert forall|x: Seq<char>| has_key(t, x) implies x != k && has_key(s, x) by {
            let i = position(t, x);
            let si = if i < p { i } else { i + 1 };
            assert(t[i] == s[si]);
            if x == k {
                lemma_position(s, si);
            }
        }
        assert forall|x: Seq<char>| x != k && has_key(s, x) implies has_key(t, x) by {
            let i = position(s, x);
            let ti = if i < p { i } else { i - 1 };
            assert(t[ti] == s[i]);
        }
        lemma_as_map(t);
        assert forall|x: Seq<char>| #[trigger] as_map(t).contains_key(x) implies as_map(t)[x]
            == as_map(s).remove(k)[x] by {
            let i = position(t, x);
            let si = if i < p { i } else { i + 1 };
            assert(t[i] == s[si]);
            lemma_position(t, i);
            lemma_position(s, si);
        }
        assert(as_map(t) =~= as_map(s).remove(k));
    } else {
        assert(as_map(t) =~= as_map(s).remove(k));
    }
}

/// A sequence with distinct identifiers has as many entries as its map.
pub proof fn lemma_map_len<T>(s: Seq<(Seq<char>, T)>)
    requires
        distinct(s),
    ensures
        as_map(s).dom().finite(),
        as_map(s).len() == s.len(),
    decreases s.len(),
{
    if s.len() == 0 {
        assert(as_map(s) =~= Map::<Seq<char>, T>::empty());
    } else {
        let last = s.last();
        let front = s.drop_last();
        assert forall|i: int, j: int| 0 <= i < j < front.len() implies (#[trigger] front[i]).0 != (
        #[trigger] front[j]).0 by {
            assert(front[i] == s[i]);
            assert(front[j] == s[j]);
        }
        lemma_map_len(front);
        if has_key(front, last.0) {
            let p = position(front, last.0);
            assert(s[p] == front[p]);
            assert(s[p].0 != s[s.len() - 1].0);
        }
        assert(put(front, last.0, last.1) =~= s);
        lemma_put(front, last.0, last.1);
        lemma_as_map(front);
    }
}

} // verus!
