//! Sequences of records with distinct keys, seen as maps from key to record.

use vstd::prelude::*;
use crate::model::Keyed;
use crate::order::{key_lt, lemma_key_lt_irreflexive, lemma_key_lt_transitive};

verus! {

broadcast use vstd::string::group_string_axioms;

/// No two records of `s` share a key.
pub open spec fn distinct_keys<M: Keyed>(s: Seq<M>) -> bool {
    forall|i: int, j: int|
        0 <= i < s.len() && 0 <= j < s.len() && i != j ==> #[trigger] s[i].key_view()
            != #[trigger] s[j].key_view()
}

/// Some record of `s` has the key `k`.
pub open spec fn has_key<M: Keyed>(s: Seq<M>, k: Seq<char>) -> bool {
    exists|i: int| 0 <= i < s.len() && #[trigger] s[i].key_view() == k
}

/// The map from key to record that `s` stands for; a later record wins over
/// an earlier one with the same key.
pub open spec fn as_map<M: Keyed>(s: Seq<M>) -> Map<Seq<char>, M>
    decreases s.len(),
{
    if s.len() == 0 {
        Map::empty()
    } else {
        as_map(s.drop_last()).insert(s.last().key_view(), s.last())
    }
}

pub proof fn lemma_as_map_dom<M: Keyed>(s: Seq<M>, k: Seq<char>)
    ensures
        as_map(s).contains_key(k) <==> has_key(s, k),
    decreases s.len(),
{
    if s.len() > 0 {
        lemma_as_map_dom(s.drop_last(), k);
        if has_key(s, k) && s.last().key_view() != k {
            let i = choose|i: int| 0 <= i < s.len() && #[trigger] s[i].key_view() == k;
            assert(s.drop_last()[i].key_view() == k);
        }
        if has_key(s.drop_last(), k) {
            let i = choose|i: int| 0 <= i < s.len() - 1 && #[trigger] s.drop_last()[i].key_view() == k;
            assert(s[i].key_view() == k);
        }
    }
}

/// Each record of the map stands under its own key.
pub proof fn lemma_as_map_key<M: Keyed>(s: Seq<M>, k: Seq<char>)
    ensures
        as_map(s).contains_key(k) ==> as_map(s)[k].key_view() == k,
    decreases s.len(),
{
    if s.len() > 0 {
        lemma_as_map_key(s.drop_last(), k);
    }
}

pub proof fn lemma_as_map_index<M: Keyed>(s: Seq<M>, i: int)
    requires
        distinct_keys(s),
        0 <= i < s.len(),
    ensures
        as_map(s).contains_key(s[i].key_view()),
        as_map(s)[s[i].key_view()] == s[i],
    decreases s.len(),
{
    if i < s.len() - 1 {
        let t = s.drop_last();
        assert(t[i] == s[i]);
        assert forall|a: int, b: int|
            0 <= a < t.len() && 0 <= b < t.len() && a != b implies #[trigger] t[a].key_view()
                != #[trigger] t[b].key_view() by {
            assert(t[a] == s[a] && t[b] == s[b]);
        }
        lemma_as_map_index(t, i);
        assert(s[i].key_view() != s[s.len() - 1].key_view());
    }
}

pub proof fn lemma_distinct_push<M: Keyed>(s: Seq<M>, m: M)
    requires
        distinct_keys(s),
        !has_key(s, m.key_view()),
    ensures
        distinct_keys(s.push(m)),
        as_map(s.push(m)) == as_map(s).insert(m.key_view(), m),
{
    let t = s.push(m);
    assert forall|a: int, b: int|
        0 <= a < t.len() && 0 <= b < t.len() && a != b implies #[trigger] t[a].key_view()
            != #[trigger] t[b].key_view() by {
        if a < s.len() && b < s.len() {
            assert(t[a] == s[a] && t[b] == s[b]);
        } else if a < s.len() {
            assert(t[a] == s[a]);
        } else {
            assert(t[b] == s[b]);
        }
    }
    assert(t.drop_last() =~= s);
}

pub proof fn lemma_distinct_update<M: Keyed>(s: Seq<M>, i: int, m: M)
    requires
        distinct_keys(s),
        0 <= i < s.len(),
        m.key_view() == s[i].key_view(),
    ensures
        distinct_keys(s.update(i, m)),
        as_map(s.update(i, m)) == as_map(s).insert(m.key_view(), m),
    decreases s.len(),
{
    let t = s.update(i, m);
    assert forall|a: int, b: int|
        0 <= a < t.len() && 0 <= b < t.len() && a != b implies #[trigger] t[a].key_view()
            != #[trigger] t[b].key_view() by {
        assert(t[a].key_view() == s[a].key_view());
        assert(t[b].key_view() == s[b].key_view());
    }
    if i == s.len() - 1 {
        assert(t.drop_last() =~= s.drop_last());
    } else {
        let sd = s.drop_last();
        assert forall|a: int, b: int|
            0 <= a < sd.len() && 0 <= b < sd.len() && a != b implies #[trigger] sd[a].key_view()
                != #[trigger] sd[b].key_view() by {
            assert(sd[a] == s[a] && sd[b] == s[b]);
        }
        lemma_distinct_update(sd, i, m);
        assert(t.drop_last() =~= sd.update(i, m));
        assert(s.last().key_view() != m.key_view());
        assert(as_map(t) =~= as_map(s).insert(m.key_view(), m));
    }
}

pub proof fn lemma_distinct_remove<M: Keyed>(s: Seq<M>, i: int)
    requires
        distinct_keys(s),
        0 <= i < s.len(),
    ensures
        distinct_keys(s.remove(i)),
        as_map(s.remove(i)) == as_map(s).remove(s[i].key_view()),
    decreases s.len(),
{
    let t = s.remove(i);
    assert forall|a: int, b: int|
        0 <= a < t.len() && 0 <= b < t.len() && a != b implies #[trigger] t[a].key_view()
            != #[trigger] t[b].key_view() by {
        let a2 = if a < i { a } else { a + 1 };
        let b2 = if b < i { b } else { b + 1 };
        assert(t[a] == s[a2] && t[b] == s[b2]);
    }
    let sd = s.drop_last();
    assert forall|a: int, b: int|
        0 <= a < sd.len() && 0 <= b < sd.len() && a != b implies #[trigger] sd[a].key_view()
            != #[trigger] sd[b].key_view() by {
        assert(sd[a] == s[a] && sd[b] == s[b]);
    }
    if i == s.len() - 1 {
        assert(t =~= sd);
        lemma_as_map_dom(sd, s[i].key_view());
        assert forall|j: int| 0 <= j < sd.len() implies #[trigger] sd[j].key_view() != s[i].key_view() by {
            assert(sd[j] == s[j]);
        }
        assert(as_map(t) =~= as_map(s).remove(s[i].key_view()));
    } else {
        lemma_distinct_remove(sd, i);
        assert(t.drop_last() =~= sd.remove(i));
        assert(t.last() == s.last());
        assert(s.last().key_view() != s[i].key_view());
        assert(as_map(t) =~= as_map(s).remove(s[i].key_view()));
    }
}

/// The keys of `s` rise strictly from record to record.
pub open spec fn keys_ascending<M: Keyed>(s: Seq<M>) -> bool {
    forall|i: int, j: int| 0 <= i < j < s.len() ==> key_lt(#[trigger] s[i].key_view(), #[trigger] s[j].key_view())
}

/// `p` is where a record with key `k` belongs among the records of `s`:
/// after every key below `k` and before every other.
pub open spec fn is_insert_index<M: Keyed>(s: Seq<M>, k: Seq<char>, p: int) -> bool {
    &&& 0 <= p <= s.len()
    &&& forall|j: int| 0 <= j < p ==> key_lt(#[trigger] s[j].key_view(), k)
    &&& forall|j: int| p <= j < s.len() ==> !key_lt(#[trigger] s[j].key_view(), k)
}

/// Where a record with key `k` belongs among the records of `s`.
pub open spec fn insert_index<M: Keyed>(s: Seq<M>, k: Seq<char>) -> int {
    choose|p: int| is_insert_index(s, k, p)
}

pub proof fn lemma_insert_index_unique<M: Keyed>(s: Seq<M>, k: Seq<char>, p: int, q: int)
    requires
        is_insert_index(s, k, p),
        is_insert_index(s, k, q),
    ensures
        p == q,
{
    if p < q {
        assert(key_lt(s[p].key_view(), k));
    } else if q < p {
        assert(key_lt(s[q].key_view(), k));
    }
}

pub proof fn lemma_ascending_distinct<M: Keyed>(s: Seq<M>)
    requires
        keys_ascending(s),
    ensures
        distinct_keys(s),
{
    assert forall|i: int, j: int|
        0 <= i < s.len() && 0 <= j < s.len() && i != j implies #[trigger] s[i].key_view()
            != #[trigger] s[j].key_view() by {
        if s[i].key_view() == s[j].key_view() {
            lemma_key_lt_irreflexive(s[i].key_view());
            if i < j {
                assert(key_lt(s[i].key_view(), s[j].key_view()));
            } else {
                assert(key_lt(s[j].key_view(), s[i].key_view()));
            }
        }
    }
}

pub proof fn lemma_ascending_insert<M: Keyed>(s: Seq<M>, p: int, m: M)
    requires
        keys_ascending(s),
        is_insert_index(s, m.key_view(), p),
        !has_key(s, m.key_view()),
    ensures
        keys_ascending(s.insert(p, m)),
{
    let k = m.key_view();
    let t = s.insert(p, m);
    assert forall|j: int| p <= j < s.len() implies key_lt(k, #[trigger] s[j].key_view()) by {
        crate::order::lemma_key_lt_total(k, s[j].key_view());
        assert(s[j].key_view() != k);
    }
    assert forall|i: int, j: int| 0 <= i < j < t.len() implies key_lt(#[trigger] t[i].key_view(), #[trigger] t[j].key_view()) by {
        if j < p {
            assert(t[i] == s[i] && t[j] == s[j]);
        } else if j == p {
            assert(t[i] == s[i]);
        } else if i < p {
            assert(t[i] == s[i] && t[j] == s[j - 1]);
            lemma_key_lt_transitive(s[i].key_view(), k, s[j - 1].key_view());
        } else if i == p {
            assert(t[j] == s[j - 1]);
        } else {
            assert(t[i] == s[i - 1] && t[j] == s[j - 1]);
        }
    }
}

pub proof fn lemma_ascending_update<M: Keyed>(s: Seq<M>, i: int, m: M)
    requires
        keys_ascending(s),
        0 <= i < s.len(),
        m.key_view() == s[i].key_view(),
    ensures
        keys_ascending(s.update(i, m)),
{
    let t = s.update(i, m);
    assert forall|a: int, b: int| 0 <= a < b < t.len() implies key_lt(#[trigger] t[a].key_view(), #[trigger] t[b].key_view()) by {
        assert(t[a].key_view() == s[a].key_view());
        assert(t[b].key_view() == s[b].key_view());
    }
}

pub proof fn lemma_ascending_remove<M: Keyed>(s: Seq<M>, i: int)
    requires
        keys_ascending(s),
        0 <= i < s.len(),
    ensures
        keys_ascending(s.remove(i)),
{
    let t = s.remove(i);
    assert forall|a: int, b: int| 0 <= a < b < t.len() implies key_lt(#[trigger] t[a].key_view(), #[trigger] t[b].key_view()) by {
        let a2 = if a < i { a } else { a + 1 };
        let b2 = if b < i { b } else { b + 1 };
        assert(t[a] == s[a2] && t[b] == s[b2]);
    }
}

pub proof fn lemma_distinct_insert<M: Keyed>(s: Seq<M>, p: int, m: M)
    requires
        distinct_keys(s),
        0 <= p <= s.len(),
        !has_key(s, m.key_view()),
    ensures
        distinct_keys(s.insert(p, m)),
        as_map(s.insert(p, m)) == as_map(s).insert(m.key_view(), m),
    decreases s.len(),
{
    if p == s.len() {
        assert(s.insert(p, m) =~= s.push(m));
        lemma_distinct_push(s, m);
    } else {
        let t = s.insert(p, m);
        let sd = s.drop_last();
        assert forall|a: int, b: int|
            0 <= a < sd.len() && 0 <= b < sd.len() && a != b implies #[trigger] sd[a].key_view()
                != #[trigger] sd[b].key_view() by {
            assert(sd[a] == s[a] && sd[b] == s[b]);
        }
        assert(!has_key(sd, m.key_view())) by {
            if has_key(sd, m.key_view()) {
                let j = choose|j: int| 0 <= j < sd.len() && #[trigger] sd[j].key_view() == m.key_view();
                assert(s[j].key_view() == m.key_view());
            }
        }
        lemma_distinct_insert(sd, p, m);
        assert(t.drop_last() =~= sd.insert(p, m));
        assert(t.last() == s.last());
        assert(s.last().key_view() != m.key_view());
        assert forall|a: int, b: int|
            0 <= a < t.len() && 0 <= b < t.len() && a != b implies #[trigger] t[a].key_view()
                != #[trigger] t[b].key_view() by {
            if a != p && b != p {
                let a2 = if a < p { a } else { a - 1 };
                let b2 = if b < p { b } else { b - 1 };
                assert(t[a] == s[a2] && t[b] == s[b2]);
            } else if a == p {
                let b2 = if b < p { b } else { b - 1 };
                assert(t[b] == s[b2]);
            } else {
                let a2 = if a < p { a } else { a - 1 };
                assert(t[a] == s[a2]);
            }
        }
        assert(as_map(t) =~= as_map(s).insert(m.key_view(), m));
    }
}

/// The index of the record with key `key`, if there is one.
pub fn position<M: Keyed>(v: &Vec<M>, key: &String) -> (r: Option<usize>)
    ensures
        match r {
            Some(i) => i < v@.len() && v@[i as int].key_view() == key@,
            None => !has_key(v@, key@),
        },
{
    let mut i: usize = 0;
    while i < v.len()
        invariant
            i <= v@.len(),
            forall|j: int| 0 <= j < i ==> #[trigger] v@[j].key_view() != key@,
        decreases v@.len() - i,
    {
        let k = v[i].key();
        if k.eq(key) {
            return Some(i);
        }
        i += 1;
    }
    None
}

} // verus!
