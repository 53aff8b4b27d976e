//! The order in which a user's todos are listed: latest due date first,
//! todos with the same due date in the order in which the store holds them.

use vstd::prelude::*;
use crate::model::{TodoModel, ts_le, ts_lt};

verus! {

broadcast use {vstd::seq_lib::group_to_multiset_ensures, vstd::string::group_string_axioms};

/// The todos of `s` whose owner is `owner`, in their order in `s`.
pub open spec fn owned_by(s: Seq<TodoModel>, owner: Seq<char>) -> Seq<TodoModel>
    decreases s.len(),
{
    if s.len() == 0 {
        Seq::empty()
    } else if s.last().owner@ == owner {
        owned_by(s.drop_last(), owner).push(s.last())
    } else {
        owned_by(s.drop_last(), owner)
    }
}

/// `sorted` with `t` placed after every todo whose due date is not earlier
/// than that of `t`, counted from the end.
pub open spec fn insert_by_due(sorted: Seq<TodoModel>, t: TodoModel) -> Seq<TodoModel>
    decreases sorted.len(),
{
    if sorted.len() == 0 {
        seq![t]
    } else if ts_le(t.due_date, sorted.last().due_date) {
        sorted.push(t)
    } else {
        insert_by_due(sorted.drop_last(), t).push(sorted.last())
    }
}

/// The stable sort of `s` by due date, latest first.
pub open spec fn sort_by_due_desc(s: Seq<TodoModel>) -> Seq<TodoModel>
    decreases s.len(),
{
    if s.len() == 0 {
        s
    } else {
        insert_by_due(sort_by_due_desc(s.drop_last()), s.last())
    }
}

/// Due dates never rise along `s`.
pub open spec fn due_desc(s: Seq<TodoModel>) -> bool {
    forall|i: int, j: int| 0 <= i < j < s.len() ==> ts_le(#[trigger] s[j].due_date, #[trigger] s[i].due_date)
}

proof fn lemma_insert_at(sorted: Seq<TodoModel>, t: TodoModel, j: int)
    requires
        0 <= j <= sorted.len(),
        forall|k: int| j <= k < sorted.len() ==> ts_lt(#[trigger] sorted[k].due_date, t.due_date),
        j == 0 || ts_le(t.due_date, sorted[j - 1].due_date),
    ensures
        insert_by_due(sorted, t) == sorted.insert(j, t),
    decreases sorted.len(),
{
    if sorted.len() == 0 {
        assert(sorted.insert(j, t) =~= seq![t]);
    } else if ts_le(t.due_date, sorted.last().due_date) {
        if j < sorted.len() {
            assert(ts_lt(sorted[sorted.len() - 1].due_date, t.due_date));
        }
        assert(sorted.insert(j, t) =~= sorted.push(t));
    } else {
        let d = sorted.drop_last();
        assert forall|k: int| j <= k < d.len() implies ts_lt(#[trigger] d[k].due_date, t.due_date) by {
            assert(d[k] == sorted[k]);
        }
        if j == sorted.len() {
            assert(ts_le(t.due_date, sorted[j - 1].due_date));
        }
        lemma_insert_at(d, t, j);
        assert(d.insert(j, t).push(sorted.last()) =~= sorted.insert(j, t));
    }
}

proof fn lemma_insert_props(sorted: Seq<TodoModel>, t: TodoModel)
    requires
        due_desc(sorted),
    ensures
        due_desc(insert_by_due(sorted, t)),
        insert_by_due(sorted, t).to_multiset() == sorted.to_multiset().insert(t),
        insert_by_due(sorted, t).len() == sorted.len() + 1,
    decreases sorted.len(),
{
    if sorted.len() == 0 {
        assert(seq![t] =~= Seq::<TodoModel>::empty().push(t));
    } else if ts_le(t.due_date, sorted.last().due_date) {
        let r = sorted.push(t);
        assert forall|i: int, j: int| 0 <= i < j < r.len() implies ts_le(#[trigger] r[j].due_date, #[trigger] r[i].due_date) by {
            if j == r.len() - 1 {
                if i < sorted.len() - 1 {
                    assert(ts_le(sorted[sorted.len() - 1].due_date, sorted[i].due_date));
                }
            }
        }
    } else {
        let d = sorted.drop_last();
        assert(due_desc(d));
        lemma_insert_props(d, t);
        let inner = insert_by_due(d, t);
        let r = inner.push(sorted.last());
        let last = sorted.last();
        assert forall|k: int| 0 <= k < inner.len() implies ts_le(last.due_date, #[trigger] inner[k].due_date) by {
            assert(inner.to_multiset().count(inner[k]) > 0);
            assert(d.to_multiset().insert(t).count(inner[k]) > 0);
            if inner[k] != t {
                assert(d.to_multiset().count(inner[k]) > 0);
                assert(d.contains(inner[k]));
                let m = choose|m: int| 0 <= m < d.len() && d[m] == inner[k];
                assert(sorted[m] == d[m]);
            }
        }
        assert forall|i: int, j: int| 0 <= i < j < r.len() implies ts_le(#[trigger] r[j].due_date, #[trigger] r[i].due_date) by {
            if j == r.len() - 1 {
                assert(r[i] == inner[i]);
            } else {
                assert(r[i] == inner[i] && r[j] == inner[j]);
            }
        }
        assert(r.to_multiset() == inner.to_multiset().insert(last));
        assert(sorted =~= d.push(last));
        assert(sorted.to_multiset() == d.to_multiset().insert(last));
        assert(r.to_multiset() =~= sorted.to_multiset().insert(t));
    }
}

/// A stable sort by due date gives every todo of its input exactly as often
/// as the input holds it, with due dates never rising.
pub proof fn lemma_sort_by_due_desc(s: Seq<TodoModel>)
    ensures
        due_desc(sort_by_due_desc(s)),
        sort_by_due_desc(s).to_multiset() == s.to_multiset(),
        sort_by_due_desc(s).len() == s.len(),
    decreases s.len(),
{
    if s.len() > 0 {
        lemma_sort_by_due_desc(s.drop_last());
        lemma_insert_props(sort_by_due_desc(s.drop_last()), s.last());
        assert(s =~= s.drop_last().push(s.last()));
    }
}

/// The todos of `v` owned by `owner`, sorted by due date, latest first;
/// todos with equal due dates keep their order in `v`.
pub fn select_owned_sorted(v: &Vec<TodoModel>, owner: &String) -> (r: Vec<TodoModel>)
    ensures
        r@ == sort_by_due_desc(owned_by(v@, owner@)),
{
    let mut res: Vec<TodoModel> = Vec::new();
    let mut i: usize = 0;
    while i < v.len()
        invariant
            i <= v@.len(),
            res@ == sort_by_due_desc(owned_by(v@.take(i as int), owner@)),
        decreases v@.len() - i,
    {
        let ghost before = res@;
        assert(v@.take(i as int + 1).drop_last() =~= v@.take(i as int));
        assert(v@.take(i as int + 1).last() == v@[i as int]);
        if v[i].owner.eq(owner) {
            let t = v[i].clone();
            proof {
                lemma_sort_by_due_desc(owned_by(v@.take(i as int), owner@));
            }
            let mut j: usize = res.len();
            while j > 0 && res[j - 1].due_date.is_before(&t.due_date)
                invariant
                    j <= res@.len(),
                    res@ == before,
                    forall|k: int| j <= k < res@.len() ==> ts_lt(#[trigger] res@[k].due_date, t.due_date),
                decreases j,
            {
                j -= 1;
            }
            proof {
                if j > 0 {
                    assert(!ts_lt(res@[j - 1].due_date, t.due_date));
                }
                lemma_insert_at(res@, t, j as int);
            }
            res.insert(j, t);
            proof {
                let o = owned_by(v@.take(i as int), owner@);
                assert(owned_by(v@.take(i as int + 1), owner@) == o.push(v@[i as int]));
                assert(o.push(v@[i as int]).drop_last() =~= o);
            }
        } else {
            assert(owned_by(v@.take(i as int + 1), owner@) == owned_by(v@.take(i as int), owner@));
        }
        i += 1;
    }
    assert(v@.take(v@.len() as int) =~= v@);
    res
}

} // verus!
