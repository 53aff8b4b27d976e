//! The in-memory stores of users and todos: records with distinct keys, and
//! a flag that tells whether they changed since they were last saved.

use vstd::prelude::*;
use crate::error::DomainError;
use crate::keyed::{
    as_map, distinct_keys, has_key, insert_index, is_insert_index, keys_ascending, lemma_as_map_dom, lemma_as_map_index,
    lemma_as_map_key, lemma_ascending_distinct, lemma_ascending_insert, lemma_ascending_remove, lemma_ascending_update,
    lemma_distinct_insert, lemma_distinct_remove, lemma_distinct_update, lemma_insert_index_unique, position,
};
use crate::order::{key_less, key_lt, lemma_key_lt_irreflexive, lemma_key_lt_total, lemma_key_lt_transitive};
use crate::model::{Keyed, TodoModel, UserModel};
use crate::sort::{owned_by, select_owned_sorted, sort_by_due_desc};
use crate::text::{concat_str, debug_quoted, debug_string};

verus! {

broadcast use vstd::string::group_string_axioms;

/// Records keyed by a string, in the order of their keys.
pub struct Store<M: Keyed> {
    map: Vec<M>,
    dirty: bool,
}

/// The store of users, keyed by account.
pub type UserData = Store<UserModel>;

/// The store of todos, keyed by id.
pub type TodoData = Store<TodoModel>;

/// The message of the error for a key that is already taken.
pub open spec fn exists_message(key: Seq<char>) -> Seq<char> {
    "todo already exists: "@ + debug_quoted(key)
}

/// The message of the error for a key that is not stored.
pub open spec fn not_found_message(key: Seq<char>) -> Seq<char> {
    "todo not found: "@ + debug_quoted(key)
}

/// The index of the record with key `k` in `s`.
pub open spec fn index_of<M: Keyed>(s: Seq<M>, k: Seq<char>) -> int {
    choose|i: int| 0 <= i < s.len() && #[trigger] s[i].key_view() == k
}

impl<M: Keyed> View for Store<M> {
    type V = Map<Seq<char>, M>;

    open spec fn view(&self) -> Map<Seq<char>, M> {
        as_map(self.entries())
    }
}

/// Each record of a store stands under its own key.
pub proof fn lemma_keys_match<M: Keyed>(st: Store<M>, k: Seq<char>)
    ensures
        st@.contains_key(k) ==> st@[k].key_view() == k,
{
    lemma_as_map_key(st.entries(), k);
}

impl<M: Keyed> Store<M> {
    #[verifier::type_invariant]
    spec fn inv(&self) -> bool {
        keys_ascending(self.map@)
    }

    /// The stored records, in the order of their keys.
    pub closed spec fn entries(&self) -> Seq<M> {
        self.map@
    }

    /// Whether the store changed since it was last marked clean.
    pub closed spec fn dirty_spec(&self) -> bool {
        self.dirty
    }

    /// An empty, clean store.
    pub fn new() -> (r: Self)
        ensures
            r.entries() == Seq::<M>::empty(),
            r@ == Map::<Seq<char>, M>::empty(),
            !r.dirty_spec(),
    {
        let r = Store { map: Vec::new(), dirty: false };
        assert(as_map(r.map@) =~= Map::<Seq<char>, M>::empty());
        r
    }

    /// Whether the store changed since it was last marked clean.
    pub fn is_dirty(&self) -> (b: bool)
        ensures
            b == self.dirty_spec(),
    {
        self.dirty
    }

    /// Marks the store as saved.
    pub fn mark_clean(&mut self)
        ensures
            final(self).entries() == old(self).entries(),
            !final(self).dirty_spec(),
    {
        proof {
            use_type_invariant(&*self);
            lemma_ascending_distinct(self.map@);
        }
        self.dirty = false;
    }

    /// Copies of the stored records, in the order of `entries`.
    pub fn records(&self) -> (r: Vec<M>)
        ensures
            r@ == self.entries(),
    {
        let mut r: Vec<M> = Vec::new();
        let mut i: usize = 0;
        while i < self.map.len()
            invariant
                i <= self.map@.len(),
                r@ == self.map@.take(i as int),
            decreases self.map@.len() - i,
        {
            r.push(self.map[i].duplicate());
            assert(self.map@.take(i as int + 1) =~= self.map@.take(i as int).push(self.map@[i as int]));
            i += 1;
        }
        assert(self.map@.take(self.map@.len() as int) =~= self.map@);
        r
    }

    /// Stores `model` under its key, which must be free.
    pub fn create(&mut self, model: M) -> (r: Result<M, DomainError>)
        ensures
            old(self)@.contains_key(model.key_view()) ==> {
                &&& (r matches Err(DomainError::Conflict(m)) && m@ == exists_message(model.key_view()))
                &&& final(self).entries() == old(self).entries()
                &&& final(self).dirty_spec() == old(self).dirty_spec()
            },
            !old(self)@.contains_key(model.key_view()) ==> {
                &&& r == Ok::<M, DomainError>(model)
                &&& final(self).entries() == old(self).entries().insert(
                    insert_index(old(self).entries(), model.key_view()),
                    model,
                )
                &&& final(self)@ == old(self)@.insert(model.key_view(), model)
                &&& final(self).dirty_spec()
            },
    {
        proof {
            use_type_invariant(&*self);
            lemma_ascending_distinct(self.map@);
            lemma_as_map_dom(self.map@, model.key_view());
        }
        let ghost k = model.key_view();
        let mut i: usize = 0;
        while i < self.map.len() && key_less(self.map[i].key().as_str(), model.key().as_str())
            invariant
                i <= self.map@.len(),
                k == model.key_view(),
                forall|j: int| 0 <= j < i ==> key_lt(#[trigger] self.map@[j].key_view(), k),
            decreases self.map@.len() - i,
        {
            i += 1;
        }
        let taken = i < self.map.len() && self.map[i].key().eq(model.key());
        if taken {
            let msg = concat_str("todo already exists: ", debug_string(model.key().as_str()).as_str());
            return Err(DomainError::Conflict(msg));
        }
        proof {
            let s = self.map@;
            if i < s.len() {
                lemma_key_lt_total(k, s[i as int].key_view());
            }
            assert forall|j: int| i <= j < s.len() implies key_lt(k, #[trigger] s[j].key_view()) by {
                if j > i {
                    lemma_key_lt_transitive(k, s[i as int].key_view(), s[j].key_view());
                }
            }
            assert forall|j: int| 0 <= j < s.len() implies #[trigger] s[j].key_view() != k by {
                lemma_key_lt_irreflexive(k);
            }
            assert forall|j: int| i <= j < s.len() implies !key_lt(#[trigger] s[j].key_view(), k) by {
                if key_lt(s[j].key_view(), k) {
                    lemma_key_lt_transitive(k, s[j].key_view(), k);
                    lemma_key_lt_irreflexive(k);
                }
            }
            assert(is_insert_index(s, k, i as int));
            lemma_insert_index_unique(s, k, i as int, insert_index(s, k));
            assert(!has_key(s, k));
            lemma_ascending_insert(s, i as int, model);
            lemma_distinct_insert(s, i as int, model);
        }
        let copy = model.duplicate();
        let mut items = Vec::new();
        std::mem::swap(&mut items, &mut self.map);
        items.insert(i, model);
        self.map = items;
        self.dirty = true;
        Ok(copy)
    }

    /// The record stored under `key`, if any.
    pub fn read(&self, key: &String) -> (r: Option<M>)
        ensures
            r == (if self@.contains_key(key@) { Some(self@[key@]) } else { None::<M> }),
    {
        proof {
            use_type_invariant(self);
            lemma_ascending_distinct(self.map@);
            lemma_as_map_dom(self.map@, key@);
        }
        match position(&self.map, key) {
            Some(i) => {
                proof {
                    lemma_as_map_index(self.map@, i as int);
                }
                Some(self.map[i].duplicate())
            },
            None => None,
        }
    }

    /// Replaces the record stored under the key of `model`, which must be
    /// taken.
    pub fn update(&mut self, model: M) -> (r: Result<M, DomainError>)
        ensures
            !old(self)@.contains_key(model.key_view()) ==> {
                &&& r matches Err(DomainError::NotFound(m)) && m@ == not_found_message(model.key_view())
                &&& final(self).entries() == old(self).entries()
                &&& final(self).dirty_spec() == old(self).dirty_spec()
            },
            old(self)@.contains_key(model.key_view()) ==> {
                &&& r == Ok::<M, DomainError>(model)
                &&& final(self).entries() == old(self).entries().update(
                    index_of(old(self).entries(), model.key_view()),
                    model,
                )
                &&& final(self)@ == old(self)@.insert(model.key_view(), model)
                &&& final(self).dirty_spec()
            },
    {
        proof {
            use_type_invariant(&*self);
            lemma_ascending_distinct(self.map@);
            lemma_as_map_dom(self.map@, model.key_view());
        }
        match position(&self.map, model.key()) {
            None => {
                let msg = concat_str("todo not found: ", debug_string(model.key().as_str()).as_str());
                Err(DomainError::NotFound(msg))
            },
            Some(i) => {
                let copy = model.duplicate();
                proof {
                    let k = model.key_view();
                    let j = index_of(self.map@, k);
                    assert(self.map@[i as int].key_view() == k);
                    assert(i as int == j);
                    lemma_distinct_update(self.map@, i as int, model);
                    lemma_ascending_update(self.map@, i as int, model);
                }
                let mut items = Vec::new();
                std::mem::swap(&mut items, &mut self.map);
                items.set(i, model);
                self.map = items;
                self.dirty = true;
                Ok(copy)
            },
        }
    }

    /// Removes the record stored under `key`, which must be taken.
    pub fn delete(&mut self, key: &String) -> (r: Result<(), DomainError>)
        ensures
            !old(self)@.contains_key(key@) ==> {
                &&& r matches Err(DomainError::NotFound(m)) && m@ == not_found_message(key@)
                &&& final(self).entries() == old(self).entries()
                &&& final(self).dirty_spec() == old(self).dirty_spec()
            },
            old(self)@.contains_key(key@) ==> {
                &&& r is Ok
                &&& final(self).entries() == old(self).entries().remove(
                    index_of(old(self).entries(), key@),
                )
                &&& final(self)@ == old(self)@.remove(key@)
                &&& final(self).dirty_spec()
            },
    {
        proof {
            use_type_invariant(&*self);
            lemma_ascending_distinct(self.map@);
            lemma_as_map_dom(self.map@, key@);
        }
        match position(&self.map, key) {
            None => {
                let msg = concat_str("todo not found: ", debug_string(key.as_str()).as_str());
                Err(DomainError::NotFound(msg))
            },
            Some(i) => {
                proof {
                    assert(i as int == index_of(self.map@, key@));
                    lemma_distinct_remove(self.map@, i as int);
                    lemma_ascending_remove(self.map@, i as int);
                }
                let mut items = Vec::new();
                std::mem::swap(&mut items, &mut self.map);
                items.remove(i);
                self.map = items;
                self.dirty = true;
                Ok(())
            },
        }
    }
}

impl Store<TodoModel> {
    /// The todos of `owner`, latest due date first; todos with the same due
    /// date in the order of their ids.
    pub fn list(&self, owner: &String) -> (r: Vec<TodoModel>)
        ensures
            r@ == sort_by_due_desc(owned_by(self.entries(), owner@)),
    {
        select_owned_sorted(&self.map, owner)
    }
}

} // verus!
