//! Todos of signed-in users: each user sees and changes only their own.

use vstd::prelude::*;
use crate::dto::{TodoEntryRequestDto, TodoReplacceRequestDto, TodoResponseDto};
use crate::error::AppError;
use crate::keyed::insert_index;
use crate::model::TodoModel;
use crate::sort::{owned_by, sort_by_due_desc};
use crate::store::{TodoData, exists_message, not_found_message};
use crate::text::{concat_str, debug_string};

verus! {

broadcast use vstd::string::group_string_axioms;

/// The reason given when a todo of another user is asked for.
pub open spec fn permission_denied() -> Seq<char> {
    "Permission denied."@
}

/// `d` shows the todo `t`.
pub open spec fn shows_todo(d: TodoResponseDto, t: TodoModel) -> bool {
    &&& d.id == t.id
    &&& d.due_date == t.due_date
    &&& d.is_done == t.is_done
    &&& d.title == t.title
    &&& d.description == t.description
}

/// `r` is a `Forbidden` error.
pub open spec fn forbidden<T>(r: Result<T, AppError>) -> bool {
    r matches Err(AppError::Forbidden(m)) && m@ == permission_denied()
}

/// `r` is a `DataNotFound` error for the todo `id`.
pub open spec fn todo_not_found<T>(r: Result<T, AppError>, id: Seq<char>) -> bool {
    r matches Err(AppError::DataNotFound(m)) && m@ == not_found_message(id)
}

/// The todo rules over the store of todos.
pub struct TodoUseCase {
    pub todos: TodoData,
}

fn denied() -> (r: AppError)
    ensures
        (r matches AppError::Forbidden(m) && m@ == permission_denied()),
{
    AppError::Forbidden("Permission denied.".to_string())
}

fn not_found(id: &String) -> (r: AppError)
    ensures
        (r matches AppError::DataNotFound(m) && m@ == not_found_message(id@)),
{
    AppError::DataNotFound(concat_str("todo not found: ", debug_string(id.as_str()).as_str()))
}

impl TodoUseCase {
    pub fn new(todos: TodoData) -> (r: Self)
        ensures
            r.todos == todos,
    {
        TodoUseCase { todos }
    }

    /// Stores a new todo of `owner` under a fresh random id.
    pub fn create(&mut self, dto: TodoEntryRequestDto, owner: String) -> (r: Result<TodoResponseDto, AppError>)
        ensures
            r is Err ==> final(self).todos@ == old(self).todos@,
            r is Err ==> final(self).todos.dirty_spec() == old(self).todos.dirty_spec(),
            r is Ok ==> final(self).todos.dirty_spec(),
            r matches Err(e) ==> (e matches AppError::DataConflict(_)),
            r matches Err(AppError::DataConflict(m)) ==> exists|k: Seq<char>|
                #![trigger old(self).todos@.contains_key(k)]
                k.len() == 25 && old(self).todos@.contains_key(k) && m@ == exists_message(k)
                    && (forall|i: int| 0 <= i < 25 ==> ('0' <= #[trigger] k[i] <= '9' || 'a' <= k[i] <= 'z')),
            (forall|k: Seq<char>| #[trigger] old(self).todos@.contains_key(k) ==> k.len() != 25) ==> r is Ok,
            r matches Ok(d) ==> {
                &&& !old(self).todos@.contains_key(d.id@)
                &&& d.id@.len() == 25
                &&& final(self).todos@ == old(self).todos@.insert(
                    d.id@,
                    TodoModel {
                        id: d.id,
                        owner,
                        due_date: dto.due_date,
                        is_done: dto.is_done,
                        title: dto.title,
                        description: dto.description,
                    },
                )
                &&& final(self).todos.entries() == old(self).todos.entries().insert(
                    insert_index(old(self).todos.entries(), d.id@),
                    final(self).todos@[d.id@],
                )
                &&& shows_todo(d, final(self).todos@[d.id@])
            },
    {
        let model = dto.to_model(owner);
        let ghost m = model;
        proof {
            if old(self).todos@.contains_key(m.id@) {
                assert(m.id@.len() == 25);
            }
        }
        match self.todos.create(model) {
            Ok(t) => {
                proof {
                    assert(self.todos@[m.id@] == m);
                }
                Ok(TodoResponseDto::from_model(t))
            },
            Err(e) => Err(AppError::from_domain(e)),
        }
    }

    /// Replaces the todo `dto.id` of `owner`.
    pub fn update(&mut self, dto: TodoReplacceRequestDto, owner: String) -> (r: Result<TodoResponseDto, AppError>)
        ensures
            r is Err ==> final(self).todos@ == old(self).todos@,
            r is Err ==> final(self).todos.dirty_spec() == old(self).todos.dirty_spec(),
            r is Ok ==> final(self).todos.dirty_spec(),
            !old(self).todos@.contains_key(dto.id@) ==> todo_not_found(r, dto.id@),
            old(self).todos@.contains_key(dto.id@) && old(self).todos@[dto.id@].owner@ != owner@ ==> forbidden(r),
            old(self).todos@.contains_key(dto.id@) && old(self).todos@[dto.id@].owner@ == owner@ ==> {
                let t = TodoModel {
                    id: dto.id,
                    owner,
                    due_date: dto.due_date,
                    is_done: dto.is_done,
                    title: dto.title,
                    description: dto.description,
                };
                &&& final(self).todos@ == old(self).todos@.insert(dto.id@, t)
                &&& (r matches Ok(d) && shows_todo(d, t))
            },
    {
        let todo = match self.todos.read(&dto.id) {
            Some(t) => t,
            None => {
                return Err(not_found(&dto.id));
            },
        };
        if todo.owner != owner {
            return Err(denied());
        }
        let model = dto.to_model(owner);
        match self.todos.update(model) {
            Ok(t) => Ok(TodoResponseDto::from_model(t)),
            Err(e) => Err(AppError::from_domain(e)),
        }
    }

    /// The todo `id`, if it is stored and belongs to `owner`.
    pub fn read(&self, id: String, owner: String) -> (r: Result<Option<TodoResponseDto>, AppError>)
        ensures
            !self.todos@.contains_key(id@) ==> r == Ok::<Option<TodoResponseDto>, AppError>(None),
            self.todos@.contains_key(id@) && self.todos@[id@].owner@ != owner@ ==> forbidden(r),
            self.todos@.contains_key(id@) && self.todos@[id@].owner@ == owner@ ==> (r matches Ok(Some(d))
                && shows_todo(d, self.todos@[id@])),
    {
        let todo = self.todos.read(&id);
        if let Some(t) = &todo {
            if t.owner != owner {
                return Err(denied());
            }
        }
        match todo {
            Some(t) => Ok(Some(TodoResponseDto::from_model(t))),
            None => Ok(None),
        }
    }

    /// Removes the todo `id` of `account`.
    pub fn delete(&mut self, id: String, account: String) -> (r: Result<(), AppError>)
        ensures
            r is Err ==> final(self).todos@ == old(self).todos@,
            r is Err ==> final(self).todos.dirty_spec() == old(self).todos.dirty_spec(),
            r is Ok ==> final(self).todos.dirty_spec(),
            !old(self).todos@.contains_key(id@) ==> todo_not_found(r, id@),
            old(self).todos@.contains_key(id@) && old(self).todos@[id@].owner@ != account@ ==> forbidden(r),
            old(self).todos@.contains_key(id@) && old(self).todos@[id@].owner@ == account@ ==> {
                &&& r is Ok
                &&& final(self).todos@ == old(self).todos@.remove(id@)
            },
    {
        let todo = match self.todos.read(&id) {
            Some(t) => t,
            None => {
                return Err(not_found(&id));
            },
        };
        if todo.owner != account {
            return Err(denied());
        }
        match self.todos.delete(&id) {
            Ok(()) => Ok(()),
            Err(e) => Err(AppError::from_domain(e)),
        }
    }

    /// The todos of `account`, latest due date first; todos with the same
    /// due date in the order of their ids.
    pub fn list(&self, account: String) -> (r: Vec<TodoResponseDto>)
        ensures
            r@.len() == sort_by_due_desc(owned_by(self.todos.entries(), account@)).len(),
            forall|i: int| 0 <= i < r@.len() ==> shows_todo(
                #[trigger] r@[i],
                sort_by_due_desc(owned_by(self.todos.entries(), account@))[i],
            ),
    {
        let todos = self.todos.list(&account);
        let mut res: Vec<TodoResponseDto> = Vec::new();
        let mut i: usize = 0;
        while i < todos.len()
            invariant
                i <= todos@.len(),
                res@.len() == i,
                forall|k: int| 0 <= k < i ==> shows_todo(#[trigger] res@[k], todos@[k]),
            decreases todos@.len() - i,
        {
            res.push(TodoResponseDto::from_model(todos[i].clone()));
            i += 1;
        }
        res
    }
}

} // verus!
