//! What the use cases ask of a keeper of users and of todos, and the stores
//! that keep them.

use vstd::prelude::*;
use crate::error::DomainError;
use crate::model::{TodoModel, UserModel};
use crate::sort::{owned_by, sort_by_due_desc};
use crate::store::{TodoData, UserData, exists_message, not_found_message};

verus! {

/// A keeper of users, each under its account.
pub trait UserRepository {
    /// The users kept, by account.
    spec fn users(&self) -> Map<Seq<char>, UserModel>;

    /// Keeps `model` under its account, which must be free.
    fn create(&mut self, model: UserModel) -> (r: Result<UserModel, DomainError>)
        ensures
            old(self).users().contains_key(model.account@) ==> {
                &&& (r matches Err(DomainError::Conflict(m)) && m@ == exists_message(model.account@))
                &&& final(self).users() == old(self).users()
            },
            !old(self).users().contains_key(model.account@) ==> {
                &&& r == Ok::<UserModel, DomainError>(model)
                &&& final(self).users() == old(self).users().insert(model.account@, model)
            },
    ;

    /// Replaces the user kept under the account of `model`, which must be
    /// taken.
    fn update(&mut self, model: UserModel) -> (r: Result<UserModel, DomainError>)
        ensures
            !old(self).users().contains_key(model.account@) ==> {
                &&& (r matches Err(DomainError::NotFound(m)) && m@ == not_found_message(model.account@))
                &&& final(self).users() == old(self).users()
            },
            old(self).users().contains_key(model.account@) ==> {
                &&& r == Ok::<UserModel, DomainError>(model)
                &&& final(self).users() == old(self).users().insert(model.account@, model)
            },
    ;

    /// The user kept under `key`, if any.
    fn read(&self, key: &String) -> (r: Result<Option<UserModel>, DomainError>)
        ensures
            r == Ok::<Option<UserModel>, DomainError>(
                if self.users().contains_key(key@) { Some(self.users()[key@]) } else { None },
            ),
    ;

    /// Drops the user kept under `key`, which must be taken.
    fn delete(&mut self, key: &String) -> (r: Result<(), DomainError>)
        ensures
            !old(self).users().contains_key(key@) ==> {
                &&& (r matches Err(DomainError::NotFound(m)) && m@ == not_found_message(key@))
                &&& final(self).users() == old(self).users()
            },
            old(self).users().contains_key(key@) ==> {
                &&& r is Ok
                &&& final(self).users() == old(self).users().remove(key@)
            },
    ;
}

/// A keeper of todos, each under its id.
pub trait TodoRepository {
    /// The todos kept, by id.
    spec fn todos(&self) -> Map<Seq<char>, TodoModel>;

    /// The todos kept, in the order of their ids.
    spec fn todo_seq(&self) -> Seq<TodoModel>;

    /// Keeps `model` under its id, which must be free.
    fn create(&mut self, model: TodoModel) -> (r: Result<TodoModel, DomainError>)
        ensures
            old(self).todos().contains_key(model.id@) ==> {
                &&& (r matches Err(DomainError::Conflict(m)) && m@ == exists_message(model.id@))
                &&& final(self).todos() == old(self).todos()
            },
            !old(self).todos().contains_key(model.id@) ==> {
                &&& r == Ok::<TodoModel, DomainError>(model)
                &&& final(self).todos() == old(self).todos().insert(model.id@, model)
            },
    ;

    /// Replaces the todo kept under the id of `model`, which must be taken.
    fn update(&mut self, model: TodoModel) -> (r: Result<TodoModel, DomainError>)
        ensures
            !old(self).todos().contains_key(model.id@) ==> {
                &&& (r matches Err(DomainError::NotFound(m)) && m@ == not_found_message(model.id@))
                &&& final(self).todos() == old(self).todos()
            },
            old(self).todos().contains_key(model.id@) ==> {
                &&& r == Ok::<TodoModel, DomainError>(model)
                &&& final(self).todos() == old(self).todos().insert(model.id@, model)
            },
    ;

    /// The todo kept under `key`, if any.
    fn read(&self, key: &String) -> (r: Result<Option<TodoModel>, DomainError>)
        ensures
            r == Ok::<Option<TodoModel>, DomainError>(
                if self.todos().contains_key(key@) { Some(self.todos()[key@]) } else { None },
            ),
    ;

    /// Drops the todo kept under `id`, which must be taken.
    fn delete(&mut self, id: &String) -> (r: Result<(), DomainError>)
        ensures
            !old(self).todos().contains_key(id@) ==> {
                &&& (r matches Err(DomainError::NotFound(m)) && m@ == not_found_message(id@))
                &&& final(self).todos() == old(self).todos()
            },
            old(self).todos().contains_key(id@) ==> {
                &&& r is Ok
                &&& final(self).todos() == old(self).todos().remove(id@)
            },
    ;

    /// The todos of `owner`, latest due date first.
    fn list(&self, owner: &String) -> (r: Result<Vec<TodoModel>, DomainError>)
        ensures
            r matches Ok(v) && v@ == sort_by_due_desc(owned_by(self.todo_seq(), owner@)),
    ;
}

impl UserRepository for UserData {
    open spec fn users(&self) -> Map<Seq<char>, UserModel> {
        self@
    }

    fn create(&mut self, model: UserModel) -> (r: Result<UserModel, DomainError>) {
        UserData::create(self, model)
    }

    fn update(&mut self, model: UserModel) -> (r: Result<UserModel, DomainError>) {
        UserData::update(self, model)
    }

    fn read(&self, key: &String) -> (r: Result<Option<UserModel>, DomainError>) {
        Ok(UserData::read(self, key))
    }

    fn delete(&mut self, key: &String) -> (r: Result<(), DomainError>) {
        UserData::delete(self, key)
    }
}

impl TodoRepository for TodoData {
    open spec fn todos(&self) -> Map<Seq<char>, TodoModel> {
        self@
    }

    open spec fn todo_seq(&self) -> Seq<TodoModel> {
        self.entries()
    }

    fn create(&mut self, model: TodoModel) -> (r: Result<TodoModel, DomainError>) {
        TodoData::create(self, model)
    }

    fn update(&mut self, model: TodoModel) -> (r: Result<TodoModel, DomainError>) {
        TodoData::update(self, model)
    }

    fn read(&self, key: &String) -> (r: Result<Option<TodoModel>, DomainError>) {
        Ok(TodoData::read(self, key))
    }

    fn delete(&mut self, id: &String) -> (r: Result<(), DomainError>) {
        TodoData::delete(self, id)
    }

    fn list(&self, owner: &String) -> (r: Result<Vec<TodoModel>, DomainError>) {
        Ok(TodoData::list(self, owner))
    }
}

} // verus!
