//! The use cases of the service, held together.

use vstd::prelude::*;
use crate::auth::AuthUseCase;
use crate::config::SecurityConfig;
use crate::store::{TodoData, UserData};
use crate::todo::TodoUseCase;

verus! {

pub struct ApplicationsImpl {
    pub auth: AuthUseCase,
    pub todo: TodoUseCase,
}

impl ApplicationsImpl {
    pub fn new(users: UserData, todos: TodoData, security: SecurityConfig) -> (r: Self)
        ensures
            r.auth.users == users,
            r.auth.security == security,
            r.todo.todos == todos,
    {
        ApplicationsImpl { auth: AuthUseCase::new(users, security), todo: TodoUseCase::new(todos) }
    }

    pub fn auth(&self) -> (r: &AuthUseCase)
        ensures
            *r == self.auth,
    {
        &self.auth
    }

    pub fn todo(&self) -> (r: &TodoUseCase)
        ensures
            *r == self.todo,
    {
        &self.todo
    }
}

} // verus!
