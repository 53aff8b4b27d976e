//! The records that the service keeps: users and todos.

use vstd::prelude::*;

verus! {

/// An instant in UTC: whole seconds since the Unix epoch and the
/// nanoseconds past that second (below one billion).
#[derive(Debug, PartialEq, Eq, Structural)]
pub struct Timestamp {
    pub secs: i64,
    pub nanos: u32,
}

/// `a` lies no later than `b`.
pub open spec fn ts_le(a: Timestamp, b: Timestamp) -> bool {
    a.secs < b.secs || (a.secs == b.secs && a.nanos <= b.nanos)
}

/// `a` lies strictly earlier than `b`.
pub open spec fn ts_lt(a: Timestamp, b: Timestamp) -> bool {
    a.secs < b.secs || (a.secs == b.secs && a.nanos < b.nanos)
}

impl Timestamp {
    /// Whether `self` lies strictly earlier than `other`.
    pub fn is_before(&self, other: &Timestamp) -> (b: bool)
        ensures
            b == ts_lt(*self, *other),
    {
        self.secs < other.secs || (self.secs == other.secs && self.nanos < other.nanos)
    }
}

impl Clone for Timestamp {
    fn clone(&self) -> (r: Self)
        ensures
            r == *self,
    {
        Timestamp { secs: self.secs, nanos: self.nanos }
    }
}

/// A registered user. `password` holds the PHC string of the password hash;
/// `jwt_id` names the session that the last sign-in opened, if one is open.
#[derive(Debug)]
pub struct UserModel {
    pub account: String,
    pub email: Option<String>,
    pub name: Option<String>,
    pub password: String,
    pub jwt_id: Option<String>,
}

/// A todo entry of the user `owner`.
#[derive(Debug)]
pub struct TodoModel {
    pub id: String,
    pub owner: String,
    pub due_date: Timestamp,
    pub is_done: bool,
    pub title: String,
    pub description: String,
}

pub fn clone_opt_string(s: &Option<String>) -> (r: Option<String>)
    ensures
        r == *s,
{
    match s {
        Some(v) => Some(v.clone()),
        None => None,
    }
}

impl Clone for UserModel {
    fn clone(&self) -> (r: Self)
        ensures
            r == *self,
    {
        UserModel {
            account: self.account.clone(),
            email: clone_opt_string(&self.email),
            name: clone_opt_string(&self.name),
            password: self.password.clone(),
            jwt_id: clone_opt_string(&self.jwt_id),
        }
    }
}

impl Clone for TodoModel {
    fn clone(&self) -> (r: Self)
        ensures
            r == *self,
    {
        TodoModel {
            id: self.id.clone(),
            owner: self.owner.clone(),
            due_date: self.due_date.clone(),
            is_done: self.is_done,
            title: self.title.clone(),
            description: self.description.clone(),
        }
    }
}

/// A record stored under a string key.
pub trait Keyed: Sized {
    spec fn key_view(&self) -> Seq<char>;

    fn key(&self) -> (k: &String)
        ensures
            k@ == self.key_view(),
    ;

    fn duplicate(&self) -> (r: Self)
        ensures
            r == *self,
    ;
}

impl Keyed for UserModel {
    open spec fn key_view(&self) -> Seq<char> {
        self.account@
    }

    fn key(&self) -> (k: &String) {
        &self.account
    }

    fn duplicate(&self) -> (r: Self) {
        self.clone()
    }
}

impl Keyed for TodoModel {
    open spec fn key_view(&self) -> Seq<char> {
        self.id@
    }

    fn key(&self) -> (k: &String) {
        &self.id
    }

    fn duplicate(&self) -> (r: Self) {
        self.clone()
    }
}

} // verus!
