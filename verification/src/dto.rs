//! The requests and responses of the service, with their input checks.

use vstd::prelude::*;
use vstd::string::StrSliceExecFns;
use crate::ids::new_id;
use crate::model::{Timestamp, TodoModel, UserModel, clone_opt_string};
use crate::password;
use crate::report::{FieldError, Param, ValidationErrors, FieldErrorView, value_param, value_param_of};
use crate::validation::{account_rule, is_valid_account, is_valid_password, password_rule};

verus! {

broadcast use vstd::string::group_string_axioms;

/// Whether `s` is an acceptable e-mail address by the `validator` crate's
/// rules (the HTML5 form of the address, with length limits and an
/// internationalized domain part).
pub uninterp spec fn email_ok(s: Seq<char>) -> bool;

/// Calls `validator::ValidateEmail::validate_email` on `s`; the contract
/// names the outcome, which depends on `s` alone.
#[verifier::external_body]
fn validate_email(s: &str) -> (b: bool)
    ensures
        b == email_ok(s@),
{
    validator::ValidateEmail::validate_email(&s)
}

#[derive(Debug)]
pub struct SignupRequestDto {
    pub account: String,
    pub email: Option<String>,
    pub name: Option<String>,
    pub password: String,
    pub confirm_password: String,
}

#[derive(Debug)]
pub struct SigninRequestDto {
    pub account: String,
    pub password: String,
}

#[derive(Debug)]
pub struct PasswardChangeRequestDto {
    pub now_password: String,
    pub password: String,
    pub confirm_password: String,
}

#[derive(Debug)]
pub struct InfoChangeRequestDto {
    pub password: String,
    pub name: Option<String>,
    pub email: Option<String>,
}

#[derive(Debug)]
pub struct AuthResponseDto {
    pub account: String,
    pub email: Option<String>,
    pub name: Option<String>,
    pub token: String,
}

/// The user that a valid token stands for.
#[derive(Debug)]
pub struct AuthUserDto {
    pub account: String,
    pub email: Option<String>,
    pub name: Option<String>,
}

#[derive(Debug)]
pub struct TodoEntryRequestDto {
    pub due_date: Timestamp,
    pub is_done: bool,
    pub title: String,
    pub description: String,
}

#[derive(Debug)]
pub struct TodoReplacceRequestDto {
    pub id: String,
    pub due_date: Timestamp,
    pub is_done: bool,
    pub title: String,
    pub description: String,
}

#[derive(Debug)]
pub struct TodoResponseDto {
    pub id: String,
    pub due_date: Timestamp,
    pub is_done: bool,
    pub title: String,
    pub description: String,
}

/// The code of the error of the account and password checks.
pub open spec fn invalid_value_code() -> Seq<char> {
    "Invalid value."@
}

/// The failure of a custom check of `field` on the value `v`.
pub open spec fn custom_failure(field: Seq<char>, v: Seq<char>) -> FieldErrorView {
    (field, invalid_value_code(), seq![value_param(v)])
}

/// The failures of the account check.
pub open spec fn account_failures(v: Seq<char>) -> Seq<FieldErrorView> {
    if account_rule(v) { Seq::empty() } else { seq![custom_failure("account"@, v)] }
}

/// The failures of the password check of `field`.
pub open spec fn password_failures(field: Seq<char>, v: Seq<char>) -> Seq<FieldErrorView> {
    if password_rule(v) { Seq::empty() } else { seq![custom_failure(field, v)] }
}

/// The failures of the e-mail check; an absent address passes.
pub open spec fn email_failures(v: Option<String>) -> Seq<FieldErrorView> {
    match v {
        Some(e) => if email_ok(e@) { Seq::empty() } else { seq![("email"@, "email"@, seq![value_param(e@)])] },
        None => Seq::empty(),
    }
}

/// The failure of a confirmation that does not repeat the password.
pub open spec fn mismatch_failure() -> FieldErrorView {
    ("confirm_password"@, "password_match"@, Seq::empty())
}

/// The result of the checks for the failures `fs`.
pub open spec fn checked(fs: Seq<FieldErrorView>, r: Result<(), ValidationErrors>) -> bool {
    &&& fs.len() == 0 ==> r is Ok
    &&& fs.len() > 0 ==> (r matches Err(e) && e@ == fs)
}

/// The failures of the field checks of a sign-up request.
pub open spec fn signup_failures(d: SignupRequestDto) -> Seq<FieldErrorView> {
    account_failures(d.account@) + email_failures(d.email) + password_failures("password"@, d.password@)
}

/// The custom check of an account (`Err` with code `Invalid value.` on
/// failure).
pub fn validate_account(s: &str) -> (r: Result<(), FieldError>)
    ensures
        r is Ok <==> account_rule(s@),
        r matches Err(e) ==> e@ == custom_failure("account"@, s@),
{
    if is_valid_account(s) {
        Ok(())
    } else {
        Err(custom_error("account", s))
    }
}

/// The custom check of a password (`Err` with code `Invalid value.` on
/// failure).
pub fn validate_password(s: &str) -> (r: Result<(), FieldError>)
    ensures
        r is Ok <==> password_rule(s@),
        r matches Err(e) ==> e@ == custom_failure("password"@, s@),
{
    if is_valid_password(s) {
        Ok(())
    } else {
        Err(custom_error("password", s))
    }
}

fn custom_error(field: &str, v: &str) -> (r: FieldError)
    ensures
        r@ == custom_failure(field@, v@),
{
    let mut params: Vec<Param> = Vec::new();
    params.push(value_param_of(v));
    let r = FieldError { field: field.to_string(), code: "Invalid value.".to_string(), params };
    assert(r@.2 =~= seq![value_param(v@)]);
    r
}

fn email_check(v: &Option<String>, errors: &mut Vec<FieldError>)
    ensures
        final(errors)@.map_values(|f: FieldError| f@) == old(errors)@.map_values(|f: FieldError| f@) + email_failures(*v),
{
    let ghost before = errors@.map_values(|f: FieldError| f@);
    if let Some(e) = v {
        if !validate_email(e.as_str()) {
            let mut params: Vec<Param> = Vec::new();
            params.push(value_param_of(e.as_str()));
            let f = FieldError { field: "email".to_string(), code: "email".to_string(), params };
            assert(f@.2 =~= seq![value_param(e@)]);
            errors.push(f);
            assert(errors@.map_values(|f: FieldError| f@) =~= before + email_failures(*v));
            return;
        }
    }
    assert(errors@.map_values(|f: FieldError| f@) =~= before + email_failures(*v));
}

fn push_failure(errors: &mut Vec<FieldError>, r: Result<(), FieldError>, fs: Ghost<Seq<FieldErrorView>>)
    requires
        (r is Ok && fs@.len() == 0) || (r matches Err(e) && fs@ == seq![e@]),
    ensures
        final(errors)@.map_values(|f: FieldError| f@) == old(errors)@.map_values(|f: FieldError| f@) + fs@,
{
    let ghost before = errors@.map_values(|f: FieldError| f@);
    match r {
        Ok(()) => {
            assert(errors@.map_values(|f: FieldError| f@) =~= before + fs@);
        },
        Err(e) => {
            errors.push(e);
            assert(errors@.map_values(|f: FieldError| f@) =~= before + fs@);
        },
    }
}

fn finish(errors: Vec<FieldError>, fs: Ghost<Seq<FieldErrorView>>) -> (r: Result<(), ValidationErrors>)
    requires
        errors@.map_values(|f: FieldError| f@) == fs@,
    ensures
        checked(fs@, r),
{
    if errors.len() == 0 {
        Ok(())
    } else {
        Err(ValidationErrors { errors })
    }
}

impl SignupRequestDto {
    /// The field checks: a valid account, a valid e-mail address if one is
    /// given, and a valid password.
    pub fn validate(&self) -> (r: Result<(), ValidationErrors>)
        ensures
            checked(signup_failures(*self), r),
    {
        let mut errors: Vec<FieldError> = Vec::new();
        assert(errors@.map_values(|f: FieldError| f@) =~= Seq::<FieldErrorView>::empty());
        push_failure(&mut errors, validate_account(self.account.as_str()), Ghost(account_failures(self.account@)));
        email_check(&self.email, &mut errors);
        push_failure(&mut errors, validate_password(self.password.as_str()), Ghost(password_failures("password"@, self.password@)));
        assert(Seq::<FieldErrorView>::empty() + account_failures(self.account@) + email_failures(self.email)
            + password_failures("password"@, self.password@) =~= signup_failures(*self));
        finish(errors, Ghost(signup_failures(*self)))
    }

    /// The field checks, then that the confirmation repeats the password.
    pub fn custom_validate(&self) -> (r: Result<(), ValidationErrors>)
        ensures
            signup_failures(*self).len() > 0 ==> checked(signup_failures(*self), r),
            signup_failures(*self).len() == 0 ==> (if self.password@ == self.confirm_password@ {
                r is Ok
            } else {
                r matches Err(e) && e@ == seq![mismatch_failure()]
            }),
    {
        self.validate()?;
        if self.password != self.confirm_password {
            return Err(mismatch_errors());
        }
        Ok(())
    }

    /// The user that signing up with this request creates: the password is
    /// stored as a fresh hash, and no session is open.
    pub fn to_model(&self) -> (r: Result<UserModel, String>)
        ensures
            r matches Ok(u) ==> {
                &&& u.account == self.account
                &&& u.email == self.email
                &&& u.name == self.name
                &&& password::checks_out(self.password@, u.password@)
                &&& u.jwt_id is None
            },
            r matches Err(e) ==> password::hash_error(self.password@, e@),
    {
        let hashed = match password::hash(self.password.clone()) {
            Ok(h) => h,
            Err(e) => {
                return Err(e);
            },
        };
        Ok(UserModel {
            account: self.account.clone(),
            email: clone_opt_string(&self.email),
            name: clone_opt_string(&self.name),
            password: hashed,
            jwt_id: None,
        })
    }
}

fn mismatch_errors() -> (r: ValidationErrors)
    ensures
        r@ == seq![mismatch_failure()],
{
    let mut errors: Vec<FieldError> = Vec::new();
    let f = FieldError { field: "confirm_password".to_string(), code: "password_match".to_string(), params: Vec::new() };
    assert(f@.2 =~= Seq::<(Seq<char>, Seq<char>)>::empty());
    errors.push(f);
    let r = ValidationErrors { errors };
    assert(r@ =~= seq![mismatch_failure()]);
    r
}

impl PasswardChangeRequestDto {
    /// The field check: a valid new password.
    pub fn validate(&self) -> (r: Result<(), ValidationErrors>)
        ensures
            checked(password_failures("password"@, self.password@), r),
    {
        let mut errors: Vec<FieldError> = Vec::new();
        assert(errors@.map_values(|f: FieldError| f@) =~= Seq::<FieldErrorView>::empty());
        push_failure(&mut errors, validate_password(self.password.as_str()), Ghost(password_failures("password"@, self.password@)));
        assert(Seq::<FieldErrorView>::empty() + password_failures("password"@, self.password@)
            =~= password_failures("password"@, self.password@));
        finish(errors, Ghost(password_failures("password"@, self.password@)))
    }

    /// The field check, then that the confirmation repeats the new password.
    pub fn custom_validate(&self) -> (r: Result<(), ValidationErrors>)
        ensures
            !password_rule(self.password@) ==> checked(password_failures("password"@, self.password@), r),
            password_rule(self.password@) ==> (if self.password@ == self.confirm_password@ {
                r is Ok
            } else {
                r matches Err(e) && e@ == seq![mismatch_failure()]
            }),
    {
        self.validate()?;
        if self.password != self.confirm_password {
            return Err(mismatch_errors());
        }
        Ok(())
    }
}

impl InfoChangeRequestDto {
    /// The field check: a valid e-mail address if one is given.
    pub fn validate(&self) -> (r: Result<(), ValidationErrors>)
        ensures
            checked(email_failures(self.email), r),
    {
        let mut errors: Vec<FieldError> = Vec::new();
        assert(errors@.map_values(|f: FieldError| f@) =~= Seq::<FieldErrorView>::empty());
        email_check(&self.email, &mut errors);
        assert(Seq::<FieldErrorView>::empty() + email_failures(self.email) =~= email_failures(self.email));
        finish(errors, Ghost(email_failures(self.email)))
    }
}

impl AuthUserDto {
    /// The public part of a user.
    pub fn from_user(user: UserModel) -> (r: AuthUserDto)
        ensures
            r.account == user.account,
            r.email == user.email,
            r.name == user.name,
    {
        AuthUserDto { account: user.account, email: user.email, name: user.name }
    }
}

impl TodoEntryRequestDto {
    /// A new todo of `owner` with a fresh random id.
    pub fn to_model(&self, owner: String) -> (r: TodoModel)
        ensures
            r.id@.len() == 25,
            forall|i: int| 0 <= i < 25 ==> ('0' <= #[trigger] r.id@[i] <= '9' || 'a' <= r.id@[i] <= 'z'),
            r.owner == owner,
            r.due_date == self.due_date,
            r.is_done == self.is_done,
            r.title == self.title,
            r.description == self.description,
    {
        TodoModel {
            id: new_id(),
            owner,
            due_date: self.due_date.clone(),
            is_done: self.is_done,
            title: self.title.clone(),
            description: self.description.clone(),
        }
    }
}

impl TodoReplacceRequestDto {
    /// The todo `id` of `owner` as this request describes it.
    pub fn to_model(&self, owner: String) -> (r: TodoModel)
        ensures
            r.id == self.id,
            r.owner == owner,
            r.due_date == self.due_date,
            r.is_done == self.is_done,
            r.title == self.title,
            r.description == self.description,
    {
        TodoModel {
            id: self.id.clone(),
            owner,
            due_date: self.due_date.clone(),
            is_done: self.is_done,
            title: self.title.clone(),
            description: self.description.clone(),
        }
    }
}

impl TodoResponseDto {
    /// The response that shows `model`.
    pub fn from_model(model: TodoModel) -> (r: TodoResponseDto)
        ensures
            r.id == model.id,
            r.due_date == model.due_date,
            r.is_done == model.is_done,
            r.title == model.title,
            r.description == model.description,
    {
        TodoResponseDto {
            id: model.id,
            due_date: model.due_date,
            is_done: model.is_done,
            title: model.title,
            description: model.description,
        }
    }
}

/// The failure of a length check of `field` on `v`, which must hold
/// `min..=max` characters; `min_text` and `max_text` are the bounds as
/// JSON values in `Debug` notation.
pub open spec fn length_failures(field: Seq<char>, v: Seq<char>, min: int, max: int, min_text: Seq<char>, max_text: Seq<char>) -> Seq<FieldErrorView> {
    if min <= v.len() <= max {
        Seq::empty()
    } else {
        seq![(field, "length"@, seq![("min"@, min_text), ("max"@, max_text), value_param(v)])]
    }
}

/// The failures of the title and description checks.
pub open spec fn entry_failures(title: Seq<char>, description: Seq<char>) -> Seq<FieldErrorView> {
    length_failures("title"@, title, 1, 300, "Number(1)"@, "Number(300)"@)
        + length_failures("description"@, description, 1, 3000, "Number(1)"@, "Number(3000)"@)
}

/// The failures of the id, title and description checks.
pub open spec fn replace_failures(d: TodoReplacceRequestDto) -> Seq<FieldErrorView> {
    length_failures("id"@, d.id@, 1, 32, "Number(1)"@, "Number(32)"@)
        + entry_failures(d.title@, d.description@)
}

fn length_check(
    field: &str,
    v: &str,
    min: usize,
    max: usize,
    min_text: &str,
    max_text: &str,
    errors: &mut Vec<FieldError>,
)
    ensures
        final(errors)@.map_values(|f: FieldError| f@) == old(errors)@.map_values(|f: FieldError| f@)
            + length_failures(field@, v@, min as int, max as int, min_text@, max_text@),
{
    let ghost before = errors@.map_values(|f: FieldError| f@);
    let n = v.unicode_len();
    if n < min || n > max {
        let mut params: Vec<Param> = Vec::new();
        params.push(Param { name: "min".to_string(), value: min_text.to_string() });
        params.push(Param { name: "max".to_string(), value: max_text.to_string() });
        params.push(value_param_of(v));
        let f = FieldError { field: field.to_string(), code: "length".to_string(), params };
        assert(f@.2 =~= seq![("min"@, min_text@), ("max"@, max_text@), value_param(v@)]);
        errors.push(f);
    }
    assert(errors@.map_values(|f: FieldError| f@) =~= before
        + length_failures(field@, v@, min as int, max as int, min_text@, max_text@));
}

impl TodoEntryRequestDto {
    /// The field checks: a title of 1 to 300 characters and a description
    /// of 1 to 3000 characters.
    pub fn validate(&self) -> (r: Result<(), ValidationErrors>)
        ensures
            checked(entry_failures(self.title@, self.description@), r),
    {
        let mut errors: Vec<FieldError> = Vec::new();
        assert(errors@.map_values(|f: FieldError| f@) =~= Seq::<FieldErrorView>::empty());
        length_check("title", self.title.as_str(), 1, 300, "Number(1)", "Number(300)", &mut errors);
        length_check("description", self.description.as_str(), 1, 3000, "Number(1)", "Number(3000)", &mut errors);
        assert(errors@.map_values(|f: FieldError| f@) =~= entry_failures(self.title@, self.description@));
        finish(errors, Ghost(entry_failures(self.title@, self.description@)))
    }
}

impl TodoReplacceRequestDto {
    /// The field checks: an id of 1 to 32 characters, a title of 1 to 300
    /// characters and a description of 1 to 3000 characters.
    pub fn validate(&self) -> (r: Result<(), ValidationErrors>)
        ensures
            checked(replace_failures(*self), r),
    {
        let mut errors: Vec<FieldError> = Vec::new();
        assert(errors@.map_values(|f: FieldError| f@) =~= Seq::<FieldErrorView>::empty());
        length_check("id", self.id.as_str(), 1, 32, "Number(1)", "Number(32)", &mut errors);
        length_check("title", self.title.as_str(), 1, 300, "Number(1)", "Number(300)", &mut errors);
        length_check("description", self.description.as_str(), 1, 3000, "Number(1)", "Number(3000)", &mut errors);
        assert(errors@.map_values(|f: FieldError| f@) =~= replace_failures(*self));
        finish(errors, Ghost(replace_failures(*self)))
    }
}

} // verus!
