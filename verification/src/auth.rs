//! Accounts and sessions: sign-up, sign-in, token checks, sign-out, and
//! changes of password and profile.

use vstd::prelude::*;
use crate::config::SecurityConfig;
use crate::dto::{
    AuthResponseDto, AuthUserDto, InfoChangeRequestDto, PasswardChangeRequestDto, SigninRequestDto,
    SignupRequestDto, email_failures, mismatch_failure, password_failures, signup_failures,
};
use crate::error::{AppError, DomainError};
use crate::ids::new_id;
use crate::jwt;
use crate::model::UserModel;
use crate::password::{self, argon2_check, checks_out};
use crate::report::{FieldErrorView, errors_text};
use crate::store::{UserData, lemma_keys_match};
use crate::text::{concat_str, owned};
use crate::validation::password_rule;

verus! {

broadcast use vstd::string::group_string_axioms;

/// The reason given for a failed sign-in or a refused credential.
pub open spec fn incorrect_credentials() -> Seq<char> {
    "Incorrect account or password."@
}

/// The reason given for a token that opens no session.
pub open spec fn invalid_token() -> Seq<char> {
    "Invalid token"@
}

/// Why a sign-up request is refused before any account is looked at.
pub open spec fn signup_rejection(d: SignupRequestDto) -> Option<Seq<FieldErrorView>> {
    if signup_failures(d).len() > 0 {
        Some(signup_failures(d))
    } else if d.password@ != d.confirm_password@ {
        Some(seq![mismatch_failure()])
    } else {
        None
    }
}

/// Why a password change is refused before any account is looked at.
pub open spec fn password_change_rejection(d: PasswardChangeRequestDto) -> Option<Seq<FieldErrorView>> {
    if !password_rule(d.password@) {
        Some(password_failures("password"@, d.password@))
    } else if d.password@ != d.confirm_password@ {
        Some(seq![mismatch_failure()])
    } else {
        None
    }
}

/// `r` is a `BadRequest` that reports the failures `fs`.
pub open spec fn reports(r: Result<(), AppError>, fs: Seq<FieldErrorView>) -> bool {
    r matches Err(AppError::BadRequest(m)) && m@ == errors_text(fs)
}

/// `r` is an `Unauthorized` error with the reason `reason`.
pub open spec fn unauthorized<T>(r: Result<T, AppError>, reason: Seq<char>) -> bool {
    r matches Err(AppError::Unauthorized(m)) && m@ == reason
}

/// `r` is an `Unexpected` error.
pub open spec fn unexpected<T>(r: Result<T, AppError>) -> bool {
    r matches Err(AppError::Unexpected(_))
}

/// `u` is the user that the sign-up request `d` creates.
pub open spec fn signed_up_user(d: SignupRequestDto, u: UserModel) -> bool {
    &&& u.account == d.account
    &&& u.email == d.email
    &&& u.name == d.name
    &&& checks_out(d.password@, u.password@)
    &&& u.jwt_id is None
}

/// The user `u` with the session `jwt_id`.
pub open spec fn with_session(u: UserModel, jwt_id: Option<String>) -> UserModel {
    UserModel { jwt_id, ..u }
}

/// The user that the token claims `(account, session id)` stand for, if a
/// session of that user with that id is open in `users`.
pub open spec fn session_user(users: Map<Seq<char>, UserModel>, account: Seq<char>, jti: Seq<char>) -> Option<UserModel> {
    if users.contains_key(account) && (users[account].jwt_id matches Some(j) && j@ == jti) {
        Some(users[account])
    } else {
        None
    }
}

/// `d` shows the user `u`.
pub open spec fn shows(d: AuthUserDto, u: UserModel) -> bool {
    d.account == u.account && d.email == u.email && d.name == u.name
}

/// The password of `dto` checks out for its account in `users`.
pub open spec fn password_opens(users: Map<Seq<char>, UserModel>, dto: SigninRequestDto) -> bool {
    users.contains_key(dto.account@) && checks_out(dto.password@, users[dto.account@].password@)
}

/// The validity period of tokens fits a time span.
pub open spec fn jwt_minutes_ok(sec: SecurityConfig) -> bool {
    -jwt::MAX_DELTA_MINUTES <= sec.jwt_expires_minutes <= jwt::MAX_DELTA_MINUTES
}

/// At the instant `now`, `token` passes the checks with the issuer and key of
/// `sec`, and its claims name a session that is open in `users`.
pub open spec fn opens_session_at(
    token: Seq<char>,
    sec: SecurityConfig,
    users: Map<Seq<char>, UserModel>,
    now: i64,
) -> bool {
    &&& jwt::jwt_decodes(token, sec.jwt_issuer@, sec.jwt_secret@)
    &&& jwt::claims_outcome_at(jwt::jwt_claims(token), now) is Ok
    &&& session_user(
        users,
        jwt::claims_outcome_at(jwt::jwt_claims(token), now)->Ok_0.0,
        jwt::claims_outcome_at(jwt::jwt_claims(token), now)->Ok_0.1,
    ) is Some
}

/// `token` carries the issuer of `sec` and is signed with its key.
pub open spec fn token_accepted(token: Seq<char>, sec: SecurityConfig) -> bool {
    jwt::jwt_claims(token).1 == Some(sec.jwt_issuer@) && jwt::jwt_signed(token, sec.jwt_secret@)
}

/// The answer `resp` to a sign-in of `u` with the settings `sec`, and the
/// users `after` that it leaves from `before`: the user's data, a new
/// session id of 25 characters recorded for the user, and a token for that
/// session that carries the account and the session id, is issued by `sec`
/// and signed with its key.
pub open spec fn signed_in(
    before: Map<Seq<char>, UserModel>,
    after: Map<Seq<char>, UserModel>,
    sec: SecurityConfig,
    u: UserModel,
    resp: AuthResponseDto,
) -> bool {
    let m = sec.jwt_expires_minutes;
    &&& resp.account == u.account
    &&& resp.email == u.email
    &&& resp.name == u.name
    &&& after.dom() == before.dom()
    &&& after.contains_key(u.account@)
    &&& after[u.account@].jwt_id is Some
    &&& after[u.account@].jwt_id->0@.len() == 25
    &&& after == before.insert(u.account@, with_session(u, after[u.account@].jwt_id))
    &&& jwt::claims_outcome(jwt::jwt_claims(resp.token@)) == Ok::<(Seq<char>, Seq<char>), Seq<char>>(
        (u.account@, after[u.account@].jwt_id->0@),
    )
    &&& token_accepted(resp.token@, sec)
    &&& exists|iat: i64| #![trigger jwt::jwt_token(u.account@, sec.jwt_issuer@, iat, (iat + 60 * m) as i64, after[u.account@].jwt_id->0@, sec.jwt_secret@)]
        resp.token@ == jwt::jwt_token(
            u.account@,
            sec.jwt_issuer@,
            iat,
            (iat + 60 * m) as i64,
            after[u.account@].jwt_id->0@,
            sec.jwt_secret@,
        ) && iat + 60 * m == (iat + 60 * m) as i64 && jwt::jwt_claims(resp.token@) == jwt::issued_claims(
            u.account@,
            sec.jwt_issuer@,
            iat,
            (iat + 60 * m) as i64,
            after[u.account@].jwt_id->0@,
        ) && (iat + 60 * m >= 0 ==> jwt::jwt_decodes(resp.token@, sec.jwt_issuer@, sec.jwt_secret@))
}

/// What a sign-in with `dto` answers (`r`) and does to the use case
/// `before`, leaving `after`.
pub open spec fn signin_answer(
    before: AuthUseCase,
    after: AuthUseCase,
    dto: SigninRequestDto,
    r: Result<AuthResponseDto, AppError>,
) -> bool {
    let users = before.users@;
    &&& after.security == before.security
    &&& r is Err ==> after.users@ == users
    &&& r is Err ==> after.users.dirty_spec() == before.users.dirty_spec()
    &&& r is Ok ==> after.users.dirty_spec()
    &&& !users.contains_key(dto.account@) ==> unauthorized(r, incorrect_credentials())
    &&& users.contains_key(dto.account@) ==> {
        let u = users[dto.account@];
        &&& u.account@ == dto.account@
        &&& argon2_check(dto.password@, u.password@) == Ok::<bool, Seq<char>>(false)
            ==> unauthorized(r, incorrect_credentials())
        &&& argon2_check(dto.password@, u.password@) matches Err(e)
            ==> (r matches Err(AppError::Unexpected(m)) && m@ == e)
        &&& checks_out(dto.password@, u.password@) ==> (r is Ok || (r matches Err(AppError::Unexpected(m))
            && m@ == jwt::overflow_message()))
        &&& r matches Ok(resp) ==> checks_out(dto.password@, u.password@)
            && signed_in(users, after.users@, before.security, u, resp)
    }
}

/// What a sign-up with `dto` answers (`r`) and leaves (`after`) of the users
/// `before`: a refused request is reported; a taken account gets the wrong
/// account or password answer; a free account is stored with a hash that
/// checks out; and the one other failure is hashing the password, with one
/// of its errors.
pub open spec fn signup_answer(
    before: Map<Seq<char>, UserModel>,
    after: Map<Seq<char>, UserModel>,
    dto: SignupRequestDto,
    r: Result<(), AppError>,
) -> bool {
    &&& r is Err ==> after == before
    &&& signup_rejection(dto) matches Some(fs) ==> reports(r, fs)
    &&& r matches Err(AppError::Unexpected(m)) ==> password::hash_error(dto.password@, m@)
    &&& signup_rejection(dto) is None && before.contains_key(dto.account@) ==> (taken_account(r) || unexpected(r))
    &&& signup_rejection(dto) is None && !before.contains_key(dto.account@) ==> (r is Ok || unexpected(r))
    &&& r is Ok ==> exists|u: UserModel| #[trigger] signed_up_user(dto, u) && after == before.insert(dto.account@, u)
}

/// What a password change of `account` with `dto` answers (`r`) and leaves
/// (`after`) of the users `before`: a refused request is reported, an
/// unknown account or a wrong current password gets the wrong account or
/// password answer, a failed check of the current password its error, and
/// otherwise the account keeps everything but its hash, which then checks
/// out against the new password; the one other failure is hashing the new
/// password, with one of its errors.
pub open spec fn password_change_answer(
    before: Map<Seq<char>, UserModel>,
    after: Map<Seq<char>, UserModel>,
    dto: PasswardChangeRequestDto,
    account: Seq<char>,
    r: Result<(), AppError>,
) -> bool {
    &&& r is Err ==> after == before
    &&& password_change_rejection(dto) matches Some(fs) ==> reports(r, fs)
    &&& password_change_rejection(dto) is None && !before.contains_key(account) ==> unauthorized(r, incorrect_credentials())
    &&& password_change_rejection(dto) is None && before.contains_key(account) ==> {
        let u = before[account];
        &&& argon2_check(dto.now_password@, u.password@) == Ok::<bool, Seq<char>>(false)
            ==> unauthorized(r, incorrect_credentials())
        &&& argon2_check(dto.now_password@, u.password@) matches Err(e)
            ==> (r matches Err(AppError::Unexpected(m)) && m@ == e)
        &&& checks_out(dto.now_password@, u.password@)
            ==> (r is Ok || (r matches Err(AppError::Unexpected(m)) && password::hash_error(dto.password@, m@)))
    }
    &&& r is Ok ==> {
        let u = before[account];
        &&& before.contains_key(account)
        &&& checks_out(dto.now_password@, u.password@)
        &&& after == before.insert(account, UserModel { password: after[account].password, ..u })
        &&& checks_out(dto.password@, after[account].password@)
    }
}

/// The sign-up, sign-in and session rules over the store of users.
pub struct AuthUseCase {
    pub users: UserData,
    pub security: SecurityConfig,
}

fn incorrect() -> (r: AppError)
    ensures
        (r matches AppError::Unauthorized(m) && m@ == incorrect_credentials()),
{
    AppError::Unauthorized(owned("Incorrect account or password."))
}

fn invalid() -> (r: AppError)
    ensures
        (r matches AppError::Unauthorized(m) && m@ == invalid_token()),
{
    AppError::Unauthorized(owned("Invalid token"))
}

impl AuthUseCase {
    pub fn new(users: UserData, security: SecurityConfig) -> (r: Self)
        ensures
            r.users == users,
            r.security == security,
    {
        AuthUseCase { users, security }
    }

    /// Creates the account of `dto` if the request is valid and the account
    /// is free. A taken account is reported as a wrong account or password.
    pub fn signup(&mut self, dto: SignupRequestDto) -> (r: Result<(), AppError>)
        ensures
            r is Err ==> final(self).users.dirty_spec() == old(self).users.dirty_spec(),
            r is Ok ==> final(self).users.dirty_spec(),
            final(self).security == old(self).security,
            r is Err ==> final(self).users@ == old(self).users@,
            signup_rejection(dto) matches Some(fs) ==> reports(r, fs),
            signup_rejection(dto) is None && old(self).users@.contains_key(dto.account@) ==> (
                taken_account(r) || unexpected(r)),
            signup_rejection(dto) is None && !old(self).users@.contains_key(dto.account@) ==> (
                r is Ok || unexpected(r)),
            r is Ok ==> exists|u: UserModel| #[trigger] signed_up_user(dto, u)
                && final(self).users@ == old(self).users@.insert(dto.account@, u),
            signup_answer(old(self).users@, final(self).users@, dto, r),
    {
        match dto.custom_validate() {
            Ok(()) => {},
            Err(errors) => {
                return Err(AppError::BadRequest(errors.message()));
            },
        }
        let model = match dto.to_model() {
            Ok(m) => m,
            Err(e) => {
                return Err(AppError::Unexpected(e));
            },
        };
        let ghost u = model;
        let r = self.register(model);
        proof {
            if r is Ok {
                assert(signed_up_user(dto, u));
            }
        }
        r
    }

    /// Stores the new user `model` if its account is free; a taken account
    /// is reported as a wrong account or password, and nothing changes.
    pub fn register(&mut self, model: UserModel) -> (r: Result<(), AppError>)
        ensures
            r is Err ==> final(self).users.dirty_spec() == old(self).users.dirty_spec(),
            r is Ok ==> final(self).users.dirty_spec(),
            final(self).security == old(self).security,
            old(self).users@.contains_key(model.account@) ==> taken_account(r) && final(self).users@ == old(self).users@,
            !old(self).users@.contains_key(model.account@) ==> r is Ok
                && final(self).users@ == old(self).users@.insert(model.account@, model),
    {
        match self.users.create(model) {
            Ok(_) => Ok(()),
            Err(DomainError::Conflict(_)) => Err(AppError::BadRequest(owned("Incorrect account or password."))),
            Err(e) => Err(AppError::from_domain(e)),
        }
    }

    /// Opens a new session for the account of `dto` if the password checks
    /// out, and gives a token for it. A token's validity period must fit a
    /// time span where the password checks out (see `try_signin`).
    pub fn signin(&mut self, dto: SigninRequestDto) -> (r: Result<AuthResponseDto, AppError>)
        requires
            password_opens(old(self).users@, dto) ==> jwt_minutes_ok(old(self).security),
        ensures
            signin_answer(*old(self), *final(self), dto, r),
    {
        let ghost u0 = self.users@[dto.account@];
        proof {
            lemma_keys_match(self.users, dto.account@);
        }
        let user = match self.users.read(&dto.account) {
            Some(u) => u,
            None => {
                return Err(incorrect());
            },
        };
        match password::verify(dto.password, user.password.clone()) {
            Ok(true) => {},
            Ok(false) => {
                return Err(incorrect());
            },
            Err(e) => {
                return Err(AppError::Unexpected(e));
            },
        }
        let jwt_id = new_id();
        let ghost jid = jwt_id;
        let token = match jwt::generate(
            user.account.clone(),
            self.security.jwt_issuer.clone(),
            self.security.jwt_expires_minutes,
            jwt_id.clone(),
            self.security.jwt_secret.clone(),
        ) {
            Ok(t) => t,
            Err(e) => {
                return Err(AppError::Unexpected(e));
            },
        };
        let ghost tok = token;
        let r = self.open_session(user, jwt_id, token);
        proof {
            assert(self.users@[dto.account@] == with_session(u0, Some(jid)));
            assert(self.users@.dom() =~= old(self).users@.dom());
            let m = self.security.jwt_expires_minutes;
            let iat = choose|iat: i64| #![trigger jwt::jwt_token(u0.account@, self.security.jwt_issuer@, iat, (iat + 60 * m) as i64, jid@, self.security.jwt_secret@)]
                tok@ == jwt::jwt_token(u0.account@, self.security.jwt_issuer@, iat, (iat + 60 * m) as i64, jid@, self.security.jwt_secret@)
                && iat + 60 * m == (iat + 60 * m) as i64
                && jwt::jwt_claims(tok@) == jwt::issued_claims(u0.account@, self.security.jwt_issuer@, iat, (iat + 60 * m) as i64, jid@)
                && (iat + 60 * m >= 0 ==> jwt::jwt_decodes(tok@, self.security.jwt_issuer@, self.security.jwt_secret@));
            assert(tok@ == jwt::jwt_token(u0.account@, self.security.jwt_issuer@, iat, (iat + 60 * m) as i64, self.users@[dto.account@].jwt_id->0@, self.security.jwt_secret@));
            assert(jwt::claims_outcome(jwt::jwt_claims(tok@)) == Ok::<(Seq<char>, Seq<char>), Seq<char>>((u0.account@, jid@)));
            assert(jwt::jwt_claims(tok@) == jwt::issued_claims(u0.account@, self.security.jwt_issuer@, iat, (iat + 60 * m) as i64, self.users@[dto.account@].jwt_id->0@));
        }
        r
    }

    /// Records the session `jwt_id` for `user`, whose account must be
    /// stored, and answers with the user's account, e-mail address, name
    /// and `token`.
    pub fn open_session(&mut self, user: UserModel, jwt_id: String, token: String) -> (r: Result<AuthResponseDto, AppError>)
        ensures
            r is Err ==> final(self).users.dirty_spec() == old(self).users.dirty_spec(),
            r is Ok ==> final(self).users.dirty_spec(),
            final(self).security == old(self).security,
            old(self).users@.contains_key(user.account@) ==> {
                &&& r == Ok::<AuthResponseDto, AppError>(AuthResponseDto {
                    account: user.account,
                    email: user.email,
                    name: user.name,
                    token,
                })
                &&& final(self).users@ == old(self).users@.insert(user.account@, with_session(user, Some(jwt_id)))
            },
            !old(self).users@.contains_key(user.account@) ==> unexpected(r) && final(self).users@ == old(self).users@,
    {
        let mut user = user;
        user.jwt_id = Some(jwt_id);
        match self.users.update(user) {
            Ok(u) => Ok(AuthResponseDto { account: u.account, email: u.email, name: u.name, token }),
            Err(e) => Err(AppError::Unexpected(e.message())),
        }
    }

    /// Signs in as `signin` does where that is defined: `None`, with nothing
    /// changed, where the password checks out but the validity period of
    /// tokens does not fit a time span.
    pub fn try_signin(&mut self, dto: SigninRequestDto) -> (r: Option<Result<AuthResponseDto, AppError>>)
        ensures
            r is None <==> password_opens(old(self).users@, dto) && !jwt_minutes_ok(old(self).security),
            r is None ==> *final(self) == *old(self),
            r matches Some(x) ==> signin_answer(*old(self), *final(self), dto, x),
    {
        if -jwt::MAX_DELTA_MINUTES <= self.security.jwt_expires_minutes
            && self.security.jwt_expires_minutes <= jwt::MAX_DELTA_MINUTES {
            return Some(self.signin(dto));
        }
        let opens = match self.users.read(&dto.account) {
            Some(u) => match password::verify(dto.password.clone(), u.password.clone()) {
                Ok(b) => b,
                Err(_) => false,
            },
            None => false,
        };
        proof {
            lemma_keys_match(self.users, dto.account@);
        }
        if opens {
            None
        } else {
            Some(self.signin(dto))
        }
    }

    /// The user whose open session the token claims `claims` name, where
    /// `claims` is the outcome of checking a token.
    pub fn authenticate_claims(&self, claims: Result<(String, String), String>) -> (r: Result<AuthUserDto, AppError>)
        ensures
            claims is Err ==> unauthorized(r, invalid_token()),
            claims matches Ok((a, j)) ==> match session_user(self.users@, a@, j@) {
                Some(u) => (r matches Ok(d) && shows(d, u)),
                None => unauthorized(r, invalid_token()),
            },
    {
        let (account, jwt_id) = match claims {
            Ok(c) => c,
            Err(_) => {
                return Err(invalid());
            },
        };
        proof {
            lemma_keys_match(self.users, account@);
        }
        let user = match self.users.read(&account) {
            Some(u) => u,
            None => {
                return Err(invalid());
            },
        };
        let open = match &user.jwt_id {
            Some(j) => j.eq(&jwt_id),
            None => false,
        };
        if !open {
            return Err(invalid());
        }
        Ok(AuthUserDto::from_user(user))
    }

    /// The user whose open session `token` names. Whether a token passes the
    /// signature, issuer and expiry checks depends on the time of the call;
    /// what follows is `authenticate_claims`.
    pub fn authenticate(&self, token: String) -> (r: Result<AuthUserDto, AppError>)
        ensures
            r is Err ==> unauthorized(r, invalid_token()),
            r matches Ok(d) ==> match jwt::claims_outcome(jwt::jwt_claims(token@)) {
                Ok((a, j)) => session_user(self.users@, a, j) matches Some(u) && shows(d, u),
                Err(_) => false,
            },
            r is Ok ==> token_accepted(token@, self.security),
            r matches Ok(d) ==> self.users@.contains_key(d.account@)
                && self.users@[d.account@].jwt_id is Some
                && shows(d, self.users@[d.account@]),
            exists|now: i64|
                #![trigger jwt::claims_outcome_at(jwt::jwt_claims(token@), now)]
                0 <= now <= jwt::MAX_UTC_TS && (r is Ok <==> opens_session_at(token@, self.security, self.users@, now)),
    {
        let ghost t = token@;
        let claims = jwt::verify(token, self.security.jwt_issuer.clone(), self.security.jwt_secret.clone());
        let ghost c = claims;
        let r = self.authenticate_claims(claims);
        proof {
            if let Ok((a, j)) = c {
                lemma_keys_match(self.users, a@);
            }
            let now = choose|now: i64|
                #![trigger jwt::claims_outcome_at(jwt::jwt_claims(t), now)]
                0 <= now <= jwt::MAX_UTC_TS
                    && (c is Ok <==> jwt::jwt_decodes(t, self.security.jwt_issuer@, self.security.jwt_secret@)
                        && jwt::claims_outcome_at(jwt::jwt_claims(t), now) is Ok)
                    && (c is Ok ==> jwt::outcome_view(c) == jwt::claims_outcome_at(jwt::jwt_claims(t), now));
            assert(0 <= now <= jwt::MAX_UTC_TS && (r is Ok <==> opens_session_at(t, self.security, self.users@, now)));
        }
        r
    }

    /// Closes the session that the token claims `claims` name, if it is
    /// open; a token that opens no session is ignored.
    pub fn signout_claims(&mut self, claims: Result<(String, String), String>) -> (r: Result<(), AppError>)
        ensures
            final(self).users.dirty_spec() == (old(self).users.dirty_spec() || final(self).users@ != old(self).users@),
            r is Ok,
            final(self).security == old(self).security,
            match claims {
                Ok((a, j)) => match session_user(old(self).users@, a@, j@) {
                    Some(u) => final(self).users@ == old(self).users@.insert(a@, with_session(u, None)),
                    None => final(self).users@ == old(self).users@,
                },
                Err(_) => final(self).users@ == old(self).users@,
            },
    {
        let ghost c = claims;
        let dto = match self.authenticate_claims(claims) {
            Ok(d) => d,
            Err(_) => {
                return Ok(());
            },
        };
        proof {
            if let Ok((a, j)) = c {
                lemma_keys_match(self.users, a@);
                assert(dto.account@ == a@);
            }
        }
        if let Some(mut user) = self.users.read(&dto.account) {
            user.jwt_id = None;
            let _ = self.users.update(user);
        }
        Ok(())
    }

    /// Closes the session that `token` names, if it is open. A token whose
    /// claims are incomplete, or name no open session, changes nothing; one
    /// whose claims name an open session closes that session when it passes
    /// the signature, issuer and expiry checks, which depend on the time of
    /// the call (see `authenticate`); what follows is `signout_claims`.
    pub fn signout(&mut self, token: String) -> (r: Result<(), AppError>)
        ensures
            final(self).users.dirty_spec() == (old(self).users.dirty_spec() || final(self).users@ != old(self).users@),
            r is Ok,
            final(self).security == old(self).security,
            match jwt::claims_outcome(jwt::jwt_claims(token@)) {
                Ok((a, j)) => match session_user(old(self).users@, a, j) {
                    Some(u) => final(self).users@ == old(self).users@
                        || final(self).users@ == old(self).users@.insert(a, with_session(u, None)),
                    None => final(self).users@ == old(self).users@,
                },
                Err(_) => final(self).users@ == old(self).users@,
            },
            final(self).users@ != old(self).users@ ==> token_accepted(token@, old(self).security),
            exists|now: i64|
                #![trigger jwt::claims_outcome_at(jwt::jwt_claims(token@), now)]
                0 <= now <= jwt::MAX_UTC_TS && (final(self).users@ != old(self).users@
                    <==> opens_session_at(token@, old(self).security, old(self).users@, now)),
    {
        let ghost t = token@;
        let claims = jwt::verify(token, self.security.jwt_issuer.clone(), self.security.jwt_secret.clone());
        let ghost c = claims;
        let r = self.signout_claims(claims);
        proof {
            let now = choose|now: i64|
                #![trigger jwt::claims_outcome_at(jwt::jwt_claims(t), now)]
                0 <= now <= jwt::MAX_UTC_TS
                    && (c is Ok <==> jwt::jwt_decodes(t, self.security.jwt_issuer@, self.security.jwt_secret@)
                        && jwt::claims_outcome_at(jwt::jwt_claims(t), now) is Ok)
                    && (c is Ok ==> jwt::outcome_view(c) == jwt::claims_outcome_at(jwt::jwt_claims(t), now));
            if let Ok((a, j)) = c {
                if let Some(u) = session_user(old(self).users@, a@, j@) {
                    assert(self.users@[a@].jwt_id is None);
                    assert(old(self).users@[a@].jwt_id is Some);
                    assert(self.users@ != old(self).users@);
                }
            }
            assert(0 <= now <= jwt::MAX_UTC_TS && (self.users@ != old(self).users@
                <==> opens_session_at(t, old(self).security, old(self).users@, now)));
        }
        r
    }

    /// Replaces the password of `account` if the request is valid and the
    /// current password checks out.
    pub fn password_change(&mut self, dto: PasswardChangeRequestDto, account: &String) -> (r: Result<(), AppError>)
        ensures
            r is Err ==> final(self).users.dirty_spec() == old(self).users.dirty_spec(),
            r is Ok ==> final(self).users.dirty_spec(),
            final(self).security == old(self).security,
            r is Err ==> final(self).users@ == old(self).users@,
            password_change_rejection(dto) matches Some(fs) ==> reports(r, fs),
            password_change_rejection(dto) is None ==> {
                &&& !old(self).users@.contains_key(account@) ==> unauthorized(r, incorrect_credentials())
                &&& old(self).users@.contains_key(account@) ==> {
                    let u = old(self).users@[account@];
                    &&& argon2_check(dto.now_password@, u.password@) == Ok::<bool, Seq<char>>(false)
                        ==> unauthorized(r, incorrect_credentials())
                    &&& argon2_check(dto.now_password@, u.password@) matches Err(e)
                        ==> (r matches Err(AppError::Unexpected(m)) && m@ == e)
                    &&& argon2_check(dto.now_password@, u.password@) == Ok::<bool, Seq<char>>(true)
                        ==> r is Ok || unexpected(r)
                }
            },
            password_change_answer(old(self).users@, final(self).users@, dto, account@, r),
            r is Ok ==> {
                let u = old(self).users@[account@];
                &&& old(self).users@.contains_key(account@)
                &&& checks_out(dto.now_password@, u.password@)
                &&& final(self).users@ == old(self).users@.insert(
                    account@,
                    UserModel { password: final(self).users@[account@].password, ..u },
                )
                &&& checks_out(dto.password@, final(self).users@[account@].password@)
            },
    {
        match dto.custom_validate() {
            Ok(()) => {},
            Err(errors) => {
                return Err(AppError::BadRequest(errors.message()));
            },
        }
        proof {
            lemma_keys_match(self.users, account@);
        }
        let mut user = match self.users.read(account) {
            Some(u) => u,
            None => {
                return Err(incorrect());
            },
        };
        match password::verify(dto.now_password, user.password.clone()) {
            Ok(true) => {},
            Ok(false) => {
                return Err(incorrect());
            },
            Err(e) => {
                return Err(AppError::Unexpected(e));
            },
        }
        let hashed = match password::hash(dto.password) {
            Ok(h) => h,
            Err(e) => {
                return Err(AppError::Unexpected(e));
            },
        };
        self.set_password(account, hashed)
    }

    /// Stores `phc` as the password hash of `account`, which must be stored;
    /// the rest of the user stays as it was.
    pub fn set_password(&mut self, account: &String, phc: String) -> (r: Result<(), AppError>)
        ensures
            r is Err ==> final(self).users.dirty_spec() == old(self).users.dirty_spec(),
            r is Ok ==> final(self).users.dirty_spec(),
            final(self).security == old(self).security,
            old(self).users@.contains_key(account@) ==> r is Ok && final(self).users@ == old(self).users@.insert(
                account@,
                UserModel { password: phc, ..old(self).users@[account@] },
            ),
            !old(self).users@.contains_key(account@) ==> unexpected(r) && final(self).users@ == old(self).users@,
    {
        proof {
            lemma_keys_match(self.users, account@);
        }
        let mut user = match self.users.read(account) {
            Some(u) => u,
            None => {
                return Err(AppError::Unexpected(concat_str("not found: ", account.as_str())));
            },
        };
        user.password = phc;
        match self.users.update(user) {
            Ok(_) => Ok(()),
            Err(e) => Err(AppError::Unexpected(e.message())),
        }
    }

    /// Replaces the e-mail address and name of `account` if the request is
    /// valid and the password checks out.
    pub fn info_change(&mut self, dto: InfoChangeRequestDto, account: &String) -> (r: Result<(), AppError>)
        ensures
            r is Err ==> final(self).users.dirty_spec() == old(self).users.dirty_spec(),
            r is Ok ==> final(self).users.dirty_spec(),
            final(self).security == old(self).security,
            r is Err ==> final(self).users@ == old(self).users@,
            email_failures(dto.email).len() > 0 ==> reports(r, email_failures(dto.email)),
            email_failures(dto.email).len() == 0 ==> {
                &&& !old(self).users@.contains_key(account@) ==> unauthorized(r, incorrect_credentials())
                &&& old(self).users@.contains_key(account@) ==> {
                    let u = old(self).users@[account@];
                    &&& argon2_check(dto.password@, u.password@) == Ok::<bool, Seq<char>>(false)
                        ==> unauthorized(r, incorrect_credentials())
                    &&& argon2_check(dto.password@, u.password@) matches Err(e)
                        ==> (r matches Err(AppError::Unexpected(m)) && m@ == e)
                    &&& argon2_check(dto.password@, u.password@) == Ok::<bool, Seq<char>>(true)
                        ==> r is Ok && final(self).users@ == old(self).users@.insert(
                            account@,
                            UserModel { email: dto.email, name: dto.name, ..u },
                        )
                }
            },
    {
        match dto.validate() {
            Ok(()) => {},
            Err(errors) => {
                return Err(AppError::BadRequest(errors.message()));
            },
        }
        proof {
            lemma_keys_match(self.users, account@);
        }
        let mut user = match self.users.read(account) {
            Some(u) => u,
            None => {
                return Err(incorrect());
            },
        };
        match password::verify(dto.password, user.password.clone()) {
            Ok(true) => {},
            Ok(false) => {
                return Err(incorrect());
            },
            Err(e) => {
                return Err(AppError::Unexpected(e));
            },
        }
        user.email = dto.email;
        user.name = dto.name;
        match self.users.update(user) {
            Ok(_) => {},
            Err(e) => {
                return Err(AppError::Unexpected(e.message()));
            },
        }
        Ok(())
    }
}

/// `r` is a `BadRequest` with the reason for a taken account.
pub open spec fn taken_account(r: Result<(), AppError>) -> bool {
    r matches Err(AppError::BadRequest(m)) && m@ == incorrect_credentials()
}

} // verus!
