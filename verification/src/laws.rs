//! Properties that hold across the operations of the library.

use vstd::prelude::*;
use vstd::multiset::Multiset;
use crate::auth::{
    opens_session_at, password_change_answer, password_change_rejection, session_user, signed_in, signed_up_user,
    signup_answer, signup_rejection, token_accepted, with_session,
};
use crate::dto::PasswardChangeRequestDto;
use crate::error::AppError;
use crate::config::SecurityConfig;
use crate::dto::AuthResponseDto;
use crate::jwt::{LEEWAY_SECONDS, claims_outcome, claims_outcome_at, issued_claims, jwt_claims, jwt_decodes, jwt_token};
use crate::dto::SignupRequestDto;
use crate::model::{Keyed, TodoModel, UserModel};
use crate::keyed::distinct_keys;
use crate::password::{checks_out, hash_error};
use crate::persist::{key_bytes, lemma_records_map, lemma_records_map_dom, records_map};
use crate::sort::{due_desc, lemma_sort_by_due_desc, owned_by, sort_by_due_desc};

verus! {

broadcast use {vstd::seq_lib::group_to_multiset_ensures, vstd::string::group_string_axioms};

/// A record that a store has just taken in is what a read of its key gives
/// back, and the other keys read as before.
pub proof fn law_read_after_write<M: Keyed>(before: Map<Seq<char>, M>, m: M, k: Seq<char>)
    ensures
        before.insert(m.key_view(), m).contains_key(m.key_view()),
        before.insert(m.key_view(), m)[m.key_view()] == m,
        k != m.key_view() ==> before.insert(m.key_view(), m).contains_key(k) == before.contains_key(k),
        k != m.key_view() && before.contains_key(k) ==> before.insert(m.key_view(), m)[k] == before[k],
{
}

/// A key that a store has just removed reads as absent, and the other keys
/// read as before.
pub proof fn law_read_after_delete<M>(before: Map<Seq<char>, M>, key: Seq<char>, k: Seq<char>)
    ensures
        !before.remove(key).contains_key(key),
        k != key ==> before.remove(key).contains_key(k) == before.contains_key(k),
        k != key && before.contains_key(k) ==> before.remove(key)[k] == before[k],
{
}

proof fn lemma_owned_by_count(s: Seq<TodoModel>, owner: Seq<char>, t: TodoModel)
    ensures
        owned_by(s, owner).to_multiset().count(t) == (if t.owner@ == owner { s.to_multiset().count(t) } else { 0 }),
    decreases s.len(),
{
    if s.len() == 0 {
        assert(s.to_multiset() =~= Multiset::empty());
    } else {
        lemma_owned_by_count(s.drop_last(), owner, t);
        assert(s =~= s.drop_last().push(s.last()));
        if s.last().owner@ == owner {
            assert(owned_by(s, owner) == owned_by(s.drop_last(), owner).push(s.last()));
        }
    }
}

/// The list of a user's todos holds each of that user's todos exactly as
/// often as the store does, and no other todo, with due dates never rising
/// along the list.
pub proof fn law_list_is_owned_sorted(entries: Seq<TodoModel>, owner: Seq<char>, t: TodoModel)
    ensures
        due_desc(sort_by_due_desc(owned_by(entries, owner))),
        sort_by_due_desc(owned_by(entries, owner)).to_multiset().count(t) == (if t.owner@ == owner {
            entries.to_multiset().count(t)
        } else {
            0
        }),
{
    lemma_sort_by_due_desc(owned_by(entries, owner));
    lemma_owned_by_count(entries, owner, t);
}

/// After a successful sign-up, the password of the request checks out
/// against the stored hash, so a sign-in with the same account and password
/// is not refused as a wrong account or password.
pub proof fn law_signup_then_signin(before: Map<Seq<char>, UserModel>, dto: SignupRequestDto, u: UserModel)
    requires
        signed_up_user(dto, u),
    ensures
        before.insert(dto.account@, u).contains_key(dto.account@),
        checks_out(dto.password@, before.insert(dto.account@, u)[dto.account@].password@),
{
}

/// The session that a sign-in opens authenticates the claims that name it.
pub proof fn law_signin_opens_session(users: Map<Seq<char>, UserModel>, account: Seq<char>, u: UserModel, jti: String)
    ensures
        session_user(users.insert(account, with_session(u, Some(jti))), account, jti@)
            == Some(with_session(u, Some(jti))),
{
}

/// A new sign-in replaces the session of the account: claims that name any
/// other session id no longer authenticate.
pub proof fn law_signin_replaces_session(
    users: Map<Seq<char>, UserModel>,
    account: Seq<char>,
    u: UserModel,
    jti: String,
    earlier: Seq<char>,
)
    requires
        earlier != jti@,
    ensures
        session_user(users.insert(account, with_session(u, Some(jti))), account, earlier) is None,
{
}

/// Once a user is signed out, no token claims of that user authenticate.
pub proof fn law_signout_closes_session(users: Map<Seq<char>, UserModel>, account: Seq<char>, u: UserModel, jti: Seq<char>)
    ensures
        session_user(users.insert(account, with_session(u, None)), account, jti) is None,
{
}

/// After a store is committed, its keyspace holds each record's encoding
/// under the bytes of that record's key, and nothing under any other key.
pub proof fn law_commit_reads_back<M: Keyed>(records: Seq<M>, values: Seq<Vec<u8>>, i: int, k: Seq<u8>)
    requires
        distinct_keys(records),
        values.len() == records.len(),
    ensures
        0 <= i < records.len() ==> records_map(records, values).contains_key(key_bytes(records[i])),
        0 <= i < records.len() ==> records_map(records, values)[key_bytes(records[i])] == values[i]@,
        records_map(records, values).contains_key(k) ==> exists|j: int|
            0 <= j < records.len() && #[trigger] key_bytes(records[j]) == k,
{
    if 0 <= i < records.len() {
        lemma_records_map(records, values, i);
    }
    if records_map(records, values).contains_key(k) {
        lemma_records_map_dom(records, values, k);
    }
}

/// A token issued for `sub`, `iss` and `jti` gives back `sub` and `jti`
/// when checked, and carries no other issuer, so a check against any other
/// issuer refuses it.
pub proof fn law_issued_token_round_trip(
    t: Seq<char>,
    sub: Seq<char>,
    iss: Seq<char>,
    iat: i64,
    exp: i64,
    jti: Seq<char>,
    other: Seq<char>,
)
    requires
        jwt_claims(t) == issued_claims(sub, iss, iat, exp, jti),
    ensures
        claims_outcome(jwt_claims(t)) == Ok::<(Seq<char>, Seq<char>), Seq<char>>((sub, jti)),
        other != iss ==> jwt_claims(t).1 != Some(other),
{
}

/// The token that a sign-in gives names the session that it opened: its
/// claims check out to the account and a session that is open for the
/// signed-in user, and it is issued by and signed for the settings used.
pub proof fn law_signin_token_authenticates(
    before: Map<Seq<char>, UserModel>,
    after: Map<Seq<char>, UserModel>,
    sec: SecurityConfig,
    u: UserModel,
    resp: AuthResponseDto,
)
    requires
        signed_in(before, after, sec, u, resp),
    ensures
        claims_outcome(jwt_claims(resp.token@)) matches Ok((a, j))
            && session_user(after, a, j) == Some(after[u.account@])
            && after[u.account@] == with_session(u, after[u.account@].jwt_id),
        token_accepted(resp.token@, sec),
{
}

/// A token issued for `sub`, `iss` and `jti` that expires at `exp`, checked
/// at an instant no later than `exp` plus the leeway, gives back `sub` and
/// `jti`; checked later, it is refused as expired.
pub proof fn law_issued_token_expiry(
    t: Seq<char>,
    sub: Seq<char>,
    iss: Seq<char>,
    iat: i64,
    exp: i64,
    jti: Seq<char>,
    now: i64,
)
    requires
        jwt_claims(t) == issued_claims(sub, iss, iat, exp, jti),
    ensures
        now - LEEWAY_SECONDS <= exp ==> claims_outcome_at(jwt_claims(t), now)
            == Ok::<(Seq<char>, Seq<char>), Seq<char>>((sub, jti)),
        exp < now - LEEWAY_SECONDS ==> claims_outcome_at(jwt_claims(t), now) is Err,
{
}

/// The token that a sign-in gives passes, and names the session that the
/// sign-in opened, at any instant no later than its expiry plus the leeway
/// (a token whose expiry is not negative), while that session is still the
/// open one.
pub proof fn law_signin_token_opens_session(
    before: Map<Seq<char>, UserModel>,
    after: Map<Seq<char>, UserModel>,
    sec: SecurityConfig,
    u: UserModel,
    resp: AuthResponseDto,
    now: i64,
)
    requires
        signed_in(before, after, sec, u, resp),
        jwt_claims(resp.token@).3 matches Some(exp) && 0 <= exp && now - LEEWAY_SECONDS <= exp,
    ensures
        opens_session_at(resp.token@, sec, after, now),
{
    let m = sec.jwt_expires_minutes;
    let jti = after[u.account@].jwt_id->0@;
    let iat = choose|iat: i64| #![trigger jwt_token(u.account@, sec.jwt_issuer@, iat, (iat + 60 * m) as i64, jti, sec.jwt_secret@)]
        resp.token@ == jwt_token(u.account@, sec.jwt_issuer@, iat, (iat + 60 * m) as i64, jti, sec.jwt_secret@)
            && iat + 60 * m == (iat + 60 * m) as i64
            && jwt_claims(resp.token@) == issued_claims(u.account@, sec.jwt_issuer@, iat, (iat + 60 * m) as i64, jti)
            && (iat + 60 * m >= 0 ==> jwt_decodes(resp.token@, sec.jwt_issuer@, sec.jwt_secret@));
    assert(iat + 60 * m >= 0);
    assert(claims_outcome_at(jwt_claims(resp.token@), now) == Ok::<(Seq<char>, Seq<char>), Seq<char>>((u.account@, jti)));
}

/// A valid sign-up request for a free account stores exactly one new user,
/// under its account, with its e-mail address and name, no session and a
/// hash that checks out against its password, and answers `Ok`; the one
/// way it fails is hashing the password, with one of argon2's errors, and
/// then nothing is stored.
pub proof fn law_signup_of_free_account(
    before: Map<Seq<char>, UserModel>,
    after: Map<Seq<char>, UserModel>,
    dto: SignupRequestDto,
    r: Result<(), AppError>,
)
    requires
        signup_answer(before, after, dto, r),
        signup_rejection(dto) is None,
        !before.contains_key(dto.account@),
    ensures
        r is Ok || (r matches Err(AppError::Unexpected(m)) && hash_error(dto.password@, m@) && after == before),
        r is Ok ==> {
            &&& after.contains_key(dto.account@)
            &&& after.remove(dto.account@) == before
            &&& after[dto.account@].account == dto.account
            &&& after[dto.account@].email == dto.email
            &&& after[dto.account@].name == dto.name
            &&& after[dto.account@].jwt_id is None
            &&& checks_out(dto.password@, after[dto.account@].password@)
        },
{
    if r is Ok {
        let u = choose|u: UserModel| #[trigger] signed_up_user(dto, u) && after == before.insert(dto.account@, u);
        assert(after.remove(dto.account@) =~= before);
    }
}

/// A valid password change of a stored account whose current password
/// checks out answers `Ok` and leaves everything but that account's hash
/// as it was (its session too), with the new hash checking out against the
/// new password; the one way it fails is hashing the new password, with one
/// of argon2's errors, and then nothing changes.
pub proof fn law_password_change_with_right_password(
    before: Map<Seq<char>, UserModel>,
    after: Map<Seq<char>, UserModel>,
    dto: PasswardChangeRequestDto,
    account: Seq<char>,
    r: Result<(), AppError>,
)
    requires
        password_change_answer(before, after, dto, account, r),
        password_change_rejection(dto) is None,
        before.contains_key(account),
        checks_out(dto.now_password@, before[account].password@),
    ensures
        r is Ok || (r matches Err(AppError::Unexpected(m)) && hash_error(dto.password@, m@) && after == before),
        r is Ok ==> {
            &&& after.dom() == before.dom()
            &&& forall|k: Seq<char>| #[trigger] after.contains_key(k) && k != account ==> after[k] == before[k]
            &&& after[account].account == before[account].account
            &&& after[account].email == before[account].email
            &&& after[account].name == before[account].name
            &&& after[account].jwt_id == before[account].jwt_id
            &&& checks_out(dto.password@, after[account].password@)
        },
{
    if r is Ok {
        assert(after.dom() =~= before.dom());
    }
}

} // verus!
