//! JSON web tokens (HS256) that carry a user's account and session id.

use vstd::prelude::*;
use crate::text::owned;
use jsonwebtoken::{DecodingKey, Validation};
use serde_json::Value;

verus! {

broadcast use vstd::string::group_string_axioms;

/// The claims of a token that the library reads: `sub`, `iss` and `jti`
/// where the payload holds them as JSON strings, `iat` and `exp` where it
/// holds them as integers that fit in an `i64`.
pub struct Claims {
    pub sub: Option<String>,
    pub iss: Option<String>,
    pub iat: Option<i64>,
    pub exp: Option<i64>,
    pub jti: Option<String>,
}

/// The text of an optional string.
pub open spec fn opt_text(o: Option<String>) -> Option<Seq<char>> {
    match o {
        Some(s) => Some(s@),
        None => None,
    }
}

impl View for Claims {
    type V = (Option<Seq<char>>, Option<Seq<char>>, Option<i64>, Option<i64>, Option<Seq<char>>);

    open spec fn view(&self) -> (Option<Seq<char>>, Option<Seq<char>>, Option<i64>, Option<i64>, Option<Seq<char>>) {
        (opt_text(self.sub), opt_text(self.iss), self.iat, self.exp, opt_text(self.jti))
    }
}

/// The claims (in the sense of `Claims`) that the payload of `token`
/// carries; the payload is part of the token, so they depend on it alone.
pub uninterp spec fn jwt_claims(token: Seq<char>) -> (Option<Seq<char>>, Option<Seq<char>>, Option<i64>, Option<i64>, Option<Seq<char>>);

/// The token's signature is the HS256 MAC, under the bytes of `secret` as
/// key, of the token's header and payload, and its header names HS256.
pub uninterp spec fn jwt_signed(token: Seq<char>, secret: Seq<char>) -> bool;

/// `jsonwebtoken::decode`, with `DecodingKey::from_secret` of the bytes of
/// `secret` and the default validation without its expiry check and with
/// `issuer` as the one accepted issuer, accepts `token`. Without the expiry
/// check nothing in that decoding reads the clock, so this depends on the
/// three strings alone.
pub uninterp spec fn jwt_decodes(token: Seq<char>, issuer: Seq<char>, secret: Seq<char>) -> bool;

/// The claims (in the sense of `Claims`) of a token issued for `sub`, `iss`,
/// `iat`, `exp` and `jti`.
pub open spec fn issued_claims(
    sub: Seq<char>,
    iss: Seq<char>,
    iat: i64,
    exp: i64,
    jti: Seq<char>,
) -> (Option<Seq<char>>, Option<Seq<char>>, Option<i64>, Option<i64>, Option<Seq<char>>) {
    (Some(sub), Some(iss), Some(iat), Some(exp), Some(jti))
}

/// What checking decoded claims `c` gives: the account (`sub`) and session
/// id (`jti`) when all five claims are there, else the first one missing.
pub open spec fn claims_outcome(
    c: (Option<Seq<char>>, Option<Seq<char>>, Option<i64>, Option<i64>, Option<Seq<char>>),
) -> Result<(Seq<char>, Seq<char>), Seq<char>> {
    if c.0 is None {
        Err("missing field `sub`"@)
    } else if c.1 is None {
        Err("missing field `iss`"@)
    } else if c.2 is None {
        Err("missing field `iat`"@)
    } else if c.3 is None {
        Err("missing field `exp`"@)
    } else if c.4 is None {
        Err("missing field `jti`"@)
    } else {
        Ok((c.0->0, c.4->0))
    }
}

/// A claims check's outcome, with the strings taken by their views.
pub open spec fn outcome_view(r: Result<(String, String), String>) -> Result<(Seq<char>, Seq<char>), Seq<char>> {
    match r {
        Ok((a, j)) => Ok((a@, j@)),
        Err(e) => Err(e@),
    }
}

/// The token that HS256 signing with the key `secret` gives for the claims
/// `sub`, `iss`, `iat`, `exp` and `jti` under the default header.
pub uninterp spec fn jwt_token(
    sub: Seq<char>,
    iss: Seq<char>,
    iat: i64,
    exp: i64,
    jti: Seq<char>,
    secret: Seq<char>,
) -> Seq<char>;

/// The largest number of minutes that a `chrono::TimeDelta` can span.
pub const MAX_DELTA_MINUTES: i64 = 153_722_867_280_912;

/// The first second that a `chrono::DateTime<Utc>` holds, as a Unix
/// timestamp: the start of `NaiveDate::MIN`, early in the year -262143.
pub const MIN_UTC_TS: i64 = -8334601228800;

/// The last whole second that a `chrono::DateTime<Utc>` holds, as a Unix
/// timestamp: the end of the year 262142.
pub const MAX_UTC_TS: i64 = 8210266876799;

/// The instant `t` (Unix seconds) is one that a `chrono::DateTime<Utc>`
/// holds.
pub open spec fn in_utc_range(t: int) -> bool {
    MIN_UTC_TS <= t <= MAX_UTC_TS
}

/// The instant `ts` and the one `minutes` minutes later both lie in the
/// range of `DateTime<Utc>`.
pub open spec fn sum_in_utc_range(ts: i64, minutes: i64) -> bool {
    in_utc_range(ts as int) && in_utc_range(ts + 60 * minutes)
}

/// Calls `chrono::Utc::now()` and gives its Unix timestamp in seconds. The
/// time of the call decides the value; `now` reads the system clock as time
/// since the Unix epoch and makes a `DateTime<Utc>` of it (it panics on a
/// clock set before the epoch), so the value is never negative and lies in
/// the range of that type.
#[verifier::external_body]
fn now_timestamp() -> (r: i64)
    ensures
        0 <= r <= MAX_UTC_TS,
{
    chrono::Utc::now().timestamp()
}

/// Calls `chrono::DateTime::from_timestamp(ts, 0)` and then
/// `checked_add_signed` to add `minutes` minutes, and gives the timestamp of
/// the result. `from_timestamp` gives `None` for an instant outside the range
/// of `DateTime<Utc>`, and `checked_add_signed` for a result outside it, so
/// there is a result exactly where both instants lie in that range; it lies
/// `60 * minutes` seconds after `ts`. `TimeDelta::minutes` panics beyond
/// `MAX_DELTA_MINUTES`, which `requires` leaves out.
#[verifier::external_body]
fn add_minutes(ts: i64, minutes: i64) -> (r: Option<i64>)
    requires
        -MAX_DELTA_MINUTES <= minutes <= MAX_DELTA_MINUTES,
    ensures
        r is Some <==> sum_in_utc_range(ts, minutes),
        r is Some ==> r->0 == ts + 60 * minutes,
{
    chrono::DateTime::from_timestamp(ts, 0)?
        .checked_add_signed(chrono::TimeDelta::minutes(minutes))
        .map(|t| t.timestamp())
}

/// Calls `jsonwebtoken::encode` with the default header (HS256), the claims
/// as a JSON object with the members `sub`, `iss`, `iat`, `exp` and `jti` in
/// that order, and `EncodingKey::from_secret` of the bytes of `secret`.
/// With an HMAC key and the HS256 header, `encode` cannot fail: the key
/// family matches, an HMAC takes a key of any length, the header and a map
/// of JSON values always serialize, and HMAC signing does not fail. The
/// token is the named one for these arguments; its payload carries exactly
/// these claims, and it is signed with `secret`. Decoding it with the same
/// secret and issuer succeeds where `exp` is not negative: the header names
/// HS256, the signature matches, `exp` reads as the unsigned number that the
/// validation requires, `iss` is the accepted issuer, and no `aud` or `nbf`
/// claim is there to check.
#[verifier::external_body]
fn encode_token(sub: String, iss: String, iat: i64, exp: i64, jti: String, secret: &str) -> (r: Result<String, String>)
    ensures
        r is Ok,
        r is Ok ==> r->Ok_0@ == jwt_token(sub@, iss@, iat, exp, jti@, secret@),
        r is Ok ==> jwt_claims(r->Ok_0@) == issued_claims(sub@, iss@, iat, exp, jti@),
        r is Ok ==> jwt_signed(r->Ok_0@, secret@),
        r is Ok && exp >= 0 ==> jwt_decodes(r->Ok_0@, iss@, secret@),
{
    let mut claims = serde_json::Map::new();
    claims.insert("sub".to_string(), Value::from(sub));
    claims.insert("iss".to_string(), Value::from(iss));
    claims.insert("iat".to_string(), Value::from(iat));
    claims.insert("exp".to_string(), Value::from(exp));
    claims.insert("jti".to_string(), Value::from(jti));
    let key = jsonwebtoken::EncodingKey::from_secret(secret.as_bytes());
    jsonwebtoken::encode(&jsonwebtoken::Header::default(), &claims, &key).map_err(|e| e.to_string())
}

/// Calls `jsonwebtoken::decode` (into a JSON value) with
/// `DecodingKey::from_secret` of the bytes of `secret` and the default
/// validation (HS256, `exp` required) without its expiry check, with
/// `issuer` as the one accepted issuer, and picks the claims that `Claims`
/// holds out of the decoded payload. Whether it succeeds is `jwt_decodes`.
/// Claims that it gives are those of the token's payload, which
/// `jsonwebtoken::decode` deserializes; it gives them only for a token
/// signed with `secret`, an `iss` claim that is a string must be `issuer`,
/// and `exp` must be an unsigned number.
#[verifier::external_body]
fn decode_token(token: &str, issuer: String, secret: &str) -> (r: Result<Claims, String>)
    ensures
        r is Ok <==> jwt_decodes(token@, issuer@, secret@),
        r matches Ok(c) ==> c@ == jwt_claims(token@),
        r is Ok ==> jwt_signed(token@, secret@),
        r is Ok && jwt_claims(token@).1 is Some ==> jwt_claims(token@).1 == Some(issuer@),
        r is Ok && jwt_claims(token@).3 is Some ==> jwt_claims(token@).3->0 >= 0,
{
    let mut validation = Validation::default();
    validation.validate_exp = false;
    validation.set_issuer(&[issuer]);
    let key = DecodingKey::from_secret(secret.as_bytes());
    let v = jsonwebtoken::decode::<Value>(token, &key, &validation).map_err(|e| e.to_string())?.claims;
    let text = |name: &str| v.get(name).and_then(Value::as_str).map(str::to_string);
    let number = |name: &str| v.get(name).and_then(Value::as_i64);
    Ok(Claims { sub: text("sub"), iss: text("iss"), iat: number("iat"), exp: number("exp"), jti: text("jti") })
}

/// The error when the expiry of a token leaves the range of time stamps.
pub open spec fn overflow_message() -> Seq<char> {
    "json web token timestamp overflow"@
}

/// A token outcome, with the strings taken by their views.
pub open spec fn text_result(r: Result<String, String>) -> Result<Seq<char>, Seq<char>> {
    match r {
        Ok(t) => Ok(t@),
        Err(e) => Err(e@),
    }
}

/// What issuing a token at the instant `now` gives: the token for the
/// claims with `iat` `now` and `exp` `minutes` minutes later, where both
/// instants lie in the range of time stamps, and the overflow error
/// otherwise.
pub open spec fn issued_at(
    now: i64,
    sub: Seq<char>,
    iss: Seq<char>,
    minutes: i64,
    jti: Seq<char>,
    secret: Seq<char>,
) -> Result<Seq<char>, Seq<char>> {
    if sum_in_utc_range(now, minutes) {
        Ok(jwt_token(sub, iss, now, (now + 60 * minutes) as i64, jti, secret))
    } else {
        Err(overflow_message())
    }
}

/// Issues a token at the instant `now` (Unix seconds) for `subject` from
/// `issure`, valid for `expiration_minutes` minutes, that names the session
/// `jwt_id` and is signed with `secret`.
pub fn issue_at(
    now: i64,
    subject: String,
    issure: String,
    expiration_minutes: i64,
    jwt_id: String,
    secret: String,
) -> (r: Result<String, String>)
    requires
        -MAX_DELTA_MINUTES <= expiration_minutes <= MAX_DELTA_MINUTES,
    ensures
        text_result(r) == issued_at(now, subject@, issure@, expiration_minutes, jwt_id@, secret@),
        r matches Ok(t) ==> jwt_claims(t@) == issued_claims(
            subject@,
            issure@,
            now,
            (now + 60 * expiration_minutes) as i64,
            jwt_id@,
        ),
        r matches Ok(t) ==> jwt_signed(t@, secret@),
        now + 60 * expiration_minutes >= 0 ==> (r matches Ok(t) ==> jwt_decodes(t@, issure@, secret@)),
{
    let expiration = match add_minutes(now, expiration_minutes) {
        Some(e) => e,
        None => return Err(owned("json web token timestamp overflow")),
    };
    let key = secret.as_str();
    let r = encode_token(subject, issure, now, expiration, jwt_id, key);
    proof {
        assert(key@ == secret@);
        assert(expiration == (now + 60 * expiration_minutes) as i64);
    }
    r
}

/// Issues a token for `subject` from `issure`, valid for
/// `expiration_minutes` minutes from now, that names the session `jwt_id`
/// and is signed with `secret`: what `issue_at` gives for the instant that
/// it reads from the clock.
pub fn generate(
    subject: String,
    issure: String,
    expiration_minutes: i64,
    jwt_id: String,
    secret: String,
) -> (r: Result<String, String>)
    requires
        -MAX_DELTA_MINUTES <= expiration_minutes <= MAX_DELTA_MINUTES,
    ensures
        exists|now: i64|
            #![trigger issued_at(now, subject@, issure@, expiration_minutes, jwt_id@, secret@)]
            0 <= now <= MAX_UTC_TS
                && text_result(r) == issued_at(now, subject@, issure@, expiration_minutes, jwt_id@, secret@)
                && (r matches Ok(t) ==> jwt_claims(t@) == issued_claims(
                    subject@,
                    issure@,
                    now,
                    (now + 60 * expiration_minutes) as i64,
                    jwt_id@,
                ))
                && (now + 60 * expiration_minutes >= 0 ==> (r matches Ok(t) ==> jwt_decodes(t@, issure@, secret@))),
        r matches Ok(t) ==> exists|iat: i64|
            #![trigger jwt_token(subject@, issure@, iat, (iat + 60 * expiration_minutes) as i64, jwt_id@, secret@)]
            t@ == jwt_token(subject@, issure@, iat, (iat + 60 * expiration_minutes) as i64, jwt_id@, secret@)
                && iat + 60 * expiration_minutes == (iat + 60 * expiration_minutes) as i64
                && jwt_claims(t@) == issued_claims(subject@, issure@, iat, (iat + 60 * expiration_minutes) as i64, jwt_id@)
                && (iat + 60 * expiration_minutes >= 0 ==> jwt_decodes(t@, issure@, secret@)),
        r matches Ok(t) ==> jwt_signed(t@, secret@),
        r matches Err(e) ==> e@ == overflow_message(),
{
    let now = now_timestamp();
    let r = issue_at(now, subject, issure, expiration_minutes, jwt_id, secret);
    proof {
        assert(issued_at(now, subject@, issure@, expiration_minutes, jwt_id@, secret@) == text_result(r));
        if r is Ok {
            let t = r->Ok_0;
            assert(t@ == jwt_token(subject@, issure@, now, (now + 60 * expiration_minutes) as i64, jwt_id@, secret@));
        }
    }
    r
}

/// The account (`sub`) and session id (`jti`) of decoded claims, which
/// must hold `sub`, `iss` and `jti` as strings and `iat` and `exp` as
/// integers; the error names the first claim missing.
pub fn checked_claims(c: Claims) -> (r: Result<(String, String), String>)
    ensures
        outcome_view(r) == claims_outcome(c@),
{
    proof {
        reveal_strlit("missing field `sub`");
        reveal_strlit("missing field `iss`");
        reveal_strlit("missing field `iat`");
        reveal_strlit("missing field `exp`");
        reveal_strlit("missing field `jti`");
    }
    let sub = match c.sub {
        Some(s) => s,
        None => return Err(owned("missing field `sub`")),
    };
    if c.iss.is_none() {
        return Err(owned("missing field `iss`"));
    }
    if c.iat.is_none() {
        return Err(owned("missing field `iat`"));
    }
    if c.exp.is_none() {
        return Err(owned("missing field `exp`"));
    }
    let jti = match c.jti {
        Some(s) => s,
        None => return Err(owned("missing field `jti`")),
    };
    Ok((sub, jti))
}

/// The leeway of the expiry check, in seconds.
pub const LEEWAY_SECONDS: i64 = 30;

/// What checking decoded claims `c` at the instant `now` gives: as
/// `claims_outcome`, and then an expired token (its `exp` more than the
/// leeway before `now`) is refused.
pub open spec fn claims_outcome_at(
    c: (Option<Seq<char>>, Option<Seq<char>>, Option<i64>, Option<i64>, Option<Seq<char>>),
    now: i64,
) -> Result<(Seq<char>, Seq<char>), Seq<char>> {
    match claims_outcome(c) {
        Ok(p) => if c.3->0 < now - LEEWAY_SECONDS {
            Err("ExpiredSignature"@)
        } else {
            Ok(p)
        },
        Err(e) => Err(e),
    }
}

/// The account (`sub`) and session id (`jti`) of decoded claims at the
/// instant `now`: as `checked_claims`, and a token whose `exp` lies more
/// than the leeway before `now` is refused as expired.
pub fn checked_claims_at(c: Claims, now: i64) -> (r: Result<(String, String), String>)
    ensures
        outcome_view(r) == claims_outcome_at(c@, now),
{
    let exp = c.exp;
    let r = checked_claims(c);
    match r {
        Ok(p) => {
            let e = match exp {
                Some(e) => e,
                None => {
                    return Ok(p);
                },
            };
            if (e as i128) < (now as i128) - (LEEWAY_SECONDS as i128) {
                proof {
                    reveal_strlit("ExpiredSignature");
                }
                Err(owned("ExpiredSignature"))
            } else {
                Ok(p)
            }
        },
        Err(e) => Err(e),
    }
}

/// Checks `token` against `secret` and the issuer `issure`, and against the
/// clock with a leeway of 30 seconds, and gives the account (`sub`) and
/// session id (`jti`) that it carries: it passes exactly where the decoding
/// accepts it and its claims check out at the instant read from the clock.
pub fn verify(token: String, issure: String, secret: String) -> (r: Result<(String, String), String>)
    ensures
        exists|now: i64|
            #![trigger claims_outcome_at(jwt_claims(token@), now)]
            0 <= now <= MAX_UTC_TS
                && (r is Ok <==> jwt_decodes(token@, issure@, secret@) && claims_outcome_at(jwt_claims(token@), now) is Ok)
                && (r is Ok ==> outcome_view(r) == claims_outcome_at(jwt_claims(token@), now)),
        r is Ok ==> outcome_view(r) == claims_outcome(jwt_claims(token@)),
        r is Ok ==> jwt_claims(token@).1 == Some(issure@) && jwt_signed(token@, secret@),
        claims_outcome(jwt_claims(token@)) is Err ==> r is Err,
{
    let ghost t = token@;
    let ghost i = issure@;
    let ghost k = secret@;
    let claims = match decode_token(token.as_str(), issure, secret.as_str()) {
        Ok(c) => c,
        Err(e) => {
            proof {
                let z: i64 = 0;
                assert(0 <= z <= MAX_UTC_TS && (false <==> jwt_decodes(t, i, k) && claims_outcome_at(jwt_claims(t), z) is Ok));
            }
            return Err(e);
        },
    };
    let now = now_timestamp();
    let r = checked_claims_at(claims, now);
    proof {
        assert(claims_outcome_at(jwt_claims(t), now) == outcome_view(r));
    }
    r
}

} // verus!
