//! Password hashing with Argon2 (default parameters, PHC string format).

use vstd::prelude::*;
use vstd::utf8::encode_utf8;

verus! {

/// What checking the password `plain` against the PHC string `phc` with
/// Argon2 gives: `Ok(true)` when they match, `Ok(false)` when the password
/// is wrong, and the text of the error when the string cannot be used.
pub uninterp spec fn argon2_check(plain: Seq<char>, phc: Seq<char>) -> Result<bool, Seq<char>>;

/// `plain` checks out against the PHC string `phc`.
pub open spec fn checks_out(plain: Seq<char>, phc: Seq<char>) -> bool {
    argon2_check(plain, phc) == Ok::<bool, Seq<char>>(true)
}

/// The outcome of a check, with the error text taken by its view.
pub open spec fn check_view(r: Result<bool, String>) -> Result<bool, Seq<char>> {
    match r {
        Ok(b) => Ok(b),
        Err(e) => Err(e@),
    }
}

/// The text of an error that hashing the password `plain` can give: the
/// random salt could not be drawn, the memory for the hash could not be
/// had, or the password is longer than the 2^32 - 1 bytes that Argon2 takes.
pub open spec fn hash_error(plain: Seq<char>, e: Seq<char>) -> bool {
    ||| e == "rng failure"@
    ||| e == "out of memory"@
    ||| (e == "invalid password"@ && encode_utf8(plain).len() > 0xFFFF_FFFF)
}

/// Calls argon2's `PasswordHasher::hash_password` with `Argon2::default()`
/// on the bytes of `plain`, with a fresh random salt, and renders the hash
/// as a PHC string. The contract claims that a hash it returns checks out
/// against the same password (`argon2_check` gives `Ok(true)`); the salt is
/// random, so the string itself is not named. With the default parameters
/// the only errors on that path are a failed draw of the salt
/// (`RngFailure`), a failed allocation (`OutOfMemory`) and a password over
/// `MAX_PWD_LEN` bytes (`PwdTooLong`, shown as `PasswordInvalid`); an error
/// comes as the text that `password_hash::Error` displays.
#[verifier::external_body]
fn argon2_hash(plain: &str) -> (r: Result<String, String>)
    ensures
        r is Ok ==> checks_out(plain@, r->Ok_0@),
        r matches Err(e) ==> hash_error(plain@, e@),
{
    argon2::PasswordHasher::<argon2::password_hash::phc::PasswordHash>::hash_password(
        &argon2::Argon2::default(),
        plain.as_bytes(),
    ).map(|h| h.to_string()).map_err(|e| e.to_string())
}

/// Calls argon2's `PasswordVerifier::<str>::verify_password` with
/// `Argon2::default()`, which parses the PHC string `phc` and checks the
/// bytes of `plain` against it; `PasswordInvalid` becomes `Ok(false)`, any
/// other error its text. The contract names the outcome, which depends on
/// the two strings alone.
#[verifier::external_body]
fn argon2_verify(plain: &str, phc: &str) -> (r: Result<bool, String>)
    ensures
        check_view(r) == argon2_check(plain@, phc@),
{
    match argon2::PasswordVerifier::<str>::verify_password(
        &argon2::Argon2::default(),
        plain.as_bytes(),
        phc,
    ) {
        Ok(()) => Ok(true),
        Err(argon2::password_hash::Error::PasswordInvalid) => Ok(false),
        Err(e) => Err(e.to_string()),
    }
}

/// Hashes `plain` into a PHC string with a fresh salt. A hash that it
/// returns checks out against `plain`; an error comes with its text.
pub fn hash(plain: String) -> (r: Result<String, String>)
    ensures
        r is Ok ==> checks_out(plain@, r->Ok_0@),
        r matches Err(e) ==> hash_error(plain@, e@),
{
    argon2_hash(plain.as_str())
}

/// Checks `plain` against the PHC string `hash`.
pub fn verify(plain: String, hash: String) -> (r: Result<bool, String>)
    ensures
        check_view(r) == argon2_check(plain@, hash@),
{
    argon2_verify(plain.as_str(), hash.as_str())
}

} // verus!
