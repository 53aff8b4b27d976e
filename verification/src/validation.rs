//! Syntactic rules for account names and passwords.

use vstd::prelude::*;

verus! {

broadcast use vstd::string::group_string_axioms;

/// An ASCII letter or digit.
pub open spec fn is_ascii_alnum(c: char) -> bool {
    ('0' <= c && c <= '9') || ('A' <= c && c <= 'Z') || ('a' <= c && c <= 'z')
}

/// The symbols that a password may hold.
pub open spec fn is_password_symbol(c: char) -> bool {
    c == '~' || c == '!' || c == '@' || c == '#' || c == '$' || c == '%' || c == '^' || c == '&'
        || c == '-' || c == '_' || c == ':' || c == '.' || c == '/'
}

/// The characters other than letters and digits that an account may hold.
pub open spec fn is_account_symbol(c: char) -> bool {
    c == '-' || c == '_' || c == '.' || c == '@'
}

pub open spec fn password_char_ok(c: char) -> bool {
    is_ascii_alnum(c) || is_password_symbol(c)
}

pub open spec fn account_char_ok(c: char) -> bool {
    is_ascii_alnum(c) || is_account_symbol(c)
}

/// A password is 8 to 64 characters, each a letter, a digit or one of the
/// allowed symbols, with at least one upper-case letter, one lower-case
/// letter, one digit and one symbol.
pub open spec fn password_rule(s: Seq<char>) -> bool {
    &&& 8 <= s.len() <= 64
    &&& forall|i: int| 0 <= i < s.len() ==> #[trigger] password_char_ok(s[i])
    &&& exists|i: int| 0 <= i < s.len() && 'A' <= #[trigger] s[i] <= 'Z'
    &&& exists|i: int| 0 <= i < s.len() && 'a' <= #[trigger] s[i] <= 'z'
    &&& exists|i: int| 0 <= i < s.len() && '0' <= #[trigger] s[i] <= '9'
    &&& exists|i: int| 0 <= i < s.len() && is_password_symbol(#[trigger] s[i])
}

/// An account is 6 to 32 characters, each a letter, a digit or one of
/// `- _ . @`.
pub open spec fn account_rule(s: Seq<char>) -> bool {
    &&& 6 <= s.len() <= 32
    &&& forall|i: int| 0 <= i < s.len() ==> #[trigger] account_char_ok(s[i])
}

fn char_is_password_symbol(c: char) -> (b: bool)
    ensures
        b == is_password_symbol(c),
{
    c == '~' || c == '!' || c == '@' || c == '#' || c == '$' || c == '%' || c == '^' || c == '&'
        || c == '-' || c == '_' || c == ':' || c == '.' || c == '/'
}

fn char_is_alnum(c: char) -> (b: bool)
    ensures
        b == is_ascii_alnum(c),
{
    ('0' <= c && c <= '9') || ('A' <= c && c <= 'Z') || ('a' <= c && c <= 'z')
}

/// Whether `s` is an acceptable password.
pub fn is_valid_password(s: &str) -> (b: bool)
    ensures
        b == password_rule(s@),
{
    if s.is_empty() {
        return false;
    }
    let mut all_ok = true;
    let mut has_upper = false;
    let mut has_lower = false;
    let mut has_digit = false;
    let mut has_symbol = false;
    // The number of characters seen, counted up to 65: enough to tell whether
    // the length lies within the bounds.
    let mut count: usize = 0;
    for c in it: s.chars()
        invariant
            it.seq() == s@,
            count == (if it.index() < 65 { it.index() as int } else { 65 }),
            all_ok <==> (forall|j: int| 0 <= j < it.index() ==> #[trigger] password_char_ok(s@[j])),
            has_upper <==> (exists|j: int| 0 <= j < it.index() && 'A' <= #[trigger] s@[j] <= 'Z'),
            has_lower <==> (exists|j: int| 0 <= j < it.index() && 'a' <= #[trigger] s@[j] <= 'z'),
            has_digit <==> (exists|j: int| 0 <= j < it.index() && '0' <= #[trigger] s@[j] <= '9'),
            has_symbol <==> (exists|j: int| 0 <= j < it.index() && is_password_symbol(#[trigger] s@[j])),
    {
        assert(c == s@[it.index() as int]);
        let sym = char_is_password_symbol(c);
        let alnum = char_is_alnum(c);
        assert(password_char_ok(s@[it.index() as int]) == (alnum || sym));
        if !(alnum || sym) {
            all_ok = false;
        }
        if 'A' <= c && c <= 'Z' {
            has_upper = true;
        }
        if 'a' <= c && c <= 'z' {
            has_lower = true;
        }
        if '0' <= c && c <= '9' {
            has_digit = true;
        }
        if sym {
            has_symbol = true;
        }
        if count < 65 {
            count += 1;
        }
    }
    all_ok && has_upper && has_lower && has_digit && has_symbol && count >= 8 && count <= 64
}

fn char_is_account_symbol(c: char) -> (b: bool)
    ensures
        b == is_account_symbol(c),
{
    c == '-' || c == '_' || c == '.' || c == '@'
}

/// Whether `s` is an acceptable account name.
pub fn is_valid_account(s: &str) -> (b: bool)
    ensures
        b == account_rule(s@),
{
    if s.is_empty() {
        return false;
    }
    let mut all_ok = true;
    let mut count: usize = 0;
    for c in it: s.chars()
        invariant
            it.seq() == s@,
            count == (if it.index() < 33 { it.index() as int } else { 33 }),
            all_ok <==> (forall|j: int| 0 <= j < it.index() ==> #[trigger] account_char_ok(s@[j])),
    {
        assert(c == s@[it.index() as int]);
        let ok = char_is_alnum(c) || char_is_account_symbol(c);
        assert(account_char_ok(s@[it.index() as int]) == ok);
        if !ok {
            all_ok = false;
        }
        if count < 33 {
            count += 1;
        }
    }
    all_ok && count >= 6 && count <= 32
}

} // verus!
