//! Fresh random identifiers.

use vstd::prelude::*;

verus! {

/// Calls `uuid25::gen_v4()` and renders the UUID in the Uuid25 form: 25
/// base-36 digits, which the crate writes with `0`-`9` and `a`-`z`. The value
/// is random, so the contract states only that form.
#[verifier::external_body]
pub(crate) fn new_id() -> (r: String)
    ensures
        r@.len() == 25,
        forall|i: int| 0 <= i < 25 ==> ('0' <= #[trigger] r@[i] <= '9' || 'a' <= r@[i] <= 'z'),
{
    uuid25::gen_v4().to_string()
}

} // verus!
