//! Per-invocation unique token.

use vstd::prelude::*;

verus! {

/// Relies on uuid::Uuid::new_v4 and uuid's Display impl: a fresh random
/// version-4 UUID, rendered as the 36-character lowercase hyphenated form.
/// The value is random, so nothing beyond its length is promised.
#[verifier::external_body]
pub(crate) fn fresh_token() -> (r: String)
    ensures
        r@.len() == 36,
{
    uuid::Uuid::new_v4().to_string()
}

} // verus!
