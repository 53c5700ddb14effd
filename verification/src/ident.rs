//! Fresh identifiers for audit events and sessions.

use vstd::prelude::*;

verus! {

/// Draws a random version-4 identifier with `uuid::Uuid::new_v4` and renders
/// it with the `Display` impl of `Uuid`: hyphenated, thirty-six characters.
/// Trusted: only the length is stated, which holds of every outcome.
/// `new_v4` panics if the operating system cannot supply random bytes.
#[verifier::external_body]
pub(crate) fn fresh_uuid() -> (r: String)
    ensures
        r@.len() == 36,
{
    uuid::Uuid::new_v4().to_string()
}

} // verus!
