//! Session identity.

use vstd::prelude::*;

verus! {

/// Relies on uuid::Uuid::new_v4 and its Display impl: a freshly generated
/// random UUID, rendered in the hyphenated form of exactly 36 characters.
#[verifier::external_body]
pub(crate) fn fresh_session_id() -> (r: String)
    ensures
        r@.len() == 36,
{
    uuid::Uuid::new_v4().to_string()
}

} // verus!
