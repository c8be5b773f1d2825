//! Session identifiers: 128-bit values, freshly generated for each accepted
//! connection.

use vstd::prelude::*;

verus! {

/// Relies on uuid::Uuid::new_v4 and Uuid::as_u128: a freshly generated
/// random 128-bit identifier. Nothing is promised of a random value.
#[verifier::external_body]
pub(crate) fn generate_session_id() -> u128 {
    uuid::Uuid::new_v4().as_u128()
}

} // verus!
