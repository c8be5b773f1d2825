//! The trusted boundary to std's UTF-8 validation. Everything else about
//! strings is reasoned about through vstd's UTF-8 model.

use vstd::prelude::*;

verus! {

use vstd::utf8::{decode_utf8, valid_utf8};

/// Relies on core::str::from_utf8: it returns Ok exactly when the input is
/// valid UTF-8, and the returned string is the decoding of those bytes.
#[verifier::external_body]
pub(crate) fn bytes_to_string(v: &[u8]) -> (r: Option<String>)
    ensures
        r is Some <==> valid_utf8(v@),
        r matches Some(s) ==> s@ == decode_utf8(v@),
{
    match core::str::from_utf8(v) {
        Ok(s) => Some(s.to_owned()),
        Err(_) => None,
    }
}

} // verus!
