//! The one JSON operation the library performs itself: a best-effort parse
//! of raw bytes into a generic JSON value, used when classifying error
//! responses.

use vstd::prelude::*;

verus! {

/// Whether a byte sequence is a well-formed JSON document, as decided by
/// `serde_json`'s parser.  Validity is a fact of the bytes alone.
pub uninterp spec fn is_valid_json(bytes: Seq<u8>) -> bool;

#[verifier::external_type_specification]
#[verifier::external_body]
pub struct ExValue(serde_json::Value);

/// Relies on `serde_json::from_slice::<Value>`: it returns `Ok` exactly when
/// the bytes form a well-formed JSON document.
#[verifier::external_body]
pub(crate) fn parse_json(bytes: &[u8]) -> (r: Option<serde_json::Value>)
    ensures
        r is Some <==> is_valid_json(bytes@),
{
    serde_json::from_slice(bytes).ok()
}

} // verus!
