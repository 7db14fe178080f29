//! The one outside call the dispatcher makes: checking that an entry's
//! content is a structured (JSON) document before a validation call is built
//! for it. serde_json does the parsing; everything downstream only needs to
//! know whether it succeeded.

use vstd::prelude::*;

verus! {

/// A parsed JSON document as serde_json represents it. Opaque here: the
/// dispatcher never looks inside one.
#[verifier::external_type_specification]
#[verifier::external_body]
pub struct ExValue(serde_json::Value);

/// serde_json's parse error. Opaque; the dispatcher maps it to its own
/// error before it reaches a caller.
#[verifier::external_type_specification]
#[verifier::external_body]
pub struct ExError(serde_json::Error);

/// Whether serde_json accepts the string as one complete JSON document.
pub uninterp spec fn json_parses(s: Seq<char>) -> bool;

/// Relies on serde_json::from_str::<Value>: it returns Ok exactly when the
/// whole input is one well-formed JSON document, and whether it is depends on
/// the input text alone.
#[verifier::external_body]
pub(crate) fn parse_json_document(s: &str) -> (r: Result<serde_json::Value, serde_json::Error>)
    ensures
        r is Ok <==> json_parses(s@),
{
    serde_json::from_str::<serde_json::Value>(s)
}

} // verus!
