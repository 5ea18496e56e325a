//! Lenient JSON handling for tag values: whether a byte payload parses as a
//! JSON document, and the canonical text of the parsed document.

use vstd::prelude::*;

verus! {

use vstd::utf8::encode_utf8;

/// The canonical text of the JSON document a byte sequence parses to, or
/// `None` where the bytes are no JSON document; a function of the bytes
/// alone.
pub uninterp spec fn json_canon(b: Seq<u8>) -> Option<Seq<char>>;

/// Relies on `serde_json::from_slice` (whether bytes parse as JSON) and the
/// rendering of `serde_json::Value` (the canonical text of the parsed
/// document): both depend on the bytes alone. The rendered text of a parsed
/// document parses back to an equal document and renders to the same text,
/// so canonical text is a fixed point of this canonicalization.
#[verifier::external_body]
pub fn json_canonical(b: &[u8]) -> (r: Option<String>)
    ensures
        r matches Some(s) ==> json_canon(b@) == Some(s@),
        r is None <==> json_canon(b@) is None,
        r matches Some(s) ==> json_canon(encode_utf8(s@)) == Some(s@),
{
    match serde_json::from_slice::<serde_json::Value>(b) {
        Ok(v) => Some(v.to_string()),
        Err(_) => None,
    }
}

} // verus!
