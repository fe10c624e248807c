//! Text and JSON codecs that the library relies on from outside code.
//!
//! The verified logic never inspects a JSON document structurally; it only
//! needs to know whether bytes form one, and how bytes decode to text.
use vstd::prelude::*;
use vstd::utf8::{decode_utf8, valid_utf8};

verus! {

#[verifier::external_type_specification]
#[verifier::external_body]
pub struct ExValue(serde_json::Value);

/// Whether a byte sequence is one well-formed JSON document, as
/// `serde_json`'s parser accepts it: the outcome depends on the bytes alone.
pub uninterp spec fn json_wf(bytes: Seq<u8>) -> bool;

/// Relies on `serde_json::from_slice::<Value>`: it returns `Ok` exactly on
/// the byte sequences that form one well-formed JSON document, and reports
/// the parser's own message on the others.
#[verifier::external_body]
pub(crate) fn json_parse(bytes: &[u8]) -> (r: Result<serde_json::Value, String>)
    ensures
        r is Ok <==> json_wf(bytes@),
{
    serde_json::from_slice::<serde_json::Value>(bytes).map_err(|e| e.to_string())
}

/// Relies on `String::from_utf8`: it succeeds exactly on valid UTF-8 input
/// and returns the text those bytes encode.
#[verifier::external_body]
pub(crate) fn utf8_decode(bytes: &[u8]) -> (r: Option<String>)
    ensures
        r is Some <==> valid_utf8(bytes@),
        r matches Some(s) ==> s@ == decode_utf8(bytes@),
{
    String::from_utf8(bytes.to_vec()).ok()
}

/// The text that lossy UTF-8 decoding gives for a byte sequence: invalid
/// sequences become replacement characters, so the outcome depends on the
/// bytes alone.
pub uninterp spec fn utf8_lossy_of(bytes: Seq<u8>) -> Seq<char>;

/// Relies on `String::from_utf8_lossy`: the text depends on the bytes
/// alone, and valid UTF-8 input decodes unchanged.
#[verifier::external_body]
pub(crate) fn utf8_lossy(bytes: &[u8]) -> (r: String)
    ensures
        r@ == utf8_lossy_of(bytes@),
        valid_utf8(bytes@) ==> r@ == decode_utf8(bytes@),
{
    String::from_utf8_lossy(bytes).into_owned()
}

} // verus!
