//! Reading the model name out of a JSON request body.
//!
//! The body is a JSON document whose top-level object may carry a `"model"`
//! key; only a string value there counts, and every anomaly — bytes that are
//! not UTF-8, text that is not JSON, a missing key, a value of another type —
//! collapses to no answer. The parse is delegated to the JSON library the
//! host links; what it answers is a function of the bytes alone, named here
//! so contracts downstream can speak of it exactly.

use vstd::prelude::*;

verus! {

/// The model name a JSON byte buffer carries: the string under the
/// top-level `"model"` key when the bytes are UTF-8 and parse as JSON with
/// such a key holding a string, and nothing otherwise. A function of the
/// bytes alone.
pub uninterp spec fn model_field(body: Seq<u8>) -> Option<Seq<char>>;

/// Relies on `serde_json::from_str::<Value>`, `Value::get` and
/// `Value::as_str`, together implementing the `model_field` rule: `get` on a
/// non-object or absent key answers nothing, `as_str` on a non-string value
/// answers nothing, and a parse or UTF-8 failure answers nothing. Total: no
/// input makes it fail or panic.
#[verifier::external_body]
pub fn extract_model_from_body(body: &[u8]) -> (r: Option<String>)
    ensures
        match r {
            Some(s) => model_field(body@) == Some(s@),
            None => model_field(body@) is None,
        },
{
    if let Ok(text) = std::str::from_utf8(body) {
        if let Ok(doc) = serde_json::from_str::<serde_json::Value>(text) {
            if let Some(value) = doc.get("model") {
                if let Some(s) = value.as_str() {
                    return Some(s.to_string());
                }
            }
        }
    }
    None
}

} // verus!
