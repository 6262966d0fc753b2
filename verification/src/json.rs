//! Reading JSON text with `serde_json`.
use vstd::prelude::*;

verus! {

/// The string that the JSON pointer `pointer` reaches in the document `text`, when
/// `text` parses as JSON and the pointer reaches a string.
pub uninterp spec fn json_pointer_str(text: Seq<char>, pointer: Seq<char>) -> Option<Seq<char>>;

/// `serde_json::from_str::<serde_json::Value>(text)`, then `Value::pointer(pointer)` and
/// `Value::as_str`; the result is named.
#[verifier::external_body]
pub(crate) fn json_str_at(text: &str, pointer: &str) -> (r: Option<String>)
    ensures
        match json_pointer_str(text@, pointer@) {
            Some(s) => r matches Some(x) && x@ == s,
            None => r is None,
        },
{
    match serde_json::from_str::<serde_json::Value>(text) {
        Ok(v) => match v.pointer(pointer) {
            Some(x) => match x.as_str() {
                Some(s) => Some(s.to_string()),
                None => None,
            },
            None => None,
        },
        Err(_) => None,
    }
}

} // verus!
