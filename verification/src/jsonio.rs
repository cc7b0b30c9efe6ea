//! The trusted boundary to `serde_json`: parsing stored JSON text into the
//! crate's entry lists.
//!
//! Writing JSON is done by verified code (`jsontext`); only reading arbitrary
//! text relies on `serde_json`, through the two wrappers here. What a parse
//! returns is named by uninterpreted spec functions, so every caller's
//! contract is stated over those names.

use vstd::prelude::*;

use crate::jsonobj::unique_keys;
use crate::jsontext::pairs_view;

verus! {

/// What parsing a JSON document yields: when the text is a JSON document
/// whose root is an object, its top-level keys each paired with their value
/// re-serialized as compact JSON text, in `serde_json`'s key-sorted map
/// order. `Err(true)`: valid JSON whose root is not an object. `Err(false)`:
/// not valid JSON (an empty or unreadable file reads this way).
pub uninterp spec fn json_doc_entries(s: Seq<char>) -> Result<Seq<(Seq<char>, Seq<char>)>, bool>;

/// What parsing a JSON string literal yields: its character content, or
/// nothing when the text is not exactly one JSON string.
pub uninterp spec fn json_string_value(s: Seq<char>) -> Option<Seq<char>>;

/// Relies on `serde_json::from_str::<Value>` and `serde_json::to_string`:
/// parses a JSON document and, when its root is an object, hands out each
/// top-level key with its value's compact JSON text, in map iteration order.
/// `serde_json`'s map is keyed by `String`, so the keys are distinct, and
/// serializing a `serde_json::Value` back to text cannot fail.
#[verifier::external_body]
pub fn parse_doc_entries(text: &str) -> (r: Result<Vec<(String, String)>, bool>)
    ensures
        r is Ok <==> json_doc_entries(text@) is Ok,
        r is Ok ==> pairs_view(r->Ok_0@) == json_doc_entries(text@)->Ok_0 && unique_keys(
            json_doc_entries(text@)->Ok_0,
        ),
        r is Err ==> r->Err_0 == json_doc_entries(text@)->Err_0,
{
    match serde_json::from_str::<serde_json::Value>(text) {
        Ok(serde_json::Value::Object(m)) => {
            let mut out: Vec<(String, String)> = Vec::new();
            for (k, v) in m.iter() {
                out.push((k.clone(), serde_json::to_string(v).expect("map keyed by String")));
            }
            Ok(out)
        },
        Ok(_) => Err(true),
        Err(_) => Err(false),
    }
}

/// Relies on `serde_json::from_str::<String>`: reads the character content of
/// one JSON string literal, or nothing when `text` is not one.
#[verifier::external_body]
pub fn parse_string_value(text: &str) -> (r: Option<String>)
    ensures
        r is Some <==> json_string_value(text@) is Some,
        r is Some ==> r->0@ == json_string_value(text@)->0,
{
    serde_json::from_str::<String>(text).ok()
}

} // verus!
