//! Trusted boundary to `serde_json`'s parser.
//!
//! Response bodies arrive as text and are parsed by `serde_json` into its
//! `Value` tree. The tree is opaque to the verifier; `value_rep` names the
//! document it holds, in the library's own [`JsonRep`] model, and each
//! accessor the decoder calls is wrapped with a contract over that model,
//! matching what `serde_json`'s source shows.

use crate::json::obj_has_key;
use crate::json::obj_lookup;
use crate::json::JsonRep;
use vstd::prelude::*;

verus! {

#[verifier::external_type_specification]
#[verifier::external_body]
pub struct ExValue(serde_json::Value);

/// The document a `serde_json::Value` holds, in the library's model. A
/// number is modeled by its canonical decimal text, as `Number`'s display
/// renders it (`json_number_text` below hands that text out).
pub uninterp spec fn value_rep(v: serde_json::Value) -> JsonRep;

/// What parsing a text as JSON yields: the parsed document, or nothing
/// where the text is not valid JSON. The parse is a function of the text
/// alone.
pub uninterp spec fn json_doc_of(s: Seq<char>) -> Option<JsonRep>;

/// Relies on `serde_json::from_str::<Value>`: parses a JSON text into a
/// value tree.
#[verifier::external_body]
pub fn parse_json(text: &str) -> (r: Option<serde_json::Value>)
    ensures
        r is Some <==> json_doc_of(text@) is Some,
        r matches Some(v) ==> Some(value_rep(v)) == json_doc_of(text@),
{
    serde_json::from_str::<serde_json::Value>(text).ok()
}

/// Relies on `serde_json::Value::get`: looks a key up in an object, and
/// returns nothing on any other kind of value.
#[verifier::external_body]
pub fn json_get<'a>(v: &'a serde_json::Value, key: &str) -> (r: Option<&'a serde_json::Value>)
    ensures
        match value_rep(*v) {
            JsonRep::Obj(entries) => {
                &&& (r is Some <==> obj_has_key(entries, key@))
                &&& (r matches Some(x) ==> Some(value_rep(*x)) == obj_lookup(entries, key@))
            },
            _ => r is None,
        },
{
    v.get(key)
}

/// Relies on `serde_json::Value::as_str`: the text a JSON string holds,
/// and nothing for any other kind of value.
#[verifier::external_body]
pub fn json_as_str(v: &serde_json::Value) -> (r: Option<String>)
    ensures
        match value_rep(*v) {
            JsonRep::Str(t) => r matches Some(s) && s@ == t,
            _ => r is None,
        },
{
    v.as_str().map(|s| s.to_owned())
}

/// Relies on `serde_json::Number`'s display: the canonical decimal text of
/// a JSON number, and nothing for any other kind of value. The model's
/// `Num` carries exactly this text.
#[verifier::external_body]
pub fn json_number_text(v: &serde_json::Value) -> (r: Option<String>)
    ensures
        match value_rep(*v) {
            JsonRep::Num(t) => r matches Some(s) && s@ == t,
            _ => r is None,
        },
{
    match v {
        serde_json::Value::Number(n) => Some(n.to_string()),
        _ => None,
    }
}

/// Relies on `serde_json::Value::is_object`.
#[verifier::external_body]
pub fn json_is_object(v: &serde_json::Value) -> (r: bool)
    ensures
        r == (value_rep(*v) is Obj),
{
    v.is_object()
}

/// Relies on `serde_json::Value::is_null`.
#[verifier::external_body]
pub fn json_is_null(v: &serde_json::Value) -> (r: bool)
    ensures
        r == (value_rep(*v) is Null),
{
    v.is_null()
}

} // verus!
