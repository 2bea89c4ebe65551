//! The one piece of JSON text that is written here rather than by the
//! caller: a flat object that carries a single message.

use vstd::prelude::*;

verus! {

/// The compact JSON text of an object with one member, `key`, whose value
/// is the JSON string for `value`, as `serde_json` writes it.
pub uninterp spec fn object_text(key: Seq<char>, value: Seq<char>) -> Seq<char>;

/// Writes the object `{key: value}` as compact JSON.
///
/// Trusted: the body builds a `serde_json::Value::Object` with the one
/// member and calls `to_string` on it, which goes through the `Display`
/// impl of `serde_json::Value`. The contract claims only that the text is a
/// function of the two strings; what the text is, escapes included, is left
/// to `serde_json`.
#[verifier::external_body]
pub(crate) fn render_object(key: &str, value: &str) -> (text: String)
    ensures
        text@ == object_text(key@, value@),
{
    let mut members = serde_json::Map::new();
    members.insert(key.to_owned(), serde_json::Value::String(value.to_owned()));
    serde_json::Value::Object(members).to_string()
}

} // verus!
