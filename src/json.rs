use vstd::prelude::*;

verus! {

/// Whether serde_json reads `text` as one JSON document.
pub uninterp spec fn json_valid(text: Seq<char>) -> bool;

/// serde_json's pretty rendering of the JSON value that `text` holds.
pub uninterp spec fn json_pretty(text: Seq<char>) -> Seq<char>;

/// What a decompressed text becomes: its pretty rendering when it is JSON,
/// itself when it is not.
pub open spec fn formatted_json(text: Seq<char>) -> Seq<char> {
    if json_valid(text) {
        json_pretty(text)
    } else {
        text
    }
}

/// Relies on `serde_json::from_str` into a `serde_json::Value`, then
/// `serde_json::to_string_pretty`. Reading succeeds exactly when the text is
/// one JSON document; rendering a value so read does not fail (its map keys
/// are strings, and it is written into memory). With `preserve_order` and
/// `float_roundtrip` the rendering reads back as the same value, in the same
/// key order, so it renders to itself.
#[verifier::external_body]
fn render_json(text: &str) -> (r: Option<String>)
    ensures
        r is Some == json_valid(text@),
        r matches Some(p) ==> p@ == json_pretty(text@) && json_valid(p@) && json_pretty(p@)
            == p@,
{
    match serde_json::from_str::<serde_json::Value>(text) {
        Ok(value) => serde_json::to_string_pretty(&value).ok(),
        Err(_) => None,
    }
}

/// What a decompressed text becomes, given the pretty rendering of its JSON
/// value when there is one: that rendering, else the text unchanged.
pub fn format_json_with(text: &str, pretty: Option<String>) -> (r: String)
    ensures
        r@ == match pretty {
            Some(p) => p@,
            None => text@,
        },
{
    match pretty {
        Some(p) => p,
        None => text.to_owned(),
    }
}

/// Pretty-prints `text` when it is JSON; any other text is handed back
/// unchanged. A JSON result is itself JSON, holds the same value as `text`
/// (both render alike), and is left as it is by a second formatting.
pub fn format_json(text: &str) -> (r: String)
    ensures
        r@ == formatted_json(text@),
        !json_valid(text@) ==> r@ == text@,
        json_valid(text@) ==> json_valid(r@) && json_pretty(r@) == json_pretty(text@),
        formatted_json(r@) == r@,
{
    format_json_with(text, render_json(text))
}

} // verus!
