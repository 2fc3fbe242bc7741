use vstd::prelude::*;

verus! {

/// serde_json's parse error, opaque here: it is carried from the parser to
/// its description and never looked into.
#[verifier::external_type_specification]
#[verifier::external_body]
pub struct ExJsonError(serde_json::Error);

/// The JSON text of a string value: `s` in quotes, with the characters that
/// JSON requires escaped.
pub uninterp spec fn json_quoted(s: Seq<char>) -> Seq<char>;

/// What a JSON pointer finds in a JSON text: `None` when `text` is not JSON,
/// `Some(None)` when the pointer leads to nothing or to a value that is not a
/// string, `Some(Some(v))` when it leads to the string `v`.
pub uninterp spec fn json_string_at(text: Seq<char>, pointer: Seq<char>) -> Option<
    Option<Seq<char>>,
>;

/// The view of an optional string.
pub open spec fn opt_view(o: Option<String>) -> Option<Seq<char>> {
    match o {
        Some(v) => Some(v@),
        None => None,
    }
}

/// Relies on serde_json's `Display` for `Value`: a `Value::String` prints as
/// its compact JSON text, a function of the string alone.
#[verifier::external_body]
pub(crate) fn quote_json(s: &str) -> (r: String)
    ensures
        r@ == json_quoted(s@),
{
    serde_json::Value::String(s.to_string()).to_string()
}

/// Relies on `serde_json::from_str::<serde_json::Value>`, which fails exactly
/// on text that is not JSON, and on `Value::pointer`, which looks a value up
/// by an RFC 6901 pointer; only a `Value::String` found there is kept.
#[verifier::external_body]
pub(crate) fn string_at(text: &str, pointer: &str) -> (r: Result<Option<String>, serde_json::Error>)
    ensures
        r is Err <==> json_string_at(text@, pointer@) is None,
        r matches Ok(found) ==> json_string_at(text@, pointer@) == Some(opt_view(found)),
{
    let value = serde_json::from_str::<serde_json::Value>(text)?;
    Ok(match value.pointer(pointer) {
        Some(serde_json::Value::String(v)) => Some(v.clone()),
        _ => None,
    })
}

/// Relies on serde_json's `Display` for `Error`, which describes the fault
/// and where in the text it was found.
#[verifier::external_body]
pub(crate) fn describe_json_error(e: &serde_json::Error) -> (r: String) {
    e.to_string()
}

} // verus!
