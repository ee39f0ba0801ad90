//! Strings as they stand in a payload: quoted and escaped as JSON.

use vstd::prelude::*;

verus! {

/// The JSON text that `serde_json::to_string` writes for a string: the
/// string in double quotes, with what JSON does not take as it is escaped.
pub uninterp spec fn json_text(value: Seq<char>) -> Seq<char>;

/// The string that `serde_json::from_str` reads from a JSON text when it is
/// asked for a `String`, or `None` where the text is not one JSON string.
pub uninterp spec fn json_string(text: Seq<char>) -> Option<Seq<char>>;

/// Calls `serde_json::to_string` on a string. Writing a string into a
/// buffer in memory cannot fail, so the error arm is never taken; the
/// contract claims that the text depends on the string alone.
#[verifier::external_body]
pub(crate) fn quote(value: &str) -> (text: String)
    ensures
        text@ == json_text(value@),
{
    match serde_json::to_string(value) {
        Ok(text) => text,
        Err(_) => String::new(),
    }
}

/// Calls `serde_json::from_str` for a `String`. The contract claims that
/// the outcome depends on the text alone.
#[verifier::external_body]
pub(crate) fn unquote(text: &str) -> (value: Option<String>)
    ensures
        match value {
            Some(string) => json_string(text@) == Some(string@),
            None => json_string(text@) is None,
        },
{
    serde_json::from_str::<String>(text).ok()
}

} // verus!
