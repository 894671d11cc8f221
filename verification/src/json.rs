//! Reading single fields out of JSON text with `serde_json`.
use vstd::prelude::*;

use crate::text::texts;

verus! {

/// What `serde_json` gives for `text` parsed as a JSON value, field `key`
/// read with `Value::get` and taken as a string with `Value::as_str`: `None`
/// where the text is not JSON, the field is absent or it is not a string.
pub uninterp spec fn json_field_str(text: Seq<char>, key: Seq<char>) -> Option<Seq<char>>;

/// As `json_field_str`, but the field taken as an unsigned integer with
/// `Value::as_u64`.
pub uninterp spec fn json_field_u64(text: Seq<char>, key: Seq<char>) -> Option<u64>;

/// As `json_field_str`, but the field, whatever its kind, rendered back to
/// JSON text with `Value::to_string`.
pub uninterp spec fn json_field_rendering(text: Seq<char>, key: Seq<char>) -> Option<Seq<char>>;

/// What `serde_json::from_str::<Vec<String>>` gives for `text`: the list of
/// strings, or the error's message.
pub uninterp spec fn json_string_list(text: Seq<char>) -> Result<Seq<Seq<char>>, Seq<char>>;

/// `serde_json::from_str` followed by `Value::get` and `Value::as_str`. The
/// contract names the result; what JSON parsing yields is not restated.
#[verifier::external_body]
pub(crate) fn json_str_field(text: &str, key: &str) -> (r: Option<String>)
    ensures
        match r {
            Some(v) => json_field_str(text@, key@) == Some(v@),
            None => json_field_str(text@, key@) is None,
        },
{
    let value: serde_json::Value = serde_json::from_str(text).ok()?;
    value.get(key)?.as_str().map(str::to_owned)
}

/// `serde_json::from_str` followed by `Value::get` and `Value::as_u64`. The
/// contract names the result.
#[verifier::external_body]
pub(crate) fn json_u64_field(text: &str, key: &str) -> (r: Option<u64>)
    ensures
        r == json_field_u64(text@, key@),
{
    let value: serde_json::Value = serde_json::from_str(text).ok()?;
    value.get(key)?.as_u64()
}

/// `serde_json::from_str` followed by `Value::get` and the field's JSON
/// rendering through `ToString`. The contract names the result.
#[verifier::external_body]
pub(crate) fn json_field_text(text: &str, key: &str) -> (r: Option<String>)
    ensures
        match r {
            Some(v) => json_field_rendering(text@, key@) == Some(v@),
            None => json_field_rendering(text@, key@) is None,
        },
{
    let value: serde_json::Value = serde_json::from_str(text).ok()?;
    value.get(key).map(ToString::to_string)
}

/// `serde_json::from_str::<Vec<String>>`, the error turned into its message.
/// The contract names the result.
#[verifier::external_body]
pub(crate) fn json_strings(text: &str) -> (r: Result<Vec<String>, String>)
    ensures
        match r {
            Ok(v) => json_string_list(text@) == Ok::<Seq<Seq<char>>, Seq<char>>(texts(v@)),
            Err(e) => json_string_list(text@) == Err::<Seq<Seq<char>>, Seq<char>>(e@),
        },
{
    serde_json::from_str::<Vec<String>>(text).map_err(|error| error.to_string())
}

/// What `serde_json::to_string` gives for the string `s`: `s` as a JSON
/// string literal, quoted and escaped.
pub uninterp spec fn json_string_text(s: Seq<char>) -> Seq<char>;

/// `serde_json::to_string` of a string. The contract names the result;
/// the escaping rules are not restated.
#[verifier::external_body]
pub(crate) fn json_string(s: &str) -> (r: String)
    ensures
        r@ == json_string_text(s@),
{
    serde_json::to_string(s).unwrap_or_default()
}

} // verus!
