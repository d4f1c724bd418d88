//! The crate's only trusted boundary: three small wrappers over serde_json.
//! Each result is a function of the wrapper's arguments alone, so it is given
//! a name that the callers' contracts are stated over; nothing else about the
//! outside crate is assumed.

use vstd::prelude::*;

verus! {

/// What serde_json reads out of `frame` at the top-level key `key`: the field
/// value when the bytes parse as a JSON object holding a string there, and
/// nothing otherwise.
pub uninterp spec fn json_str_field(frame: Seq<u8>, key: Seq<char>) -> Option<Seq<u8>>;

/// As [`json_str_field`], for a boolean field.
pub uninterp spec fn json_bool_field(frame: Seq<u8>, key: Seq<char>) -> Option<bool>;

/// The JSON string literal serde_json writes for a piece of text.
pub uninterp spec fn json_quoted(text: Seq<u8>) -> Seq<u8>;

/// Relies on serde_json::from_slice to parse the frame and Value::get /
/// Value::as_str to read one top-level field; the outcome depends only on the
/// frame bytes and the key.
#[verifier::external_body]
pub fn json_field(frame: &Vec<u8>, key: &str) -> (r: Option<Vec<u8>>)
    ensures
        match r {
            Some(v) => json_str_field(frame@, key@) == Some(v@),
            None => json_str_field(frame@, key@) is None,
        },
{
    match serde_json::from_slice::<serde_json::Value>(frame.as_slice()) {
        Ok(v) => match v.get(key) {
            Some(serde_json::Value::String(s)) => Some(s.clone().into_bytes()),
            _ => None,
        },
        Err(_) => None,
    }
}

/// Relies on serde_json::from_slice and Value::get / Value::as_bool, as
/// [`json_field`] does, for a boolean field.
#[verifier::external_body]
pub fn json_flag(frame: &Vec<u8>, key: &str) -> (r: Option<bool>)
    ensures
        r == json_bool_field(frame@, key@),
{
    match serde_json::from_slice::<serde_json::Value>(frame.as_slice()) {
        Ok(v) => match v.get(key) {
            Some(serde_json::Value::Bool(b)) => Some(*b),
            _ => None,
        },
        Err(_) => None,
    }
}

/// Relies on serde_json::to_vec for a string: the quoted, escaped JSON form
/// of the text; the bytes are first read as UTF-8, lossily, so the outcome
/// depends only on them.
#[verifier::external_body]
pub fn json_quote(text: &Vec<u8>) -> (r: Vec<u8>)
    ensures
        r@ == json_quoted(text@),
{
    let owned = String::from_utf8_lossy(text.as_slice()).into_owned();
    match serde_json::to_vec(&owned) {
        Ok(v) => v,
        Err(_) => Vec::new(),
    }
}

} // verus!
