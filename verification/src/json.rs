//! What this crate reads of a JSON document. The documents themselves are
//! parsed and held by `serde_json`; nothing here is proved of that crate,
//! and the four functions below are all that the rest of the crate calls.

use vstd::prelude::*;

verus! {

#[verifier::external_type_specification]
#[verifier::external_body]
pub struct ExValue(serde_json::Value);

#[verifier::external_type_specification]
#[verifier::external_body]
pub struct ExError(serde_json::Error);

/// The document that `serde_json` reads from `bytes`; none where the bytes
/// are not one JSON document.
pub uninterp spec fn json_document(bytes: Seq<u8>) -> Option<serde_json::Value>;

/// The member that `value` holds under `key`; none where `value` is no
/// object or has no such member.
pub uninterp spec fn json_member(value: serde_json::Value, key: Seq<char>) -> Option<
    serde_json::Value,
>;

/// The characters of `value`, where it is a string.
pub uninterp spec fn json_text(value: serde_json::Value) -> Option<Seq<char>>;

/// The number that `value` is, where it is a whole number from 0 to
/// 2^64 - 1.
pub uninterp spec fn json_number(value: serde_json::Value) -> Option<u64>;

/// `serde_json::from_slice`, asked for a `Value`. It gives the document
/// that the bytes hold and fails on everything else; the contract gives
/// that outcome its name, [`json_document`], and claims no more.
#[verifier::external_body]
pub(crate) fn read_document(bytes: &[u8]) -> (document: Result<
    serde_json::Value,
    serde_json::Error,
>)
    ensures
        match document {
            Ok(value) => json_document(bytes@) == Some(value),
            Err(_) => json_document(bytes@) is None,
        },
{
    serde_json::from_slice::<serde_json::Value>(bytes)
}

/// `serde_json::Value::get` with a string index: the member under `key`
/// of an object, `None` for any other value and for a key that the object
/// lacks. The contract names that outcome [`json_member`].
#[verifier::external_body]
pub(crate) fn member<'a>(value: &'a serde_json::Value, key: &str) -> (found: Option<
    &'a serde_json::Value,
>)
    ensures
        match found {
            Some(inner) => json_member(*value, key@) == Some(*inner),
            None => json_member(*value, key@) is None,
        },
{
    value.get(key)
}

/// `serde_json::Value::as_str`: the text of a string value, `None` for any
/// other value. The contract names that outcome [`json_text`].
#[verifier::external_body]
pub(crate) fn text<'a>(value: &'a serde_json::Value) -> (found: Option<&'a str>)
    ensures
        match found {
            Some(characters) => json_text(*value) == Some(characters@),
            None => json_text(*value) is None,
        },
{
    value.as_str()
}

/// `serde_json::Value::as_u64`: the number, where the value is a
/// non-negative integer that fits 64 bits, `None` for any other value. The
/// contract names that outcome [`json_number`].
#[verifier::external_body]
pub(crate) fn number(value: &serde_json::Value) -> (found: Option<u64>)
    ensures
        found == json_number(*value),
{
    value.as_u64()
}

} // verus!
