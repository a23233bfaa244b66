//! The trusted boundary to serde_json: the structured update loop stores
//! its values as JSON bytes, and only these two calls cross into the
//! encoder and decoder.

use vstd::prelude::*;

verus! {

#[verifier::external_type_specification]
#[verifier::external_body]
pub struct ExValue(serde_json::Value);

#[verifier::external_type_specification]
#[verifier::external_body]
pub struct ExJsonError(serde_json::Error);

/// Relies on serde_json::from_slice: decodes one JSON value from the given
/// bytes. It fails on malformed JSON, on trailing bytes after the value,
/// and on nesting beyond the decoder's depth limit.
#[verifier::external_body]
pub(crate) fn parse_json(bytes: &Vec<u8>) -> (r: Result<serde_json::Value, serde_json::Error>)
{
    serde_json::from_slice(bytes.as_slice())
}

/// Relies on serde_json::to_vec: encodes the value as JSON bytes; an
/// absent value encodes as the four bytes of `null`.
#[verifier::external_body]
pub(crate) fn encode_json(value: &Option<serde_json::Value>) -> (r: Result<
    Vec<u8>,
    serde_json::Error,
>)
    ensures
        value is None ==> r is Ok && r->Ok_0@ == seq![110u8, 117u8, 108u8, 108u8],
{
    serde_json::to_vec(value)
}

} // verus!
