//! Base58 and base64 string codecs for keys, secrets and signatures.
//!
//! Keys and secrets travel base58-encoded, signatures base64-encoded; the two
//! encodings are part of the API contract and are not interchangeable.

use base64::Engine;
use vstd::prelude::*;

verus! {

/// The base58 encoding (Bitcoin alphabet) of a byte string.
pub uninterp spec fn base58_of(b: Seq<u8>) -> Seq<char>;

/// What base58 decoding returns: the decoded bytes, or `None` for input that
/// is not well-formed base58.
pub uninterp spec fn base58_decoded(s: Seq<char>) -> Option<Seq<u8>>;

/// The standard base64 encoding (with padding) of a byte string.
pub uninterp spec fn base64_of(b: Seq<u8>) -> Seq<char>;

/// What standard base64 decoding returns: the decoded bytes, or `None` for
/// input that is not well-formed base64.
pub uninterp spec fn base64_decoded(s: Seq<char>) -> Option<Seq<u8>>;

/// Relies on `bs58::encode` with the default (Bitcoin) alphabet: the encoding
/// is a deterministic function of the bytes, is non-empty for non-empty
/// input, and `bs58::decode` inverts it.
#[verifier::external_body]
pub(crate) fn encode_base58(b: &Vec<u8>) -> (r: String)
    ensures
        r@ == base58_of(b@),
        base58_decoded(r@) == Some(b@),
        b@.len() > 0 ==> r@.len() > 0,
{
    bs58::encode(b.as_slice()).into_string()
}

/// Relies on `bs58::decode` with the default (Bitcoin) alphabet: it returns
/// the decoded bytes for well-formed base58 input and fails exactly on input
/// that is not base58.
#[verifier::external_body]
pub(crate) fn decode_base58(s: &str) -> (r: Result<Vec<u8>, ()>)
    ensures
        r is Ok <==> base58_decoded(s@) is Some,
        r matches Ok(v) ==> Some(v@) == base58_decoded(s@),
{
    match bs58::decode(s).into_vec() {
        Ok(v) => Ok(v),
        Err(_) => Err(()),
    }
}

/// Relies on `base64::engine::general_purpose::STANDARD.encode`: the encoding
/// is a deterministic function of the bytes, is non-empty for non-empty
/// input, and the same engine's `decode` inverts it.
#[verifier::external_body]
pub(crate) fn encode_base64(b: &Vec<u8>) -> (r: String)
    ensures
        r@ == base64_of(b@),
        base64_decoded(r@) == Some(b@),
        b@.len() > 0 ==> r@.len() > 0,
{
    base64::engine::general_purpose::STANDARD.encode(b.as_slice())
}

/// Relies on `base64::engine::general_purpose::STANDARD.decode`: it returns
/// the decoded bytes for well-formed base64 input and fails exactly on input
/// that is not base64.
#[verifier::external_body]
pub(crate) fn decode_base64(s: &str) -> (r: Result<Vec<u8>, ()>)
    ensures
        r is Ok <==> base64_decoded(s@) is Some,
        r matches Ok(v) ==> Some(v@) == base64_decoded(s@),
{
    match base64::engine::general_purpose::STANDARD.decode(s) {
        Ok(v) => Ok(v),
        Err(_) => Err(()),
    }
}

/// Decoding the base58 encoding of any byte string yields the original bytes.
pub fn base58_round_trip(bytes: &Vec<u8>) -> (r: Vec<u8>)
    ensures
        r@ == bytes@,
{
    let encoded = encode_base58(bytes);
    match decode_base58(encoded.as_str()) {
        Ok(v) => v,
        Err(_) => vstd::pervasive::unreached(),
    }
}

} // verus!
