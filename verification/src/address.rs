//! Parsing and validation of keys, secrets and signatures.
//!
//! Addresses are base58 strings of exactly 32 bytes; any 32-byte value is
//! accepted, with no on-curve check. Secrets are base58 strings of a 64-byte
//! keypair; signatures are base64 strings of exactly 64 bytes.

use vstd::prelude::*;

use crate::codec::{base58_decoded, base64_decoded, decode_base58, decode_base64};
use crate::signer::{keypair_from_bytes, keypair_ok, KeyPair};

verus! {

/// A validated 32-byte address.
#[derive(Debug)]
pub struct Address {
    pub bytes: Vec<u8>,
}

impl View for Address {
    type V = Seq<u8>;

    open spec fn view(&self) -> Seq<u8> {
        self.bytes@
    }
}

impl Address {
    /// The invariant every parsed or derived address satisfies.
    pub open spec fn wf(&self) -> bool {
        self.bytes@.len() == 32
    }
}

/// Whether a string is a well-formed address: base58 that decodes to exactly
/// 32 bytes.
pub open spec fn addr_ok(s: Seq<char>) -> bool {
    &&& base58_decoded(s) is Some
    &&& base58_decoded(s).unwrap().len() == 32
}

/// The 32 bytes a well-formed address string decodes to.
pub open spec fn addr_bytes(s: Seq<char>) -> Seq<u8> {
    base58_decoded(s).unwrap()
}

/// Why a string failed to parse as an address, secret or signature.
#[derive(Clone, Copy, Debug, PartialEq, Eq, Structural)]
pub enum ParseFailure {
    /// The string did not decode at all.
    Encoding,
    /// The string decoded to a value of the wrong shape.
    Structure,
}

/// Parses a base58 string into a 32-byte address, distinguishing input that
/// is not base58 from input that decodes to the wrong number of bytes.
pub fn parse_address(s: &str) -> (r: Result<Address, ParseFailure>)
    ensures
        r is Ok <==> addr_ok(s@),
        r matches Ok(a) ==> a.wf() && a@ == addr_bytes(s@),
        r matches Err(f) ==> (f == ParseFailure::Encoding <==> base58_decoded(s@) is None),
{
    match decode_base58(s) {
        Ok(bytes) => {
            if bytes.len() == 32 {
                Ok(Address { bytes })
            } else {
                Err(ParseFailure::Structure)
            }
        },
        Err(_) => Err(ParseFailure::Encoding),
    }
}

/// Parses a base58 secret into a keypair, distinguishing input that is not
/// base58 from input that decodes to something other than a valid 64-byte
/// keypair.
pub fn parse_secret(s: &str) -> (r: Result<KeyPair, ParseFailure>)
    ensures
        r is Ok <==> (base58_decoded(s@) matches Some(b) && keypair_ok(b)),
        r matches Ok(kp) ==> kp.wf() && kp.secret_bytes() == base58_decoded(s@).unwrap(),
        r matches Err(f) ==> (f == ParseFailure::Encoding <==> base58_decoded(s@) is None),
{
    match decode_base58(s) {
        Ok(bytes) => match keypair_from_bytes(&bytes) {
            Ok(kp) => Ok(kp),
            Err(_) => Err(ParseFailure::Structure),
        },
        Err(_) => Err(ParseFailure::Encoding),
    }
}

/// Parses a base64 signature into its 64 bytes, distinguishing input that is
/// not base64 from input that decodes to the wrong number of bytes.
pub fn parse_signature(s: &str) -> (r: Result<Vec<u8>, ParseFailure>)
    ensures
        r is Ok <==> (base64_decoded(s@) matches Some(b) && b.len() == 64),
        r matches Ok(v) ==> Some(v@) == base64_decoded(s@) && v@.len() == 64,
        r matches Err(f) ==> (f == ParseFailure::Encoding <==> base64_decoded(s@) is None),
{
    match decode_base64(s) {
        Ok(v) => {
            if v.len() == 64 {
                Ok(v)
            } else {
                Err(ParseFailure::Structure)
            }
        },
        Err(_) => Err(ParseFailure::Encoding),
    }
}

} // verus!
