//! Ed25519 keypairs, signing and verification.
//!
//! A keypair is 64 bytes: a 32-byte secret seed followed by the 32-byte
//! public key derived from it. Signing is deterministic over the raw message
//! bytes; verification is a pure function that returns `false`, not an
//! error, for a well-formed but cryptographically invalid signature.

use solana_sdk::signer::Signer;
use vstd::prelude::*;

use vstd::slice::{slice_subrange, slice_to_vec};

verus! {

/// Whether `solana_sdk::signer::keypair::Keypair::from_bytes` accepts these
/// bytes: exactly 64 bytes whose second half is the public key derived from
/// the first-half seed.
pub uninterp spec fn keypair_ok(b: Seq<u8>) -> bool;

/// The deterministic Ed25519 signature of a message under a keypair's
/// 64 secret bytes, as produced by `Keypair::sign_message`.
pub uninterp spec fn ed25519_signature(secret: Seq<u8>, msg: Seq<u8>) -> Seq<u8>;

/// What `solana_sdk::signature::Signature::verify` returns for a 32-byte
/// public key, a message and a 64-byte signature.
pub uninterp spec fn ed25519_verifies(pubkey: Seq<u8>, msg: Seq<u8>, sig: Seq<u8>) -> bool;

#[verifier::external_type_specification]
#[verifier::external_body]
pub struct ExKeypair(solana_sdk::signer::keypair::Keypair);

/// An Ed25519 keypair: the 64 secret bytes together with the signing handle
/// built from them. Only the trusted constructors below build one, so the
/// handle always corresponds to the bytes.
pub struct KeyPair {
    secret: Vec<u8>,
    inner: solana_sdk::signer::keypair::Keypair,
}

impl KeyPair {
    /// The 64 secret bytes: seed then embedded public key.
    pub closed spec fn secret_bytes(&self) -> Seq<u8> {
        self.secret@
    }

    /// The embedded 32 public-key bytes.
    pub open spec fn public_bytes(&self) -> Seq<u8> {
        self.secret_bytes().subrange(32, 64)
    }

    /// The invariant of every keypair this module hands out.
    pub open spec fn wf(&self) -> bool {
        &&& self.secret_bytes().len() == 64
        &&& keypair_ok(self.secret_bytes())
    }

    /// The 64 secret bytes, for re-encoding.
    pub fn secret(&self) -> (r: &Vec<u8>)
        ensures
            r@ == self.secret_bytes(),
    {
        &self.secret
    }

    /// The embedded 32 public-key bytes, for re-encoding.
    pub fn pubkey_bytes(&self) -> (r: Vec<u8>)
        requires
            self.wf(),
        ensures
            r@ == self.public_bytes(),
            r@.len() == 32,
    {
        slice_to_vec(slice_subrange(self.secret.as_slice(), 32, 64))
    }
}

/// Relies on `solana_sdk::signer::keypair::Keypair::new`: it generates a
/// fresh Ed25519 keypair, and `to_bytes` lays it out as the 32-byte seed
/// followed by the 32-byte derived public key, a layout `from_bytes`
/// accepts. Nothing is assumed about which keypair comes out.
#[verifier::external_body]
pub(crate) fn generate() -> (r: KeyPair)
    ensures
        r.wf(),
{
    let kp = solana_sdk::signer::keypair::Keypair::new();
    let secret = kp.to_bytes().to_vec();
    KeyPair { secret, inner: kp }
}

/// Relies on `solana_sdk::signer::keypair::Keypair::from_bytes`: it accepts
/// exactly the 64-byte arrays whose second half equals the public key derived
/// from the first-half seed, and fails on everything else.
#[verifier::external_body]
pub(crate) fn keypair_from_bytes(b: &Vec<u8>) -> (r: Result<KeyPair, ()>)
    ensures
        r is Ok <==> keypair_ok(b@),
        r matches Ok(kp) ==> kp.secret_bytes() == b@ && b@.len() == 64,
{
    match solana_sdk::signer::keypair::Keypair::from_bytes(b.as_slice()) {
        Ok(kp) => Ok(KeyPair { secret: b.clone(), inner: kp }),
        Err(_) => Err(()),
    }
}

/// Relies on `Keypair::sign_message` (ed25519-dalek): the 64-byte signature
/// is a deterministic function of the keypair bytes and the message, and a
/// signature produced by a keypair that `from_bytes` accepts passes
/// `Signature::verify` under the keypair's public key.
#[verifier::external_body]
pub(crate) fn sign_bytes(kp: &KeyPair, msg: &[u8]) -> (r: Vec<u8>)
    requires
        kp.wf(),
    ensures
        r@.len() == 64,
        r@ == ed25519_signature(kp.secret_bytes(), msg@),
        ed25519_verifies(kp.public_bytes(), msg@, r@),
{
    kp.inner.sign_message(msg).as_ref().to_vec()
}

/// Relies on `solana_sdk::signature::Signature::verify`: strict Ed25519
/// verification of a 64-byte signature over the message under a 32-byte
/// public key, returning `false` (never panicking) on any failure.
#[verifier::external_body]
pub(crate) fn verify_bytes(pubkey: &Vec<u8>, msg: &[u8], sig: &Vec<u8>) -> (r: bool)
    requires
        pubkey@.len() == 32,
        sig@.len() == 64,
    ensures
        r == ed25519_verifies(pubkey@, msg@, sig@),
{
    let signature = solana_sdk::signature::Signature::try_from(sig.as_slice()).unwrap();
    signature.verify(pubkey.as_slice(), msg)
}

/// A message signed with a keypair always verifies under that keypair's
/// public key.
pub fn sign_then_verify(kp: &KeyPair, msg: &[u8]) -> (r: bool)
    requires
        kp.wf(),
    ensures
        r,
{
    let sig = sign_bytes(kp, msg);
    let pk = kp.pubkey_bytes();
    verify_bytes(&pk, msg, &sig)
}

} // verus!
