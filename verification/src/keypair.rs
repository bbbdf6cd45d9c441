//! The keypair-generation endpoint.

use vstd::prelude::*;

use crate::codec::{base58_decoded, encode_base58};
use crate::responses::KeypairData;
use crate::signer::{generate, keypair_ok};

verus! {

/// Generates a fresh Ed25519 keypair and returns it base58-encoded: the
/// secret decodes to the full 64 keypair bytes, and the public key decodes
/// to their second half.
pub fn generate_keypair() -> (r: KeypairData)
    ensures
        base58_decoded(r.secret@) is Some,
        base58_decoded(r.secret@).unwrap().len() == 64,
        keypair_ok(base58_decoded(r.secret@).unwrap()),
        base58_decoded(r.pubkey@) == Some(base58_decoded(r.secret@).unwrap().subrange(32, 64)),
{
    let kp = generate();
    let secret = encode_base58(kp.secret());
    let pk = kp.pubkey_bytes();
    let pubkey = encode_base58(&pk);
    KeypairData { pubkey, secret }
}

} // verus!
