//! The message-signing and message-verification endpoints.
//!
//! Messages are signed over their raw UTF-8 bytes, not over a hash of them.

use vstd::prelude::*;

use crate::address::{addr_bytes, parse_address, parse_secret, parse_signature, ParseFailure};
use crate::codec::{
    base58_decoded, base64_decoded, base64_of, base58_of, encode_base58, encode_base64,
};
use crate::errors::ApiError;
use crate::requests::{SignMessageRequest, VerifyMessageRequest};
use crate::responses::{SignMessageData, VerifyMessageData};
use crate::signer::{ed25519_signature, ed25519_verifies, keypair_ok, sign_bytes, verify_bytes};
use vstd::utf8::encode_utf8;

verus! {

/// The error the signing endpoint reports for a request, or `None` when it
/// succeeds: fields must be non-empty, the secret must be base58, and it
/// must decode to a valid 64-byte keypair.
pub open spec fn sign_message_error(req: SignMessageRequest) -> Option<ApiError> {
    if req.message@.len() == 0 || req.secret@.len() == 0 {
        Some(ApiError::MissingRequiredFields)
    } else if base58_decoded(req.secret@) is None {
        Some(ApiError::InvalidSecretKeyFormat)
    } else if !keypair_ok(base58_decoded(req.secret@).unwrap()) {
        Some(ApiError::InvalidSecretKey)
    } else {
        None
    }
}

/// The 64 keypair bytes a well-formed signing request carries.
pub open spec fn secret_key_bytes(req: SignMessageRequest) -> Seq<u8> {
    base58_decoded(req.secret@).unwrap()
}

/// Signs the message with the keypair decoded from the request's base58
/// secret. On success the signature is returned base64-encoded together
/// with the base58 public key and the original message, and the signature
/// verifies under that public key.
pub fn sign_message(req: &SignMessageRequest) -> (r: Result<SignMessageData, ApiError>)
    ensures
        r is Err <==> sign_message_error(*req) is Some,
        r matches Err(e) ==> Some(e) == sign_message_error(*req),
        r matches Ok(d) ==> ({
            let sk = secret_key_bytes(*req);
            let msg = encode_utf8(req.message@);
            let sig = ed25519_signature(sk, msg);
            &&& sk.len() == 64
            &&& d.signature@ == base64_of(sig)
            &&& base64_decoded(d.signature@) == Some(sig)
            &&& sig.len() == 64
            &&& d.signature@.len() > 0
            &&& d.public_key@.len() > 0
            &&& d.public_key@ == base58_of(sk.subrange(32, 64))
            &&& base58_decoded(d.public_key@) == Some(sk.subrange(32, 64))
            &&& d.message@ == req.message@
            &&& ed25519_verifies(sk.subrange(32, 64), msg, sig)
        }),
{
    if req.message.as_str().is_empty() || req.secret.as_str().is_empty() {
        return Err(ApiError::MissingRequiredFields);
    }
    let kp = match parse_secret(req.secret.as_str()) {
        Ok(k) => k,
        Err(ParseFailure::Encoding) => {
            return Err(ApiError::InvalidSecretKeyFormat);
        },
        Err(ParseFailure::Structure) => {
            return Err(ApiError::InvalidSecretKey);
        },
    };
    let msg_bytes = req.message.as_str().as_bytes();
    let sig = sign_bytes(&kp, msg_bytes);
    let signature = encode_base64(&sig);
    let pk = kp.pubkey_bytes();
    let public_key = encode_base58(&pk);
    Ok(SignMessageData { signature, public_key, message: req.message.clone() })
}

/// The error the verification endpoint reports for a request, or `None`
/// when it succeeds: fields must be non-empty, the public key must be
/// base58 of 32 bytes, and the signature base64 of 64 bytes.
pub open spec fn verify_message_error(req: VerifyMessageRequest) -> Option<ApiError> {
    if req.message@.len() == 0 || req.signature@.len() == 0 || req.pubkey@.len() == 0 {
        Some(ApiError::MissingRequiredFields)
    } else if base58_decoded(req.pubkey@) is None {
        Some(ApiError::InvalidPublicKeyFormat)
    } else if base58_decoded(req.pubkey@).unwrap().len() != 32 {
        Some(ApiError::InvalidPublicKey)
    } else if base64_decoded(req.signature@) is None {
        Some(ApiError::InvalidSignatureFormat)
    } else if base64_decoded(req.signature@).unwrap().len() != 64 {
        Some(ApiError::InvalidSignature)
    } else {
        None
    }
}

/// Verifies the base64 signature over the message's bytes under the base58
/// public key. A well-formed but cryptographically invalid signature yields
/// `valid: false`, not an error.
pub fn verify_message(req: &VerifyMessageRequest) -> (r: Result<VerifyMessageData, ApiError>)
    ensures
        r is Err <==> verify_message_error(*req) is Some,
        r matches Err(e) ==> Some(e) == verify_message_error(*req),
        r matches Ok(d) ==> ({
            &&& d.valid == ed25519_verifies(
                addr_bytes(req.pubkey@),
                encode_utf8(req.message@),
                base64_decoded(req.signature@).unwrap(),
            )
            &&& d.message@ == req.message@
            &&& d.pubkey@ == req.pubkey@
        }),
{
    if req.message.as_str().is_empty() || req.signature.as_str().is_empty()
        || req.pubkey.as_str().is_empty() {
        return Err(ApiError::MissingRequiredFields);
    }
    let pubkey = match parse_address(req.pubkey.as_str()) {
        Ok(a) => a,
        Err(ParseFailure::Encoding) => {
            return Err(ApiError::InvalidPublicKeyFormat);
        },
        Err(ParseFailure::Structure) => {
            return Err(ApiError::InvalidPublicKey);
        },
    };
    let sig = match parse_signature(req.signature.as_str()) {
        Ok(v) => v,
        Err(ParseFailure::Encoding) => {
            return Err(ApiError::InvalidSignatureFormat);
        },
        Err(ParseFailure::Structure) => {
            return Err(ApiError::InvalidSignature);
        },
    };
    let msg_bytes = req.message.as_str().as_bytes();
    let valid = verify_bytes(&pubkey.bytes, msg_bytes, &sig);
    Ok(VerifyMessageData {
        valid,
        message: req.message.clone(),
        pubkey: req.pubkey.clone(),
    })
}

/// A signature produced by the signing endpoint always verifies through the
/// verification endpoint with the returned public key and the same message.
pub fn sign_message_round_trip(req: &SignMessageRequest) -> (r: Option<bool>)
    ensures
        r is Some <==> sign_message_error(*req) is None,
        r matches Some(v) ==> v,
{
    match sign_message(req) {
        Ok(d) => {
            let vreq = VerifyMessageRequest {
                message: d.message,
                signature: d.signature,
                pubkey: d.public_key,
            };
            match verify_message(&vreq) {
                Ok(v) => Some(v.valid),
                Err(_) => vstd::pervasive::unreached(),
            }
        },
        Err(_) => None,
    }
}

} // verus!
