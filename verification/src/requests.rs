//! The typed request bodies of the API endpoints.
//!
//! The surrounding application parses JSON into these shapes; every field
//! arrives as the plain string or integer the wire carries.

use vstd::prelude::*;

verus! {

/// Body of `POST /token/create`.
pub struct CreateTokenRequest {
    pub mint_authority: String,
    pub mint: String,
    pub decimals: u8,
}

/// Body of `POST /token/mint`.
pub struct MintTokenRequest {
    pub mint: String,
    pub destination: String,
    pub authority: String,
    pub amount: u64,
}

/// Body of `POST /message/sign`.
pub struct SignMessageRequest {
    pub message: String,
    pub secret: String,
}

/// Body of `POST /message/verify`.
pub struct VerifyMessageRequest {
    pub message: String,
    pub signature: String,
    pub pubkey: String,
}

/// Body of `POST /send/sol`.
pub struct SendSolRequest {
    pub from: String,
    pub to: String,
    pub lamports: u64,
}

/// Body of `POST /send/token`.
pub struct SendTokenRequest {
    pub destination: String,
    pub mint: String,
    pub owner: String,
    pub amount: u64,
}

} // verus!
