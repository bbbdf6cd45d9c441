//! The success payloads of the API endpoints.
//!
//! The surrounding application serializes these into the uniform
//! `{success, data}` envelope. The token-transfer endpoint deliberately uses
//! an account shape without a writable flag and with a camel-case field
//! name; the divergence is part of the documented contract.

use vstd::prelude::*;

verus! {

/// An account entry of an instruction response: base58 address and roles.
#[derive(Debug)]
pub struct AccountInfo {
    pub pubkey: String,
    pub is_signer: bool,
    pub is_writable: bool,
}

/// The account shape of the token-transfer endpoint: no writable flag, and
/// the signer flag is serialized camel-case.
#[derive(Debug)]
pub struct AccountInfoCamelCase {
    pub pubkey: String,
    pub is_signer: bool,
}

/// Success payload of `POST /token/create` and `POST /token/mint`.
#[derive(Debug)]
pub struct InstructionData {
    pub program_id: String,
    pub accounts: Vec<AccountInfo>,
    pub instruction_data: String,
}

/// Success payload of `POST /send/sol`: the two account addresses are bare
/// strings.
#[derive(Debug)]
pub struct SolTransferData {
    pub program_id: String,
    pub accounts: Vec<String>,
    pub instruction_data: String,
}

/// Success payload of `POST /send/token`.
#[derive(Debug)]
pub struct TokenTransferData {
    pub program_id: String,
    pub accounts: Vec<AccountInfoCamelCase>,
    pub instruction_data: String,
}

/// Success payload of `POST /keypair`: both keys base58-encoded.
#[derive(Debug)]
pub struct KeypairData {
    pub pubkey: String,
    pub secret: String,
}

/// Success payload of `POST /message/sign`.
#[derive(Debug)]
pub struct SignMessageData {
    pub signature: String,
    pub public_key: String,
    pub message: String,
}

/// Success payload of `POST /message/verify`.
#[derive(Debug)]
pub struct VerifyMessageData {
    pub valid: bool,
    pub message: String,
    pub pubkey: String,
}

} // verus!
