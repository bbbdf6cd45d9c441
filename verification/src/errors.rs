//! The error taxonomy of the API: every validation or construction failure
//! maps to one of these variants, each carrying a fixed user-visible message.

use vstd::prelude::*;

verus! {

/// A request-level failure. Every variant corresponds to exactly one message
/// string, which the response envelope carries verbatim with HTTP status 400.
#[derive(Clone, Copy, Debug, PartialEq, Eq, Structural)]
pub enum ApiError {
    /// One or more required string fields were empty.
    MissingRequiredFields,
    /// The mint authority was not a base58 string of 32 bytes.
    InvalidMintAuthorityAddress,
    /// The mint was not a base58 string of 32 bytes.
    InvalidMintAddress,
    /// The destination was not a base58 string of 32 bytes.
    InvalidDestinationAddress,
    /// The authority was not a base58 string of 32 bytes.
    InvalidAuthorityAddress,
    /// The sender was not a base58 string of 32 bytes.
    InvalidFromAddress,
    /// The recipient was not a base58 string of 32 bytes.
    InvalidToAddress,
    /// The owner was not a base58 string of 32 bytes.
    InvalidOwnerAddress,
    /// The public key was not a base58 string.
    InvalidPublicKeyFormat,
    /// The public key decoded to something other than 32 bytes.
    InvalidPublicKey,
    /// The secret key was not a base58 string.
    InvalidSecretKeyFormat,
    /// The secret key decoded, but was not a valid 64-byte keypair.
    InvalidSecretKey,
    /// The signature was not a base64 string.
    InvalidSignatureFormat,
    /// The signature decoded to something other than 64 bytes.
    InvalidSignature,
    /// A zero amount or lamport count where a positive quantity is required.
    AmountMustBePositive,
    /// The initialize-mint instruction could not be constructed.
    InitializeMintFailed,
    /// The mint-to instruction could not be constructed.
    MintToFailed,
    /// The token-transfer instruction could not be constructed.
    TokenTransferFailed,
}

impl ApiError {
    /// The user-visible message of this error.
    pub open spec fn message_spec(&self) -> Seq<char> {
        match self {
            ApiError::MissingRequiredFields => "Missing required fields"@,
            ApiError::InvalidMintAuthorityAddress => "Invalid mint authority address"@,
            ApiError::InvalidMintAddress => "Invalid mint address"@,
            ApiError::InvalidDestinationAddress => "Invalid destination address"@,
            ApiError::InvalidAuthorityAddress => "Invalid authority address"@,
            ApiError::InvalidFromAddress => "Invalid from address"@,
            ApiError::InvalidToAddress => "Invalid to address"@,
            ApiError::InvalidOwnerAddress => "Invalid owner address"@,
            ApiError::InvalidPublicKeyFormat => "Invalid public key format"@,
            ApiError::InvalidPublicKey => "Invalid public key"@,
            ApiError::InvalidSecretKeyFormat => "Invalid secret key format"@,
            ApiError::InvalidSecretKey => "Invalid secret key"@,
            ApiError::InvalidSignatureFormat => "Invalid signature format"@,
            ApiError::InvalidSignature => "Invalid signature"@,
            ApiError::AmountMustBePositive => "Amount must be greater than 0"@,
            ApiError::InitializeMintFailed => "Failed to create initialize mint instruction"@,
            ApiError::MintToFailed => "Failed to create mint to instruction"@,
            ApiError::TokenTransferFailed => "Failed to create transfer instruction"@,
        }
    }

    /// The user-visible message of this error, as carried by the response
    /// envelope.
    pub fn message(&self) -> (r: &'static str)
        ensures
            r@ == self.message_spec(),
    {
        match self {
            ApiError::MissingRequiredFields => "Missing required fields",
            ApiError::InvalidMintAuthorityAddress => "Invalid mint authority address",
            ApiError::InvalidMintAddress => "Invalid mint address",
            ApiError::InvalidDestinationAddress => "Invalid destination address",
            ApiError::InvalidAuthorityAddress => "Invalid authority address",
            ApiError::InvalidFromAddress => "Invalid from address",
            ApiError::InvalidToAddress => "Invalid to address",
            ApiError::InvalidOwnerAddress => "Invalid owner address",
            ApiError::InvalidPublicKeyFormat => "Invalid public key format",
            ApiError::InvalidPublicKey => "Invalid public key",
            ApiError::InvalidSecretKeyFormat => "Invalid secret key format",
            ApiError::InvalidSecretKey => "Invalid secret key",
            ApiError::InvalidSignatureFormat => "Invalid signature format",
            ApiError::InvalidSignature => "Invalid signature",
            ApiError::AmountMustBePositive => "Amount must be greater than 0",
            ApiError::InitializeMintFailed => "Failed to create initialize mint instruction",
            ApiError::MintToFailed => "Failed to create mint to instruction",
            ApiError::TokenTransferFailed => "Failed to create transfer instruction",
        }
    }
}

} // verus!
