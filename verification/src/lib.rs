//! Construction of unsigned Solana transaction instructions and Ed25519
//! message signing and verification, behind a uniform request/response API.
//!
//! The crate validates base58/base64-encoded keys and signatures, assembles
//! instruction descriptors for the SPL token and system programs, derives
//! associated token addresses, and signs and verifies messages. HTTP routing
//! and logging are left to the surrounding application.

pub mod address;
pub mod codec;
pub mod errors;
pub mod instructions;
pub mod keypair;
pub mod message;
pub mod requests;
pub mod responses;
pub mod signer;
pub mod token;
pub mod transfer;
