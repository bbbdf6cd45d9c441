//! The SOL-transfer and SPL-token-transfer endpoints.

use vstd::prelude::*;

use crate::address::{addr_bytes, addr_ok, parse_address};
use crate::codec::{base58_of, base64_of, encode_base58, encode_base64};
use crate::errors::ApiError;
use crate::instructions::{
    ata_of, derive_associated_token_address, spl_transfer, system_transfer, system_transfer_data,
    token_transfer_data, SYSTEM_PROGRAM_ID, TOKEN_PROGRAM_ID,
};
use crate::requests::{SendSolRequest, SendTokenRequest};
use crate::responses::{AccountInfoCamelCase, SolTransferData, TokenTransferData};

verus! {

/// The error the SOL-transfer endpoint reports for a request, or `None`
/// when it succeeds. A zero lamport count is rejected after the addresses
/// are validated.
pub open spec fn send_sol_error(req: SendSolRequest) -> Option<ApiError> {
    if req.from@.len() == 0 || req.to@.len() == 0 {
        Some(ApiError::MissingRequiredFields)
    } else if !addr_ok(req.from@) {
        Some(ApiError::InvalidFromAddress)
    } else if !addr_ok(req.to@) {
        Some(ApiError::InvalidToAddress)
    } else if req.lamports == 0 {
        Some(ApiError::AmountMustBePositive)
    } else {
        None
    }
}

/// Builds a system-program transfer of lamports from the funding account
/// (signer, writable) to the recipient (writable). The response lists the
/// two account addresses as bare strings.
pub fn send_sol(req: &SendSolRequest) -> (r: Result<SolTransferData, ApiError>)
    ensures
        r is Err <==> send_sol_error(*req) is Some,
        r matches Err(e) ==> Some(e) == send_sol_error(*req),
        r matches Ok(d) ==> ({
            &&& d.program_id@ == base58_of(SYSTEM_PROGRAM_ID@)
            &&& d.accounts@.len() == 2
            &&& d.accounts@[0]@ == base58_of(addr_bytes(req.from@))
            &&& d.accounts@[1]@ == base58_of(addr_bytes(req.to@))
            &&& d.instruction_data@ == base64_of(system_transfer_data(req.lamports))
        }),
{
    if req.from.as_str().is_empty() || req.to.as_str().is_empty() {
        return Err(ApiError::MissingRequiredFields);
    }
    let from = match parse_address(req.from.as_str()) {
        Ok(a) => a,
        Err(_) => {
            return Err(ApiError::InvalidFromAddress);
        },
    };
    let to = match parse_address(req.to.as_str()) {
        Ok(a) => a,
        Err(_) => {
            return Err(ApiError::InvalidToAddress);
        },
    };
    if req.lamports == 0 {
        return Err(ApiError::AmountMustBePositive);
    }
    let instr = system_transfer(&from, &to, req.lamports);
    let mut accounts: Vec<String> = Vec::new();
    accounts.push(encode_base58(&instr.accounts[0].pubkey));
    accounts.push(encode_base58(&instr.accounts[1].pubkey));
    Ok(SolTransferData {
        program_id: encode_base58(&instr.program_id),
        accounts,
        instruction_data: encode_base64(&instr.data),
    })
}

/// The error the token-transfer endpoint reports for a request, or `None`
/// when it succeeds. The construction itself fails only when no associated
/// token address exists for the owner or for the destination.
pub open spec fn send_token_error(req: SendTokenRequest) -> Option<ApiError> {
    if req.destination@.len() == 0 || req.mint@.len() == 0 || req.owner@.len() == 0 {
        Some(ApiError::MissingRequiredFields)
    } else if !addr_ok(req.destination@) {
        Some(ApiError::InvalidDestinationAddress)
    } else if !addr_ok(req.mint@) {
        Some(ApiError::InvalidMintAddress)
    } else if !addr_ok(req.owner@) {
        Some(ApiError::InvalidOwnerAddress)
    } else if req.amount == 0 {
        Some(ApiError::AmountMustBePositive)
    } else if ata_of(addr_bytes(req.owner@), addr_bytes(req.mint@)) is None
        || ata_of(addr_bytes(req.destination@), addr_bytes(req.mint@)) is None {
        Some(ApiError::TokenTransferFailed)
    } else {
        None
    }
}

/// Builds an SPL-token transfer between the owner's and the destination's
/// associated token addresses, both derived from the same mint, signed by
/// the owner. The response uses the camel-case account shape without a
/// writable flag.
pub fn send_token(req: &SendTokenRequest) -> (r: Result<TokenTransferData, ApiError>)
    ensures
        r is Err <==> send_token_error(*req) is Some,
        r matches Err(e) ==> Some(e) == send_token_error(*req),
        r matches Ok(d) ==> ({
            let source_ata = ata_of(addr_bytes(req.owner@), addr_bytes(req.mint@)).unwrap();
            let destination_ata = ata_of(
                addr_bytes(req.destination@),
                addr_bytes(req.mint@),
            ).unwrap();
            &&& d.program_id@ == base58_of(TOKEN_PROGRAM_ID@)
            &&& d.accounts@.len() == 3
            &&& d.accounts@[0].pubkey@ == base58_of(source_ata)
            &&& !d.accounts@[0].is_signer
            &&& d.accounts@[1].pubkey@ == base58_of(destination_ata)
            &&& !d.accounts@[1].is_signer
            &&& d.accounts@[2].pubkey@ == base58_of(addr_bytes(req.owner@))
            &&& d.accounts@[2].is_signer
            &&& d.instruction_data@ == base64_of(token_transfer_data(req.amount))
        }),
{
    if req.destination.as_str().is_empty() || req.mint.as_str().is_empty()
        || req.owner.as_str().is_empty() {
        return Err(ApiError::MissingRequiredFields);
    }
    let destination = match parse_address(req.destination.as_str()) {
        Ok(a) => a,
        Err(_) => {
            return Err(ApiError::InvalidDestinationAddress);
        },
    };
    let mint = match parse_address(req.mint.as_str()) {
        Ok(a) => a,
        Err(_) => {
            return Err(ApiError::InvalidMintAddress);
        },
    };
    let owner = match parse_address(req.owner.as_str()) {
        Ok(a) => a,
        Err(_) => {
            return Err(ApiError::InvalidOwnerAddress);
        },
    };
    if req.amount == 0 {
        return Err(ApiError::AmountMustBePositive);
    }
    let source_ata = match derive_associated_token_address(&owner, &mint) {
        Some(a) => a,
        None => {
            return Err(ApiError::TokenTransferFailed);
        },
    };
    let destination_ata = match derive_associated_token_address(&destination, &mint) {
        Some(a) => a,
        None => {
            return Err(ApiError::TokenTransferFailed);
        },
    };
    let instr = spl_transfer(&source_ata, &destination_ata, &owner, req.amount);
    let mut accounts: Vec<AccountInfoCamelCase> = Vec::new();
    accounts.push(AccountInfoCamelCase {
        pubkey: encode_base58(&instr.accounts[0].pubkey),
        is_signer: instr.accounts[0].is_signer,
    });
    accounts.push(AccountInfoCamelCase {
        pubkey: encode_base58(&instr.accounts[1].pubkey),
        is_signer: instr.accounts[1].is_signer,
    });
    accounts.push(AccountInfoCamelCase {
        pubkey: encode_base58(&instr.accounts[2].pubkey),
        is_signer: instr.accounts[2].is_signer,
    });
    Ok(TokenTransferData {
        program_id: encode_base58(&instr.program_id),
        accounts,
        instruction_data: encode_base64(&instr.data),
    })
}

} // verus!
