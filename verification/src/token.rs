//! The token-mint creation and token-minting endpoints.

use vstd::prelude::*;

use crate::address::{addr_bytes, addr_ok, parse_address};
use crate::codec::{base58_of, base64_of, encode_base58, encode_base64};
use crate::errors::ApiError;
use crate::instructions::{
    ata_of, derive_associated_token_address, initialize_mint_data, mint_to_data, spl_initialize_mint,
    spl_mint_to, Instr, RENT_SYSVAR_ID, TOKEN_PROGRAM_ID,
};
use crate::requests::{CreateTokenRequest, MintTokenRequest};
use crate::responses::{AccountInfo, InstructionData};

verus! {

/// The error the token-creation endpoint reports for a request, or `None`
/// when it succeeds.
pub open spec fn create_token_error(req: CreateTokenRequest) -> Option<ApiError> {
    if req.mint_authority@.len() == 0 || req.mint@.len() == 0 {
        Some(ApiError::MissingRequiredFields)
    } else if !addr_ok(req.mint_authority@) {
        Some(ApiError::InvalidMintAuthorityAddress)
    } else if !addr_ok(req.mint@) {
        Some(ApiError::InvalidMintAddress)
    } else {
        None
    }
}

/// Builds an initialize-mint instruction: the accounts are the mint
/// (writable) and the rent sysvar, and the payload installs the mint
/// authority both as mint and as freeze authority, with the requested
/// decimals.
pub fn create_token(req: &CreateTokenRequest) -> (r: Result<InstructionData, ApiError>)
    ensures
        r is Err <==> create_token_error(*req) is Some,
        r matches Err(e) ==> Some(e) == create_token_error(*req),
        r matches Ok(d) ==> ({
            &&& d.program_id@ == base58_of(TOKEN_PROGRAM_ID@)
            &&& d.accounts@.len() == 2
            &&& d.accounts@[0].pubkey@ == base58_of(addr_bytes(req.mint@))
            &&& !d.accounts@[0].is_signer && d.accounts@[0].is_writable
            &&& d.accounts@[1].pubkey@ == base58_of(RENT_SYSVAR_ID@)
            &&& !d.accounts@[1].is_signer && !d.accounts@[1].is_writable
            &&& d.instruction_data@ == base64_of(
                initialize_mint_data(req.decimals, addr_bytes(req.mint_authority@)),
            )
        }),
{
    if req.mint_authority.as_str().is_empty() || req.mint.as_str().is_empty() {
        return Err(ApiError::MissingRequiredFields);
    }
    let authority = match parse_address(req.mint_authority.as_str()) {
        Ok(a) => a,
        Err(_) => {
            return Err(ApiError::InvalidMintAuthorityAddress);
        },
    };
    let mint = match parse_address(req.mint.as_str()) {
        Ok(a) => a,
        Err(_) => {
            return Err(ApiError::InvalidMintAddress);
        },
    };
    let instr = spl_initialize_mint(&mint, &authority, req.decimals);
    Ok(instruction_response(&instr))
}

/// The error the token-minting endpoint reports for a request, or `None`
/// when it succeeds. A zero amount is rejected after the addresses are
/// validated; the construction itself fails only when no associated token
/// address exists for the destination.
pub open spec fn mint_token_error(req: MintTokenRequest) -> Option<ApiError> {
    if req.mint@.len() == 0 || req.destination@.len() == 0 || req.authority@.len() == 0 {
        Some(ApiError::MissingRequiredFields)
    } else if !addr_ok(req.mint@) {
        Some(ApiError::InvalidMintAddress)
    } else if !addr_ok(req.destination@) {
        Some(ApiError::InvalidDestinationAddress)
    } else if !addr_ok(req.authority@) {
        Some(ApiError::InvalidAuthorityAddress)
    } else if req.amount == 0 {
        Some(ApiError::AmountMustBePositive)
    } else if ata_of(addr_bytes(req.destination@), addr_bytes(req.mint@)) is None {
        Some(ApiError::MintToFailed)
    } else {
        None
    }
}

/// Builds a mint-to instruction targeting the destination's associated
/// token address, which is derived from the destination owner and the mint,
/// not the raw destination key. A zero amount is rejected.
pub fn mint_token(req: &MintTokenRequest) -> (r: Result<InstructionData, ApiError>)
    ensures
        r is Err <==> mint_token_error(*req) is Some,
        r matches Err(e) ==> Some(e) == mint_token_error(*req),
        r matches Ok(d) ==> ({
            let ata = ata_of(addr_bytes(req.destination@), addr_bytes(req.mint@)).unwrap();
            &&& d.program_id@ == base58_of(TOKEN_PROGRAM_ID@)
            &&& d.accounts@.len() == 3
            &&& d.accounts@[0].pubkey@ == base58_of(addr_bytes(req.mint@))
            &&& !d.accounts@[0].is_signer && d.accounts@[0].is_writable
            &&& d.accounts@[1].pubkey@ == base58_of(ata)
            &&& !d.accounts@[1].is_signer && d.accounts@[1].is_writable
            &&& d.accounts@[2].pubkey@ == base58_of(addr_bytes(req.authority@))
            &&& d.accounts@[2].is_signer && !d.accounts@[2].is_writable
            &&& d.instruction_data@ == base64_of(mint_to_data(req.amount))
        }),
{
    if req.mint.as_str().is_empty() || req.destination.as_str().is_empty()
        || req.authority.as_str().is_empty() {
        return Err(ApiError::MissingRequiredFields);
    }
    let mint = match parse_address(req.mint.as_str()) {
        Ok(a) => a,
        Err(_) => {
            return Err(ApiError::InvalidMintAddress);
        },
    };
    let destination = match parse_address(req.destination.as_str()) {
        Ok(a) => a,
        Err(_) => {
            return Err(ApiError::InvalidDestinationAddress);
        },
    };
    let authority = match parse_address(req.authority.as_str()) {
        Ok(a) => a,
        Err(_) => {
            return Err(ApiError::InvalidAuthorityAddress);
        },
    };
    if req.amount == 0 {
        return Err(ApiError::AmountMustBePositive);
    }
    let destination_ata = match derive_associated_token_address(&destination, &mint) {
        Some(a) => a,
        None => {
            return Err(ApiError::MintToFailed);
        },
    };
    let instr = spl_mint_to(&mint, &destination_ata, &authority, req.amount);
    Ok(instruction_response(&instr))
}

/// Renders an instruction descriptor in the response shape shared by the
/// two token endpoints: every address base58-encoded, the payload
/// base64-encoded, the account order and roles kept.
pub fn instruction_response(instr: &Instr) -> (r: InstructionData)
    ensures
        r.program_id@ == base58_of(instr.program_id@),
        r.accounts@.len() == instr.accounts@.len(),
        forall|i: int| 0 <= i < instr.accounts@.len() ==> {
            &&& (#[trigger] r.accounts@[i]).pubkey@ == base58_of(instr.accounts@[i].pubkey@)
            &&& r.accounts@[i].is_signer == instr.accounts@[i].is_signer
            &&& r.accounts@[i].is_writable == instr.accounts@[i].is_writable
        },
        r.instruction_data@ == base64_of(instr.data@),
{
    let mut accounts: Vec<AccountInfo> = Vec::new();
    let mut idx: usize = 0;
    while idx < instr.accounts.len()
        invariant
            idx <= instr.accounts@.len(),
            accounts@.len() == idx,
            forall|i: int| 0 <= i < idx as int ==> {
                &&& (#[trigger] accounts@[i]).pubkey@ == base58_of(instr.accounts@[i].pubkey@)
                &&& accounts@[i].is_signer == instr.accounts@[i].is_signer
                &&& accounts@[i].is_writable == instr.accounts@[i].is_writable
            },
        decreases instr.accounts@.len() - idx,
    {
        let entry = AccountInfo {
            pubkey: encode_base58(&instr.accounts[idx].pubkey),
            is_signer: instr.accounts[idx].is_signer,
            is_writable: instr.accounts[idx].is_writable,
        };
        accounts.push(entry);
        idx = idx + 1;
    }
    InstructionData {
        program_id: encode_base58(&instr.program_id),
        accounts,
        instruction_data: encode_base64(&instr.data),
    }
}

} // verus!

