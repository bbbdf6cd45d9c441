//! Construction of unsigned instruction descriptors for the SPL token
//! program and the system program, and derivation of associated token
//! addresses.
//!
//! An instruction descriptor names a program, an ordered list of accounts
//! with signer/writable roles, and an opaque payload whose byte layout must
//! match the ledger's wire format exactly.

use vstd::prelude::*;

use crate::address::Address;
use vstd::slice::slice_to_vec;

verus! {

/// The SPL token program id (base58 `TokenkegQfeZyiNwAJbNbGKPFXCWuBvf9Ss623VQ5DA`).
pub const TOKEN_PROGRAM_ID: [u8; 32] = [
    6, 221, 246, 225, 215, 101, 161, 147, 217, 203, 225, 70, 206, 235, 121, 172, 28, 180, 133,
    237, 95, 91, 55, 145, 58, 140, 245, 133, 126, 255, 0, 169,
];

/// The associated-token-account program id
/// (base58 `ATokenGPvbdGVxr1b2hvZbsiqW5xWH25efTNsLJA8knL`).
pub const ATA_PROGRAM_ID: [u8; 32] = [
    140, 151, 37, 143, 78, 36, 137, 241, 187, 61, 16, 41, 20, 142, 13, 131, 11, 90, 19, 153, 218,
    255, 16, 132, 4, 142, 123, 216, 219, 233, 248, 89,
];

/// The rent sysvar id (base58 `SysvarRent111111111111111111111111111111111`).
pub const RENT_SYSVAR_ID: [u8; 32] = [
    6, 167, 213, 23, 25, 44, 92, 81, 33, 140, 201, 76, 61, 74, 241, 127, 88, 218, 238, 8, 155,
    161, 253, 68, 227, 219, 217, 138, 0, 0, 0, 0,
];

/// The system program id (base58 `11111111111111111111111111111111`).
pub const SYSTEM_PROGRAM_ID: [u8; 32] = [
    0, 0, 0, 0, 0, 0, 0, 0, 0, 0, 0, 0, 0, 0, 0, 0, 0, 0, 0, 0, 0, 0, 0, 0, 0, 0, 0, 0, 0, 0, 0,
    0,
];

/// An account reference inside an instruction descriptor.
pub struct InstructionAccount {
    pub pubkey: Vec<u8>,
    pub is_signer: bool,
    pub is_writable: bool,
}

/// An unsigned instruction descriptor: target program, ordered account list
/// and raw payload bytes.
pub struct Instr {
    pub program_id: Vec<u8>,
    pub accounts: Vec<InstructionAccount>,
    pub data: Vec<u8>,
}

/// The little-endian byte layout of a 64-bit amount.
pub open spec fn u64_le_bytes(x: u64) -> Seq<u8> {
    seq![
        (x & 0xff) as u8,
        ((x >> 8) & 0xff) as u8,
        ((x >> 16) & 0xff) as u8,
        ((x >> 24) & 0xff) as u8,
        ((x >> 32) & 0xff) as u8,
        ((x >> 40) & 0xff) as u8,
        ((x >> 48) & 0xff) as u8,
        ((x >> 56) & 0xff) as u8,
    ]
}

/// The payload of an SPL initialize-mint instruction: tag 0, the decimals,
/// the mint authority, and the same authority again as freeze authority
/// (present flag 1).
pub open spec fn initialize_mint_data(decimals: u8, authority: Seq<u8>) -> Seq<u8> {
    seq![0u8, decimals] + authority + seq![1u8] + authority
}

/// The payload of an SPL mint-to instruction: tag 7 and the little-endian
/// amount.
pub open spec fn mint_to_data(amount: u64) -> Seq<u8> {
    seq![7u8] + u64_le_bytes(amount)
}

/// The payload of an SPL token-transfer instruction: tag 3 and the
/// little-endian amount.
pub open spec fn token_transfer_data(amount: u64) -> Seq<u8> {
    seq![3u8] + u64_le_bytes(amount)
}

/// The payload of a system-program transfer: the bincode encoding of the
/// transfer variant, a 32-bit little-endian tag of 2 followed by the
/// little-endian lamport count.
pub open spec fn system_transfer_data(lamports: u64) -> Seq<u8> {
    seq![2u8, 0u8, 0u8, 0u8] + u64_le_bytes(lamports)
}

/// What `Pubkey::try_find_program_address` returns for these seeds and
/// program id: the derived 32-byte program address, or `None` when no bump
/// seed yields one.
pub uninterp spec fn pda_address(seeds: Seq<Seq<u8>>, program_id: Seq<u8>) -> Option<Seq<u8>>;

/// The associated token address of an owner and a mint: the program address
/// derived from the owner, the token program id and the mint under the
/// associated-token-account program.
pub open spec fn ata_of(owner: Seq<u8>, mint: Seq<u8>) -> Option<Seq<u8>> {
    pda_address(seq![owner, TOKEN_PROGRAM_ID@, mint], ATA_PROGRAM_ID@)
}

/// Relies on `solana_sdk::pubkey::Pubkey::try_find_program_address`: the
/// result is a deterministic function of the seeds and the program id, a
/// 32-byte address when a bump seed exists and `None` otherwise; it never
/// panics.
#[verifier::external_body]
fn try_find_program_address(seeds: &Vec<Vec<u8>>, program_id: &[u8]) -> (r: Option<Vec<u8>>)
    requires
        program_id@.len() == 32,
    ensures
        r is Some <==> pda_address(seeds.deep_view(), program_id@) is Some,
        r matches Some(a) ==> Some(a@) == pda_address(seeds.deep_view(), program_id@)
            && a@.len() == 32,
{
    let refs: Vec<&[u8]> = seeds.iter().map(|s| s.as_slice()).collect();
    let pid = solana_sdk::pubkey::Pubkey::try_from(program_id).unwrap();
    solana_sdk::pubkey::Pubkey::try_find_program_address(&refs, &pid)
        .map(|(a, _bump)| a.to_bytes().to_vec())
}

/// Derives the associated token address for an owner and a mint. Identical
/// pairs always yield the identical address; `None` only in the
/// statistically improbable case that no bump seed works.
pub fn derive_associated_token_address(owner: &Address, mint: &Address) -> (r: Option<Address>)
    requires
        owner.wf(),
        mint.wf(),
    ensures
        r is Some <==> ata_of(owner@, mint@) is Some,
        r matches Some(a) ==> a.wf() && Some(a@) == ata_of(owner@, mint@),
{
    let mut seeds: Vec<Vec<u8>> = Vec::new();
    seeds.push(owner.bytes.clone());
    seeds.push(slice_to_vec(TOKEN_PROGRAM_ID.as_slice()));
    seeds.push(mint.bytes.clone());
    proof {
        assert(seeds.deep_view() =~~= seq![owner@, TOKEN_PROGRAM_ID@, mint@]);
    }
    match try_find_program_address(&seeds, ATA_PROGRAM_ID.as_slice()) {
        Some(bytes) => Some(Address { bytes }),
        None => None,
    }
}

/// The associated token address is a function of the owner and mint alone:
/// the mint-to and token-transfer builders, which both derive it through
/// `ata_of`, target the same account for the same pair.
pub proof fn lemma_ata_deterministic(
    owner1: Seq<u8>,
    mint1: Seq<u8>,
    owner2: Seq<u8>,
    mint2: Seq<u8>,
)
    requires
        owner1 == owner2,
        mint1 == mint2,
    ensures
        ata_of(owner1, mint1) == ata_of(owner2, mint2),
{
}

/// Relies on `spl_token::instruction::initialize_mint`, called with the SPL
/// token program id, for which it always succeeds: the accounts are the mint
/// (writable) and the rent sysvar, and the payload packs tag 0, the
/// decimals, the mint authority and the same authority as freeze authority.
#[verifier::external_body]
pub(crate) fn spl_initialize_mint(mint: &Address, authority: &Address, decimals: u8) -> (r: Instr)
    requires
        mint.wf(),
        authority.wf(),
    ensures
        r.program_id@ == TOKEN_PROGRAM_ID@,
        r.accounts@.len() == 2,
        r.accounts@[0].pubkey@ == mint@ && !r.accounts@[0].is_signer
            && r.accounts@[0].is_writable,
        r.accounts@[1].pubkey@ == RENT_SYSVAR_ID@ && !r.accounts@[1].is_signer
            && !r.accounts@[1].is_writable,
        r.data@ == initialize_mint_data(decimals, authority@),
{
    let m = solana_sdk::pubkey::Pubkey::try_from(mint.bytes.as_slice()).unwrap();
    let a = solana_sdk::pubkey::Pubkey::try_from(authority.bytes.as_slice()).unwrap();
    let i = spl_token::instruction::initialize_mint(&spl_token::id(), &m, &a, Some(&a), decimals)
        .unwrap();
    Instr {
        program_id: i.program_id.to_bytes().to_vec(),
        accounts: i.accounts.iter().map(|c| InstructionAccount {
            pubkey: c.pubkey.to_bytes().to_vec(),
            is_signer: c.is_signer,
            is_writable: c.is_writable,
        }).collect(),
        data: i.data,
    }
}

/// Relies on `spl_token::instruction::mint_to`, called with the SPL token
/// program id and no multisig signers, for which it always succeeds: the
/// accounts are the mint (writable), the destination token account
/// (writable) and the authority (signer), and the payload packs tag 7 and
/// the little-endian amount.
#[verifier::external_body]
pub(crate) fn spl_mint_to(
    mint: &Address,
    destination: &Address,
    authority: &Address,
    amount: u64,
) -> (r: Instr)
    requires
        mint.wf(),
        destination.wf(),
        authority.wf(),
    ensures
        r.program_id@ == TOKEN_PROGRAM_ID@,
        r.accounts@.len() == 3,
        r.accounts@[0].pubkey@ == mint@ && !r.accounts@[0].is_signer
            && r.accounts@[0].is_writable,
        r.accounts@[1].pubkey@ == destination@ && !r.accounts@[1].is_signer
            && r.accounts@[1].is_writable,
        r.accounts@[2].pubkey@ == authority@ && r.accounts@[2].is_signer
            && !r.accounts@[2].is_writable,
        r.data@ == mint_to_data(amount),
{
    let m = solana_sdk::pubkey::Pubkey::try_from(mint.bytes.as_slice()).unwrap();
    let d = solana_sdk::pubkey::Pubkey::try_from(destination.bytes.as_slice()).unwrap();
    let a = solana_sdk::pubkey::Pubkey::try_from(authority.bytes.as_slice()).unwrap();
    let i = spl_token::instruction::mint_to(&spl_token::id(), &m, &d, &a, &[], amount).unwrap();
    Instr {
        program_id: i.program_id.to_bytes().to_vec(),
        accounts: i.accounts.iter().map(|c| InstructionAccount {
            pubkey: c.pubkey.to_bytes().to_vec(),
            is_signer: c.is_signer,
            is_writable: c.is_writable,
        }).collect(),
        data: i.data,
    }
}

/// Relies on `spl_token::instruction::transfer`, called with the SPL token
/// program id and no multisig signers, for which it always succeeds: the
/// accounts are the source (writable), the destination (writable) and the
/// owner (signer), and the payload packs tag 3 and the little-endian amount.
#[verifier::external_body]
pub(crate) fn spl_transfer(
    source: &Address,
    destination: &Address,
    owner: &Address,
    amount: u64,
) -> (r: Instr)
    requires
        source.wf(),
        destination.wf(),
        owner.wf(),
    ensures
        r.program_id@ == TOKEN_PROGRAM_ID@,
        r.accounts@.len() == 3,
        r.accounts@[0].pubkey@ == source@ && !r.accounts@[0].is_signer
            && r.accounts@[0].is_writable,
        r.accounts@[1].pubkey@ == destination@ && !r.accounts@[1].is_signer
            && r.accounts@[1].is_writable,
        r.accounts@[2].pubkey@ == owner@ && r.accounts@[2].is_signer
            && !r.accounts@[2].is_writable,
        r.data@ == token_transfer_data(amount),
{
    let s = solana_sdk::pubkey::Pubkey::try_from(source.bytes.as_slice()).unwrap();
    let d = solana_sdk::pubkey::Pubkey::try_from(destination.bytes.as_slice()).unwrap();
    let o = solana_sdk::pubkey::Pubkey::try_from(owner.bytes.as_slice()).unwrap();
    let i = spl_token::instruction::transfer(&spl_token::id(), &s, &d, &o, &[], amount).unwrap();
    Instr {
        program_id: i.program_id.to_bytes().to_vec(),
        accounts: i.accounts.iter().map(|c| InstructionAccount {
            pubkey: c.pubkey.to_bytes().to_vec(),
            is_signer: c.is_signer,
            is_writable: c.is_writable,
        }).collect(),
        data: i.data,
    }
}

/// Relies on `solana_sdk::system_instruction::transfer`: it builds a
/// system-program instruction whose accounts are the funding account
/// (signer, writable) and the recipient (writable), with the bincode-encoded
/// transfer payload; it never fails.
#[verifier::external_body]
pub(crate) fn system_transfer(from: &Address, to: &Address, lamports: u64) -> (r: Instr)
    requires
        from.wf(),
        to.wf(),
    ensures
        r.program_id@ == SYSTEM_PROGRAM_ID@,
        r.accounts@.len() == 2,
        r.accounts@[0].pubkey@ == from@ && r.accounts@[0].is_signer
            && r.accounts@[0].is_writable,
        r.accounts@[1].pubkey@ == to@ && !r.accounts@[1].is_signer
            && r.accounts@[1].is_writable,
        r.data@ == system_transfer_data(lamports),
{
    let f = solana_sdk::pubkey::Pubkey::try_from(from.bytes.as_slice()).unwrap();
    let t = solana_sdk::pubkey::Pubkey::try_from(to.bytes.as_slice()).unwrap();
    let i = solana_sdk::system_instruction::transfer(&f, &t, lamports);
    Instr {
        program_id: i.program_id.to_bytes().to_vec(),
        accounts: i.accounts.iter().map(|c| InstructionAccount {
            pubkey: c.pubkey.to_bytes().to_vec(),
            is_signer: c.is_signer,
            is_writable: c.is_writable,
        }).collect(),
        data: i.data,
    }
}

} // verus!
