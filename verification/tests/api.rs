use solana_api::address::{parse_address, ParseFailure};
use solana_api::codec::base58_round_trip;
use solana_api::errors::ApiError;
use solana_api::instructions::{
    derive_associated_token_address, ATA_PROGRAM_ID, RENT_SYSVAR_ID, SYSTEM_PROGRAM_ID,
    TOKEN_PROGRAM_ID,
};
use solana_api::keypair::generate_keypair;
use solana_api::message::{sign_message, sign_message_round_trip, verify_message};
use solana_api::requests::{
    CreateTokenRequest, MintTokenRequest, SendSolRequest, SendTokenRequest, SignMessageRequest,
    VerifyMessageRequest,
};
use solana_api::token::{create_token, mint_token};
use solana_api::transfer::{send_sol, send_token};

use base64::Engine;

fn b58(bytes: &[u8]) -> String {
    bs58::encode(bytes).into_string()
}

fn b64(bytes: &[u8]) -> String {
    base64::engine::general_purpose::STANDARD.encode(bytes)
}

fn b64d(s: &str) -> Vec<u8> {
    base64::engine::general_purpose::STANDARD.decode(s).unwrap()
}

fn addr_a() -> String {
    b58(&[1u8; 32])
}

fn addr_b() -> String {
    b58(&[2u8; 32])
}

fn addr_c() -> String {
    b58(&[3u8; 32])
}

#[test]
fn base58_round_trip_32_bytes() {
    let bytes: Vec<u8> = (0u8..32).collect();
    assert_eq!(base58_round_trip(&bytes), bytes);
}

#[test]
fn base58_round_trip_edge_values() {
    assert_eq!(base58_round_trip(&vec![]), Vec::<u8>::new());
    assert_eq!(base58_round_trip(&vec![0u8; 32]), vec![0u8; 32]);
    assert_eq!(base58_round_trip(&vec![255u8; 32]), vec![255u8; 32]);
}

#[test]
fn parse_address_accepts_32_bytes() {
    let a = parse_address(&addr_a()).unwrap();
    assert_eq!(a.bytes, vec![1u8; 32]);
}

#[test]
fn parse_address_rejects_bad_encoding_and_length() {
    assert_eq!(parse_address("not-base58!").unwrap_err(), ParseFailure::Encoding);
    assert_eq!(parse_address(&b58(&[7u8; 31])).unwrap_err(), ParseFailure::Structure);
    assert_eq!(parse_address(&b58(&[7u8; 33])).unwrap_err(), ParseFailure::Structure);
}

#[test]
fn keypair_decodes_to_expected_lengths() {
    let kp = generate_keypair();
    let pk = bs58::decode(&kp.pubkey).into_vec().unwrap();
    let sk = bs58::decode(&kp.secret).into_vec().unwrap();
    assert_eq!(pk.len(), 32);
    assert_eq!(sk.len(), 64);
    assert_eq!(&sk[32..], &pk[..]);
}

#[test]
fn sign_then_verify_hello() {
    let kp = generate_keypair();
    let signed = sign_message(&SignMessageRequest {
        message: "hello".to_string(),
        secret: kp.secret.clone(),
    })
    .unwrap();
    assert_eq!(signed.message, "hello");
    assert_eq!(signed.public_key, kp.pubkey);
    let verified = verify_message(&VerifyMessageRequest {
        message: "hello".to_string(),
        signature: signed.signature.clone(),
        pubkey: signed.public_key.clone(),
    })
    .unwrap();
    assert!(verified.valid);
    assert_eq!(verified.message, "hello");
    assert_eq!(verified.pubkey, kp.pubkey);
}

#[test]
fn sign_message_round_trip_law() {
    let kp = generate_keypair();
    let r = sign_message_round_trip(&SignMessageRequest {
        message: "round trip".to_string(),
        secret: kp.secret,
    });
    assert_eq!(r, Some(true));
}

#[test]
fn flipped_signature_bit_does_not_verify() {
    let kp = generate_keypair();
    let signed = sign_message(&SignMessageRequest {
        message: "hello".to_string(),
        secret: kp.secret,
    })
    .unwrap();
    let mut sig = b64d(&signed.signature);
    for bit in [0usize, 7, 200, 511] {
        sig[bit / 8] ^= 1 << (bit % 8);
        let verified = verify_message(&VerifyMessageRequest {
            message: "hello".to_string(),
            signature: b64(&sig),
            pubkey: signed.public_key.clone(),
        })
        .unwrap();
        assert!(!verified.valid, "bit {} flip still verified", bit);
        sig[bit / 8] ^= 1 << (bit % 8);
    }
}

#[test]
fn verify_wrong_message_fails() {
    let kp = generate_keypair();
    let signed = sign_message(&SignMessageRequest {
        message: "hello".to_string(),
        secret: kp.secret,
    })
    .unwrap();
    let verified = verify_message(&VerifyMessageRequest {
        message: "hullo".to_string(),
        signature: signed.signature,
        pubkey: signed.public_key,
    })
    .unwrap();
    assert!(!verified.valid);
}

#[test]
fn sign_message_error_cases() {
    let missing = sign_message(&SignMessageRequest {
        message: "".to_string(),
        secret: "x".to_string(),
    })
    .unwrap_err();
    assert_eq!(missing, ApiError::MissingRequiredFields);
    assert_eq!(missing.message(), "Missing required fields");

    let bad_format = sign_message(&SignMessageRequest {
        message: "hello".to_string(),
        secret: "0OIl".to_string(),
    })
    .unwrap_err();
    assert_eq!(bad_format, ApiError::InvalidSecretKeyFormat);
    assert_eq!(bad_format.message(), "Invalid secret key format");

    let wrong_len = sign_message(&SignMessageRequest {
        message: "hello".to_string(),
        secret: b58(&[9u8; 63]),
    })
    .unwrap_err();
    assert_eq!(wrong_len, ApiError::InvalidSecretKey);
    assert_eq!(wrong_len.message(), "Invalid secret key");

    // 64 bytes whose second half is not the public key derived from the seed.
    let inconsistent = sign_message(&SignMessageRequest {
        message: "hello".to_string(),
        secret: b58(&[9u8; 64]),
    })
    .unwrap_err();
    assert_eq!(inconsistent, ApiError::InvalidSecretKey);
}

#[test]
fn verify_message_error_cases() {
    let kp = generate_keypair();
    let missing = verify_message(&VerifyMessageRequest {
        message: "m".to_string(),
        signature: "".to_string(),
        pubkey: kp.pubkey.clone(),
    })
    .unwrap_err();
    assert_eq!(missing, ApiError::MissingRequiredFields);

    let bad_pk = verify_message(&VerifyMessageRequest {
        message: "m".to_string(),
        signature: b64(&[0u8; 64]),
        pubkey: "not-base58!".to_string(),
    })
    .unwrap_err();
    assert_eq!(bad_pk, ApiError::InvalidPublicKeyFormat);
    assert_eq!(bad_pk.message(), "Invalid public key format");

    let short_pk = verify_message(&VerifyMessageRequest {
        message: "m".to_string(),
        signature: b64(&[0u8; 64]),
        pubkey: b58(&[5u8; 31]),
    })
    .unwrap_err();
    assert_eq!(short_pk, ApiError::InvalidPublicKey);
    assert_eq!(short_pk.message(), "Invalid public key");

    let bad_sig = verify_message(&VerifyMessageRequest {
        message: "m".to_string(),
        signature: "not base64!!".to_string(),
        pubkey: kp.pubkey.clone(),
    })
    .unwrap_err();
    assert_eq!(bad_sig, ApiError::InvalidSignatureFormat);
    assert_eq!(bad_sig.message(), "Invalid signature format");

    let short_sig = verify_message(&VerifyMessageRequest {
        message: "m".to_string(),
        signature: b64(&[0u8; 63]),
        pubkey: kp.pubkey,
    })
    .unwrap_err();
    assert_eq!(short_sig, ApiError::InvalidSignature);
    assert_eq!(short_sig.message(), "Invalid signature");
}

#[test]
fn create_token_builds_initialize_mint() {
    let d = create_token(&CreateTokenRequest {
        mint_authority: addr_a(),
        mint: addr_b(),
        decimals: 9,
    })
    .unwrap();
    assert_eq!(d.program_id, "TokenkegQfeZyiNwAJbNbGKPFXCWuBvf9Ss623VQ5DA");
    assert_eq!(d.accounts.len(), 2);
    assert_eq!(d.accounts[0].pubkey, addr_b());
    assert!(!d.accounts[0].is_signer);
    assert!(d.accounts[0].is_writable);
    assert_eq!(d.accounts[1].pubkey, "SysvarRent111111111111111111111111111111111");
    assert!(!d.accounts[1].is_signer);
    assert!(!d.accounts[1].is_writable);

    let mut expected = vec![0u8, 9u8];
    expected.extend_from_slice(&[1u8; 32]);
    expected.push(1u8);
    expected.extend_from_slice(&[1u8; 32]);
    assert_eq!(b64d(&d.instruction_data), expected);
}

#[test]
fn create_token_error_cases() {
    let missing = create_token(&CreateTokenRequest {
        mint_authority: "".to_string(),
        mint: addr_b(),
        decimals: 0,
    })
    .unwrap_err();
    assert_eq!(missing, ApiError::MissingRequiredFields);

    let bad_auth = create_token(&CreateTokenRequest {
        mint_authority: "l0".to_string(),
        mint: addr_b(),
        decimals: 0,
    })
    .unwrap_err();
    assert_eq!(bad_auth, ApiError::InvalidMintAuthorityAddress);
    assert_eq!(bad_auth.message(), "Invalid mint authority address");

    let bad_mint = create_token(&CreateTokenRequest {
        mint_authority: addr_a(),
        mint: b58(&[1u8; 30]),
        decimals: 0,
    })
    .unwrap_err();
    assert_eq!(bad_mint, ApiError::InvalidMintAddress);
    assert_eq!(bad_mint.message(), "Invalid mint address");
}

#[test]
fn mint_token_targets_derived_ata() {
    let d = mint_token(&MintTokenRequest {
        mint: addr_b(),
        destination: addr_a(),
        authority: addr_c(),
        amount: 1,
    })
    .unwrap();
    assert_eq!(d.program_id, "TokenkegQfeZyiNwAJbNbGKPFXCWuBvf9Ss623VQ5DA");
    assert_eq!(d.accounts.len(), 3);
    assert_eq!(d.accounts[0].pubkey, addr_b());
    assert!(!d.accounts[0].is_signer);
    assert!(d.accounts[0].is_writable);
    assert!(!d.accounts[1].is_signer);
    assert!(d.accounts[1].is_writable);
    assert_eq!(d.accounts[2].pubkey, addr_c());
    assert!(d.accounts[2].is_signer);
    assert!(!d.accounts[2].is_writable);

    // The destination account is the associated token address the reference
    // derivation produces, not the raw destination key.
    let wallet = spl_associated_token_account::solana_program::pubkey::Pubkey::new_from_array(
        [1u8; 32],
    );
    let mint = spl_associated_token_account::solana_program::pubkey::Pubkey::new_from_array(
        [2u8; 32],
    );
    let expected_ata =
        spl_associated_token_account::get_associated_token_address(&wallet, &mint);
    assert_eq!(d.accounts[1].pubkey, expected_ata.to_string());

    let mut expected = vec![7u8];
    expected.extend_from_slice(&1u64.to_le_bytes());
    assert_eq!(b64d(&d.instruction_data), expected);
}

#[test]
fn mint_token_amount_zero_rejected() {
    let e = mint_token(&MintTokenRequest {
        mint: addr_b(),
        destination: addr_a(),
        authority: addr_c(),
        amount: 0,
    })
    .unwrap_err();
    assert_eq!(e, ApiError::AmountMustBePositive);
    assert_eq!(e.message(), "Amount must be greater than 0");
}

#[test]
fn mint_token_error_cases() {
    let missing = mint_token(&MintTokenRequest {
        mint: "".to_string(),
        destination: addr_a(),
        authority: addr_c(),
        amount: 1,
    })
    .unwrap_err();
    assert_eq!(missing, ApiError::MissingRequiredFields);

    let bad_dest = mint_token(&MintTokenRequest {
        mint: addr_b(),
        destination: "!!".to_string(),
        authority: addr_c(),
        amount: 1,
    })
    .unwrap_err();
    assert_eq!(bad_dest, ApiError::InvalidDestinationAddress);
    assert_eq!(bad_dest.message(), "Invalid destination address");

    let bad_auth = mint_token(&MintTokenRequest {
        mint: addr_b(),
        destination: addr_a(),
        authority: b58(&[1u8; 2]),
        amount: 1,
    })
    .unwrap_err();
    assert_eq!(bad_auth, ApiError::InvalidAuthorityAddress);
    assert_eq!(bad_auth.message(), "Invalid authority address");
}

#[test]
fn send_sol_builds_system_transfer() {
    let d = send_sol(&SendSolRequest {
        from: addr_a(),
        to: addr_b(),
        lamports: 100,
    })
    .unwrap();
    assert_eq!(d.program_id, "11111111111111111111111111111111");
    assert_eq!(d.accounts, vec![addr_a(), addr_b()]);
    let mut expected = vec![2u8, 0, 0, 0];
    expected.extend_from_slice(&100u64.to_le_bytes());
    assert_eq!(b64d(&d.instruction_data), expected);
}

#[test]
fn send_sol_invalid_from_address() {
    let e = send_sol(&SendSolRequest {
        from: "not-base58!".to_string(),
        to: addr_b(),
        lamports: 100,
    })
    .unwrap_err();
    assert_eq!(e, ApiError::InvalidFromAddress);
    assert_eq!(e.message(), "Invalid from address");
}

#[test]
fn send_sol_error_cases() {
    let missing = send_sol(&SendSolRequest {
        from: "".to_string(),
        to: addr_b(),
        lamports: 1,
    })
    .unwrap_err();
    assert_eq!(missing, ApiError::MissingRequiredFields);

    let bad_to = send_sol(&SendSolRequest {
        from: addr_a(),
        to: b58(&[1u8; 16]),
        lamports: 1,
    })
    .unwrap_err();
    assert_eq!(bad_to, ApiError::InvalidToAddress);
    assert_eq!(bad_to.message(), "Invalid to address");

    let zero = send_sol(&SendSolRequest {
        from: addr_a(),
        to: addr_b(),
        lamports: 0,
    })
    .unwrap_err();
    assert_eq!(zero, ApiError::AmountMustBePositive);

    let one = send_sol(&SendSolRequest {
        from: addr_a(),
        to: addr_b(),
        lamports: 1,
    });
    assert!(one.is_ok());
}

#[test]
fn send_token_builds_spl_transfer() {
    let d = send_token(&SendTokenRequest {
        destination: addr_a(),
        mint: addr_b(),
        owner: addr_c(),
        amount: 5,
    })
    .unwrap();
    assert_eq!(d.program_id, "TokenkegQfeZyiNwAJbNbGKPFXCWuBvf9Ss623VQ5DA");
    assert_eq!(d.accounts.len(), 3);
    assert!(!d.accounts[0].is_signer);
    assert!(!d.accounts[1].is_signer);
    assert_eq!(d.accounts[2].pubkey, addr_c());
    assert!(d.accounts[2].is_signer);

    let owner = spl_associated_token_account::solana_program::pubkey::Pubkey::new_from_array(
        [3u8; 32],
    );
    let dest = spl_associated_token_account::solana_program::pubkey::Pubkey::new_from_array(
        [1u8; 32],
    );
    let mint = spl_associated_token_account::solana_program::pubkey::Pubkey::new_from_array(
        [2u8; 32],
    );
    let source_ata = spl_associated_token_account::get_associated_token_address(&owner, &mint);
    let dest_ata = spl_associated_token_account::get_associated_token_address(&dest, &mint);
    assert_eq!(d.accounts[0].pubkey, source_ata.to_string());
    assert_eq!(d.accounts[1].pubkey, dest_ata.to_string());

    let mut expected = vec![3u8];
    expected.extend_from_slice(&5u64.to_le_bytes());
    assert_eq!(b64d(&d.instruction_data), expected);
}

#[test]
fn send_token_error_cases() {
    let missing = send_token(&SendTokenRequest {
        destination: addr_a(),
        mint: addr_b(),
        owner: "".to_string(),
        amount: 1,
    })
    .unwrap_err();
    assert_eq!(missing, ApiError::MissingRequiredFields);

    let bad_owner = send_token(&SendTokenRequest {
        destination: addr_a(),
        mint: addr_b(),
        owner: "not-base58!".to_string(),
        amount: 1,
    })
    .unwrap_err();
    assert_eq!(bad_owner, ApiError::InvalidOwnerAddress);
    assert_eq!(bad_owner.message(), "Invalid owner address");

    let zero = send_token(&SendTokenRequest {
        destination: addr_a(),
        mint: addr_b(),
        owner: addr_c(),
        amount: 0,
    })
    .unwrap_err();
    assert_eq!(zero, ApiError::AmountMustBePositive);

    let one = send_token(&SendTokenRequest {
        destination: addr_a(),
        mint: addr_b(),
        owner: addr_c(),
        amount: 1,
    });
    assert!(one.is_ok());
}

#[test]
fn ata_identical_for_identical_pairs_across_endpoints() {
    // mint-to and token-transfer must derive the same destination account
    // for the same (owner, mint) pair.
    let minted = mint_token(&MintTokenRequest {
        mint: addr_b(),
        destination: addr_a(),
        authority: addr_c(),
        amount: 1,
    })
    .unwrap();
    let sent = send_token(&SendTokenRequest {
        destination: addr_a(),
        mint: addr_b(),
        owner: addr_c(),
        amount: 1,
    })
    .unwrap();
    assert_eq!(minted.accounts[1].pubkey, sent.accounts[1].pubkey);
}

#[test]
fn ata_differs_for_different_pairs() {
    let a = parse_address(&addr_a()).unwrap();
    let b = parse_address(&addr_b()).unwrap();
    let c = parse_address(&addr_c()).unwrap();
    let ata_ab = derive_associated_token_address(&a, &b).unwrap();
    let ata_cb = derive_associated_token_address(&c, &b).unwrap();
    let ata_ac = derive_associated_token_address(&a, &c).unwrap();
    assert_ne!(ata_ab.bytes, ata_cb.bytes);
    assert_ne!(ata_ab.bytes, ata_ac.bytes);
}

#[test]
fn derive_ata_matches_reference_derivation() {
    let owner = parse_address(&addr_a()).unwrap();
    let mint = parse_address(&addr_b()).unwrap();
    let ours = derive_associated_token_address(&owner, &mint).unwrap();
    let wallet = spl_associated_token_account::solana_program::pubkey::Pubkey::new_from_array(
        [1u8; 32],
    );
    let m = spl_associated_token_account::solana_program::pubkey::Pubkey::new_from_array(
        [2u8; 32],
    );
    let reference = spl_associated_token_account::get_associated_token_address(&wallet, &m);
    assert_eq!(ours.bytes, reference.to_bytes().to_vec());
}

#[test]
fn program_id_constants_match_reference_crates() {
    assert_eq!(TOKEN_PROGRAM_ID, spl_token::id().to_bytes());
    assert_eq!(ATA_PROGRAM_ID, spl_associated_token_account::id().to_bytes());
    assert_eq!(RENT_SYSVAR_ID, solana_sdk::sysvar::rent::id().to_bytes());
    assert_eq!(
        SYSTEM_PROGRAM_ID,
        solana_sdk::system_program::id().to_bytes()
    );
}

#[test]
fn instruction_matches_spl_token_builder() {
    let mint = solana_sdk::pubkey::Pubkey::new_from_array([2u8; 32]);
    let authority = solana_sdk::pubkey::Pubkey::new_from_array([1u8; 32]);
    let reference = spl_token::instruction::initialize_mint(
        &spl_token::id(),
        &mint,
        &authority,
        Some(&authority),
        9,
    )
    .unwrap();
    let ours = create_token(&CreateTokenRequest {
        mint_authority: addr_a(),
        mint: addr_b(),
        decimals: 9,
    })
    .unwrap();
    assert_eq!(b64d(&ours.instruction_data), reference.data);
    assert_eq!(ours.program_id, reference.program_id.to_string());
    assert_eq!(ours.accounts.len(), reference.accounts.len());
    for (a, r) in ours.accounts.iter().zip(reference.accounts.iter()) {
        assert_eq!(a.pubkey, r.pubkey.to_string());
        assert_eq!(a.is_signer, r.is_signer);
        assert_eq!(a.is_writable, r.is_writable);
    }
}

#[test]
fn error_messages_are_exact() {
    assert_eq!(ApiError::MissingRequiredFields.message(), "Missing required fields");
    assert_eq!(ApiError::InvalidMintAuthorityAddress.message(), "Invalid mint authority address");
    assert_eq!(ApiError::InvalidMintAddress.message(), "Invalid mint address");
    assert_eq!(ApiError::InvalidDestinationAddress.message(), "Invalid destination address");
    assert_eq!(ApiError::InvalidAuthorityAddress.message(), "Invalid authority address");
    assert_eq!(ApiError::InvalidFromAddress.message(), "Invalid from address");
    assert_eq!(ApiError::InvalidToAddress.message(), "Invalid to address");
    assert_eq!(ApiError::InvalidOwnerAddress.message(), "Invalid owner address");
    assert_eq!(ApiError::InvalidPublicKeyFormat.message(), "Invalid public key format");
    assert_eq!(ApiError::InvalidPublicKey.message(), "Invalid public key");
    assert_eq!(ApiError::InvalidSecretKeyFormat.message(), "Invalid secret key format");
    assert_eq!(ApiError::InvalidSecretKey.message(), "Invalid secret key");
    assert_eq!(ApiError::InvalidSignatureFormat.message(), "Invalid signature format");
    assert_eq!(ApiError::InvalidSignature.message(), "Invalid signature");
    assert_eq!(ApiError::AmountMustBePositive.message(), "Amount must be greater than 0");
    assert_eq!(
        ApiError::InitializeMintFailed.message(),
        "Failed to create initialize mint instruction"
    );
    assert_eq!(ApiError::MintToFailed.message(), "Failed to create mint to instruction");
    assert_eq!(
        ApiError::TokenTransferFailed.message(),
        "Failed to create transfer instruction"
    );
}

#[test]
fn parse_secret_and_signature_validators() {
    let kp = generate_keypair();
    assert!(solana_api::address::parse_secret(&kp.secret).is_ok());
    assert!(matches!(
        solana_api::address::parse_secret("!!"),
        Err(ParseFailure::Encoding)
    ));
    assert!(matches!(
        solana_api::address::parse_secret(&b58(&[1u8; 64])),
        Err(ParseFailure::Structure)
    ));
    assert!(solana_api::address::parse_signature(&b64(&[0u8; 64])).is_ok());
    assert!(matches!(
        solana_api::address::parse_signature("??"),
        Err(ParseFailure::Encoding)
    ));
    assert!(matches!(
        solana_api::address::parse_signature(&b64(&[0u8; 65])),
        Err(ParseFailure::Structure)
    ));
}
