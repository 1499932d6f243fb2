use base58::{FromBase58, ToBase58};
use solana_api::responses::{
    CreateTokenRequest, MintTokenRequest, SendSolRequest, SendTokenRequest, SignMessageRequest,
    VerifyMessageRequest,
};
use solana_api::routes::{
    generate_keypair, keypair_response, process_create_token, process_mint_token, process_send_sol,
    process_send_token, process_sign_message, process_verify_message,
};
use solana_api::solana::{
    decode_keypair, decode_pubkey, encode_keypair, sign_message, verify_signature, KeypairBytes,
    SolanaError,
};
use solana_sdk::signature::Keypair;
use solana_sdk::signer::Signer;
use spl_token::solana_program::pubkey::Pubkey;

const TOKEN_PROGRAM: &str = "TokenkegQfeZyiNwAJbNbGKPFXCWuBvf9Ss623VQ5DA";
const RENT_SYSVAR: &str = "SysvarRent111111111111111111111111111111111";
const SYSTEM_PROGRAM: &str = "11111111111111111111111111111111";

fn address(byte: u8) -> String {
    [byte; 32].to_base58()
}

#[test]
fn decode_pubkey_reads_base58_address() {
    assert_eq!(decode_pubkey(&address(7)), Ok([7u8; 32]));
    assert_eq!(decode_pubkey(TOKEN_PROGRAM).unwrap()[0], 6);
}

#[test]
fn decode_pubkey_rejects_bad_text() {
    assert!(matches!(decode_pubkey("not-an-address!"), Err(SolanaError::InvalidPubkey(_))));
    assert!(matches!(decode_pubkey(&[1u8; 5].to_base58()), Err(SolanaError::InvalidPubkey(_))));
}

fn fresh() -> (Keypair, KeypairBytes) {
    let k = Keypair::new();
    let b = KeypairBytes::from_bytes(&k.to_bytes()).unwrap();
    (k, b)
}

#[test]
fn keypair_text_round_trip() {
    let (k, b) = fresh();
    let text = encode_keypair(&b);
    assert_eq!(text, k.to_bytes().to_base58());
    assert_eq!(text.from_base58().unwrap(), k.to_bytes().to_vec());
    let back = decode_keypair(&text).unwrap();
    assert_eq!(back.to_bytes(), k.to_bytes());
    assert_eq!(back.pubkey(), k.pubkey().to_bytes());
}

#[test]
fn keypair_bytes_rejects_mismatched_halves() {
    let (k, _) = fresh();
    let mut bytes = k.to_bytes();
    bytes[40] ^= 1;
    assert!(KeypairBytes::from_bytes(&bytes).is_none());
    assert!(KeypairBytes::from_bytes(&bytes[..63]).is_none());
}

#[test]
fn sign_message_matches_sdk_signature() {
    let (k, b) = fresh();
    let sig = sign_message(b"payload", &b);
    assert_eq!(sig, k.sign_message(b"payload").as_ref().to_base58());
    assert_ne!(sig, sign_message(b"", &b));
    assert_eq!(verify_signature(b"payload", &sig, &b.pubkey()), Ok(true));
}

#[test]
fn decode_pubkey_error_carries_parser_message() {
    let e = decode_pubkey("0OIl");
    let expected = "0OIl".parse::<solana_sdk::pubkey::Pubkey>().unwrap_err().to_string();
    assert_eq!(e, Err(SolanaError::InvalidPubkey(expected)));
}

#[test]
fn decode_keypair_rejects_bad_input() {
    assert!(matches!(decode_keypair("0OIl"), Err(SolanaError::InvalidBase58)));
    assert!(matches!(decode_keypair(&[3u8; 10].to_base58()), Err(SolanaError::InvalidBase58)));
}

#[test]
fn verify_signature_rejects_wrong_length() {
    let pk = [1u8; 32];
    assert_eq!(verify_signature(b"m", &[1u8; 63].to_base58(), &pk), Err(SolanaError::InvalidSignature));
    assert_eq!(verify_signature(b"m", "0OIl", &pk), Err(SolanaError::InvalidSignature));
    assert_eq!(verify_signature(b"m", &[1u8; 64].to_base58(), &pk), Ok(false));
}

#[test]
fn sign_then_verify() {
    let k = Keypair::new();
    let secret = k.to_bytes().to_base58();
    let signed = process_sign_message(&SignMessageRequest {
        message: "hello".to_string(),
        secret,
    })
    .ok()
    .unwrap();
    assert!(signed.success);
    assert_eq!(signed.data.pubkey, k.pubkey().to_string());
    assert_eq!(signed.data.message, "hello");
    assert_eq!(signed.data.signature.from_base58().unwrap().len(), 64);

    let ok = process_verify_message(&VerifyMessageRequest {
        message: "hello".to_string(),
        signature: signed.data.signature.clone(),
        pubkey: k.pubkey().to_string(),
    })
    .ok()
    .unwrap();
    assert!(ok.data.valid);

    let bad = process_verify_message(&VerifyMessageRequest {
        message: "hellp".to_string(),
        signature: signed.data.signature,
        pubkey: k.pubkey().to_string(),
    })
    .ok()
    .unwrap();
    assert!(!bad.data.valid);
}

#[test]
fn sign_message_refusals() {
    let e = process_sign_message(&SignMessageRequest { message: String::new(), secret: "x".to_string() })
        .err()
        .unwrap();
    assert!(!e.success);
    assert_eq!(e.error, "Missing required fields");
    let e = process_sign_message(&SignMessageRequest { message: "m".to_string(), secret: "abc".to_string() })
        .err()
        .unwrap();
    assert_eq!(e.error, "Invalid secret key");
}

#[test]
fn verify_message_refusals() {
    let e = process_verify_message(&VerifyMessageRequest {
        message: "m".to_string(),
        signature: String::new(),
        pubkey: address(1),
    })
    .err()
    .unwrap();
    assert_eq!(e.error, "Missing required fields");
    let e = process_verify_message(&VerifyMessageRequest {
        message: "m".to_string(),
        signature: [1u8; 64].to_base58(),
        pubkey: "bad!".to_string(),
    })
    .err()
    .unwrap();
    assert_eq!(e.error, "Invalid public key");
    let e = process_verify_message(&VerifyMessageRequest {
        message: "m".to_string(),
        signature: [1u8; 10].to_base58(),
        pubkey: address(1),
    })
    .err()
    .unwrap();
    assert_eq!(e.error, "Invalid signature format");
}

#[test]
fn generate_keypair_gives_usable_keypair() {
    let r = generate_keypair();
    assert!(r.success);
    let bytes = r.data.secret.from_base58().unwrap();
    let k = Keypair::try_from(&bytes[..]).unwrap();
    assert_eq!(r.data.pubkey, k.pubkey().to_string());
    assert_ne!(generate_keypair().data.secret, r.data.secret);
}

#[test]
fn keypair_response_shows_keypair() {
    let (k, b) = fresh();
    let r = keypair_response(&b);
    assert!(r.success);
    assert_eq!(r.data.pubkey, k.pubkey().to_string());
    assert_eq!(r.data.secret, k.to_bytes().to_base58());
}

#[test]
fn send_sol_builds_transfer() {
    let r = process_send_sol(&SendSolRequest { from: address(1), to: address(2), lamports: 1000 })
        .ok()
        .unwrap();
    assert!(r.success);
    assert_eq!(r.data.program_id, SYSTEM_PROGRAM);
    assert_eq!(r.data.accounts, vec![address(1), address(2)]);
    assert_eq!(r.data.instruction_data, vec![2u8, 0, 0, 0, 0xe8, 0x03, 0, 0, 0, 0, 0, 0].to_base58());
}

#[test]
fn send_sol_refusals() {
    for req in [
        SendSolRequest { from: address(1), to: address(2), lamports: 0 },
        SendSolRequest { from: "bad".to_string(), to: address(2), lamports: 5 },
        SendSolRequest { from: address(1), to: "bad".to_string(), lamports: 5 },
    ] {
        let e = process_send_sol(&req).err().unwrap();
        assert!(!e.success);
        assert_eq!(e.error, "Invalid sender public key");
    }
}

#[test]
fn create_token_builds_initialize_mint() {
    let r = process_create_token(&CreateTokenRequest {
        mint_authority: address(3),
        mint: address(4),
        decimals: 6,
    })
    .ok()
    .unwrap();
    assert_eq!(r.data.program_id, TOKEN_PROGRAM);
    assert_eq!(r.data.accounts.len(), 2);
    assert_eq!(r.data.accounts[0].pubkey, address(4));
    assert!(!r.data.accounts[0].is_signer && r.data.accounts[0].is_writable);
    assert_eq!(r.data.accounts[1].pubkey, RENT_SYSVAR);
    assert!(!r.data.accounts[1].is_signer && !r.data.accounts[1].is_writable);
    let mut data = vec![0u8, 6];
    data.extend_from_slice(&[3u8; 32]);
    data.push(0);
    assert_eq!(r.data.instruction_data, data.to_base58());
}

#[test]
fn create_token_refusals() {
    let e = process_create_token(&CreateTokenRequest { mint_authority: "x".to_string(), mint: "y".to_string(), decimals: 0 })
        .err()
        .unwrap();
    assert_eq!(e.error, "Invalid mint authority pubkey");
    let e = process_create_token(&CreateTokenRequest { mint_authority: address(3), mint: "y".to_string(), decimals: 0 })
        .err()
        .unwrap();
    assert_eq!(e.error, "Invalid mint pubkey");
}

#[test]
fn mint_token_builds_mint_to() {
    let r = process_mint_token(&MintTokenRequest {
        mint: address(4),
        destination: address(5),
        authority: address(6),
        amount: 0x0102,
    })
    .ok()
    .unwrap();
    assert_eq!(r.data.program_id, TOKEN_PROGRAM);
    let shown: Vec<(String, bool, bool)> = r
        .data
        .accounts
        .iter()
        .map(|a| (a.pubkey.clone(), a.is_signer, a.is_writable))
        .collect();
    assert_eq!(shown, vec![(address(4), false, true), (address(5), false, true), (address(6), true, false)]);
    assert_eq!(r.data.instruction_data, vec![7u8, 0x02, 0x01, 0, 0, 0, 0, 0, 0].to_base58());
}

#[test]
fn mint_token_refusals() {
    let e = process_mint_token(&MintTokenRequest { mint: "m".to_string(), destination: address(5), authority: address(6), amount: 1 })
        .err()
        .unwrap();
    assert_eq!(e.error, "Invalid mint pubkey");
    let e = process_mint_token(&MintTokenRequest { mint: address(4), destination: "d".to_string(), authority: address(6), amount: 1 })
        .err()
        .unwrap();
    assert_eq!(e.error, "Invalid destination pubkey");
    let e = process_mint_token(&MintTokenRequest { mint: address(4), destination: address(5), authority: "a".to_string(), amount: 1 })
        .err()
        .unwrap();
    assert_eq!(e.error, "Invalid authority pubkey");
}

#[test]
fn send_token_builds_transfer_between_associated_accounts() {
    let r = process_send_token(&SendTokenRequest {
        destination: address(5),
        mint: address(4),
        owner: address(6),
        amount: 42,
    })
    .ok()
    .unwrap();
    let ata = |w: u8| {
        spl_associated_token_account::get_associated_token_address(
            &Pubkey::new_from_array([w; 32]),
            &Pubkey::new_from_array([4; 32]),
        )
        .to_string()
    };
    assert_eq!(r.data.program_id, TOKEN_PROGRAM);
    assert_eq!(r.data.accounts.len(), 3);
    assert_eq!(r.data.accounts[0].pubkey, ata(6));
    assert_ne!(r.data.accounts[0].pubkey, address(6));
    assert!(!r.data.accounts[0].is_signer);
    assert_eq!(r.data.accounts[1].pubkey, ata(5));
    assert!(!r.data.accounts[1].is_signer);
    assert_eq!(r.data.accounts[2].pubkey, address(6));
    assert!(r.data.accounts[2].is_signer);
    assert_eq!(r.data.instruction_data, vec![3u8, 42, 0, 0, 0, 0, 0, 0, 0].to_base58());
}

#[test]
fn send_token_refusals() {
    let cases = [
        (address(5), address(4), address(6), 0u64, "Amount must be greater than 0"),
        ("d".to_string(), address(4), address(6), 1, "Invalid destination pubkey"),
        (address(5), "m".to_string(), address(6), 1, "Invalid mint pubkey"),
        (address(5), address(4), "o".to_string(), 1, "Invalid owner pubkey"),
    ];
    for (destination, mint, owner, amount, msg) in cases {
        let e = process_send_token(&SendTokenRequest { destination, mint, owner, amount }).err().unwrap();
        assert!(!e.success);
        assert_eq!(e.error, msg);
    }
}
