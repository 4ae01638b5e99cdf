use base64::Engine;
use http_server::codec::{
    decode_bytes_base64, encode_address_base58, encode_bytes_base58, encode_bytes_base64,
    parse_pubkey,
};
use http_server::crypto::{new_keypair, parse_keypair, public_of, sign, verify};
use http_server::error::RequestError;
use http_server::handlers::{
    create_token, generate_keypair, keypair_response, mint_token, send_sol, send_token,
    sign_message, verify_message,
};
use http_server::instruction::{
    initialize_mint, instruction_to_response, mint_to, transfer_native, transfer_token,
};
use http_server::schema::{
    ApiResponse, CreateTokenRequest, MintTokenRequest, SendSolRequest, SendTokenRequest,
    SignMessageRequest, VerifyMessageRequest,
};

const SYSTEM_PROGRAM: &str = "11111111111111111111111111111111";
const TOKEN_PROGRAM: &str = "TokenkegQfeZyiNwAJbNbGKPFXCWuBvf9Ss623VQ5DA";
const RENT_SYSVAR: &str = "SysvarRent111111111111111111111111111111111";

fn address(seed: u8) -> Vec<u8> {
    (0..32u8).map(|i| i.wrapping_mul(7).wrapping_add(seed)).collect()
}

fn b64(b: &[u8]) -> Vec<u8> {
    base64::engine::general_purpose::STANDARD.decode(b).unwrap()
}

fn secret_text() -> (Vec<u8>, String) {
    let k = new_keypair();
    let s = encode_bytes_base58(&k);
    (k, s)
}

#[test]
fn address_round_trip() {
    for seed in [0u8, 1, 200, 255] {
        let a = address(seed);
        let text = encode_address_base58(&a);
        assert_eq!(parse_pubkey(&text).unwrap(), a);
    }
    let zeros = vec![0u8; 32];
    assert_eq!(encode_address_base58(&zeros), SYSTEM_PROGRAM);
    assert_eq!(parse_pubkey(SYSTEM_PROGRAM).unwrap(), zeros);
}

#[test]
fn address_rejects_bad_text_and_length() {
    assert_eq!(parse_pubkey("0OIl"), Err(RequestError::InvalidAddress));
    assert_eq!(parse_pubkey("abc"), Err(RequestError::InvalidAddress));
    assert_eq!(parse_pubkey(""), Err(RequestError::InvalidAddress));
    let long = encode_bytes_base58(&vec![9u8; 33]);
    assert_eq!(parse_pubkey(&long), Err(RequestError::InvalidAddress));
}

#[test]
fn base64_codec_known_values() {
    assert_eq!(encode_bytes_base64(&b"hello".to_vec()), "aGVsbG8=");
    assert_eq!(decode_bytes_base64("aGVsbG8=").unwrap(), b"hello".to_vec());
    assert_eq!(decode_bytes_base64("not base64!"), Err(RequestError::InvalidBase64));
    assert_eq!(encode_bytes_base64(&vec![]), "");
}

#[test]
fn sign_then_verify_holds() {
    let k = new_keypair();
    assert_eq!(k.len(), 64);
    let pk = public_of(&k);
    assert_eq!(pk, k[32..].to_vec());
    for m in [&b""[..], b"hello", b"a longer message with several words"] {
        let sig = sign(m, &k);
        assert_eq!(sig.len(), 64);
        assert_eq!(verify(&sig, m, &pk), Ok(true));
    }
}

#[test]
fn verify_is_false_after_tampering() {
    let k = new_keypair();
    let pk = public_of(&k);
    let sig = sign(b"hello", &k);
    assert_eq!(verify(&sig, b"hellp", &pk), Ok(false));
    let other = public_of(&new_keypair());
    assert_eq!(verify(&sig, b"hello", &other), Ok(false));
    let mut bad = sig.clone();
    bad[0] ^= 1;
    assert_eq!(verify(&bad, b"hello", &pk), Ok(false));
}

#[test]
fn verify_rejects_wrong_signature_length() {
    let k = new_keypair();
    let pk = public_of(&k);
    assert_eq!(verify(&vec![0u8; 63], b"hello", &pk), Err(RequestError::InvalidSignatureEncoding));
    assert_eq!(verify(&vec![0u8; 65], b"hello", &pk), Err(RequestError::InvalidSignatureEncoding));
}

#[test]
fn decode_secret_checks() {
    let (k, s) = secret_text();
    assert_eq!(parse_keypair(&s).unwrap(), k);
    assert_eq!(parse_keypair("0OIl"), Err(RequestError::InvalidEncoding));
    let short = encode_bytes_base58(&k[..32].to_vec());
    assert_eq!(parse_keypair(&short), Err(RequestError::InvalidKeyLength));
    let long = encode_bytes_base58(&[k.clone(), vec![1]].concat());
    assert_eq!(parse_keypair(&long), Err(RequestError::InvalidKeyLength));
    let mut mixed = k.clone();
    mixed[32..].copy_from_slice(&public_of(&new_keypair()));
    assert_eq!(parse_keypair(&encode_bytes_base58(&mixed)), Err(RequestError::InvalidKeypair));
}

#[test]
fn error_messages_are_not_empty() {
    for e in [
        RequestError::InvalidAddress,
        RequestError::InvalidEncoding,
        RequestError::InvalidKeyLength,
        RequestError::InvalidKeypair,
        RequestError::InvalidBase64,
        RequestError::InvalidSignatureEncoding,
        RequestError::EmptyField,
        RequestError::InvalidAmount,
    ] {
        assert!(!e.message().is_empty());
    }
    assert_eq!(RequestError::InvalidAmount.message(), "Lamports must be greater than 0");
}

#[test]
fn envelope_constructors() {
    let ok = ApiResponse::success(5u32);
    assert!(ok.success);
    assert_eq!(ok.data, Some(5));
    assert_eq!(ok.error, None);
    let err: ApiResponse<u32> = ApiResponse::error("bad".to_string());
    assert!(!err.success);
    assert_eq!(err.data, None);
    assert_eq!(err.error, Some("bad".to_string()));
}

#[test]
fn builders_produce_exact_payloads() {
    let (a, b, c) = (address(1), address(2), address(3));
    let ix = initialize_mint(&a, &b, 6);
    let mut data = vec![0u8, 6];
    data.extend_from_slice(&b);
    data.push(0);
    assert_eq!(ix.data, data);
    assert_eq!(ix.accounts.len(), 2);
    assert_eq!(encode_address_base58(&ix.accounts[1].pubkey), RENT_SYSVAR);
    assert_eq!(encode_address_base58(&ix.program_id), TOKEN_PROGRAM);

    let ix = mint_to(&a, &b, &c, 0x0102);
    assert_eq!(ix.data, vec![7u8, 2, 1, 0, 0, 0, 0, 0, 0]);
    assert!(ix.accounts[2].is_signer && !ix.accounts[2].is_writable);

    assert_eq!(transfer_native(&a, &b, 0).unwrap_err(), RequestError::InvalidAmount);
    let ix = transfer_native(&a, &b, 1).unwrap();
    assert_eq!(ix.data, vec![2u8, 0, 0, 0, 1, 0, 0, 0, 0, 0, 0, 0]);
    assert_eq!(ix.program_id, vec![0u8; 32]);

    let ix = transfer_token(&a, &b, &c, u64::MAX);
    let mut data = vec![12u8];
    data.extend_from_slice(&[255u8; 8]);
    data.push(9);
    assert_eq!(ix.data, data);
    assert_eq!(ix.accounts[0].pubkey, c);
    assert_eq!(ix.accounts[3].pubkey, c);
}

#[test]
fn instruction_response_encodes_fields() {
    let (a, b) = (address(4), address(5));
    let r = instruction_to_response(transfer_native(&a, &b, 1000).unwrap());
    assert_eq!(r.program_id, SYSTEM_PROGRAM);
    assert_eq!(r.accounts.len(), 2);
    assert_eq!(r.accounts[0].pubkey, encode_address_base58(&a));
    assert!(r.accounts[0].is_signer && r.accounts[0].is_writable);
    assert_eq!(r.accounts[1].pubkey, encode_address_base58(&b));
    assert!(!r.accounts[1].is_signer && r.accounts[1].is_writable);
    assert_eq!(b64(r.instruction_data.as_bytes()), vec![2u8, 0, 0, 0, 0xe8, 3, 0, 0, 0, 0, 0, 0]);
}

#[test]
fn keypair_endpoint_returns_decodable_keys() {
    let (status, body) = generate_keypair();
    assert_eq!(status, 200);
    assert!(body.success && body.error.is_none());
    let data = body.data.unwrap();
    let pk = parse_pubkey(&data.pubkey).unwrap();
    assert_eq!(pk.len(), 32);
    let k = parse_keypair(&data.secret).unwrap();
    assert_eq!(k.len(), 64);
    assert_eq!(k[32..].to_vec(), pk);
    let again = keypair_response(&k);
    assert_eq!(again.pubkey, data.pubkey);
    assert_eq!(again.secret, data.secret);
}

#[test]
fn sign_endpoint_gives_64_byte_signature() {
    let (k, secret) = secret_text();
    let (status, body) = sign_message(SignMessageRequest { message: "hello".to_string(), secret });
    assert_eq!(status, 200);
    let data = body.data.unwrap();
    let sig = b64(data.signature.as_bytes());
    assert_eq!(sig.len(), 64);
    assert_eq!(sig, sign(b"hello", &k));
    assert_eq!(data.public_key, encode_address_base58(&public_of(&k)));
    assert_eq!(data.message, "hello");
}

#[test]
fn sign_endpoint_refuses_empty_or_bad_input() {
    let (_, secret) = secret_text();
    let (status, body) = sign_message(SignMessageRequest { message: String::new(), secret });
    assert_eq!(status, 400);
    assert_eq!(body.error, Some(RequestError::EmptyField.message()));
    let (status, body) =
        sign_message(SignMessageRequest { message: "hi".to_string(), secret: String::new() });
    assert_eq!(status, 400);
    assert_eq!(body.error, Some(RequestError::EmptyField.message()));
    let (status, body) =
        sign_message(SignMessageRequest { message: "hi".to_string(), secret: "abc".to_string() });
    assert_eq!(status, 400);
    assert!(body.data.is_none());
    assert_eq!(body.error, Some(RequestError::InvalidKeyLength.message()));
}

#[test]
fn verify_endpoint_reports_tampered_message_as_invalid() {
    let (k, secret) = secret_text();
    let (_, signed) = sign_message(SignMessageRequest { message: "hello".to_string(), secret });
    let signed = signed.data.unwrap();
    let pubkey = encode_address_base58(&public_of(&k));
    let (status, body) = verify_message(VerifyMessageRequest {
        message: "hello!".to_string(),
        signature: signed.signature.clone(),
        pubkey: pubkey.clone(),
    });
    assert_eq!(status, 200);
    let data = body.data.unwrap();
    assert!(!data.valid);
    assert_eq!(data.message, "hello!");
    assert_eq!(data.pubkey, pubkey);
    let (status, body) = verify_message(VerifyMessageRequest {
        message: "hello".to_string(),
        signature: signed.signature,
        pubkey,
    });
    assert_eq!(status, 200);
    assert!(body.data.unwrap().valid);
}

#[test]
fn verify_endpoint_refuses_malformed_input() {
    let pubkey = encode_address_base58(&address(7));
    let (status, body) = verify_message(VerifyMessageRequest {
        message: "m".to_string(),
        signature: "***".to_string(),
        pubkey: pubkey.clone(),
    });
    assert_eq!(status, 400);
    assert_eq!(body.error, Some(RequestError::InvalidBase64.message()));
    let (status, body) = verify_message(VerifyMessageRequest {
        message: "m".to_string(),
        signature: encode_bytes_base64(&vec![1u8; 10]),
        pubkey,
    });
    assert_eq!(status, 400);
    assert_eq!(body.error, Some(RequestError::InvalidSignatureEncoding.message()));
    let (status, body) = verify_message(VerifyMessageRequest {
        message: "m".to_string(),
        signature: encode_bytes_base64(&vec![1u8; 64]),
        pubkey: "nope0".to_string(),
    });
    assert_eq!(status, 400);
    assert_eq!(body.error, Some(RequestError::InvalidAddress.message()));
}

#[test]
fn send_sol_zero_is_refused_and_one_succeeds() {
    let (from, to) = (encode_address_base58(&address(1)), encode_address_base58(&address(2)));
    let (status, body) =
        send_sol(SendSolRequest { from: from.clone(), to: to.clone(), lamports: 0 });
    assert_eq!(status, 400);
    assert!(!body.success && body.data.is_none());
    assert_eq!(body.error, Some("Lamports must be greater than 0".to_string()));
    let (status, body) = send_sol(SendSolRequest { from, to: to.clone(), lamports: 1 });
    assert_eq!(status, 200);
    let data = body.data.unwrap();
    assert_eq!(data.program_id, SYSTEM_PROGRAM);
    assert_eq!(data.accounts[1].pubkey, to);
    let (status, body) =
        send_sol(SendSolRequest { from: "bad!".to_string(), to, lamports: 0 });
    assert_eq!(status, 400);
    assert_eq!(body.error, Some(RequestError::InvalidAddress.message()));
}

#[test]
fn create_token_accepts_255_decimals() {
    let (mint, authority) = (address(10), address(11));
    let (status, body) = create_token(CreateTokenRequest {
        mint_authority: encode_address_base58(&authority),
        mint: encode_address_base58(&mint),
        decimals: 255,
    });
    assert_eq!(status, 200);
    let data = body.data.unwrap();
    assert_eq!(data.program_id, TOKEN_PROGRAM);
    assert_eq!(data.accounts.len(), 2);
    assert_eq!(data.accounts[0].pubkey, encode_address_base58(&mint));
    assert!(data.accounts[0].is_writable && !data.accounts[0].is_signer);
    assert_eq!(data.accounts[1].pubkey, RENT_SYSVAR);
    let bytes = b64(data.instruction_data.as_bytes());
    assert_eq!(bytes.len(), 35);
    assert_eq!(&bytes[..2], &[0u8, 255]);
    assert_eq!(&bytes[2..34], &authority[..]);
    assert_eq!(bytes[34], 0);
    let (status, _) = create_token(CreateTokenRequest {
        mint_authority: "x".to_string(),
        mint: encode_address_base58(&mint),
        decimals: 0,
    });
    assert_eq!(status, 400);
}

#[test]
fn mint_token_allows_zero_amount() {
    let (status, body) = mint_token(MintTokenRequest {
        mint: encode_address_base58(&address(1)),
        destination: encode_address_base58(&address(2)),
        authority: encode_address_base58(&address(3)),
        amount: 0,
    });
    assert_eq!(status, 200);
    let data = body.data.unwrap();
    assert_eq!(b64(data.instruction_data.as_bytes()), vec![7u8, 0, 0, 0, 0, 0, 0, 0, 0]);
    let flags: Vec<(bool, bool)> =
        data.accounts.iter().map(|m| (m.is_signer, m.is_writable)).collect();
    assert_eq!(flags, vec![(false, true), (false, true), (true, false)]);
}

#[test]
fn send_token_matches_reference_encoding() {
    let (dest, mint, owner) = (address(20), address(21), address(22));
    let (status, body) = send_token(SendTokenRequest {
        destination: encode_address_base58(&dest),
        mint: encode_address_base58(&mint),
        owner: encode_address_base58(&owner),
        amount: 123_456_789,
    });
    assert_eq!(status, 200);
    let data = body.data.unwrap();
    let key = |b: &Vec<u8>| solana_sdk::pubkey::Pubkey::try_from(b.as_slice()).unwrap();
    let expected = spl_token::instruction::transfer_checked(
        &spl_token::id(),
        &key(&owner),
        &key(&mint),
        &key(&dest),
        &key(&owner),
        &[],
        123_456_789,
        9,
    )
    .unwrap();
    assert_eq!(data.program_id, expected.program_id.to_string());
    assert_eq!(b64(data.instruction_data.as_bytes()), expected.data);
    assert_eq!(data.accounts.len(), expected.accounts.len());
    for (got, want) in data.accounts.iter().zip(expected.accounts.iter()) {
        assert_eq!(got.pubkey, want.pubkey.to_string());
        assert_eq!(got.is_signer, want.is_signer);
        assert_eq!(got.is_writable, want.is_writable);
    }
}
