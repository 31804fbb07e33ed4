use base64::Engine as _;

use solana_http_server::{
    api_info, create_token, generate_keypair, health_check, mint_token, parse_public_key,
    parse_secret_key, send_sol, send_token, sign_message, verify_message, Config,
    CreateTokenRequest, MintTokenRequest, SendSolRequest, SendTokenRequest, SignMessageRequest,
    VerifyMessageRequest,
};

fn decode_b58(s: &str) -> Vec<u8> {
    bs58::decode(s).into_vec().unwrap()
}

fn decode_b64(s: &str) -> Vec<u8> {
    base64::engine::general_purpose::STANDARD.decode(s).unwrap()
}

#[test]
fn test_two_keypairs_are_distinct() {
    let first = generate_keypair().data.unwrap();
    let second = generate_keypair().data.unwrap();
    assert_ne!(first.public_key, second.public_key);
    assert_ne!(first.secret_key, second.secret_key);
}

#[test]
fn test_generated_keypair_is_consistent() {
    let keypair = generate_keypair().data.unwrap();
    let secret = decode_b58(&keypair.secret_key);
    let public = decode_b58(&keypair.public_key);
    assert_eq!(secret.len(), 64);
    assert_eq!(public.len(), 32);
    assert_eq!(&secret[32..], public.as_slice());
    assert!(parse_secret_key(&keypair.secret_key).is_ok());
    assert!(parse_public_key(&keypair.public_key).is_ok());
}

#[test]
fn test_signature_is_base64_of_64_bytes() {
    let keypair = generate_keypair().data.unwrap();
    let request = SignMessageRequest {
        message: "attest".to_string(),
        secret: keypair.secret_key,
    };
    let data = sign_message(&request).unwrap().data.unwrap();
    let raw = decode_b64(&data.signature);
    assert_eq!(raw.len(), 64);
}

#[test]
fn test_verify_tampered_message_fails() {
    let keypair = generate_keypair().data.unwrap();
    let request = SignMessageRequest {
        message: "Hello".to_string(),
        secret: keypair.secret_key,
    };
    let signed = sign_message(&request).unwrap().data.unwrap();

    let verify_request = VerifyMessageRequest {
        message: "Hello!".to_string(),
        signature: signed.signature,
        pubkey: signed.public_key,
    };
    let response = verify_message(&verify_request).unwrap();
    assert!(response.success);
    let data = response.data.unwrap();
    assert!(!data.is_valid);
    assert_eq!(response.message, "Message verification failed");
}

#[test]
fn test_verify_wrong_pubkey_fails() {
    let signer = generate_keypair().data.unwrap();
    let other = generate_keypair().data.unwrap();
    let request = SignMessageRequest {
        message: "Hello".to_string(),
        secret: signer.secret_key,
    };
    let signed = sign_message(&request).unwrap().data.unwrap();

    let verify_request = VerifyMessageRequest {
        message: "Hello".to_string(),
        signature: signed.signature,
        pubkey: other.public_key,
    };
    let data = verify_message(&verify_request).unwrap().data.unwrap();
    assert!(!data.is_valid);
}

#[test]
fn test_sign_rejects_empty_fields() {
    let keypair = generate_keypair().data.unwrap();

    let no_message = SignMessageRequest {
        message: "   ".to_string(),
        secret: keypair.secret_key.clone(),
    };
    let (status, response) = sign_message(&no_message).unwrap_err();
    assert_eq!(status, 400);
    assert_eq!(response.message, "message cannot be empty");

    let no_secret = SignMessageRequest {
        message: "hello".to_string(),
        secret: "".to_string(),
    };
    let (status, response) = sign_message(&no_secret).unwrap_err();
    assert_eq!(status, 400);
    assert_eq!(response.message, "secret cannot be empty");
}

#[test]
fn test_secret_key_of_wrong_length_is_rejected() {
    let short = bs58::encode([7u8; 10]).into_string();
    let request = SignMessageRequest {
        message: "hello".to_string(),
        secret: short,
    };
    let (status, response) = sign_message(&request).unwrap_err();
    assert_eq!(status, 400);
    assert_eq!(response.message, "Invalid secret key length: expected 64 bytes, got 10");
}

#[test]
fn test_secret_key_with_mismatched_pubkey_is_rejected() {
    let keypair = generate_keypair().data.unwrap();
    let mut raw = decode_b58(&keypair.secret_key);
    // Flip one bit of the embedded public key so it no longer matches the seed.
    raw[40] ^= 1;
    let request = SignMessageRequest {
        message: "hello".to_string(),
        secret: bs58::encode(&raw).into_string(),
    };
    let (status, response) = sign_message(&request).unwrap_err();
    assert_eq!(status, 400);
    assert_eq!(response.message, "Failed to create keypair from secret key: signature error");
}

#[test]
fn test_parse_public_key_error_message() {
    let result = parse_public_key("bad!");
    assert_eq!(
        result.unwrap_err(),
        "Invalid public key format: 'bad!'. Expected a base58 encoded string."
    );

    // Valid base58 of the wrong length is rejected with the same message.
    let short = bs58::encode([1u8; 4]).into_string();
    assert!(parse_public_key(&short).is_err());
}

#[test]
fn test_sol_transfer_data_bytes() {
    let from = generate_keypair().data.unwrap();
    let to = generate_keypair().data.unwrap();
    let request = SendSolRequest {
        from: from.public_key.clone(),
        to: to.public_key.clone(),
        lamports: 1000000,
    };
    let data = send_sol(&request).unwrap().data.unwrap();
    assert_eq!(decode_b64(&data.instruction_data), vec![2, 0, 0, 0, 64, 66, 15, 0, 0, 0, 0, 0]);
    assert_eq!(data.accounts[0].public_key, from.public_key);
    assert_eq!(data.accounts[1].public_key, to.public_key);
    assert!(!data.accounts[1].is_signer);
}

#[test]
fn test_create_token_data_bytes() {
    let authority = generate_keypair().data.unwrap();
    let mint = generate_keypair().data.unwrap();
    let request = CreateTokenRequest {
        mint_authority: authority.public_key.clone(),
        mint: mint.public_key.clone(),
        decimals: 9,
    };
    let data = create_token(&request).unwrap().data.unwrap();

    let authority_bytes = decode_b58(&authority.public_key);
    let mut expected = vec![0u8, 9];
    expected.extend_from_slice(&authority_bytes);
    expected.push(1);
    expected.extend_from_slice(&authority_bytes);
    assert_eq!(decode_b64(&data.instruction_data), expected);

    assert_eq!(data.accounts.len(), 2);
    assert_eq!(data.accounts[0].public_key, mint.public_key);
    assert!(!data.accounts[0].is_signer);
    assert!(data.accounts[0].is_writable);
    assert_eq!(data.accounts[1].public_key, "SysvarRent111111111111111111111111111111111");
    assert!(!data.accounts[1].is_writable);
}

#[test]
fn test_create_token_program_id_is_fixed() {
    let first_authority = generate_keypair().data.unwrap();
    let first_mint = generate_keypair().data.unwrap();
    let second_authority = generate_keypair().data.unwrap();
    let second_mint = generate_keypair().data.unwrap();

    let first = create_token(&CreateTokenRequest {
        mint_authority: first_authority.public_key,
        mint: first_mint.public_key,
        decimals: 0,
    })
    .unwrap()
    .data
    .unwrap();
    let second = create_token(&CreateTokenRequest {
        mint_authority: second_authority.public_key,
        mint: second_mint.public_key,
        decimals: 255,
    })
    .unwrap()
    .data
    .unwrap();

    assert_eq!(first.program_id, "TokenkegQfeZyiNwAJbNbGKPFXCWuBvf9Ss623VQ5DA");
    assert_eq!(second.program_id, first.program_id);
}

#[test]
fn test_create_token_missing_fields() {
    let valid = generate_keypair().data.unwrap();
    let (status, response) = create_token(&CreateTokenRequest {
        mint_authority: "".to_string(),
        mint: valid.public_key.clone(),
        decimals: 6,
    })
    .unwrap_err();
    assert_eq!(status, 400);
    assert_eq!(response.message, "Missing mint authority");

    let (_, response) = create_token(&CreateTokenRequest {
        mint_authority: valid.public_key,
        mint: "".to_string(),
        decimals: 6,
    })
    .unwrap_err();
    assert_eq!(response.message, "Missing mint address");
}

#[test]
fn test_mint_token_data_bytes() {
    let authority = generate_keypair().data.unwrap();
    let mint = generate_keypair().data.unwrap();
    let destination = generate_keypair().data.unwrap();
    let request = MintTokenRequest {
        mint: mint.public_key.clone(),
        destination: destination.public_key.clone(),
        authority: authority.public_key.clone(),
        amount: 1000000000,
    };
    let data = mint_token(&request).unwrap().data.unwrap();
    assert_eq!(decode_b64(&data.instruction_data), vec![7, 0, 202, 154, 59, 0, 0, 0, 0]);
    assert_eq!(data.accounts.len(), 3);
    assert_eq!(data.accounts[0].public_key, mint.public_key);
    assert_eq!(data.accounts[1].public_key, destination.public_key);
    assert_eq!(data.accounts[2].public_key, authority.public_key);
    assert!(data.accounts[2].is_signer);
    assert!(!data.accounts[2].is_writable);
}

#[test]
fn test_mint_token_missing_fields() {
    let valid = generate_keypair().data.unwrap();
    let (status, response) = mint_token(&MintTokenRequest {
        mint: "".to_string(),
        destination: valid.public_key.clone(),
        authority: valid.public_key.clone(),
        amount: 5,
    })
    .unwrap_err();
    assert_eq!(status, 400);
    assert_eq!(response.message, "Missing mint address");

    let (_, response) = mint_token(&MintTokenRequest {
        mint: valid.public_key.clone(),
        destination: "".to_string(),
        authority: valid.public_key.clone(),
        amount: 5,
    })
    .unwrap_err();
    assert_eq!(response.message, "Missing destination address");

    let (_, response) = mint_token(&MintTokenRequest {
        mint: valid.public_key.clone(),
        destination: valid.public_key.clone(),
        authority: "".to_string(),
        amount: 5,
    })
    .unwrap_err();
    assert_eq!(response.message, "Missing authority address");
}

#[test]
fn test_mint_token_zero_amount_message() {
    let valid = generate_keypair().data.unwrap();
    let (status, response) = mint_token(&MintTokenRequest {
        mint: valid.public_key.clone(),
        destination: valid.public_key.clone(),
        authority: valid.public_key.clone(),
        amount: 0,
    })
    .unwrap_err();
    assert_eq!(status, 400);
    assert_eq!(response.message, "amount must be greater than 0");
}

#[test]
fn test_token_transfer_uses_associated_accounts() {
    let owner = generate_keypair().data.unwrap();
    let destination = generate_keypair().data.unwrap();
    let mint = generate_keypair().data.unwrap();
    let request = SendTokenRequest {
        destination: destination.public_key.clone(),
        mint: mint.public_key.clone(),
        owner: owner.public_key.clone(),
        amount: 500000000,
    };
    let data = send_token(&request).unwrap().data.unwrap();

    let as_pk = |s: &str| {
        spl_token::solana_program::pubkey::Pubkey::new_from_array(
            <[u8; 32]>::try_from(decode_b58(s).as_slice()).unwrap(),
        )
    };
    let owner_pk = as_pk(&owner.public_key);
    let destination_pk = as_pk(&destination.public_key);
    let mint_pk = as_pk(&mint.public_key);
    let source_ata =
        spl_associated_token_account::get_associated_token_address(&owner_pk, &mint_pk);
    let dest_ata =
        spl_associated_token_account::get_associated_token_address(&destination_pk, &mint_pk);

    assert_eq!(data.accounts.len(), 3);
    assert_eq!(data.accounts[0].public_key, bs58::encode(source_ata.to_bytes()).into_string());
    assert_eq!(data.accounts[1].public_key, bs58::encode(dest_ata.to_bytes()).into_string());
    assert_eq!(data.accounts[2].public_key, owner.public_key);
    assert!(data.accounts[2].is_signer);

    assert_eq!(decode_b64(&data.instruction_data), vec![3, 0, 101, 205, 29, 0, 0, 0, 0]);
}

#[test]
fn test_send_token_missing_fields() {
    let valid = generate_keypair().data.unwrap();
    let (status, response) = send_token(&SendTokenRequest {
        destination: "".to_string(),
        mint: valid.public_key.clone(),
        owner: valid.public_key.clone(),
        amount: 5,
    })
    .unwrap_err();
    assert_eq!(status, 400);
    assert_eq!(response.message, "Missing destination address");

    let (_, response) = send_token(&SendTokenRequest {
        destination: valid.public_key.clone(),
        mint: valid.public_key.clone(),
        owner: "".to_string(),
        amount: 5,
    })
    .unwrap_err();
    assert_eq!(response.message, "Missing owner address");
}

#[test]
fn test_verify_rejects_short_signature() {
    let keypair = generate_keypair().data.unwrap();
    let short = base64::engine::general_purpose::STANDARD.encode([1u8; 10]);
    let (status, response) = verify_message(&VerifyMessageRequest {
        message: "hello".to_string(),
        signature: short,
        pubkey: keypair.public_key,
    })
    .unwrap_err();
    assert_eq!(status, 400);
    assert_eq!(response.message, "Invalid signature");
}

#[test]
fn test_verify_rejects_bad_pubkey() {
    let (status, response) = verify_message(&VerifyMessageRequest {
        message: "hello".to_string(),
        signature: base64::engine::general_purpose::STANDARD.encode([1u8; 64]),
        pubkey: "not-a-key".to_string(),
    })
    .unwrap_err();
    assert_eq!(status, 400);
    assert_eq!(
        response.message,
        "Invalid public key format: 'not-a-key'. Expected a base58 encoded string."
    );
}

#[test]
fn test_health_check_fields() {
    let response = health_check();
    assert!(response.success);
    assert_eq!(response.message, "Solana HTTP Server is running healthy");
    let data = response.data.unwrap();
    assert_eq!(data.status, "healthy");
    assert_eq!(data.version, "1.0.0");
    assert_eq!(data.uptime, "running");
}

#[test]
fn test_api_info_lists_endpoints() {
    let response = api_info();
    assert!(response.success);
    let data = response.data.unwrap();
    assert_eq!(data.name, "Solana HTTP Server");
    assert_eq!(data.endpoints.len(), 9);
    assert_eq!(data.endpoints[2].method, "POST");
    assert_eq!(data.endpoints[2].path, "/keypair");
    assert_eq!(data.endpoints[8].path, "/send/token");
}

#[test]
fn test_config_values() {
    let default = Config::default();
    assert_eq!(default.host, "127.0.0.1");
    assert_eq!(default.port, 3000);

    let custom = Config::new("0.0.0.0".to_string(), 8080);
    assert_eq!(custom.host, "0.0.0.0");
    assert_eq!(custom.port, 8080);
}
