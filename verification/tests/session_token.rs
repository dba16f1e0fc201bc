use base64::engine::general_purpose;
use base64::Engine;
use ed25519_dalek::{Signature, Signer, SigningKey, Verifier};
use myso_salt_service::json::JsonValue;
use myso_salt_service::security::session_token::{
    claims_at, claims_json, generate_refresh_token, hash_refresh_token, header_json, issue_access_token, jwks,
    key_set_of, refresh_token_of, seed_of_bytes, session_claims, sign_claims, signing_key, verify_access_token,
    SessionTokenError, ACCESS_TOKEN_EXPIRY_SECS,
};

fn first_key(set: &JsonValue) -> &JsonValue {
    match set.get("keys") {
        Some(JsonValue::Array(keys)) => &keys[0],
        other => panic!("{:?}", other),
    }
}

fn decoded_part(token: &str, part: usize) -> serde_json::Value {
    let text = token.split('.').nth(part).unwrap();
    let bytes = general_purpose::URL_SAFE_NO_PAD.decode(text).unwrap();
    serde_json::from_slice(&bytes).unwrap()
}

#[test]
fn issued_token_matches_published_jwk() {
    let seed = general_purpose::STANDARD.encode([7u8; 32]);
    let token = issue_access_token(
        "https://accounts.google.com:user",
        "0x1234",
        "google",
        "dripdrop",
        "https://salt.testnet.mysocial.network",
        &seed,
        "test-key",
    )
    .unwrap();
    let parts: Vec<_> = token.split('.').collect();
    assert_eq!(parts.len(), 3);
    let signature = general_purpose::URL_SAFE_NO_PAD.decode(parts[2]).unwrap();
    let signature = Signature::from_slice(&signature).unwrap();
    let key = SigningKey::from_bytes(&signing_key(&seed).unwrap()).verifying_key();
    key.verify(format!("{}.{}", parts[0], parts[1]).as_bytes(), &signature)
        .unwrap();
    let set = jwks(&seed, "test-key").unwrap();
    assert_eq!(first_key(&set).get_str("kid"), Some("test-key"));
}

#[test]
fn claims_and_header_are_what_was_asked_for() {
    let seed = general_purpose::STANDARD.encode([9u8; 40]);
    let before = chrono::Utc::now().timestamp();
    let token =
        issue_access_token("u\"\\\n", "0xABÉ", "google", "client", "iss", &seed, "k").unwrap();
    let after = chrono::Utc::now().timestamp();
    let header = decoded_part(&token, 0);
    assert_eq!(header["alg"], "EdDSA");
    assert_eq!(header["typ"], "JWT");
    assert_eq!(header["kid"], "k");
    assert_eq!(header.as_object().unwrap().len(), 3);
    let claims = decoded_part(&token, 1);
    assert_eq!(claims["iss"], "iss");
    assert_eq!(claims["aud"], "client");
    assert_eq!(claims["sub"], "u\"\\\n");
    assert_eq!(claims["wallet_address"], "0xabé");
    assert_eq!(claims["provider"], "google");
    assert_eq!(claims.as_object().unwrap().len(), 8);
    let iat = claims["iat"].as_i64().unwrap();
    assert!(before <= iat && iat <= after);
    assert_eq!(claims["exp"].as_i64().unwrap() - iat, ACCESS_TOKEN_EXPIRY_SECS);
    assert_eq!(ACCESS_TOKEN_EXPIRY_SECS, 1800);
    let jti = claims["jti"].as_str().unwrap();
    assert_eq!(jti.len(), 36);
    assert_eq!(uuid::Uuid::parse_str(jti).unwrap().get_version_num(), 4);
}

#[test]
fn token_ids_differ() {
    let seed = general_purpose::STANDARD.encode([9u8; 32]);
    let a = issue_access_token("u", "w", "p", "c", "i", &seed, "k").unwrap();
    let b = issue_access_token("u", "w", "p", "c", "i", &seed, "k").unwrap();
    assert_ne!(decoded_part(&a, 1)["jti"], decoded_part(&b, 1)["jti"]);
}

#[test]
fn signed_claims_have_the_exact_text() {
    let seed = [3u8; 32];
    let key = general_purpose::STANDARD.encode(seed);
    let claims = session_claims("user", "0xAA", "twitch", "client", "issuer", -5, "id".into());
    let token = sign_claims(&claims, &key, "kid\"").unwrap();
    let header = general_purpose::URL_SAFE_NO_PAD.encode(r#"{"alg":"EdDSA","typ":"JWT","kid":"kid\""}"#);
    let body = general_purpose::URL_SAFE_NO_PAD.encode(
        r#"{"iss":"issuer","aud":"client","sub":"user","wallet_address":"0xaa","provider":"twitch","iat":-5,"exp":1795,"jti":"id"}"#,
    );
    let input = format!("{}.{}", header, body);
    let signature = SigningKey::from_bytes(&seed).sign(input.as_bytes());
    let third = general_purpose::URL_SAFE_NO_PAD.encode(signature.to_bytes());
    assert_eq!(token, format!("{}.{}", input, third));
}

#[test]
fn the_published_key_is_the_public_key() {
    // First test vector of RFC 8032, section 7.1.
    let seed = hex::decode("9d61b19deffd5a60ba844af492ec2cc44449c5697b326919703bac031cae7f60").unwrap();
    let public = hex::decode("d75a980182b10ab7d54bfed3c964073a0ee172f3daa62325af021a68f707511a").unwrap();
    let set = jwks(&general_purpose::STANDARD.encode(&seed), "kid").unwrap();
    let key = first_key(&set);
    assert_eq!(key.get_str("kty"), Some("OKP"));
    assert_eq!(key.get_str("crv"), Some("Ed25519"));
    assert_eq!(key.get_str("use"), Some("sig"));
    assert_eq!(key.get_str("alg"), Some("EdDSA"));
    assert_eq!(
        key.get_str("x"),
        Some(general_purpose::URL_SAFE_NO_PAD.encode(public).as_str())
    );
}

#[test]
fn the_published_key_confirms_tokens() {
    let seed = general_purpose::STANDARD.encode([7u8; 32]);
    let other = general_purpose::STANDARD.encode([8u8; 32]);
    let token = issue_access_token("u", "w", "p", "c", "i", &seed, "k").unwrap();
    let set = jwks(&seed, "k").unwrap();
    let x = first_key(&set).get_str("x").unwrap();
    assert!(verify_access_token(&token, x));
    let set = jwks(&other, "k").unwrap();
    let wrong = first_key(&set).get_str("x").unwrap();
    assert!(!verify_access_token(&token, wrong));
    assert!(!verify_access_token(&token, "AAAA"));
    assert!(!verify_access_token(&token, "!"));
    let parts: Vec<&str> = token.split('.').collect();
    assert!(!verify_access_token(&format!("{}.{}", parts[0], parts[1]), x));
    assert!(!verify_access_token(&format!("{}.{}.AAAA", parts[0], parts[1]), x));
    assert!(!verify_access_token(&format!("{}x.{}.{}", parts[0], parts[1], parts[2]), x));
}

#[test]
fn bad_keys_are_refused() {
    let short = general_purpose::STANDARD.encode([1u8; 31]);
    assert_eq!(signing_key("%%").unwrap_err(), SessionTokenError::InvalidKey);
    assert_eq!(signing_key(&short).unwrap_err(), SessionTokenError::ShortKey);
    assert_eq!(jwks(&short, "k").unwrap_err(), SessionTokenError::ShortKey);
    assert_eq!(SessionTokenError::InvalidKey.message(), "Invalid JWT_SIGNING_KEY base64");
    assert_eq!(
        SessionTokenError::ShortKey.message(),
        "JWT_SIGNING_KEY must contain at least 32 bytes"
    );
    assert_eq!(
        issue_access_token("u", "w", "p", "c", "i", "%%", "k").unwrap_err(),
        SessionTokenError::InvalidKey
    );
    // Of a longer key the first 32 bytes count.
    let mut bytes = vec![5u8; 32];
    bytes.push(6);
    assert_eq!(
        signing_key(&general_purpose::STANDARD.encode(bytes)).unwrap(),
        [5u8; 32]
    );
}

#[test]
fn refresh_tokens_are_random_and_stored_by_their_hash() {
    let (a, hash) = generate_refresh_token().unwrap();
    let (b, _) = generate_refresh_token().unwrap();
    assert_ne!(a, b);
    assert_eq!(a.len(), 43);
    assert_eq!(general_purpose::URL_SAFE_NO_PAD.decode(&a).unwrap().len(), 32);
    assert_eq!(hash, hash_refresh_token(&a));
    assert_ne!(hash, a);
    assert_eq!(
        hash_refresh_token("abc"),
        "ba7816bf8f01cfea414140de5dae2223b00361a396177a9cb410ff61f20015ad"
    );
}

#[test]
fn parts_of_a_token_are_written_from_literals() {
    assert_eq!(header_json("\"k\""), r#"{"alg":"EdDSA","typ":"JWT","kid":"k"}"#);
    assert_eq!(
        claims_json("1", "2", "3", "4", "5", -6, 7, "8"),
        r#"{"iss":1,"aud":2,"sub":3,"wallet_address":4,"provider":5,"iat":-6,"exp":7,"jti":8}"#
    );
    let set = key_set_of("kid", "x");
    assert_eq!(first_key(&set).get_str("kid"), Some("kid"));
    assert_eq!(first_key(&set).get_str("x"), Some("x"));
}

#[test]
fn a_seed_is_the_first_32_bytes() {
    let bytes: Vec<u8> = (0..40).collect();
    assert_eq!(seed_of_bytes(&bytes).unwrap().to_vec(), bytes[..32].to_vec());
    assert_eq!(seed_of_bytes(&bytes[..31].to_vec()).unwrap_err(), SessionTokenError::ShortKey);
}

#[test]
fn tokens_are_stamped_in_seconds() {
    let claims = claims_at("u", "w", "p", "c", "i", 1_700_000_000_999_999, "id".into());
    assert_eq!(claims.iat, 1_700_000_000);
    assert_eq!(claims.exp, 1_700_001_800);
    assert_eq!(claims_at("u", "w", "p", "c", "i", 0, "id".into()).iat, 0);
}

#[test]
fn refresh_tokens_write_the_drawn_bytes() {
    let bytes: [u8; 32] = [0xFB; 32];
    let (token, hash) = refresh_token_of(&bytes);
    assert_eq!(token, general_purpose::URL_SAFE_NO_PAD.encode(bytes));
    assert_eq!(hash, hash_refresh_token(&token));
    assert_eq!(hash.len(), 64);
    assert!(hash.chars().all(|c| matches!(c, '0'..='9' | 'a'..='f')));
}
