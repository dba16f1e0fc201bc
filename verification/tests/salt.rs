use base64::engine::general_purpose;
use base64::Engine;
use myso_salt_service::config::{Config, Environment};
use myso_salt_service::handlers::get_salt::{
    get_salt, Requester, SaltFound, SaltGate, SaltLookup, SaltReply, SaltToken, TokenCheck,
};
use myso_salt_service::handlers::salt::salt_to_bigint_string;
use myso_salt_service::handlers::salt_test::{get_salt_test, read_payload, test_claims};
use myso_salt_service::handlers::{Failure, Metric, TokenIdentity};
use myso_salt_service::json::JsonValue;
use myso_salt_service::models::{ActionType, GetSaltRequest, JwtClaims, UserSalt};

fn config(issuer: Option<&str>) -> Config {
    let mut vars = vec![
        ("DATABASE_URL".to_string(), "postgres://x".to_string()),
        ("MASTER_SEED".to_string(), "m".to_string()),
        ("RATE_LIMIT".to_string(), "7".to_string()),
    ];
    if let Some(issuer) = issuer {
        vars.push(("MYSOCIAL_AUTH_ISSUER".to_string(), issuer.to_string()));
    }
    Config::from_env(&Environment { vars }, None).unwrap()
}

fn requester() -> Requester {
    Requester { ip_address: "1.2.3.4".into(), user_agent: Some("agent".into()) }
}

fn jwt_request() -> GetSaltRequest {
    GetSaltRequest::Jwt { jwt: "token".into() }
}

fn provider_request(provider: &str) -> GetSaltRequest {
    GetSaltRequest::Provider { provider: provider.into(), token: "token".into() }
}

fn claims(iss: &str, sub: &str) -> JwtClaims {
    JwtClaims {
        iss: iss.into(),
        aud: "aud".into(),
        sub: sub.into(),
        exp: 2,
        iat: 1,
        nonce: None,
        email: None,
        email_verified: None,
        name: None,
        picture: None,
        given_name: None,
        family_name: None,
    }
}

fn identity(iss: &str) -> TokenIdentity {
    TokenIdentity { claims: claims(iss, "sub"), user_identifier: "derived".into() }
}

fn stored(created_at: i64, updated_at: i64) -> UserSalt {
    UserSalt {
        id: 1,
        user_identifier: "derived".into(),
        iss: "iss".into(),
        aud: "aud".into(),
        sub: "sub".into(),
        encrypted_salt: vec![9],
        encryption_version: 1,
        created_at,
        updated_at,
    }
}

fn gate(request: GetSaltRequest) -> SaltGate {
    let (counted, gate) = get_salt(request, requester());
    assert_eq!(counted, Metric::Requests);
    gate
}

fn token(request: GetSaltRequest) -> SaltToken {
    gate(request).on_rate_limit(Ok(true)).unwrap()
}

fn lookup(issuer: Option<&str>) -> SaltLookup {
    token(jwt_request())
        .on_check(Ok(identity("iss")), "hash".into(), &config(issuer))
        .unwrap()
}

fn refusal(reply: &SaltReply) -> (u16, &str) {
    let refused = reply.result.as_ref().unwrap_err();
    (refused.status, refused.message.as_str())
}

#[test]
fn salts_are_decimal_numbers() {
    let mut salt = [0u8; 16];
    salt[15] = 1;
    assert_eq!(salt_to_bigint_string(&salt), "1");
    salt[14] = 1;
    assert_eq!(salt_to_bigint_string(&salt), "257");
    assert_eq!(
        salt_to_bigint_string(&[255u8; 16]),
        "340282366920938463463374607431768211455"
    );
    assert_eq!(salt_to_bigint_string(&[0u8; 16]), "0");
    let mut legacy = [7u8; 32];
    legacy[..16].copy_from_slice(&salt);
    assert_eq!(salt_to_bigint_string(&legacy), "257");
}

#[test]
fn the_rate_limiter_comes_first() {
    let query = gate(jwt_request()).rate_query(&config(None));
    assert_eq!(query.identifier, "1.2.3.4");
    assert_eq!((query.window_minutes, query.max_requests), (1, 7));
    let reply = gate(jwt_request()).on_rate_limit(Err(Failure)).unwrap_err();
    assert_eq!(refusal(&reply), (500, "Internal error"));
    assert_eq!(reply.metrics, vec![Metric::Failed]);
    let reply = gate(jwt_request()).on_rate_limit(Ok(false)).unwrap_err();
    assert_eq!(refusal(&reply), (429, "Rate limit exceeded"));
    assert_eq!(reply.metrics, vec![Metric::RateLimit, Metric::Failed]);
    assert!(reply.audit.is_none());
}

#[test]
fn the_request_format_decides_on_the_check() {
    assert_eq!(token(jwt_request()).check, TokenCheck::Jwt);
    assert_eq!(token(provider_request("MySocial")).check, TokenCheck::MySocialJwt);
    assert_eq!(token(provider_request("Facebook")).check, TokenCheck::AccessToken);
    assert_eq!(token(provider_request("Facebook")).provider(), "Facebook");
    let reply = gate(provider_request("APPLE")).on_rate_limit(Ok(true)).unwrap_err();
    assert_eq!(
        refusal(&reply),
        (
            400,
            "Apple authentication requires JWT format. Use { \"jwt\": \"...\" } instead of { \"provider\": \"apple\", \"token\": \"...\" }"
        )
    );
    assert!(reply.metrics.is_empty() && reply.audit.is_none());
}

#[test]
fn tokens_that_are_not_valid_are_logged() {
    let cases = [
        (jwt_request(), "bad", "Invalid JWT"),
        (
            provider_request("mysocial"),
            "MySocial: bad",
            "Invalid MySocial JWT. Ensure you are sending id_token (JWT), not access_token.",
        ),
        (
            provider_request("Twitch"),
            "Provider Twitch: bad",
            "Invalid token for provider Twitch",
        ),
    ];
    for (request, logged, said) in cases {
        let reply = token(request)
            .on_check(Err("bad".into()), "hash".into(), &config(None))
            .unwrap_err();
        assert_eq!(refusal(&reply), (401, said));
        assert_eq!(reply.metrics, vec![Metric::JwtFailed, Metric::Failed]);
        let audit = reply.audit.unwrap();
        assert_eq!(audit.user_identifier, "unknown");
        assert_eq!(audit.action, ActionType::Error);
        assert_eq!(audit.ip_address.as_deref(), Some("1.2.3.4"));
        assert_eq!(audit.user_agent.as_deref(), Some("agent"));
        assert_eq!(audit.jwt_hash.as_deref(), Some("hash"));
        assert!(!audit.success);
        assert_eq!(audit.error_message.as_deref(), Some(logged));
    }
}

#[test]
fn a_stored_salt_is_handed_out() {
    let found = lookup(None);
    assert!(!found.is_mysocial);
    assert_eq!(found.user_identifier, "derived");
    let existing = match found.on_lookup(Ok(Some(stored(1, 1)))).unwrap() {
        SaltFound::Existing(existing) => existing,
        other => panic!("{:?}", other),
    };
    assert_eq!(existing.stored.encrypted_salt, vec![9]);
    let reply = existing.on_decryption(Ok(vec![0; 16]));
    assert_eq!(reply.result.unwrap().salt, "0");
    assert_eq!(reply.metrics, vec![Metric::SaltRetrieved, Metric::Success]);
    let audit = reply.audit.unwrap();
    assert_eq!(audit.user_identifier, "derived");
    assert_eq!(audit.action, ActionType::Read);
    assert!(audit.success && audit.error_message.is_none());
    assert_eq!(audit.jwt_hash.as_deref(), Some("hash"));
}

#[test]
fn a_missing_salt_is_made() {
    for (updated_at, action, counted) in [
        (5, ActionType::Create, Metric::SaltCreated),
        (6, ActionType::Read, Metric::SaltRetrieved),
    ] {
        let missing = match lookup(None).on_lookup(Ok(None)).unwrap() {
            SaltFound::Missing(missing) => missing,
            other => panic!("{:?}", other),
        };
        let encrypted = missing
            .on_generation(Ok(vec![1; 16]))
            .unwrap()
            .on_encryption(Ok(vec![8, 8]))
            .unwrap();
        let row = encrypted.row();
        assert_eq!((row.user_identifier.as_str(), row.iss.as_str()), ("derived", "iss"));
        assert_eq!((row.aud.as_str(), row.sub.as_str()), ("aud", "sub"));
        assert_eq!((row.encrypted_salt, row.encryption_version), (vec![8, 8], 1));
        let reply = encrypted
            .on_storing(Ok(stored(5, updated_at)))
            .unwrap()
            .on_decryption(Ok(vec![1; 16]));
        assert_eq!(reply.result.unwrap().salt, u128::from_be_bytes([1; 16]).to_string());
        assert_eq!(reply.metrics, vec![counted, Metric::Success]);
        assert_eq!(reply.audit.unwrap().action, action);
    }
}

#[test]
fn a_user_keeps_the_salt() {
    let missing = match lookup(None).on_lookup(Ok(None)).unwrap() {
        SaltFound::Missing(missing) => missing,
        other => panic!("{:?}", other),
    };
    let salt = vec![3u8; 16];
    let first = missing
        .on_generation(Ok(salt.clone()))
        .unwrap()
        .on_encryption(Ok(vec![9]))
        .unwrap()
        .on_storing(Ok(stored(5, 5)))
        .unwrap()
        .on_decryption(Ok(salt.clone()));
    let second = match lookup(None).on_lookup(Ok(Some(stored(5, 5)))).unwrap() {
        SaltFound::Existing(existing) => existing.on_decryption(Ok(salt)),
        other => panic!("{:?}", other),
    };
    assert_eq!(first.result.unwrap().salt, second.result.unwrap().salt);
}

#[test]
fn a_stored_salt_has_to_be_the_one_that_was_made() {
    let missing = match lookup(None).on_lookup(Ok(None)).unwrap() {
        SaltFound::Missing(missing) => missing,
        other => panic!("{:?}", other),
    };
    let reply = missing
        .on_generation(Ok(vec![1; 16]))
        .unwrap()
        .on_encryption(Ok(vec![]))
        .unwrap()
        .on_storing(Ok(stored(5, 5)))
        .unwrap()
        .on_decryption(Ok(vec![2; 16]));
    assert_eq!(refusal(&reply), (500, "Salt consistency check failed"));
    assert_eq!(reply.metrics, vec![Metric::Failed]);
    assert!(reply.audit.is_none());
}

#[test]
fn outside_failures_are_answered_one_by_one() {
    let missing = || match lookup(None).on_lookup(Ok(None)).unwrap() {
        SaltFound::Missing(missing) => missing,
        other => panic!("{:?}", other),
    };
    let reply = lookup(None).on_lookup(Err(Failure)).unwrap_err();
    assert_eq!(refusal(&reply), (500, "Database error"));
    let reply = missing().on_generation(Err(Failure)).unwrap_err();
    assert_eq!(refusal(&reply), (500, "Generation error"));
    let generated = missing().on_generation(Ok(vec![1; 16])).unwrap();
    let reply = generated.on_encryption(Err(Failure)).unwrap_err();
    assert_eq!(refusal(&reply), (500, "Encryption error"));
    let encrypted = missing()
        .on_generation(Ok(vec![1; 16]))
        .unwrap()
        .on_encryption(Ok(vec![]))
        .unwrap();
    let reply = encrypted.on_storing(Err(Failure)).unwrap_err();
    assert_eq!(refusal(&reply), (500, "Storage error"));
    let reply = missing()
        .on_generation(Ok(vec![1; 16]))
        .unwrap()
        .on_encryption(Ok(vec![]))
        .unwrap()
        .on_storing(Ok(stored(1, 1)))
        .unwrap()
        .on_decryption(Err(Failure));
    assert_eq!(refusal(&reply), (500, "Decryption error"));
    match lookup(None).on_lookup(Ok(Some(stored(1, 1)))).unwrap() {
        SaltFound::Existing(existing) => {
            let reply = existing.on_decryption(Err(Failure));
            assert_eq!(refusal(&reply), (500, "Decryption error"));
            assert_eq!(reply.metrics, vec![Metric::Failed]);
        }
        other => panic!("{:?}", other),
    }
}

#[test]
fn mysocial_users_need_a_stored_salt() {
    let found = lookup(Some("iss"));
    assert!(found.is_mysocial);
    assert_eq!(found.user_identifier, "sub");
    let reply = found.on_lookup(Ok(None)).unwrap_err();
    assert_eq!(
        refusal(&reply),
        (
            404,
            "No salt found for this user. Please authenticate via OAuth (Google, Apple, etc.) first."
        )
    );
    assert_eq!(reply.metrics, vec![Metric::Failed]);
    match lookup(Some("iss")).on_lookup(Ok(Some(stored(1, 2)))).unwrap() {
        SaltFound::Existing(existing) => {
            let reply = existing.on_decryption(Ok(vec![0; 32]));
            assert_eq!(reply.audit.unwrap().user_identifier, "sub");
            assert_eq!(reply.metrics, vec![Metric::SaltRetrieved, Metric::Success]);
        }
        other => panic!("{:?}", other),
    }
    assert!(!lookup(Some("other")).is_mysocial);
}

fn test_token(payload: &str) -> GetSaltRequest {
    let body = general_purpose::URL_SAFE_NO_PAD.encode(payload);
    GetSaltRequest::Jwt { jwt: format!("h.{}.s", body) }
}

#[test]
fn the_test_endpoint_takes_unchecked_claims() {
    let payload = r#"{"iss":"i","aud":"a","sub":"s","exp":5,"iat":4,"nonce":"n","email":"e","email_verified":true,"name":"N","picture":"P","given_name":"G","family_name":"F"}"#;
    let (counted, result) = get_salt_test(test_token(payload), None);
    assert_eq!(counted, Some(Metric::Requests));
    let claims = result.unwrap().claims;
    assert_eq!((claims.iss.as_str(), claims.aud.as_str(), claims.sub.as_str()), ("i", "a", "s"));
    assert_eq!((claims.exp, claims.iat), (5, 4));
    assert_eq!(claims.nonce, None);
    assert_eq!(claims.email.as_deref(), Some("e"));
    assert_eq!(claims.email_verified, Some(true));
    assert_eq!(claims.name.as_deref(), Some("N"));
    assert_eq!(claims.picture.as_deref(), Some("P"));
    assert_eq!(claims.given_name.as_deref(), Some("G"));
    assert_eq!(claims.family_name.as_deref(), Some("F"));
}

#[test]
fn the_test_endpoint_has_defaults() {
    let (_, result) = get_salt_test(test_token(r#"{"sub":1,"exp":"x","aud":["a"]}"#), Some("dev"));
    let claims = result.unwrap().claims;
    assert_eq!(claims.iss, "https://test.example.com");
    assert_eq!(claims.aud, "test-client-id");
    assert_eq!(claims.sub, "test-user-id");
    assert_eq!((claims.exp, claims.iat), (1999999999, 1516239022));
    assert_eq!(claims.email, None);
    assert_eq!(test_claims(&JsonValue::Null).sub, "test-user-id");
}

#[test]
fn the_test_endpoint_refuses() {
    let refused = |request: GetSaltRequest, environment: Option<&str>| {
        let (counted, result) = get_salt_test(request, environment);
        let e = result.unwrap_err();
        (counted, e.status, e.message)
    };
    assert_eq!(
        refused(jwt_request(), Some("production")),
        (None, 404, "Not found".to_string())
    );
    let counted = Some(Metric::Requests);
    assert_eq!(
        refused(provider_request("google"), None),
        (counted, 400, "Test endpoint only accepts JWT format".to_string())
    );
    assert_eq!(
        refused(jwt_request(), None),
        (counted, 400, "Invalid JWT format".to_string())
    );
    let jwt = |text: &str| GetSaltRequest::Jwt { jwt: text.into() };
    assert_eq!(
        refused(jwt("a.%.c"), None),
        (counted, 400, "Invalid base64 in JWT".to_string())
    );
    assert_eq!(
        refused(jwt("a.AAAA.c"), None),
        (counted, 400, "Invalid JSON in JWT payload".to_string())
    );
    assert_eq!(read_payload("a..b.c").unwrap_err().message, "Invalid JWT format");
}

#[test]
fn the_test_endpoint_hands_out_salts() {
    let next = || get_salt_test(test_token("{}"), None).1.unwrap();
    let (counted, reply) = next().on_generation(Ok(vec![0; 16])).unwrap();
    assert_eq!(counted, Metric::Success);
    assert_eq!(reply.salt, "0");
    let refused = next().on_generation(Err(Failure)).unwrap_err();
    assert_eq!((refused.status, refused.message.as_str()), (500, "Generation error"));
}
