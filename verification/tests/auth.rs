use base64::engine::general_purpose;
use base64::Engine;
use myso_salt_service::config::{AllowedClient, Config, Environment};
use myso_salt_service::db::{
    check_rate_limit, revoke_refresh_session, rotate_refresh_session, SessionWrite,
    REFRESH_SESSION_MICROS,
};
use myso_salt_service::handlers::provider::{
    auth_provider_callback, get_oauth_client_id_for_provider, provider_of_user, resolve_provider,
    CallbackCheck, CallbackExchange, CallbackFound, CallbackSalted, CallbackToken,
};
use myso_salt_service::handlers::session::{
    auth_logout, auth_refresh, open_session, refresh_response, session_jwks, session_row,
    RefreshNext, RefreshReply, RefreshReuse,
};
use myso_salt_service::handlers::status::{health_check, healthy, salt_check};
use myso_salt_service::handlers::wallet::{auth_wallet_callback, WalletSignature};
use myso_salt_service::handlers::{Failure, Metric, Refusal, TokenIdentity};
use myso_salt_service::json::JsonValue;
use myso_salt_service::models::{
    ActionType, AuthCallbackRequest, AuthExchangeResponse, JwtClaims, LogoutRequest,
    RefreshRequest, RefreshSession, UserSalt, WalletAuthRequest,
};
use myso_salt_service::security::session_token::{hash_refresh_token, verify_access_token};

fn config() -> Config {
    let key = general_purpose::STANDARD.encode([1u8; 32]);
    let vars = [
        ("DATABASE_URL", "postgres://x"),
        ("MASTER_SEED", "m"),
        ("RATE_LIMIT", "7"),
        ("ALLOWED_AUDIENCE_GOOGLE", "g-id"),
        ("ALLOWED_AUDIENCE_APPLE", "a-id"),
        ("ALLOWED_AUDIENCE_FACEBOOK", "f-id"),
        ("TWITCH_CLIENT_ID", "t-id"),
        ("JWT_SIGNING_KEY", key.as_str()),
        ("JWT_ISSUER", "issuer"),
        ("JWT_KEY_ID", "kid"),
        ("AUTH_CALLBACK_URL", "https://auth/cb"),
    ];
    let env = Environment {
        vars: vars.iter().map(|(k, v)| (k.to_string(), v.to_string())).collect(),
    };
    let mut c = Config::from_env(&env, None).unwrap();
    c.allowed_clients = vec![AllowedClient {
        client_id: "app".into(),
        redirect_uri: "https://app/cb".into(),
    }];
    c
}

fn request(provider: Option<&str>) -> AuthCallbackRequest {
    AuthCallbackRequest {
        client_id: "app".into(),
        code: "code".into(),
        provider: provider.map(str::to_string),
        state: None,
        nonce: Some("n1".into()),
        code_challenge: None,
        redirect_uri: None,
        code_verifier: Some("v".into()),
    }
}

fn tokens(id: Option<&str>, access: Option<&str>, user: Option<JsonValue>) -> AuthExchangeResponse {
    AuthExchangeResponse {
        access_token: access.map(str::to_string),
        id_token: id.map(str::to_string),
        refresh_token: None,
        expires_in: None,
        user,
    }
}

fn identity(nonce: Option<&str>) -> TokenIdentity {
    TokenIdentity {
        claims: JwtClaims {
            iss: "iss".into(),
            aud: "aud".into(),
            sub: "sub".into(),
            exp: 2,
            iat: 1,
            nonce: nonce.map(str::to_string),
            email: Some("e@x".into()),
            email_verified: None,
            name: None,
            picture: None,
            given_name: None,
            family_name: None,
        },
        user_identifier: "iss:sub".into(),
    }
}

fn stored() -> UserSalt {
    UserSalt {
        id: 1,
        user_identifier: "iss:sub".into(),
        iss: "iss".into(),
        aud: "aud".into(),
        sub: "sub".into(),
        encrypted_salt: vec![4],
        encryption_version: 1,
        created_at: 0,
        updated_at: 0,
    }
}

fn exchange(provider: Option<&str>) -> CallbackExchange {
    auth_provider_callback(request(provider), "1.2.3.4".into())
        .on_rate_limit(Ok(true), &config())
        .unwrap()
}

fn checked_token(provider: &str) -> CallbackToken {
    exchange(Some(provider)).on_exchange(Ok(tokens(Some("id"), Some("acc"), None))).unwrap()
}

fn salted() -> CallbackSalted {
    let lookup = checked_token("google").on_check(Ok(identity(Some("n1"))), "h".into()).unwrap();
    match lookup.on_lookup(Ok(Some(stored()))).unwrap() {
        CallbackFound::Existing(next) => next.on_decryption(Ok(vec![0; 16])).unwrap().1,
        other => panic!("{:?}", other),
    }
}

fn parts(e: Refusal) -> (u16, String) {
    (e.status, e.message)
}

fn said(status: u16, message: &str) -> (u16, String) {
    (status, message.to_string())
}

fn object(members: &[(&str, &str)]) -> JsonValue {
    JsonValue::Object(
        members
            .iter()
            .map(|(k, v)| (k.to_string(), JsonValue::Text(v.to_string())))
            .collect(),
    )
}

fn published_x(config: &Config) -> String {
    match session_jwks(config).unwrap().get("keys") {
        Some(JsonValue::Array(keys)) => keys[0].get_str("x").unwrap().to_string(),
        other => panic!("{:?}", other),
    }
}

#[test]
fn providers_are_named_or_inferred() {
    let c = config();
    assert_eq!(resolve_provider(&request(Some(" GOOGLE ")), &c), Ok("google".into()));
    assert_eq!(resolve_provider(&request(Some("Other")), &c), Ok("other".into()));
    for (client, provider) in [("g-id", "google"), ("a-id", "apple"), (" f-id ", "facebook")] {
        let mut r = request(Some("  "));
        r.client_id = client.into();
        assert_eq!(resolve_provider(&r, &c), Ok(provider.to_string()));
    }
    let mut with_twitch = config();
    with_twitch.allowed_audience_twitch = Some("tw".into());
    let mut r = request(None);
    r.client_id = "tw".into();
    assert_eq!(resolve_provider(&r, &with_twitch), Ok("twitch".into()));
    assert_eq!(
        resolve_provider(&request(None), &c),
        Err("Could not determine provider. Set provider in request or use client_id that matches an ALLOWED_AUDIENCE_* value.".into())
    );
}

#[test]
fn oauth_client_ids_come_from_the_configuration() {
    let mut c = config();
    let id = |name: &str, c: &Config| get_oauth_client_id_for_provider(name, "ignored", c);
    assert_eq!(id("Google", &c), Ok("g-id".into()));
    assert_eq!(id("apple", &c), Ok("a-id".into()));
    assert_eq!(id("facebook", &c), Ok("f-id".into()));
    assert_eq!(id("twitch", &c), Ok("t-id".into()));
    assert_eq!(id("Nope", &c), Err("Unknown provider: Nope".into()));
    c.allowed_audience_google = None;
    c.allowed_audience_apple = None;
    c.allowed_audience_facebook = None;
    c.twitch_client_id = None;
    assert_eq!(id("google", &c), Err("ALLOWED_AUDIENCE_GOOGLE not configured".into()));
    assert_eq!(id("apple", &c), Err("ALLOWED_AUDIENCE_APPLE not configured".into()));
    assert_eq!(
        id("facebook", &c),
        Err("ALLOWED_AUDIENCE_FACEBOOK or FACEBOOK_APP_ID not configured".into())
    );
    assert_eq!(
        id("twitch", &c),
        Err("ALLOWED_AUDIENCE_TWITCH or TWITCH_CLIENT_ID not configured".into())
    );
    c.facebook_app_id = Some("app-id".into());
    assert_eq!(id("facebook", &c), Ok("app-id".into()));
}

#[test]
fn callbacks_pass_a_gate() {
    let gate = || auth_provider_callback(request(Some("google")), "1.2.3.4".into());
    let query = gate().rate_query(&config());
    assert_eq!((query.identifier.as_str(), query.window_minutes, query.max_requests), ("1.2.3.4", 1, 7));
    let e = gate().on_rate_limit(Err(Failure), &config()).unwrap_err();
    assert_eq!(e.counted, None);
    assert_eq!(parts(e.refusal), said(500, "Internal error"));
    let e = gate().on_rate_limit(Ok(false), &config()).unwrap_err();
    assert_eq!(e.counted, Some(Metric::RateLimit));
    assert_eq!(parts(e.refusal), said(429, "Rate limit exceeded"));
    let mut unknown = request(Some("google"));
    unknown.client_id = "nobody".into();
    let e = auth_provider_callback(unknown, "ip".into())
        .on_rate_limit(Ok(true), &config())
        .unwrap_err();
    assert_eq!(parts(e.refusal), said(400, "Unknown client"));
    let e = auth_provider_callback(request(None), "ip".into())
        .on_rate_limit(Ok(true), &config())
        .unwrap_err();
    assert_eq!(e.refusal.status, 400);
    let e = auth_provider_callback(request(Some("myspace")), "ip".into())
        .on_rate_limit(Ok(true), &config())
        .unwrap_err();
    assert_eq!(parts(e.refusal), said(400, "Unknown provider: myspace"));
}

#[test]
fn codes_are_exchanged_with_resolved_parameters() {
    let next = exchange(Some("google"));
    assert_eq!(next.exchange.provider, "google");
    assert_eq!(next.exchange.oauth_client_id, "g-id");
    assert_eq!(next.exchange.redirect_uri, "https://app/cb");
    let mut wrong = request(Some("google"));
    wrong.redirect_uri = Some("https://other/cb".into());
    let e = auth_provider_callback(wrong, "ip".into())
        .on_rate_limit(Ok(true), &config())
        .unwrap_err();
    assert_eq!(e.refusal.status, 400);
    assert!(e.refusal.message.starts_with("redirect_uri mismatch:"));
    let mut bare = config();
    bare.auth_callback_url = None;
    bare.allowed_clients[0].redirect_uri = String::new();
    let e = auth_provider_callback(request(Some("google")), "ip".into())
        .on_rate_limit(Ok(true), &bare)
        .unwrap_err();
    assert_eq!(
        parts(e.refusal),
        said(500, "AUTH_CALLBACK_URL not configured and client has no redirect_uri")
    );
}

#[test]
fn exchanged_tokens_decide_on_the_check() {
    let e = exchange(Some("google")).on_exchange(Err("boom".into())).unwrap_err();
    assert_eq!(parts(e), said(502, "Auth exchange failed: boom"));
    let e = exchange(Some("google")).on_exchange(Ok(tokens(None, None, None))).unwrap_err();
    assert_eq!(parts(e), said(502, "Auth response missing id_token and access_token"));
    let next = checked_token("google");
    assert!(matches!(next.check, CallbackCheck::IdToken));
    assert_eq!(next.token(), "id");
    let user = Some(object(&[("provider", "https://www.facebook.com")]));
    let next = exchange(Some("facebook")).on_exchange(Ok(tokens(None, Some("acc"), user))).unwrap();
    assert!(matches!(&next.check, CallbackCheck::AccessToken { provider } if provider == "facebook"));
    assert_eq!(next.token(), "acc");
    let user = Some(object(&[("iss", "Google")]));
    let e = exchange(Some("google")).on_exchange(Ok(tokens(None, Some("acc"), user))).unwrap_err();
    assert_eq!(parts(e), said(400, "id_token required for Google/Apple"));
}

#[test]
fn the_user_object_names_the_provider() {
    assert_eq!(provider_of_user(&None), "unknown");
    assert_eq!(provider_of_user(&Some(JsonValue::Null)), "unknown");
    assert_eq!(provider_of_user(&Some(object(&[("iss", "id.twitch.tv")]))), "twitch");
    assert_eq!(provider_of_user(&Some(object(&[("provider", "x"), ("iss", "twitch")]))), "x");
    let number = JsonValue::Object(vec![
        ("provider".into(), JsonValue::Number("1".into())),
        ("iss".into(), JsonValue::Text("twitch".into())),
    ]);
    assert_eq!(provider_of_user(&Some(number)), "unknown");
}

#[test]
fn tokens_of_a_callback_are_refused() {
    let e = checked_token("google").on_check(Err("old".into()), "h".into()).unwrap_err();
    assert_eq!(parts(e), said(401, "Invalid JWT: old"));
    let user = Some(object(&[("provider", "twitch")]));
    let next = exchange(Some("twitch")).on_exchange(Ok(tokens(None, Some("acc"), user))).unwrap();
    let e = next.on_check(Err("old".into()), "h".into()).unwrap_err();
    assert_eq!(parts(e), said(401, "Invalid token for provider twitch: old"));
}

#[test]
fn google_and_apple_need_the_nonce() {
    for provider in ["google", "apple"] {
        let e = checked_token(provider).on_check(Ok(identity(Some("n2"))), "h".into()).unwrap_err();
        assert_eq!(parts(e), said(401, "Invalid nonce"));
        let e = checked_token(provider).on_check(Ok(identity(None)), "h".into()).unwrap_err();
        assert_eq!(parts(e), said(401, "Invalid nonce"));
        for nonce in [None, Some("  ".to_string())] {
            let mut token = checked_token(provider);
            token.request.nonce = nonce;
            let e = token.on_check(Ok(identity(Some("  "))), "h".into()).unwrap_err();
            assert_eq!(parts(e), said(400, "nonce is required"));
        }
        checked_token(provider).on_check(Ok(identity(Some("n1"))), "h".into()).unwrap();
    }
    checked_token("facebook").on_check(Ok(identity(None)), "h".into()).unwrap();
}

#[test]
fn a_callback_gets_or_makes_a_salt() {
    let lookup = || checked_token("google").on_check(Ok(identity(Some("n1"))), "h".into()).unwrap();
    let e = lookup().on_lookup(Err("down".into())).unwrap_err();
    assert_eq!(parts(e), said(500, "Database error: down"));
    let missing = || match lookup().on_lookup(Ok(None)).unwrap() {
        CallbackFound::Missing(missing) => missing,
        other => panic!("{:?}", other),
    };
    let e = missing().on_generation(Err(Failure)).unwrap_err();
    assert_eq!(parts(e), said(500, "Salt generation error"));
    let e = missing().on_generation(Ok(vec![1; 16])).unwrap().on_encryption(Err(Failure)).unwrap_err();
    assert_eq!(parts(e), said(500, "Encryption error"));
    let encrypted = || {
        missing().on_generation(Ok(vec![1; 16])).unwrap().on_encryption(Ok(vec![2])).unwrap()
    };
    let row = encrypted().row();
    assert_eq!((row.user_identifier.as_str(), row.iss.as_str()), ("iss:sub", "iss"));
    assert_eq!((row.aud.as_str(), row.sub.as_str()), ("aud", "sub"));
    assert_eq!((row.encrypted_salt, row.encryption_version), (vec![2], 1));
    let e = encrypted().on_storing(Err(Failure)).unwrap_err();
    assert_eq!(parts(e), said(500, "Storage error"));
    let e = encrypted().on_storing(Ok(stored())).unwrap().on_decryption(Err(Failure)).unwrap_err();
    assert_eq!(parts(e), said(500, "Decryption error"));
    let (audit, next) =
        encrypted().on_storing(Ok(stored())).unwrap().on_decryption(Ok(vec![0; 32])).unwrap();
    assert_eq!(next.salt, "0");
    assert_eq!(audit.user_identifier, "iss:sub");
    assert_eq!(audit.action, ActionType::Read);
    assert_eq!(audit.ip_address.as_deref(), Some("1.2.3.4"));
    assert_eq!(audit.user_agent, None);
    assert_eq!(audit.jwt_hash.as_deref(), Some("h"));
    assert!(audit.success && audit.error_message.is_none());
}

#[test]
fn a_callback_returns_a_session() {
    let c = config();
    let next = salted().on_address(Ok("0xAB".into()), &c).unwrap();
    assert_eq!(next.session.row.user_identifier, "iss:sub");
    assert_eq!(next.session.row.wallet_address, "0xAB");
    assert_eq!(next.session.row.provider, "google");
    assert_eq!(next.session.row.client_id, "app");
    assert_eq!(
        next.session.row.refresh_token_hash,
        hash_refresh_token(&next.session.refresh_token)
    );
    let e = salted().on_address(Ok("0xAB".into()), &c).unwrap().on_storing(Err(Failure)).unwrap_err();
    assert_eq!(parts(e), said(500, "Session storage failed"));
    let reply = next.on_storing(Ok(())).unwrap();
    assert_eq!(reply.code, "id");
    assert_eq!(reply.salt, "0");
    assert_eq!(reply.id_token.as_deref(), Some("id"));
    assert_eq!(reply.access_token.as_deref(), Some("acc"));
    assert_eq!(reply.expires_in, Some(1800));
    let user = reply.user.unwrap();
    assert_eq!(user.get_str("address"), Some("0xAB"));
    assert_eq!(user.get_str("sub"), Some("sub"));
    assert_eq!(user.get_str("email"), Some("e@x"));
    assert!(verify_access_token(&reply.session_access_token.unwrap(), &published_x(&c)));
    assert_eq!(reply.refresh_token.unwrap().len(), 43);
}

#[test]
fn a_callback_without_an_email_names_none() {
    let mut without = identity(Some("n1"));
    without.claims.email = None;
    let lookup = checked_token("google").on_check(Ok(without), "h".into()).unwrap();
    let next = match lookup.on_lookup(Ok(Some(stored()))).unwrap() {
        CallbackFound::Existing(next) => next.on_decryption(Ok(vec![0; 16])).unwrap().1,
        other => panic!("{:?}", other),
    };
    let reply = next.on_address(Ok("0x1".into()), &config()).unwrap().on_storing(Ok(())).unwrap();
    assert!(reply.user.unwrap().get("email").is_none());
}

#[test]
fn sessions_need_a_signing_key() {
    let e = salted().on_address(Err(Failure), &config()).unwrap_err();
    assert_eq!(parts(e), said(500, "Wallet derivation failed"));
    let mut c = config();
    c.jwt_issuer = None;
    let e = salted().on_address(Ok("0x1".into()), &c).unwrap_err();
    assert_eq!(parts(e), said(503, "MySocial session signing is not configured"));
    c.jwt_issuer = Some("i".into());
    c.jwt_signing_key = None;
    let e = open_session("u", "w", "p", "c", &c).unwrap_err();
    assert_eq!(parts(e), said(503, "MySocial session signing is not configured"));
    c.jwt_signing_key = Some("%".into());
    let e = open_session("u", "w", "p", "c", &c).unwrap_err();
    assert_eq!(parts(e), said(500, "Token issuance failed"));
}

#[test]
fn sessions_expire_after_thirty_days() {
    let row = session_row("u", "w", "p", "c", "abc", 5);
    assert_eq!(row.expires_at, 5 + 30 * 24 * 60 * 60 * 1_000_000);
    assert_eq!(REFRESH_SESSION_MICROS, 30 * 24 * 60 * 60 * 1_000_000);
    assert_eq!(row.refresh_token_hash, hash_refresh_token("abc"));
    let before = chrono::Utc::now().timestamp_micros();
    let opened = open_session("u", "w", "p", "c", &config()).unwrap();
    let after = chrono::Utc::now().timestamp_micros();
    let opened_at = opened.row.expires_at - REFRESH_SESSION_MICROS;
    assert!(before <= opened_at && opened_at <= after);
}

fn wallet_request() -> WalletAuthRequest {
    WalletAuthRequest {
        address: "0xCD".into(),
        message: "m".into(),
        signature: "s".into(),
        client_id: "app".into(),
        redirect_uri: None,
        state: None,
        nonce: None,
        request_id: None,
    }
}

fn wallet_signature() -> WalletSignature {
    auth_wallet_callback(wallet_request(), "1.2.3.4".into())
        .on_rate_limit(Ok(true), &config())
        .unwrap()
}

#[test]
fn wallets_pass_a_gate() {
    let gate = || auth_wallet_callback(wallet_request(), "1.2.3.4".into());
    assert_eq!(gate().rate_query(&config()).max_requests, 7);
    let e = gate().on_rate_limit(Err(Failure), &config()).unwrap_err();
    assert_eq!(parts(e.refusal), said(500, "Internal error"));
    let e = gate().on_rate_limit(Ok(false), &config()).unwrap_err();
    assert_eq!(e.counted, Some(Metric::RateLimit));
    let mut unknown = wallet_request();
    unknown.client_id = "nobody".into();
    let e = auth_wallet_callback(unknown, "ip".into()).on_rate_limit(Ok(true), &config()).unwrap_err();
    assert_eq!(parts(e.refusal), said(400, "Unknown client"));
    let e = wallet_signature().on_verification(Err(Failure), "h".into()).unwrap_err();
    assert_eq!(parts(e), said(401, "Invalid signature"));
}

#[test]
fn a_wallet_gets_a_session() {
    let c = config();
    let (audit, proven) = wallet_signature().on_verification(Ok(()), "sig-hash".into()).unwrap();
    assert_eq!(proven.user_identifier, "wallet:0xCD");
    assert_eq!(audit.user_identifier, "wallet:0xCD");
    assert_eq!(audit.action, ActionType::Read);
    assert_eq!(audit.ip_address.as_deref(), Some("1.2.3.4"));
    assert_eq!(audit.jwt_hash.as_deref(), Some("sig-hash"));
    let session = proven.open(&c).unwrap();
    assert_eq!(session.session.row.provider, "wallet");
    assert_eq!(session.session.row.wallet_address, "0xCD");
    let reply = session.on_storing(Ok(())).unwrap();
    assert_eq!(reply.code, "0xCD");
    assert_eq!(reply.salt, "");
    assert!(reply.id_token.is_none() && reply.access_token.is_none());
    assert_eq!(reply.user.unwrap().get_str("address"), Some("0xCD"));
    assert!(verify_access_token(&reply.session_access_token.unwrap(), &published_x(&c)));
    assert_eq!(reply.expires_in, Some(1800));
    let again = wallet_signature().on_verification(Ok(()), "h".into()).unwrap().1.open(&c).unwrap();
    assert_eq!(parts(again.on_storing(Err(Failure)).unwrap_err()), said(500, "Session storage failed"));
    let mut unsigned = config();
    unsigned.jwt_signing_key = None;
    let e = wallet_signature().on_verification(Ok(()), "h".into()).unwrap().1.open(&unsigned).unwrap_err();
    assert_eq!(e.status, 503);
}

fn refresh_request(token: &str) -> RefreshRequest {
    RefreshRequest { refresh_token: token.into() }
}

fn reuse() -> RefreshReuse {
    auth_refresh(refresh_request("abc"), "1.2.3.4".into())
        .unwrap()
        .on_rate_limit(Ok(true))
        .unwrap()
}

fn session() -> RefreshSession {
    RefreshSession {
        id: 77,
        user_identifier: "u".into(),
        wallet_address: "0xEF".into(),
        provider: "google".into(),
        client_id: "app".into(),
        refresh_token_hash: "old".into(),
        expires_at: 123,
        created_at: 1,
    }
}

fn refused_and_logged(reply: RefreshReply, user: &str) -> (u16, String) {
    let e = reply.result.unwrap_err();
    assert_eq!(reply.audit.user_identifier, user);
    assert_eq!(reply.audit.action, ActionType::Error);
    assert_eq!(reply.audit.ip_address.as_deref(), Some("1.2.3.4"));
    assert_eq!(reply.audit.jwt_hash, Some(hash_refresh_token("abc")));
    assert!(!reply.audit.success);
    assert_eq!(reply.audit.error_message.as_ref(), Some(&e.message));
    parts(e)
}

#[test]
fn refreshes_have_their_own_limit() {
    let e = auth_refresh(refresh_request(" \t"), "ip".into()).unwrap_err();
    assert_eq!(parts(e), said(400, "refresh_token is required"));
    let gate = || auth_refresh(refresh_request("abc"), "1.2.3.4".into()).unwrap();
    let query = gate().rate_query();
    assert_eq!(query.identifier, "refresh:1.2.3.4");
    assert_eq!((query.window_minutes, query.max_requests), (1, 10));
    assert_eq!(parts(gate().on_rate_limit(Err(Failure)).unwrap_err()), said(500, "Internal error"));
    assert_eq!(parts(gate().on_rate_limit(Ok(false)).unwrap_err()), said(429, "Rate limit exceeded"));
    assert_eq!(reuse().old_hash, hash_refresh_token("abc"));
}

#[test]
fn a_replayed_token_revokes_the_family() {
    let reply = reuse().on_revoked_owner(Err(Failure)).unwrap_err();
    assert_eq!(refused_and_logged(reply, "unknown"), said(500, "Internal error"));
    let replay = || match reuse().on_revoked_owner(Ok(Some("owner".into()))).unwrap() {
        RefreshNext::Replay(replay) => replay,
        other => panic!("{:?}", other),
    };
    assert!(matches!(
        replay().deletion(),
        SessionWrite::DeleteByUser { user_identifier } if user_identifier == "owner"
    ));
    let reply = replay().on_deletion(Err(Failure));
    assert_eq!(refused_and_logged(reply, "owner"), said(500, "Internal error"));
    let reply = replay().on_deletion(Ok(()));
    assert_eq!(refused_and_logged(reply, "owner"), said(401, "Refresh token revoked"));
}

#[test]
fn a_refresh_returns_new_tokens() {
    let c = config();
    let rotation = || match reuse().on_revoked_owner(Ok(None)).unwrap() {
        RefreshNext::Rotation(rotation) => rotation,
        other => panic!("{:?}", other),
    };
    let first = rotation();
    assert_eq!(first.old_hash, hash_refresh_token("abc"));
    assert_eq!(first.new_hash, hash_refresh_token(&first.new_token));
    let new_token = first.new_token.clone();
    let reply = first.on_rotation(Ok(Some(session())), &c);
    assert_eq!(reply.audit.user_identifier, "u");
    assert_eq!(reply.audit.action, ActionType::Rotate);
    assert_eq!(reply.audit.ip_address.as_deref(), Some("1.2.3.4"));
    assert_eq!(reply.audit.jwt_hash, Some(hash_refresh_token("abc")));
    assert!(reply.audit.success && reply.audit.error_message.is_none());
    let reply = reply.result.unwrap();
    assert_eq!(reply.refresh_token, new_token);
    assert_eq!(reply.access_token, reply.session_access_token);
    assert_eq!(reply.expires_in, 1800);
    assert_eq!(reply.user.get_str("address"), Some("0xEF"));
    assert!(verify_access_token(&reply.access_token, &published_x(&c)));
    let e = rotation().on_rotation(Err(Failure), &c);
    assert_eq!(refused_and_logged(e, "unknown"), said(500, "Session rotation failed"));
    let e = rotation().on_rotation(Ok(None), &c);
    assert_eq!(refused_and_logged(e, "unknown"), said(401, "Invalid refresh token"));
    let mut bare = config();
    bare.jwt_issuer = None;
    let e = rotation().on_rotation(Ok(Some(session())), &bare);
    assert_eq!(refused_and_logged(e, "u"), said(503, "Session issuer unavailable"));
    bare.jwt_signing_key = None;
    let e = rotation().on_rotation(Ok(Some(session())), &bare);
    assert_eq!(refused_and_logged(e, "u"), said(503, "Session signing unavailable"));
    bare.jwt_issuer = Some("i".into());
    bare.jwt_signing_key = Some("%".into());
    let e = rotation().on_rotation(Ok(Some(session())), &bare);
    assert_eq!(refused_and_logged(e, "u"), said(500, "Token issuance failed"));
    let reply = refresh_response("a".into(), "r".into(), "w");
    assert_eq!((reply.access_token.as_str(), reply.refresh_token.as_str()), ("a", "r"));
}

#[test]
fn rotation_keeps_owner_and_expiry() {
    assert!(rotate_refresh_session(None, "old", "new").is_none());
    let (kept, writes) = rotate_refresh_session(Some(session()), "old", "new").unwrap();
    assert_eq!(kept.id, 77);
    assert_eq!(writes.len(), 3);
    assert!(matches!(writes[0], SessionWrite::Delete { id: 77 }));
    assert!(matches!(
        &writes[1],
        SessionWrite::RecordRevoked { refresh_token_hash, user_identifier }
            if refresh_token_hash == "old" && user_identifier == "u"
    ));
    match &writes[2] {
        SessionWrite::Insert(row) => {
            assert_eq!(row.user_identifier, "u");
            assert_eq!(row.wallet_address, "0xEF");
            assert_eq!(row.provider, "google");
            assert_eq!(row.client_id, "app");
            assert_eq!(row.refresh_token_hash, "new");
            assert_eq!(row.expires_at, 123);
        }
        other => panic!("{:?}", other),
    }
}

#[test]
fn logout_is_idempotent() {
    let logout = |token: &str| {
        auth_logout(LogoutRequest { refresh_token: token.into() }, "1.2.3.4".into())
    };
    assert_eq!(parts(logout("").unwrap_err()), said(400, "refresh_token is required"));
    let next = || logout("abc").unwrap().on_rate_limit(Ok(true)).unwrap();
    assert_eq!(next().refresh_token_hash, hash_refresh_token("abc"));
    let reply = next().on_revocation(Ok(Some("u".into())));
    assert_eq!(reply.result.unwrap(), 204);
    assert_eq!(reply.audit.user_identifier, "u");
    assert_eq!(reply.audit.action, ActionType::Read);
    assert_eq!(reply.audit.jwt_hash, Some(hash_refresh_token("abc")));
    assert!(reply.audit.success);
    let reply = next().on_revocation(Ok(None));
    assert_eq!(reply.result.unwrap(), 204);
    assert_eq!(reply.audit.user_identifier, "unknown");
    let reply = next().on_revocation(Err(Failure));
    assert_eq!(parts(reply.result.unwrap_err()), said(500, "Session revocation failed"));
    assert_eq!(reply.audit.action, ActionType::Error);
    assert_eq!(reply.audit.error_message.as_deref(), Some("Session revocation failed"));
    assert!(!reply.audit.success);
    let query = logout("abc").unwrap().rate_query(&config());
    assert_eq!((query.identifier.as_str(), query.window_minutes, query.max_requests), ("1.2.3.4", 1, 7));
    let e = logout("abc").unwrap().on_rate_limit(Ok(false)).unwrap_err();
    assert_eq!(e.counted, Some(Metric::RateLimit));
    assert_eq!(parts(e.refusal), said(429, "Rate limit exceeded"));
    let e = logout("abc").unwrap().on_rate_limit(Err(Failure)).unwrap_err();
    assert_eq!(parts(e.refusal), said(500, "Internal error"));
    assert!(revoke_refresh_session(None, "h").is_none());
    let (user, writes) = revoke_refresh_session(Some("u".into()), "h").unwrap();
    assert_eq!(user, "u");
    assert!(matches!(
        &writes[0],
        SessionWrite::DeleteByHash { refresh_token_hash } if refresh_token_hash == "h"
    ));
    assert!(matches!(
        &writes[1],
        SessionWrite::RecordRevoked { refresh_token_hash, user_identifier }
            if refresh_token_hash == "h" && user_identifier == "u"
    ));
}

#[test]
fn the_key_set_needs_a_key() {
    let mut c = config();
    assert!(session_jwks(&c).is_ok());
    c.jwt_signing_key = Some("%".into());
    assert_eq!(parts(session_jwks(&c).unwrap_err()), said(500, "JWKS unavailable"));
    c.jwt_signing_key = None;
    assert_eq!(parts(session_jwks(&c).unwrap_err()), said(404, "JWKS unavailable"));
}

#[test]
fn rate_limits() {
    assert!(check_rate_limit(0, 1));
    assert!(!check_rate_limit(1, 1));
    assert!(!check_rate_limit(0, 0));
    assert!(!check_rate_limit(0, -1));
    assert!(check_rate_limit(9, 10));
    for (limit, requests, allowed) in [(3, 5, 3), (3, 2, 2), (0, 4, 0), (-1, 4, 0)] {
        let mut recorded: i64 = 0;
        for _ in 0..requests {
            if check_rate_limit(recorded, limit) {
                recorded += 1;
            }
        }
        assert_eq!(recorded, allowed);
    }
}

#[test]
fn status_replies() {
    let before = chrono::Utc::now().timestamp_micros();
    let reply = health_check(Ok(()), "1.0").unwrap();
    assert!(before <= reply.timestamp && reply.timestamp <= chrono::Utc::now().timestamp_micros());
    assert_eq!((reply.status.as_str(), reply.version.as_str()), ("healthy", "1.0"));
    assert_eq!(healthy(5, "v").timestamp, 5);
    assert_eq!(health_check(Err(Failure), "1.0").unwrap_err(), 503);
    let reply = salt_check(Ok(()), Ok(()), "1.0").unwrap();
    assert_eq!(reply.get_str("status"), Some("ready"));
    assert_eq!(reply.get_str("salt_endpoint"), Some("/salt"));
    assert_eq!(reply.get_str("version"), Some("1.0"));
    assert_eq!(salt_check(Err(Failure), Ok(()), "1.0").unwrap_err(), 503);
    assert_eq!(salt_check(Ok(()), Err(Failure), "1.0").unwrap_err(), 503);
    assert_eq!(salt_check(Err(Failure), Err(Failure), "1.0").unwrap_err(), 503);
}
