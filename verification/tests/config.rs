use base64::Engine;
use myso_salt_service::config::{
    oauth_redirect_uri_for_exchange, parse_allowed_clients_for_auth, parse_comma_list_opt,
    parse_comma_list_with_default, resolve_oauth_redirect_uri_for_token_exchange, AllowedClient,
    Config, ConfigError, Environment,
};

fn minimal_config(mut c: Config) -> Config {
    c.master_seed_base64 = base64::engine::general_purpose::STANDARD.encode([0u8; 32]);
    c.database_url = "postgresql://localhost/db".into();
    c.allowed_audience_google = Some("g".into());
    c.allowed_audience_apple = Some("a".into());
    c.jwt_signing_key = Some(base64::engine::general_purpose::STANDARD.encode([1u8; 32]));
    c.jwt_issuer = Some("https://salt.test.example".into());
    c
}

fn empty_shell() -> Config {
    Config {
        database_url: String::new(),
        master_seed_base64: String::new(),
        port: 3000,
        allowed_origins: vec![],
        rate_limit_per_minute: 60,
        log_level: "info".into(),
        twitch_client_id: None,
        twitch_client_secret: None,
        facebook_app_secret: None,
        facebook_app_id: None,
        allowed_audience_google: None,
        google_client_secret: None,
        allowed_audience_apple: None,
        apple_team_id: None,
        apple_key_identifier: None,
        apple_private_key: None,
        allowed_audience_facebook: None,
        allowed_audience_twitch: None,
        auth_callback_url: None,
        allowed_clients_env: vec![],
        allowed_clients: vec![],
        myso_indexer_graphql_url: None,
        indexer_platforms_page_limit: 200,
        require_redirect_uri_from_links: false,
        platform_status_allowlist: None,
        platform_status_denylist: vec![],
        platform_links_redirect_keys: vec![],
        mysocial_auth_issuer: None,
        mysocial_auth_jwks_uri: None,
        allowed_audience_mysocial: None,
        jwt_signing_key: None,
        jwt_key_id: "mysocial-salt".into(),
        jwt_issuer: None,
    }
}

fn client(id: &str, uri: &str) -> AllowedClient {
    AllowedClient { client_id: id.into(), redirect_uri: uri.into() }
}

fn env(vars: &[(&str, &str)]) -> Environment {
    Environment {
        vars: vars.iter().map(|(k, v)| (k.to_string(), v.to_string())).collect(),
    }
}

fn validation_message(c: &Config) -> String {
    c.validate().unwrap_err().message()
}

#[test]
fn validate_allows_empty_redirect_when_global_callback_set() {
    let c = minimal_config(Config {
        allowed_clients: vec![AllowedClient {
            client_id: "p1".into(),
            redirect_uri: "".into(),
        }],
        auth_callback_url: Some("https://auth.example/callback".into()),
        ..empty_shell()
    });
    c.validate().unwrap();
}

#[test]
fn validate_requires_per_client_redirect_without_global() {
    let c = minimal_config(Config {
        allowed_clients: vec![AllowedClient {
            client_id: "p1".into(),
            redirect_uri: "".into(),
        }],
        auth_callback_url: None,
        ..empty_shell()
    });
    assert!(c.validate().is_err());
}

#[test]
fn validate_requires_session_signing() {
    let mut c = minimal_config(empty_shell());
    c.jwt_signing_key = None;
    assert!(c
        .validate()
        .unwrap_err()
        .message()
        .contains("JWT_SIGNING_KEY must be set"));
}

#[test]
fn oauth_redirect_prefers_client_uri() {
    let client = AllowedClient {
        client_id: "x".into(),
        redirect_uri: "https://app/cb".into(),
    };
    assert_eq!(
        oauth_redirect_uri_for_exchange(&client, Some("https://global/cb")),
        Some("https://app/cb")
    );
}

#[test]
fn oauth_redirect_falls_back_to_global() {
    let client = AllowedClient {
        client_id: "x".into(),
        redirect_uri: "".into(),
    };
    assert_eq!(
        oauth_redirect_uri_for_exchange(&client, Some("https://global/cb")),
        Some("https://global/cb")
    );
}

#[test]
fn resolve_prefers_request_body_when_matches_auth_callback() {
    let client = AllowedClient {
        client_id: "x".into(),
        redirect_uri: "https://consumer.app/cb".into(),
    };
    assert_eq!(
        resolve_oauth_redirect_uri_for_token_exchange(
            Some("https://auth.example/callback"),
            &client,
            Some("https://auth.example/callback"),
        ),
        Ok("https://auth.example/callback".into())
    );
}

#[test]
fn resolve_rejects_body_when_auth_callback_differs() {
    let client = AllowedClient {
        client_id: "x".into(),
        redirect_uri: "https://consumer.app/cb".into(),
    };
    assert!(resolve_oauth_redirect_uri_for_token_exchange(
        Some("https://auth.example/callback"),
        &client,
        Some("https://other/callback"),
    )
    .unwrap_err()
    .starts_with("redirect_uri mismatch:"));
}

#[test]
fn resolve_accepts_body_when_no_global_callback_configured() {
    let client = AllowedClient {
        client_id: "x".into(),
        redirect_uri: "https://consumer.app/cb".into(),
    };
    assert_eq!(
        resolve_oauth_redirect_uri_for_token_exchange(
            Some("https://auth.example/callback"),
            &client,
            None,
        ),
        Ok("https://auth.example/callback".into())
    );
}

#[test]
fn oauth_redirect_is_trimmed_and_may_be_missing() {
    assert_eq!(
        oauth_redirect_uri_for_exchange(&client("x", "  https://app/cb/ "), None),
        Some("https://app/cb/")
    );
    assert_eq!(oauth_redirect_uri_for_exchange(&client("x", " "), Some("\t")), None);
    assert_eq!(oauth_redirect_uri_for_exchange(&client("x", ""), None), None);
}

#[test]
fn resolve_ignores_white_space_and_trailing_slashes() {
    let c = client("x", "");
    assert_eq!(
        resolve_oauth_redirect_uri_for_token_exchange(
            Some(" https://a/cb// "),
            &c,
            Some("https://a/cb/"),
        ),
        Ok("https://a/cb".into())
    );
    assert_eq!(
        resolve_oauth_redirect_uri_for_token_exchange(
            Some("https://a/cb"),
            &c,
            Some("https://b/cb"),
        ),
        Err("redirect_uri mismatch: must match AUTH_CALLBACK_URL for token exchange (got https://a/cb, expected https://b/cb)".into())
    );
}

#[test]
fn resolve_falls_back_without_a_requested_uri() {
    let own = client("x", "https://consumer.app/cb/");
    assert_eq!(
        resolve_oauth_redirect_uri_for_token_exchange(None, &own, Some("https://g/cb")),
        Ok("https://consumer.app/cb".into())
    );
    assert_eq!(
        resolve_oauth_redirect_uri_for_token_exchange(Some(" / "), &own, None),
        Ok("https://consumer.app/cb".into())
    );
    let none = client("x", "");
    assert_eq!(
        resolve_oauth_redirect_uri_for_token_exchange(None, &none, Some("https://g/cb/")),
        Ok("https://g/cb".into())
    );
    assert_eq!(
        resolve_oauth_redirect_uri_for_token_exchange(None, &none, None),
        Err("AUTH_CALLBACK_URL not configured and client has no redirect_uri".into())
    );
    // A URI of slashes only counts as none.
    assert!(resolve_oauth_redirect_uri_for_token_exchange(None, &client("x", "/"), None).is_err());
}

#[test]
fn validation_names_the_first_fault() {
    let good = minimal_config(empty_shell());
    good.validate().unwrap();

    let short = base64::engine::general_purpose::STANDARD.encode([0u8; 31]);
    let mut c = good.clone();
    c.master_seed_base64 = "no base64!".into();
    assert_eq!(validation_message(&c), "Invalid MASTER_SEED base64");
    c.master_seed_base64 = short.clone();
    assert_eq!(validation_message(&c), "MASTER_SEED must be at least 32 bytes");

    let mut c = good.clone();
    c.jwt_signing_key = Some("  ".into());
    assert_eq!(
        validation_message(&c),
        "JWT_SIGNING_KEY must be set so every authentication returns a MySocial session"
    );
    c.jwt_signing_key = Some("***".into());
    assert_eq!(validation_message(&c), "Invalid JWT_SIGNING_KEY base64");
    c.jwt_signing_key = Some(short);
    assert_eq!(validation_message(&c), "JWT_SIGNING_KEY must decode to at least 32 bytes");

    let mut c = good.clone();
    c.jwt_key_id = " ".into();
    assert_eq!(validation_message(&c), "JWT_KEY_ID must not be empty");

    let mut c = good.clone();
    c.jwt_issuer = None;
    assert_eq!(validation_message(&c), "JWT_ISSUER must not be empty");
    c.jwt_issuer = Some("".into());
    assert_eq!(validation_message(&c), "JWT_ISSUER must not be empty");

    let mut c = good.clone();
    c.database_url = "mysql://localhost/db".into();
    assert_eq!(validation_message(&c), "DATABASE_URL must be a PostgreSQL connection string");
    c.database_url = "postgres://localhost/db".into();
    c.validate().unwrap();

    let mut c = good.clone();
    c.allowed_audience_google = Some("".into());
    assert_eq!(validation_message(&c), "ALLOWED_AUDIENCE_GOOGLE must be set for JWT validation");

    let mut c = good.clone();
    c.allowed_audience_apple = None;
    assert_eq!(validation_message(&c), "ALLOWED_AUDIENCE_APPLE must be set for JWT validation");

    let mut c = good.clone();
    c.facebook_app_id = Some("fb".into());
    assert_eq!(
        validation_message(&c),
        "ALLOWED_AUDIENCE_FACEBOOK must be set when FACEBOOK_APP_ID is configured"
    );
    c.allowed_audience_facebook = Some("fb".into());
    c.validate().unwrap();

    let mut c = good.clone();
    c.twitch_client_id = Some("tw".into());
    assert_eq!(
        validation_message(&c),
        "ALLOWED_AUDIENCE_TWITCH must be set when TWITCH_CLIENT_ID is configured"
    );

    let mut c = good;
    c.allowed_clients = vec![client("ok", "https://a/cb"), client("say \"hi\"\n", " ")];
    assert_eq!(
        validation_message(&c),
        "Each allowed client must have redirect_uri (from ALLOWED_CLIENTS or indexer `links`), or set AUTH_CALLBACK_URL as a global fallback (client_id \"say \\\"hi\\\"\\n\" has empty redirect_uri)"
    );
}

#[test]
fn from_env_uses_defaults() {
    let e = env(&[("DATABASE_URL", "postgres://x"), ("MASTER_SEED", "seed")]);
    let c = Config::from_env(&e, None).unwrap();
    assert_eq!(c.database_url, "postgres://x");
    assert_eq!(c.master_seed_base64, "seed");
    assert_eq!(c.port, 3000);
    assert_eq!(c.allowed_origins, vec!["https://mysocial.network", "http://localhost:3000"]);
    assert_eq!(c.rate_limit_per_minute, 60);
    assert_eq!(c.log_level, "info");
    assert_eq!(c.indexer_platforms_page_limit, 200);
    assert!(!c.require_redirect_uri_from_links);
    assert!(c.platform_status_allowlist.is_none());
    assert_eq!(c.platform_status_denylist, vec!["Shutdown", "Sunset"]);
    assert_eq!(c.platform_links_redirect_keys, vec!["website", "url"]);
    assert_eq!(c.jwt_key_id, "mysocial-salt");
    assert_eq!(c.jwt_issuer.as_deref(), Some("https://salt.testnet.mysocial.network"));
    assert!(c.jwt_signing_key.is_none());
    assert!(c.allowed_clients.is_empty() && c.allowed_clients_env.is_empty());
}

#[test]
fn from_env_reads_every_variable() {
    let e = env(&[
        ("DATABASE_URL", "d"),
        ("MASTER_SEED", "m"),
        ("PORT", "+8080"),
        ("ALLOWED_ORIGINS", " https://a , https://b"),
        ("RATE_LIMIT", "-5"),
        ("LOG_LEVEL", "debug"),
        ("TWITCH_CLIENT_ID", "t1"),
        ("TWITCH_CLIENT_SECRET", "t2"),
        ("FACEBOOK_APP_SECRET", "f1"),
        ("FACEBOOK_APP_ID", "f2"),
        ("ALLOWED_AUDIENCE_GOOGLE", "ag"),
        ("GOOGLE_CLIENT_SECRET", "gs"),
        ("ALLOWED_AUDIENCE_APPLE", "aa"),
        ("APPLE_TEAM_ID", "ati"),
        ("APPLE_KEY_IDENTIFIER", "aki"),
        ("APPLE_PRIVATE_KEY", "apk"),
        ("ALLOWED_AUDIENCE_FACEBOOK", "af"),
        ("ALLOWED_AUDIENCE_TWITCH", "at"),
        ("AUTH_CALLBACK_URL", "cb"),
        ("ALLOWED_CLIENTS", "[...]"),
        ("MYSO_INDEXER_GRAPHQL_URL", "gql"),
        ("INDEXER_PLATFORMS_PAGE_LIMIT", "7"),
        ("REQUIRE_REDIRECT_URI_FROM_LINKS", " Yes "),
        ("PLATFORM_STATUS_ALLOWLIST", "Live, ,Beta"),
        ("PLATFORM_STATUS_DENYLIST", "Gone"),
        ("PLATFORM_LINKS_REDIRECT_KEYS", "k1,k2"),
        ("MYSOCIAL_AUTH_ISSUER", "mi"),
        ("MYSOCIAL_AUTH_JWKS_URI", "mj"),
        ("ALLOWED_AUDIENCE_MYSOCIAL", "am"),
        ("JWT_SIGNING_KEY", "k"),
        ("JWT_KEY_ID", "kid"),
        ("JWT_ISSUER", "iss"),
    ]);
    assert_eq!(e.allowed_clients_json().as_deref(), Some("[...]"));
    let c = Config::from_env(&e, Some(vec![client("c", "u")])).unwrap();
    assert_eq!(c.port, 8080);
    assert_eq!(c.allowed_origins, vec!["https://a", "https://b"]);
    assert_eq!(c.rate_limit_per_minute, -5);
    assert_eq!(c.log_level, "debug");
    assert_eq!(c.twitch_client_id.as_deref(), Some("t1"));
    assert_eq!(c.twitch_client_secret.as_deref(), Some("t2"));
    assert_eq!(c.facebook_app_secret.as_deref(), Some("f1"));
    assert_eq!(c.facebook_app_id.as_deref(), Some("f2"));
    assert_eq!(c.allowed_audience_google.as_deref(), Some("ag"));
    assert_eq!(c.google_client_secret.as_deref(), Some("gs"));
    assert_eq!(c.allowed_audience_apple.as_deref(), Some("aa"));
    assert_eq!(c.apple_team_id.as_deref(), Some("ati"));
    assert_eq!(c.apple_key_identifier.as_deref(), Some("aki"));
    assert_eq!(c.apple_private_key.as_deref(), Some("apk"));
    assert_eq!(c.allowed_audience_facebook.as_deref(), Some("af"));
    assert_eq!(c.allowed_audience_twitch.as_deref(), Some("at"));
    assert_eq!(c.auth_callback_url.as_deref(), Some("cb"));
    assert_eq!(c.allowed_clients_env.len(), 1);
    assert_eq!(c.allowed_clients_env[0].client_id, "c");
    assert_eq!(c.myso_indexer_graphql_url.as_deref(), Some("gql"));
    assert_eq!(c.indexer_platforms_page_limit, 7);
    assert!(c.require_redirect_uri_from_links);
    assert_eq!(c.platform_status_allowlist, Some(vec!["Live".to_string(), "Beta".to_string()]));
    assert_eq!(c.platform_status_denylist, vec!["Gone"]);
    assert_eq!(c.platform_links_redirect_keys, vec!["k1", "k2"]);
    assert_eq!(c.mysocial_auth_issuer.as_deref(), Some("mi"));
    assert_eq!(c.mysocial_auth_jwks_uri.as_deref(), Some("mj"));
    assert_eq!(c.allowed_audience_mysocial.as_deref(), Some("am"));
    assert_eq!(c.jwt_signing_key.as_deref(), Some("k"));
    assert_eq!(c.jwt_key_id, "kid");
    assert_eq!(c.jwt_issuer.as_deref(), Some("iss"));
}

#[test]
fn from_env_names_what_is_wrong() {
    let message = |vars: &[(&str, &str)]| Config::from_env(&env(vars), None).unwrap_err().message();
    assert_eq!(message(&[]), "DATABASE_URL not set");
    assert_eq!(message(&[("DATABASE_URL", "d")]), "MASTER_SEED not set");
    let base = [("DATABASE_URL", "d"), ("MASTER_SEED", "m")];
    for port in ["65536", "", "x", "-1", "+"] {
        let mut vars = base.to_vec();
        vars.push(("PORT", port));
        assert_eq!(message(&vars), "Invalid PORT");
    }
    for limit in ["2147483648", "", "-", "1.5"] {
        let mut vars = base.to_vec();
        vars.push(("RATE_LIMIT", limit));
        assert_eq!(message(&vars), "Invalid RATE_LIMIT");
    }
    let mut vars = base.to_vec();
    vars.push(("ALLOWED_CLIENTS", "{"));
    assert_eq!(message(&vars), "Invalid ALLOWED_CLIENTS JSON");
}

#[test]
fn a_page_limit_that_cannot_be_read_is_the_default() {
    for (text, limit) in [("4294967296", 200), ("x", 200), ("0", 0), ("4294967295", 4294967295u32)] {
        let e = env(&[
            ("DATABASE_URL", "d"),
            ("MASTER_SEED", "m"),
            ("INDEXER_PLATFORMS_PAGE_LIMIT", text),
        ]);
        assert_eq!(Config::from_env(&e, None).unwrap().indexer_platforms_page_limit, limit);
    }
}

#[test]
fn switches_are_on_for_three_words() {
    for (text, on) in [("1", true), ("TRUE", true), ("yes", true), ("on", false), ("", false)] {
        let e = env(&[
            ("DATABASE_URL", "d"),
            ("MASTER_SEED", "m"),
            ("REQUIRE_REDIRECT_URI_FROM_LINKS", text),
        ]);
        assert_eq!(Config::from_env(&e, None).unwrap().require_redirect_uri_from_links, on);
    }
}

#[test]
fn blank_allowed_clients_are_none() {
    let e = env(&[("ALLOWED_CLIENTS", "  ")]);
    assert!(e.allowed_clients_json().is_none());
    assert!(parse_allowed_clients_for_auth(&e, Some(vec![client("a", "b")])).unwrap().is_empty());
    let e = env(&[("ALLOWED_CLIENTS", "[]")]);
    assert!(matches!(
        parse_allowed_clients_for_auth(&e, None),
        Err(ConfigError::InvalidAllowedClients)
    ));
}

#[test]
fn comma_lists() {
    assert_eq!(parse_comma_list_opt(None), None);
    assert_eq!(parse_comma_list_opt(Some(" , ,".into())), None);
    assert_eq!(
        parse_comma_list_opt(Some(" a b , c,,".into())),
        Some(vec!["a b".to_string(), "c".to_string()])
    );
    assert_eq!(parse_comma_list_with_default(None, "x, y"), vec!["x", "y"]);
    assert_eq!(parse_comma_list_with_default(Some(" ".into()), "x,y"), vec!["x", "y"]);
    assert_eq!(parse_comma_list_with_default(Some(",".into()), "x,y"), Vec::<String>::new());
    assert_eq!(parse_comma_list_with_default(Some("z".into()), "x,y"), vec!["z"]);
}

#[test]
fn the_first_of_two_variables_counts() {
    let e = env(&[("A", "1"), ("A", "2")]);
    assert_eq!(e.get("A").as_deref(), Some("1"));
    assert_eq!(e.get("B"), None);
    assert_eq!(e.get_or("B", "d"), "d");
}

#[test]
fn decoded_lengths_decide() {
    let good = minimal_config(empty_shell());
    let message = |seed: Option<usize>, key: Option<usize>| {
        good.validate_decoded(seed, key).map_err(|e| e.message())
    };
    assert_eq!(message(Some(32), Some(32)), Ok(()));
    assert_eq!(message(None, None), Err("Invalid MASTER_SEED base64".into()));
    assert_eq!(message(Some(31), None), Err("MASTER_SEED must be at least 32 bytes".into()));
    assert_eq!(message(Some(32), None), Err("Invalid JWT_SIGNING_KEY base64".into()));
    assert_eq!(
        message(Some(32), Some(31)),
        Err("JWT_SIGNING_KEY must decode to at least 32 bytes".into())
    );
}
