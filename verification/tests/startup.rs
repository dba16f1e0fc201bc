use base64::engine::general_purpose;
use base64::Engine;
use myso_salt_service::config::{AllowedClient, Config, Environment};
use myso_salt_service::startup::{
    admit_clients, master_seed, prepare, routes, HttpMethod, Route, StartupError,
};

fn config() -> Config {
    let key = general_purpose::STANDARD.encode([1u8; 32]);
    let vars = [
        ("DATABASE_URL", "postgres://x"),
        ("MASTER_SEED", key.as_str()),
        ("ALLOWED_AUDIENCE_GOOGLE", "g"),
        ("ALLOWED_AUDIENCE_APPLE", "a"),
        ("JWT_SIGNING_KEY", key.as_str()),
    ];
    let env = Environment {
        vars: vars.iter().map(|(k, v)| (k.to_string(), v.to_string())).collect(),
    };
    let mut c = Config::from_env(&env, None).unwrap();
    c.allowed_clients_env = vec![client("b", "env"), client("a", "env")];
    c
}

fn client(id: &str, uri: &str) -> AllowedClient {
    AllowedClient { client_id: id.into(), redirect_uri: uri.into() }
}

fn listed(c: &Config) -> Vec<(&str, &str)> {
    c.allowed_clients
        .iter()
        .map(|c| (c.client_id.as_str(), c.redirect_uri.as_str()))
        .collect()
}

#[test]
fn clients_are_admitted() {
    let c = admit_clients(config(), None);
    assert_eq!(listed(&c), vec![("b", "env"), ("a", "env")]);
    assert!(c.allowed_clients_env.is_empty());
    let c = admit_clients(config(), Some(vec![client("c", "idx"), client("a", "idx")]));
    assert_eq!(listed(&c), vec![("a", "env"), ("b", "env"), ("c", "idx")]);
    assert!(c.allowed_clients_env.is_empty());
    assert_eq!(c.port, 3000);
}

#[test]
fn a_failed_fetch_stops_the_start() {
    let e = prepare(config(), Some(Err("indexer GraphQL request failed".into()))).unwrap_err();
    assert!(matches!(e, StartupError::Indexer(_)));
    assert_eq!(e.message(), "indexer GraphQL request failed");
}

#[test]
fn an_unusable_configuration_stops_the_start() {
    prepare(config(), None).unwrap();
    let e = prepare(config(), Some(Ok(vec![client("c", "")]))).unwrap_err();
    assert!(e.message().contains("client_id \"c\" has empty redirect_uri"));
    let mut c = config();
    c.jwt_signing_key = None;
    let e = prepare(c, None).unwrap_err();
    assert!(e.message().contains("JWT_SIGNING_KEY must be set"));
}

#[test]
fn the_master_seed_is_decoded() {
    let mut c = config();
    assert_eq!(master_seed(&c).unwrap(), vec![1u8; 32]);
    c.master_seed_base64 = "%".into();
    assert_eq!(master_seed(&c).unwrap_err().message(), "Failed to decode master seed");
}

#[test]
fn callbacks_are_served_for_allowed_clients() {
    let mut c = config();
    assert_eq!(routes(&c).len(), 8);
    assert!(!routes(&c).contains(&Route::ProviderCallback));
    c.allowed_clients = vec![client("a", "b")];
    let served = routes(&c);
    assert_eq!(served.len(), 10);
    assert!(served.contains(&Route::ProviderCallback) && served.contains(&Route::WalletCallback));
    let read: Vec<&str> = served
        .iter()
        .filter(|r| r.method() == HttpMethod::Get)
        .map(|r| r.path())
        .collect();
    assert_eq!(read, vec!["/health", "/salt/check", "/metrics", "/.well-known/jwks.json"]);
    let mut paths: Vec<&str> = served.iter().map(|r| r.path()).collect();
    paths.sort();
    assert_eq!(
        paths,
        vec![
            "/.well-known/jwks.json",
            "/auth/logout",
            "/auth/provider/callback",
            "/auth/refresh",
            "/auth/wallet/callback",
            "/health",
            "/metrics",
            "/salt",
            "/salt/check",
            "/salt/test",
        ]
    );
}
