//! What is decided when the service starts: which clients are allowed, whether the configuration
//! can be used, and which routes are served.

use vstd::prelude::*;
use vstd::string::*;

use crate::config::{validation_error, AllowedClient, Config, ConfigError, Setting};
use crate::foreign::{base64_decode, base64_decoded};
use crate::handlers::client_with;
use crate::indexer_platforms::{is_merge, last_for, law_env_wins, merge_allowed_clients};

verus! {

/// Why the service does not start.
#[derive(Debug, Clone)]
pub enum StartupError {
    /// The platforms could not be fetched from the indexer.
    Indexer(String),
    /// The configuration cannot be used.
    Config(ConfigError),
    /// The master seed is no base64.
    MasterSeed,
}

impl StartupError {
    /// What the error says.
    pub open spec fn text(self) -> Seq<char> {
        match self {
            StartupError::Indexer(reason) => reason@,
            StartupError::Config(e) => e.text(),
            StartupError::MasterSeed => "Failed to decode master seed"@,
        }
    }

    /// What the error says.
    pub fn message(&self) -> (r: String)
        ensures
            r@ == self.text(),
    {
        match self {
            StartupError::Indexer(reason) => reason.clone(),
            StartupError::Config(e) => e.message(),
            StartupError::MasterSeed => "Failed to decode master seed".to_owned(),
        }
    }
}

/// `after` is the configuration with its allowlist: the clients of the indexer, where they were
/// fetched, merged with those of `ALLOWED_CLIENTS`, else the latter alone.
pub open spec fn is_admitted(
    before: Config,
    fetched: Option<Vec<AllowedClient>>,
    after: Config,
) -> bool {
    &&& after == Config {
        allowed_clients: after.allowed_clients,
        allowed_clients_env: after.allowed_clients_env,
        ..before
    }
    &&& after.allowed_clients_env@.len() == 0
    &&& match fetched {
        Some(indexer) => is_merge(after.allowed_clients@, indexer@, before.allowed_clients_env@),
        None => after.allowed_clients == before.allowed_clients_env,
    }
}

/// Puts the allowlist into a configuration. `fetched` are the clients of the indexer, `None` where
/// there is no indexer.
pub fn admit_clients(config: Config, fetched: Option<Vec<AllowedClient>>) -> (r: Config)
    ensures
        is_admitted(config, fetched, r),
{
    let mut admitted = config;
    let from_env = admitted.allowed_clients_env;
    admitted.allowed_clients_env = Vec::new();
    admitted.allowed_clients = match fetched {
        Some(indexer) => merge_allowed_clients(indexer, from_env),
        None => from_env,
    };
    admitted
}

/// `r` is the prepared configuration, or why the service does not start.
pub open spec fn starts_as(
    config: Config,
    fetched: Option<Result<Vec<AllowedClient>, String>>,
    r: Result<Config, StartupError>,
) -> bool {
    match fetched {
        Some(Err(reason)) => r == Err::<Config, _>(StartupError::Indexer(reason)),
        Some(Ok(clients)) => is_prepared(config, Some(clients), r),
        None => is_prepared(config, None, r),
    }
}

/// Prepares a configuration for use: admits the clients and checks the whole. `fetched` is what
/// the fetch from the indexer gave, `None` where there is no indexer; a fetch that failed stops
/// the start.
pub fn prepare(config: Config, fetched: Option<Result<Vec<AllowedClient>, String>>) -> (r: Result<
    Config,
    StartupError,
>)
    ensures
        starts_as(config, fetched, r),
{
    let clients = match fetched {
        Some(Err(reason)) => return Err(StartupError::Indexer(reason)),
        Some(Ok(clients)) => Some(clients),
        None => None,
    };
    let admitted = admit_clients(config, clients);
    assert(is_admitted(config, clients, admitted));
    match admitted.validate() {
        Ok(_) => Ok(admitted),
        Err(e) => Err(StartupError::Config(e)),
    }
}

/// `r` is the configuration with its allowlist where that can be used, else what is wrong with it.
pub open spec fn is_prepared(
    config: Config,
    fetched: Option<Vec<AllowedClient>>,
    r: Result<Config, StartupError>,
) -> bool {
    exists|admitted: Config| #[trigger]
        is_admitted(config, fetched, admitted) && r == match validation_error(admitted) {
            None => Ok::<Config, StartupError>(admitted),
            Some(e) => Err(StartupError::Config(e)),
        }
}

/// The master seed of a configuration, where it is base64.
pub open spec fn master_seed_of(config: Config) -> Option<Seq<u8>> {
    base64_decoded(config.master_seed_base64@)
}

/// The master seed of a configuration.
pub fn master_seed(config: &Config) -> (r: Result<Vec<u8>, StartupError>)
    ensures
        match master_seed_of(*config) {
            Some(seed) => r matches Ok(bytes) && bytes@ == seed,
            None => r == Err::<Vec<u8>, _>(StartupError::MasterSeed),
        },
{
    match base64_decode(config.master_seed_base64.as_str()) {
        Ok(seed) => Ok(seed),
        Err(_) => Err(StartupError::MasterSeed),
    }
}

/// A configuration that can be used has a master seed of at least 32 bytes.
pub proof fn law_usable_config_has_seed(config: Config)
    requires
        validation_error(config) is None,
    ensures
        base64_decoded(config.master_seed_base64@) matches Some(seed) && seed.len() >= 32,
{
}

/// An endpoint of the service.
#[derive(Debug, Clone, Copy, PartialEq, Eq, Structural)]
pub enum Route {
    Health,
    Salt,
    SaltCheck,
    SaltTest,
    Metrics,
    Jwks,
    Refresh,
    Logout,
    ProviderCallback,
    WalletCallback,
}

impl Route {
    /// The path of an endpoint.
    pub open spec fn path_text(self) -> Seq<char> {
        match self {
            Route::Health => "/health"@,
            Route::Salt => "/salt"@,
            Route::SaltCheck => "/salt/check"@,
            Route::SaltTest => "/salt/test"@,
            Route::Metrics => "/metrics"@,
            Route::Jwks => "/.well-known/jwks.json"@,
            Route::Refresh => "/auth/refresh"@,
            Route::Logout => "/auth/logout"@,
            Route::ProviderCallback => "/auth/provider/callback"@,
            Route::WalletCallback => "/auth/wallet/callback"@,
        }
    }

    /// The path of an endpoint.
    pub fn path(&self) -> (r: &'static str)
        ensures
            r@ == self.path_text(),
    {
        match self {
            Route::Health => "/health",
            Route::Salt => "/salt",
            Route::SaltCheck => "/salt/check",
            Route::SaltTest => "/salt/test",
            Route::Metrics => "/metrics",
            Route::Jwks => "/.well-known/jwks.json",
            Route::Refresh => "/auth/refresh",
            Route::Logout => "/auth/logout",
            Route::ProviderCallback => "/auth/provider/callback",
            Route::WalletCallback => "/auth/wallet/callback",
        }
    }
}

/// The HTTP method of an endpoint.
#[derive(Debug, Clone, Copy, PartialEq, Eq, Structural)]
pub enum HttpMethod {
    Get,
    Post,
}

impl Route {
    /// The method of an endpoint: those that only report something are read, the others are
    /// posted to.
    pub open spec fn method_of(self) -> HttpMethod {
        match self {
            Route::Health | Route::SaltCheck | Route::Metrics | Route::Jwks => HttpMethod::Get,
            _ => HttpMethod::Post,
        }
    }

    /// The method of an endpoint.
    pub fn method(&self) -> (r: HttpMethod)
        ensures
            r == self.method_of(),
    {
        match self {
            Route::Health | Route::SaltCheck | Route::Metrics | Route::Jwks => HttpMethod::Get,
            _ => HttpMethod::Post,
        }
    }
}

/// The routes of a service: those of the callbacks only where some client is allowed.
pub open spec fn routes_of(config: Config) -> Seq<Route> {
    let always = seq![
        Route::Health,
        Route::Salt,
        Route::SaltCheck,
        Route::SaltTest,
        Route::Metrics,
        Route::Jwks,
        Route::Refresh,
        Route::Logout,
    ];
    if config.allowed_clients@.len() > 0 {
        always + seq![Route::ProviderCallback, Route::WalletCallback]
    } else {
        always
    }
}

/// The routes that are served.
pub fn routes(config: &Config) -> (r: Vec<Route>)
    ensures
        r@ == routes_of(*config),
{
    let mut served = vec![
        Route::Health,
        Route::Salt,
        Route::SaltCheck,
        Route::SaltTest,
        Route::Metrics,
        Route::Jwks,
        Route::Refresh,
        Route::Logout,
    ];
    if config.allowed_clients.len() > 0 {
        served.push(Route::ProviderCallback);
        served.push(Route::WalletCallback);
    }
    assert(served@ =~= routes_of(*config));
    served
}

/// The callbacks are served exactly where the allowlist is not empty.
pub proof fn law_callbacks_need_clients(config: Config)
    ensures
        routes_of(config).contains(Route::ProviderCallback) <==> config.allowed_clients@.len() > 0,
        routes_of(config).contains(Route::WalletCallback) <==> config.allowed_clients@.len() > 0,
{
    let served = routes_of(config);
    if config.allowed_clients@.len() > 0 {
        assert(served[8] == Route::ProviderCallback);
        assert(served[9] == Route::WalletCallback);
    }
}

/// No two endpoints have the same path.
pub proof fn law_paths_differ(a: Route, b: Route)
    ensures
        a.path_text() == b.path_text() ==> a == b,
{
    reveal_strlit("/health");
    reveal_strlit("/salt");
    reveal_strlit("/salt/check");
    reveal_strlit("/salt/test");
    reveal_strlit("/metrics");
    reveal_strlit("/.well-known/jwks.json");
    reveal_strlit("/auth/refresh");
    reveal_strlit("/auth/logout");
    reveal_strlit("/auth/provider/callback");
    reveal_strlit("/auth/wallet/callback");
    assert(a != b ==> a.path_text().len() != b.path_text().len());
}

/// The allowlist of a service is what `ALLOWED_CLIENTS` says where there is no indexer. With one, a
/// client is found as `ALLOWED_CLIENTS` describes it last, and as the indexer does only where
/// `ALLOWED_CLIENTS` has no such client.
pub proof fn law_allowlist_of_the_service(
    before: Config,
    fetched: Option<Vec<AllowedClient>>,
    after: Config,
    id: Seq<char>,
)
    requires
        is_admitted(before, fetched, after),
    ensures
        fetched is None ==> after.allowed_clients@ == before.allowed_clients_env@,
        fetched matches Some(indexer) ==> client_with(after.allowed_clients@, id) == (
        match last_for(before.allowed_clients_env@, id) {
            Some(client) => Some(client),
            None => last_for(indexer@, id),
        }),
        after.allowed_clients_env@.len() == 0,
{
    if fetched is Some {
        law_env_wins(
            after.allowed_clients@,
            fetched->0@,
            before.allowed_clients_env@,
            id,
        );
    }
}

/// Admitting clients changes the lists of clients and nothing else.
pub proof fn law_admission_changes_only_the_clients(
    before: Config,
    fetched: Option<Vec<AllowedClient>>,
    after: Config,
    setting: Setting,
)
    requires
        is_admitted(before, fetched, after),
    ensures
        setting.in_config(after) == setting.in_config(before),
        after.database_url@ == before.database_url@,
        after.master_seed_base64@ == before.master_seed_base64@,
        after.port == before.port,
        after.allowed_origins@ == before.allowed_origins@,
        after.rate_limit_per_minute == before.rate_limit_per_minute,
        after.log_level@ == before.log_level@,
        after.indexer_platforms_page_limit == before.indexer_platforms_page_limit,
        after.require_redirect_uri_from_links == before.require_redirect_uri_from_links,
        after.platform_status_allowlist == before.platform_status_allowlist,
        after.platform_status_denylist@ == before.platform_status_denylist@,
        after.platform_links_redirect_keys@ == before.platform_links_redirect_keys@,
        after.jwt_key_id@ == before.jwt_key_id@,
        after.jwt_issuer.deep_view() == before.jwt_issuer.deep_view(),
{
}

/// A service starts only with a usable configuration that has its clients admitted. A fetch that
/// failed stops the start for its own reason, and a configuration that is not usable for the reason
/// that the validation gives.
pub proof fn law_only_usable_configurations_start(
    config: Config,
    fetched: Option<Result<Vec<AllowedClient>, String>>,
    r: Result<Config, StartupError>,
)
    requires
        starts_as(config, fetched, r),
    ensures
        r matches Ok(prepared) ==> validation_error(prepared) is None && match fetched {
            None => is_admitted(config, None, prepared),
            Some(Ok(clients)) => is_admitted(config, Some(clients), prepared),
            Some(Err(_)) => false,
        },
        fetched matches Some(Err(reason)) ==> (r matches Err(e) && e.text() == reason@),
        !(fetched matches Some(Err(_))) ==> (r matches Err(e) ==> exists|admitted: Config|
            is_admitted(
                config,
                match fetched {
                    Some(Ok(clients)) => Some(clients),
                    _ => None,
                },
                admitted,
            ) && #[trigger] validation_error(admitted) is Some && e.text() == validation_error(
                admitted,
            )->0.text()),
{
}

/// The master seed is all that its base64 says, not a part of it.
pub proof fn law_master_seed_is_whole(config: Config)
    ensures
        master_seed_of(config) is Some <==> base64_decoded(config.master_seed_base64@) is Some,
        master_seed_of(config) matches Some(seed) ==> seed.len() == base64_decoded(
            config.master_seed_base64@,
        )->0.len() && forall|i: int|
            0 <= i < seed.len() ==> #[trigger] seed[i] == base64_decoded(
                config.master_seed_base64@,
            )->0[i],
{
}

/// Every endpoint is served, each once, but for the callbacks where no client is allowed.
pub proof fn law_every_endpoint_is_served(config: Config, route: Route)
    ensures
        routes_of(config).contains(route) <==> (config.allowed_clients@.len() > 0 || (route
            != Route::ProviderCallback && route != Route::WalletCallback)),
        routes_of(config).no_duplicates(),
{
    let served = routes_of(config);
    assert(served[0] == Route::Health);
    assert(served[1] == Route::Salt);
    assert(served[2] == Route::SaltCheck);
    assert(served[3] == Route::SaltTest);
    assert(served[4] == Route::Metrics);
    assert(served[5] == Route::Jwks);
    assert(served[6] == Route::Refresh);
    assert(served[7] == Route::Logout);
    if config.allowed_clients@.len() > 0 {
        assert(served[8] == Route::ProviderCallback);
        assert(served[9] == Route::WalletCallback);
    }
}

/// An endpoint that reports something is read, and one that takes a request is posted to.
pub proof fn law_reports_are_read(route: Route)
    ensures
        route.method_of() == HttpMethod::Get <==> (route == Route::Health || route
            == Route::SaltCheck || route == Route::Metrics || route == Route::Jwks),
        route.method_of() == HttpMethod::Post <==> (route == Route::Salt || route == Route::SaltTest
            || route == Route::Refresh || route == Route::Logout || route == Route::ProviderCallback
            || route == Route::WalletCallback),
{
}

} // verus!
