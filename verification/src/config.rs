//! The service configuration: reading it from the environment, checking it, and choosing the
//! `redirect_uri` of a token exchange.

use vstd::prelude::*;
use vstd::string::*;

use crate::foreign::{base64_decode, base64_decoded, debug_quoted, debug_text};
use crate::numeral::{
    decimal, integer, law_numerals_read_back, natural, read_i32, read_natural, signed_decimal,
};
use crate::text::{
    all_white, ascii_lowercase, ascii_lowercased, blank, comma_items, comma_list, comma_pieces,
    is_blank, is_white_space, law_ascii_lowercase, law_occurrence,
    law_trailing_slashes_do_not_count, law_trimmed, law_trimming_ignores_white_space,
    lemma_strip_end, occurs_in, same_text, split_commas, starts_with, texts, trim, trim_end_slashes,
    trimmed, without_trailing_slashes,
};

verus! {

/// An OAuth client that may use the callbacks.
#[derive(Debug, Clone)]
pub struct AllowedClient {
    pub client_id: String,
    pub redirect_uri: String,
}

/// The configuration of the service.
#[derive(Debug, Clone)]
pub struct Config {
    pub database_url: String,
    pub master_seed_base64: String,
    pub port: u16,
    pub allowed_origins: Vec<String>,
    pub rate_limit_per_minute: i32,
    pub log_level: String,
    pub twitch_client_id: Option<String>,
    pub twitch_client_secret: Option<String>,
    pub facebook_app_secret: Option<String>,
    pub facebook_app_id: Option<String>,
    /// Canonical aud for Google JWT validation. Web and iOS must use the same client ID.
    pub allowed_audience_google: Option<String>,
    /// Google client secret for token exchange.
    pub google_client_secret: Option<String>,
    /// Canonical aud for Apple JWT validation. Web and iOS must use the same client ID.
    pub allowed_audience_apple: Option<String>,
    /// Apple Team ID for JWT client assertion.
    pub apple_team_id: Option<String>,
    /// Apple Key Identifier for JWT client assertion.
    pub apple_key_identifier: Option<String>,
    /// Apple private key (PEM) for JWT client assertion.
    pub apple_private_key: Option<String>,
    /// Canonical aud for the Facebook access-token flow.
    pub allowed_audience_facebook: Option<String>,
    /// Canonical aud for the Twitch access-token flow.
    pub allowed_audience_twitch: Option<String>,
    /// OAuth callback URL of the auth frontend: the fallback of a token exchange where a client
    /// has no `redirect_uri`.
    pub auth_callback_url: Option<String>,
    /// OAuth clients of `ALLOWED_CLIENTS`.
    pub allowed_clients_env: Vec<AllowedClient>,
    /// The allowlist after merging indexer platforms with `allowed_clients_env`.
    pub allowed_clients: Vec<AllowedClient>,
    /// Indexer GraphQL endpoint. When set, platforms are fetched at startup and merged.
    pub myso_indexer_graphql_url: Option<String>,
    pub indexer_platforms_page_limit: u32,
    /// If true, skip indexer platforms with no URL under `platform_links_redirect_keys` in `links`.
    pub require_redirect_uri_from_links: bool,
    pub platform_status_allowlist: Option<Vec<String>>,
    pub platform_status_denylist: Vec<String>,
    pub platform_links_redirect_keys: Vec<String>,
    /// MySocial Auth issuer.
    pub mysocial_auth_issuer: Option<String>,
    /// MySocial Auth JWKS URI for JWT validation.
    pub mysocial_auth_jwks_uri: Option<String>,
    /// Canonical aud for MySocial Auth JWT validation (optional).
    pub allowed_audience_mysocial: Option<String>,
    /// Base64-encoded Ed25519 signing seed for session access tokens (at least 32 bytes).
    pub jwt_signing_key: Option<String>,
    /// Public key identifier of session JWTs and of the published JWKS.
    pub jwt_key_id: String,
    /// Issuer claim of session JWTs.
    pub jwt_issuer: Option<String>,
}

/// Why a configuration cannot be loaded or used.
#[derive(Debug, Clone)]
pub enum ConfigError {
    MissingDatabaseUrl,
    MissingMasterSeed,
    InvalidPort,
    InvalidRateLimit,
    InvalidAllowedClients,
    InvalidMasterSeed,
    ShortMasterSeed,
    MissingSigningKey,
    InvalidSigningKey,
    ShortSigningKey,
    EmptyKeyId,
    EmptyIssuer,
    NotPostgres,
    MissingGoogleAudience,
    MissingAppleAudience,
    MissingFacebookAudience,
    MissingTwitchAudience,
    MissingRedirectUri { client_id: String },
}

impl ConfigError {
    /// What the error says.
    pub open spec fn text(self) -> Seq<char> {
        match self {
            ConfigError::MissingDatabaseUrl => "DATABASE_URL not set"@,
            ConfigError::MissingMasterSeed => "MASTER_SEED not set"@,
            ConfigError::InvalidPort => "Invalid PORT"@,
            ConfigError::InvalidRateLimit => "Invalid RATE_LIMIT"@,
            ConfigError::InvalidAllowedClients => "Invalid ALLOWED_CLIENTS JSON"@,
            ConfigError::InvalidMasterSeed => "Invalid MASTER_SEED base64"@,
            ConfigError::ShortMasterSeed => "MASTER_SEED must be at least 32 bytes"@,
            ConfigError::MissingSigningKey =>
                "JWT_SIGNING_KEY must be set so every authentication returns a MySocial session"@,
            ConfigError::InvalidSigningKey => "Invalid JWT_SIGNING_KEY base64"@,
            ConfigError::ShortSigningKey => "JWT_SIGNING_KEY must decode to at least 32 bytes"@,
            ConfigError::EmptyKeyId => "JWT_KEY_ID must not be empty"@,
            ConfigError::EmptyIssuer => "JWT_ISSUER must not be empty"@,
            ConfigError::NotPostgres => "DATABASE_URL must be a PostgreSQL connection string"@,
            ConfigError::MissingGoogleAudience =>
                "ALLOWED_AUDIENCE_GOOGLE must be set for JWT validation"@,
            ConfigError::MissingAppleAudience =>
                "ALLOWED_AUDIENCE_APPLE must be set for JWT validation"@,
            ConfigError::MissingFacebookAudience =>
                "ALLOWED_AUDIENCE_FACEBOOK must be set when FACEBOOK_APP_ID is configured"@,
            ConfigError::MissingTwitchAudience =>
                "ALLOWED_AUDIENCE_TWITCH must be set when TWITCH_CLIENT_ID is configured"@,
            ConfigError::MissingRedirectUri { client_id } =>
                "Each allowed client must have redirect_uri (from ALLOWED_CLIENTS or indexer `links`), or set AUTH_CALLBACK_URL as a global fallback (client_id "@
                + debug_quoted(client_id@) + " has empty redirect_uri)"@,
        }
    }

    /// What the error says.
    pub fn message(&self) -> (r: String)
        ensures
            r@ == self.text(),
    {
        match self {
            ConfigError::MissingDatabaseUrl => "DATABASE_URL not set".to_owned(),
            ConfigError::MissingMasterSeed => "MASTER_SEED not set".to_owned(),
            ConfigError::InvalidPort => "Invalid PORT".to_owned(),
            ConfigError::InvalidRateLimit => "Invalid RATE_LIMIT".to_owned(),
            ConfigError::InvalidAllowedClients => "Invalid ALLOWED_CLIENTS JSON".to_owned(),
            ConfigError::InvalidMasterSeed => "Invalid MASTER_SEED base64".to_owned(),
            ConfigError::ShortMasterSeed => "MASTER_SEED must be at least 32 bytes".to_owned(),
            ConfigError::MissingSigningKey =>
                "JWT_SIGNING_KEY must be set so every authentication returns a MySocial session".to_owned(),
            ConfigError::InvalidSigningKey => "Invalid JWT_SIGNING_KEY base64".to_owned(),
            ConfigError::ShortSigningKey =>
                "JWT_SIGNING_KEY must decode to at least 32 bytes".to_owned(),
            ConfigError::EmptyKeyId => "JWT_KEY_ID must not be empty".to_owned(),
            ConfigError::EmptyIssuer => "JWT_ISSUER must not be empty".to_owned(),
            ConfigError::NotPostgres =>
                "DATABASE_URL must be a PostgreSQL connection string".to_owned(),
            ConfigError::MissingGoogleAudience =>
                "ALLOWED_AUDIENCE_GOOGLE must be set for JWT validation".to_owned(),
            ConfigError::MissingAppleAudience =>
                "ALLOWED_AUDIENCE_APPLE must be set for JWT validation".to_owned(),
            ConfigError::MissingFacebookAudience =>
                "ALLOWED_AUDIENCE_FACEBOOK must be set when FACEBOOK_APP_ID is configured".to_owned(),
            ConfigError::MissingTwitchAudience =>
                "ALLOWED_AUDIENCE_TWITCH must be set when TWITCH_CLIENT_ID is configured".to_owned(),
            ConfigError::MissingRedirectUri { client_id } => {
                let quoted = debug_text(client_id.as_str());
                "Each allowed client must have redirect_uri (from ALLOWED_CLIENTS or indexer `links`), or set AUTH_CALLBACK_URL as a global fallback (client_id ".to_owned().concat(
                quoted.as_str()).concat(" has empty redirect_uri)")
            },
        }
    }
}

/// The environment variables of the process.
#[derive(Debug, Clone)]
pub struct Environment {
    pub vars: Vec<(String, String)>,
}

/// The value of the first variable with the name `name`.
pub open spec fn var_in(vars: Seq<(String, String)>, name: Seq<char>) -> Option<Seq<char>>
    decreases vars.len(),
{
    if vars.len() == 0 {
        None
    } else if vars[0].0@ == name {
        Some(vars[0].1@)
    } else {
        var_in(vars.drop_first(), name)
    }
}

impl Environment {
    /// The value of a variable, where it is set.
    pub open spec fn var(self, name: Seq<char>) -> Option<Seq<char>> {
        var_in(self.vars@, name)
    }

    /// The value of a variable, or `default` where it is not set.
    pub open spec fn var_or(self, name: Seq<char>, default: Seq<char>) -> Seq<char> {
        match self.var(name) {
            Some(v) => v,
            None => default,
        }
    }

    /// The value of a variable, where it is set.
    pub fn get(&self, name: &str) -> (r: Option<String>)
        ensures
            r.deep_view() == self.var(name@),
    {
        let ghost all = self.vars@;
        let mut i: usize = 0;
        assert(all.skip(0) =~= all);
        while i < self.vars.len()
            invariant
                i <= self.vars.len(),
                all == self.vars@,
                var_in(all, name@) == var_in(all.skip(i as int), name@),
            decreases self.vars.len() - i,
        {
            assert(all.skip(i as int)[0] == all[i as int]);
            assert(all.skip(i as int).drop_first() =~= all.skip(i + 1));
            if same_text(self.vars[i].0.as_str(), name) {
                return Some(self.vars[i].1.clone());
            }
            i = i + 1;
        }
        None
    }

    /// The value of a variable, or `default` where it is not set.
    pub fn get_or(&self, name: &str, default: &str) -> (r: String)
        ensures
            r@ == self.var_or(name@, default@),
    {
        match self.get(name) {
            Some(v) => v,
            None => default.to_owned(),
        }
    }

    /// The text of `ALLOWED_CLIENTS`, where it is set and not blank.
    pub open spec fn clients_text(self) -> Option<Seq<char>> {
        match self.var("ALLOWED_CLIENTS"@) {
            Some(v) if !is_blank(v) => Some(v),
            _ => None,
        }
    }

    /// The JSON text of `ALLOWED_CLIENTS` that has to be decoded, if there is any.
    pub fn allowed_clients_json(&self) -> (r: Option<String>)
        ensures
            r.deep_view() == self.clients_text(),
    {
        match self.get("ALLOWED_CLIENTS") {
            Some(v) => if blank(v.as_str()) {
                None
            } else {
                Some(v)
            },
            None => None,
        }
    }
}

/// The list in a comma-separated variable; `None` where it is unset or has no item.
pub open spec fn comma_list_opt(raw: Option<Seq<char>>) -> Option<Seq<Seq<char>>> {
    match raw {
        Some(s) if comma_list(s).len() > 0 => Some(comma_list(s)),
        _ => None,
    }
}

/// Reads a comma-separated variable; `None` where it is unset or has no item.
pub fn parse_comma_list_opt(raw: Option<String>) -> (r: Option<Vec<String>>)
    ensures
        r is Some <==> comma_list_opt(raw.deep_view()) is Some,
        r matches Some(items) ==> comma_list_opt(raw.deep_view()) == Some(texts(items@)),
{
    match raw {
        Some(s) => {
            let items = comma_items(s.as_str());
            assert(texts(items@).len() == items.len());
            if items.len() == 0 {
                None
            } else {
                Some(items)
            }
        },
        None => None,
    }
}

/// The list in a comma-separated variable, or in `default` where it is unset or blank.
pub open spec fn comma_list_or(raw: Option<Seq<char>>, default: Seq<char>) -> Seq<Seq<char>> {
    match raw {
        Some(s) if !is_blank(s) => comma_list(s),
        _ => comma_list(default),
    }
}

/// Reads a comma-separated variable, or `default` where it is unset or blank.
pub fn parse_comma_list_with_default(raw: Option<String>, default: &str) -> (r: Vec<String>)
    ensures
        texts(r@) == comma_list_or(raw.deep_view(), default@),
{
    match raw {
        Some(s) => if blank(s.as_str()) {
            comma_items(default)
        } else {
            comma_items(s.as_str())
        },
        None => comma_items(default),
    }
}

/// The clients of `ALLOWED_CLIENTS`: none where the variable is unset or blank, else what decoding
/// its JSON gave, and an error where that failed.
pub fn parse_allowed_clients_for_auth(
    env: &Environment,
    decoded: Option<Vec<AllowedClient>>,
) -> (r: Result<Vec<AllowedClient>, ConfigError>)
    ensures
        match env.clients_text() {
            None => r matches Ok(clients) && clients@.len() == 0,
            Some(_) => match decoded {
                Some(clients) => r == Ok::<_, ConfigError>(clients),
                None => r == Err::<Vec<AllowedClient>, _>(ConfigError::InvalidAllowedClients),
            },
        },
{
    match env.allowed_clients_json() {
        None => Ok(Vec::new()),
        Some(_) => match decoded {
            Some(clients) => Ok(clients),
            None => Err(ConfigError::InvalidAllowedClients),
        },
    }
}

/// The port that a text names.
pub open spec fn port_in(s: Seq<char>) -> Option<u16> {
    match natural(s) {
        Some(v) if v <= u16::MAX => Some(v as u16),
        _ => None,
    }
}

/// The rate limit that a text names.
pub open spec fn rate_limit_in(s: Seq<char>) -> Option<i32> {
    match integer(s) {
        Some(v) if i32::MIN <= v <= i32::MAX => Some(v as i32),
        _ => None,
    }
}

/// The page limit that a variable names; 200 where it names none.
pub open spec fn page_limit_in(raw: Option<Seq<char>>) -> u32 {
    match raw {
        Some(s) => match natural(s) {
            Some(v) if v <= u32::MAX => v as u32,
            _ => 200,
        },
        None => 200,
    }
}

/// A switch is on where its variable says `1`, `true` or `yes`, in any case.
pub open spec fn is_switched_on(raw: Option<Seq<char>>) -> bool {
    match raw {
        Some(s) => {
            let word = ascii_lowercased(trimmed(s));
            word == "1"@ || word == "true"@ || word == "yes"@
        },
        None => false,
    }
}

/// Whether a switch is on.
fn switched_on(raw: Option<String>) -> (r: bool)
    ensures
        r == is_switched_on(raw.deep_view()),
{
    match raw {
        Some(s) => {
            let word = ascii_lowercase(trim(s.as_str()));
            same_text(word.as_str(), "1") || same_text(word.as_str(), "true") || same_text(
                word.as_str(),
                "yes",
            )
        },
        None => false,
    }
}

/// What stops the configuration from being loaded, the first of these.
pub open spec fn load_error(
    env: Environment,
    decoded: Option<Vec<AllowedClient>>,
) -> Option<ConfigError> {
    if env.var("DATABASE_URL"@) is None {
        Some(ConfigError::MissingDatabaseUrl)
    } else if env.var("MASTER_SEED"@) is None {
        Some(ConfigError::MissingMasterSeed)
    } else if port_in(env.var_or("PORT"@, "3000"@)) is None {
        Some(ConfigError::InvalidPort)
    } else if rate_limit_in(env.var_or("RATE_LIMIT"@, "60"@)) is None {
        Some(ConfigError::InvalidRateLimit)
    } else if env.clients_text() is Some && decoded is None {
        Some(ConfigError::InvalidAllowedClients)
    } else {
        None
    }
}

/// `c` is the configuration that the environment describes.
pub open spec fn is_loaded(
    env: Environment,
    decoded: Option<Vec<AllowedClient>>,
    c: Config,
) -> bool {
    &&& Some(c.database_url@) == env.var("DATABASE_URL"@)
    &&& Some(c.master_seed_base64@) == env.var("MASTER_SEED"@)
    &&& Some(c.port) == port_in(env.var_or("PORT"@, "3000"@))
    &&& texts(c.allowed_origins@) == comma_pieces(
        env.var_or("ALLOWED_ORIGINS"@, "https://mysocial.network,http://localhost:3000"@),
    )
    &&& Some(c.rate_limit_per_minute) == rate_limit_in(env.var_or("RATE_LIMIT"@, "60"@))
    &&& c.log_level@ == env.var_or("LOG_LEVEL"@, "info"@)
    &&& c.twitch_client_id.deep_view() == env.var("TWITCH_CLIENT_ID"@)
    &&& c.twitch_client_secret.deep_view() == env.var("TWITCH_CLIENT_SECRET"@)
    &&& c.facebook_app_secret.deep_view() == env.var("FACEBOOK_APP_SECRET"@)
    &&& c.facebook_app_id.deep_view() == env.var("FACEBOOK_APP_ID"@)
    &&& c.allowed_audience_google.deep_view() == env.var("ALLOWED_AUDIENCE_GOOGLE"@)
    &&& c.google_client_secret.deep_view() == env.var("GOOGLE_CLIENT_SECRET"@)
    &&& c.allowed_audience_apple.deep_view() == env.var("ALLOWED_AUDIENCE_APPLE"@)
    &&& c.apple_team_id.deep_view() == env.var("APPLE_TEAM_ID"@)
    &&& c.apple_key_identifier.deep_view() == env.var("APPLE_KEY_IDENTIFIER"@)
    &&& c.apple_private_key.deep_view() == env.var("APPLE_PRIVATE_KEY"@)
    &&& c.allowed_audience_facebook.deep_view() == env.var("ALLOWED_AUDIENCE_FACEBOOK"@)
    &&& c.allowed_audience_twitch.deep_view() == env.var("ALLOWED_AUDIENCE_TWITCH"@)
    &&& c.auth_callback_url.deep_view() == env.var("AUTH_CALLBACK_URL"@)
    &&& match env.clients_text() {
        None => c.allowed_clients_env@.len() == 0,
        Some(_) => decoded == Some(c.allowed_clients_env),
    }
    &&& c.allowed_clients@.len() == 0
    &&& c.myso_indexer_graphql_url.deep_view() == env.var("MYSO_INDEXER_GRAPHQL_URL"@)
    &&& c.indexer_platforms_page_limit == page_limit_in(env.var("INDEXER_PLATFORMS_PAGE_LIMIT"@))
    &&& c.require_redirect_uri_from_links == is_switched_on(
        env.var("REQUIRE_REDIRECT_URI_FROM_LINKS"@),
    )
    &&& match c.platform_status_allowlist {
        Some(items) => comma_list_opt(env.var("PLATFORM_STATUS_ALLOWLIST"@)) == Some(texts(items@)),
        None => comma_list_opt(env.var("PLATFORM_STATUS_ALLOWLIST"@)) is None,
    }
    &&& texts(c.platform_status_denylist@) == comma_list_or(
        env.var("PLATFORM_STATUS_DENYLIST"@),
        "Shutdown,Sunset"@,
    )
    &&& texts(c.platform_links_redirect_keys@) == comma_list_or(
        env.var("PLATFORM_LINKS_REDIRECT_KEYS"@),
        "website,url"@,
    )
    &&& c.mysocial_auth_issuer.deep_view() == env.var("MYSOCIAL_AUTH_ISSUER"@)
    &&& c.mysocial_auth_jwks_uri.deep_view() == env.var("MYSOCIAL_AUTH_JWKS_URI"@)
    &&& c.allowed_audience_mysocial.deep_view() == env.var("ALLOWED_AUDIENCE_MYSOCIAL"@)
    &&& c.jwt_signing_key.deep_view() == env.var("JWT_SIGNING_KEY"@)
    &&& c.jwt_key_id@ == env.var_or("JWT_KEY_ID"@, "mysocial-salt"@)
    &&& c.jwt_issuer.deep_view() == Some(
        env.var_or("JWT_ISSUER"@, "https://salt.testnet.mysocial.network"@),
    )
}

/// The first client that has no `redirect_uri` of its own.
pub open spec fn first_without_redirect(clients: Seq<AllowedClient>) -> Option<AllowedClient>
    decreases clients.len(),
{
    if clients.len() == 0 {
        None
    } else if is_blank(clients[0].redirect_uri@) {
        Some(clients[0])
    } else {
        first_without_redirect(clients.drop_first())
    }
}

/// A text that is there and not blank.
pub open spec fn is_filled(o: Option<Seq<char>>) -> bool {
    o matches Some(s) && !is_blank(s)
}

/// A text that is there and has at least one character.
pub open spec fn is_nonempty(o: Option<Seq<char>>) -> bool {
    o matches Some(s) && s.len() > 0
}

/// How many bytes a text says in base64, if it is that.
pub open spec fn base64_len(text: Seq<char>) -> Option<nat> {
    match base64_decoded(text) {
        Some(bytes) => Some(bytes.len()),
        None => None,
    }
}

/// What makes a configuration unusable, the first of these.
pub open spec fn validation_error(c: Config) -> Option<ConfigError> {
    let key = if c.jwt_signing_key is Some {
        base64_len(c.jwt_signing_key->0@)
    } else {
        None
    };
    fault_in(c, base64_len(c.master_seed_base64@), key)
}

/// What makes a configuration unusable, the first of these, where the master seed and the signing
/// key say so many bytes in base64.
pub open spec fn fault_in(c: Config, seed: Option<nat>, key: Option<nat>) -> Option<ConfigError> {
    let database = c.database_url@;
    if seed is None {
        Some(ConfigError::InvalidMasterSeed)
    } else if seed->0 < 32 {
        Some(ConfigError::ShortMasterSeed)
    } else if !is_filled(c.jwt_signing_key.deep_view()) {
        Some(ConfigError::MissingSigningKey)
    } else if key is None {
        Some(ConfigError::InvalidSigningKey)
    } else if key->0 < 32 {
        Some(ConfigError::ShortSigningKey)
    } else if is_blank(c.jwt_key_id@) {
        Some(ConfigError::EmptyKeyId)
    } else if !is_filled(c.jwt_issuer.deep_view()) {
        Some(ConfigError::EmptyIssuer)
    } else if !"postgresql://"@.is_prefix_of(database) && !"postgres://"@.is_prefix_of(database) {
        Some(ConfigError::NotPostgres)
    } else if !is_nonempty(c.allowed_audience_google.deep_view()) {
        Some(ConfigError::MissingGoogleAudience)
    } else if !is_nonempty(c.allowed_audience_apple.deep_view()) {
        Some(ConfigError::MissingAppleAudience)
    } else if c.facebook_app_id is Some && !is_nonempty(c.allowed_audience_facebook.deep_view()) {
        Some(ConfigError::MissingFacebookAudience)
    } else if c.twitch_client_id is Some && !is_nonempty(c.allowed_audience_twitch.deep_view()) {
        Some(ConfigError::MissingTwitchAudience)
    } else if is_filled(c.auth_callback_url.deep_view()) {
        None
    } else {
        match first_without_redirect(c.allowed_clients@) {
            Some(client) => Some(ConfigError::MissingRedirectUri { client_id: client.client_id }),
            None => None,
        }
    }
}

/// Whether a text is there and not blank.
pub fn filled(o: &Option<String>) -> (r: bool)
    ensures
        r == is_filled(o.deep_view()),
{
    match o {
        Some(s) => !blank(s.as_str()),
        None => false,
    }
}

/// Whether a text is there and has at least one character.
fn nonempty(o: &Option<String>) -> (r: bool)
    ensures
        r == is_nonempty(o.deep_view()),
{
    match o {
        Some(s) => !s.as_str().is_empty(),
        None => false,
    }
}

/// A length as a number.
pub open spec fn nat_in(n: Option<usize>) -> Option<nat> {
    match n {
        Some(n) => Some(n as nat),
        None => None,
    }
}

/// How many bytes a text says in base64, or `None` where it is no base64.
fn decoded_len(text: &str) -> (r: Option<usize>)
    ensures
        nat_in(r) == base64_len(text@),
{
    match base64_decode(text) {
        Ok(bytes) => Some(bytes.len()),
        Err(_) => None,
    }
}

impl Config {
    /// Loads the configuration from environment variables. `decoded` is what decoding the JSON of
    /// `ALLOWED_CLIENTS` gave, `None` where that failed or was not needed.
    pub fn from_env(env: &Environment, decoded: Option<Vec<AllowedClient>>) -> (r: Result<
        Config,
        ConfigError,
    >)
        ensures
            match load_error(*env, decoded) {
                Some(e) => r == Err::<Config, _>(e),
                None => r matches Ok(c) && is_loaded(*env, decoded, c),
            },
    {
        let database_url = match env.get("DATABASE_URL") {
            Some(v) => v,
            None => return Err(ConfigError::MissingDatabaseUrl),
        };
        let master_seed_base64 = match env.get("MASTER_SEED") {
            Some(v) => v,
            None => return Err(ConfigError::MissingMasterSeed),
        };
        let port: u16 = match read_natural(env.get_or("PORT", "3000").as_str(), 65535) {
            Some(v) => v as u16,
            None => return Err(ConfigError::InvalidPort),
        };
        let rate_limit_per_minute: i32 = match read_i32(env.get_or("RATE_LIMIT", "60").as_str()) {
            Some(v) => v,
            None => return Err(ConfigError::InvalidRateLimit),
        };
        let allowed_clients_env = match parse_allowed_clients_for_auth(env, decoded) {
            Ok(clients) => clients,
            Err(e) => return Err(e),
        };
        let indexer_platforms_page_limit: u32 = match env.get("INDEXER_PLATFORMS_PAGE_LIMIT") {
            Some(s) => match read_natural(s.as_str(), 0xffff_ffff) {
                Some(v) => v as u32,
                None => 200,
            },
            None => 200,
        };
        let origins = env.get_or(
            "ALLOWED_ORIGINS",
            "https://mysocial.network,http://localhost:3000",
        );
        Ok(
            Config {
                database_url,
                master_seed_base64,
                port,
                allowed_origins: split_commas(origins.as_str()),
                rate_limit_per_minute,
                log_level: env.get_or("LOG_LEVEL", "info"),
                twitch_client_id: env.get("TWITCH_CLIENT_ID"),
                twitch_client_secret: env.get("TWITCH_CLIENT_SECRET"),
                facebook_app_secret: env.get("FACEBOOK_APP_SECRET"),
                facebook_app_id: env.get("FACEBOOK_APP_ID"),
                allowed_audience_google: env.get("ALLOWED_AUDIENCE_GOOGLE"),
                google_client_secret: env.get("GOOGLE_CLIENT_SECRET"),
                allowed_audience_apple: env.get("ALLOWED_AUDIENCE_APPLE"),
                apple_team_id: env.get("APPLE_TEAM_ID"),
                apple_key_identifier: env.get("APPLE_KEY_IDENTIFIER"),
                apple_private_key: env.get("APPLE_PRIVATE_KEY"),
                allowed_audience_facebook: env.get("ALLOWED_AUDIENCE_FACEBOOK"),
                allowed_audience_twitch: env.get("ALLOWED_AUDIENCE_TWITCH"),
                auth_callback_url: env.get("AUTH_CALLBACK_URL"),
                allowed_clients_env,
                allowed_clients: Vec::new(),
                myso_indexer_graphql_url: env.get("MYSO_INDEXER_GRAPHQL_URL"),
                indexer_platforms_page_limit,
                require_redirect_uri_from_links: switched_on(
                    env.get("REQUIRE_REDIRECT_URI_FROM_LINKS"),
                ),
                platform_status_allowlist: parse_comma_list_opt(
                    env.get("PLATFORM_STATUS_ALLOWLIST"),
                ),
                platform_status_denylist: parse_comma_list_with_default(
                    env.get("PLATFORM_STATUS_DENYLIST"),
                    "Shutdown,Sunset",
                ),
                platform_links_redirect_keys: parse_comma_list_with_default(
                    env.get("PLATFORM_LINKS_REDIRECT_KEYS"),
                    "website,url",
                ),
                mysocial_auth_issuer: env.get("MYSOCIAL_AUTH_ISSUER"),
                mysocial_auth_jwks_uri: env.get("MYSOCIAL_AUTH_JWKS_URI"),
                allowed_audience_mysocial: env.get("ALLOWED_AUDIENCE_MYSOCIAL"),
                jwt_signing_key: env.get("JWT_SIGNING_KEY"),
                jwt_key_id: env.get_or("JWT_KEY_ID", "mysocial-salt"),
                jwt_issuer: Some(
                    env.get_or("JWT_ISSUER", "https://salt.testnet.mysocial.network"),
                ),
            },
        )
    }

    /// Checks that the service can run with this configuration.
    pub fn validate(&self) -> (r: Result<(), ConfigError>)
        ensures
            match validation_error(*self) {
                Some(e) => r == Err::<(), _>(e),
                None => r is Ok,
            },
    {
        let key = match &self.jwt_signing_key {
            Some(key) => decoded_len(key.as_str()),
            None => None,
        };
        self.validate_decoded(decoded_len(self.master_seed_base64.as_str()), key)
    }

    /// Checks that the service can run with this configuration, where the master seed and the
    /// signing key say so many bytes in base64; `None` where they are no base64.
    pub fn validate_decoded(&self, seed: Option<usize>, key: Option<usize>) -> (r: Result<
        (),
        ConfigError,
    >)
        ensures
            match fault_in(*self, nat_in(seed), nat_in(key)) {
                Some(e) => r == Err::<(), _>(e),
                None => r is Ok,
            },
    {
        match seed {
            None => return Err(ConfigError::InvalidMasterSeed),
            Some(n) => if n < 32 {
                return Err(ConfigError::ShortMasterSeed);
            },
        }
        if !filled(&self.jwt_signing_key) {
            return Err(ConfigError::MissingSigningKey);
        }
        match key {
            None => return Err(ConfigError::InvalidSigningKey),
            Some(n) => if n < 32 {
                return Err(ConfigError::ShortSigningKey);
            },
        }
        if blank(self.jwt_key_id.as_str()) {
            return Err(ConfigError::EmptyKeyId);
        }
        if !filled(&self.jwt_issuer) {
            return Err(ConfigError::EmptyIssuer);
        }
        if !starts_with(self.database_url.as_str(), "postgresql://") && !starts_with(
            self.database_url.as_str(),
            "postgres://",
        ) {
            return Err(ConfigError::NotPostgres);
        }
        if !nonempty(&self.allowed_audience_google) {
            return Err(ConfigError::MissingGoogleAudience);
        }
        if !nonempty(&self.allowed_audience_apple) {
            return Err(ConfigError::MissingAppleAudience);
        }
        if self.facebook_app_id.is_some() && !nonempty(&self.allowed_audience_facebook) {
            return Err(ConfigError::MissingFacebookAudience);
        }
        if self.twitch_client_id.is_some() && !nonempty(&self.allowed_audience_twitch) {
            return Err(ConfigError::MissingTwitchAudience);
        }
        if filled(&self.auth_callback_url) {
            return Ok(());
        }
        let ghost all = self.allowed_clients@;
        let mut i: usize = 0;
        assert(all.skip(0) =~= all);
        while i < self.allowed_clients.len()
            invariant
                i <= self.allowed_clients.len(),
                all == self.allowed_clients@,
                first_without_redirect(all) == first_without_redirect(all.skip(i as int)),
                fault_in(*self, nat_in(seed), nat_in(key)) == (match first_without_redirect(all) {
                    Some(client) => Some(
                        ConfigError::MissingRedirectUri { client_id: client.client_id },
                    ),
                    None => None,
                }),
            decreases self.allowed_clients.len() - i,
        {
            assert(all.skip(i as int)[0] == all[i as int]);
            assert(all.skip(i as int).drop_first() =~= all.skip(i + 1));
            if blank(self.allowed_clients[i].redirect_uri.as_str()) {
                return Err(
                    ConfigError::MissingRedirectUri {
                        client_id: self.allowed_clients[i].client_id.clone(),
                    },
                );
            }
            i = i + 1;
        }
        Ok(())
    }
}

/// The `redirect_uri` of a client, else the global callback, each only where it is not blank.
pub open spec fn exchange_uri(client_uri: Seq<char>, callback: Option<Seq<char>>) -> Option<
    Seq<char>,
> {
    if !is_blank(client_uri) {
        Some(trimmed(client_uri))
    } else {
        match callback {
            Some(url) if !is_blank(url) => Some(trimmed(url)),
            _ => None,
        }
    }
}

/// OAuth `redirect_uri` for token exchange: the client's own URL, else the global auth callback.
pub fn oauth_redirect_uri_for_exchange<'a>(
    client: &'a AllowedClient,
    auth_callback_url: Option<&'a str>,
) -> (r: Option<&'a str>)
    ensures
        r.deep_view() == exchange_uri(client.redirect_uri@, auth_callback_url.deep_view()),
{
    let own = trim(client.redirect_uri.as_str());
    if !own.is_empty() {
        return Some(own);
    }
    match auth_callback_url {
        Some(url) => {
            let url = trim(url);
            if url.is_empty() {
                None
            } else {
                Some(url)
            }
        },
        None => None,
    }
}

/// A redirect URI without surrounding white space and without trailing slashes.
pub open spec fn canonical_uri(s: Seq<char>) -> Seq<char> {
    without_trailing_slashes(trimmed(s))
}

/// Leaves out surrounding white space and trailing slashes.
fn trim_oauth_redirect_uri(s: &str) -> (r: &str)
    ensures
        r@ == canonical_uri(s@),
{
    trim_end_slashes(trim(s))
}

/// A redirect URI in its canonical form, where there is anything left of it.
pub open spec fn canonical_opt(s: Option<Seq<char>>) -> Option<Seq<char>> {
    match s {
        Some(uri) if canonical_uri(uri).len() > 0 => Some(canonical_uri(uri)),
        _ => None,
    }
}

/// A redirect URI in its canonical form, where there is anything left of it.
fn canonical<'a>(s: Option<&'a str>) -> (r: Option<&'a str>)
    ensures
        r.deep_view() == canonical_opt(s.deep_view()),
{
    match s {
        Some(uri) => {
            let uri = trim_oauth_redirect_uri(uri);
            if uri.is_empty() {
                None
            } else {
                Some(uri)
            }
        },
        None => None,
    }
}

/// What is said of a requested URI that is not the configured callback.
pub open spec fn mismatch_text(uri: Seq<char>, expected: Seq<char>) -> Seq<char> {
    "redirect_uri mismatch: must match AUTH_CALLBACK_URL for token exchange (got "@ + uri
        + ", expected "@ + expected + ")"@
}

/// The `redirect_uri` of a token exchange: the requested one, which has to be the configured
/// callback where one is configured; without one, the client's own or the callback.
pub open spec fn resolved_uri(
    requested: Option<Seq<char>>,
    client_uri: Seq<char>,
    callback: Option<Seq<char>>,
) -> Result<Seq<char>, Seq<char>> {
    match canonical_opt(requested) {
        Some(uri) => match canonical_opt(callback) {
            Some(expected) if uri != expected => Err(mismatch_text(uri, expected)),
            _ => Ok(uri),
        },
        None => match canonical_opt(exchange_uri(client_uri, callback)) {
            Some(uri) => Ok(uri),
            None => Err("AUTH_CALLBACK_URL not configured and client has no redirect_uri"@),
        },
    }
}

/// A text or an error text, by what they hold.
pub open spec fn texts_of(r: Result<String, String>) -> Result<Seq<char>, Seq<char>> {
    match r {
        Ok(s) => Ok(s@),
        Err(e) => Err(e@),
    }
}

/// A token exchange must use the same `redirect_uri` as the authorize step. The auth frontend
/// sends it in the request; legacy clients leave it out, and then
/// [`oauth_redirect_uri_for_exchange`] decides.
pub fn resolve_oauth_redirect_uri_for_token_exchange(
    request_redirect_uri: Option<&str>,
    client: &AllowedClient,
    auth_callback_url: Option<&str>,
) -> (r: Result<String, String>)
    ensures
        texts_of(r) == resolved_uri(
            request_redirect_uri.deep_view(),
            client.redirect_uri@,
            auth_callback_url.deep_view(),
        ),
{
    match canonical(request_redirect_uri) {
        Some(uri) => {
            match canonical(auth_callback_url) {
                Some(expected) => {
                    if !same_text(uri, expected) {
                        return Err(
                            "redirect_uri mismatch: must match AUTH_CALLBACK_URL for token exchange (got ".to_owned().concat(
                            uri).concat(", expected ").concat(expected).concat(")"),
                        );
                    }
                },
                None => {},
            }
            Ok(uri.to_owned())
        },
        None => match canonical(oauth_redirect_uri_for_exchange(client, auth_callback_url)) {
            Some(uri) => Ok(uri.to_owned()),
            None => Err(
                "AUTH_CALLBACK_URL not configured and client has no redirect_uri".to_owned(),
            ),
        },
    }
}

/// Where no client lacks a `redirect_uri`, each has one.
proof fn lemma_each_has_redirect(clients: Seq<AllowedClient>, i: int)
    requires
        first_without_redirect(clients) is None,
        0 <= i < clients.len(),
    ensures
        !is_blank(clients[i].redirect_uri@),
    decreases clients.len(),
{
    if i > 0 {
        lemma_each_has_redirect(clients.drop_first(), i - 1);
    }
}

/// In a usable configuration every allowed client has a `redirect_uri` for the token exchange, its
/// own or the global one. A request that names none then succeeds, unless that URI is nothing but
/// slashes.
pub proof fn law_usable_config_has_redirects(config: Config, i: int)
    requires
        validation_error(config) is None,
        0 <= i < config.allowed_clients@.len(),
    ensures
        ({
            let own = config.allowed_clients@[i].redirect_uri@;
            let callback = config.auth_callback_url.deep_view();
            &&& exchange_uri(own, callback) matches Some(uri)
            &&& canonical_uri(uri).len() > 0 ==> resolved_uri(None, own, callback) == Ok::<
                Seq<char>,
                Seq<char>,
            >(canonical_uri(uri))
        }),
{
    if !is_filled(config.auth_callback_url.deep_view()) {
        lemma_each_has_redirect(config.allowed_clients@, i);
    }
}

/// Where a callback is configured, a request that names a `redirect_uri` gets that callback or an
/// error, and the error comes exactly where the two differ by more than white space around them
/// and slashes at their end.
pub proof fn law_requested_uri_is_the_callback(
    requested: Seq<char>,
    client_uri: Seq<char>,
    callback: Seq<char>,
)
    requires
        canonical_uri(requested).len() > 0,
        canonical_uri(callback).len() > 0,
    ensures
        ({
            let resolved = resolved_uri(Some(requested), client_uri, Some(callback));
            &&& resolved is Ok <==> canonical_uri(requested) == canonical_uri(callback)
            &&& resolved is Ok ==> resolved->Ok_0 == canonical_uri(callback)
            &&& resolved is Err ==> "redirect_uri mismatch:"@.is_prefix_of(resolved->Err_0)
        }),
{
    let text = mismatch_text(canonical_uri(requested), canonical_uri(callback));
    reveal_strlit("redirect_uri mismatch:");
    reveal_strlit("redirect_uri mismatch: must match AUTH_CALLBACK_URL for token exchange (got ");
    assert("redirect_uri mismatch:"@ =~= text.take(22));
}

/// A `redirect_uri` of a token exchange is neither empty nor ends in a slash.
pub proof fn law_resolved_uri_is_canonical(
    requested: Option<Seq<char>>,
    client_uri: Seq<char>,
    callback: Option<Seq<char>>,
)
    ensures
        resolved_uri(requested, client_uri, callback) matches Ok(uri) ==> uri.len() > 0
            && uri.last() != '/',
{
    let slash = |c: char| c == '/';
    if requested is Some {
        lemma_strip_end(trimmed(requested->0), slash);
    }
    if exchange_uri(client_uri, callback) is Some {
        lemma_strip_end(trimmed(exchange_uri(client_uri, callback)->0), slash);
    }
}

/// The variables whose text is a setting as it stands.
pub enum Setting {
    TwitchClientId,
    TwitchClientSecret,
    FacebookAppId,
    FacebookAppSecret,
    AudienceGoogle,
    GoogleClientSecret,
    AudienceApple,
    AppleTeamId,
    AppleKeyIdentifier,
    ApplePrivateKey,
    AudienceFacebook,
    AudienceTwitch,
    AuthCallbackUrl,
    IndexerUrl,
    MysocialIssuer,
    MysocialJwksUri,
    AudienceMysocial,
    SigningKey,
}

impl Setting {
    /// The name of the variable.
    pub open spec fn variable(self) -> Seq<char> {
        match self {
            Setting::TwitchClientId => "TWITCH_CLIENT_ID"@,
            Setting::TwitchClientSecret => "TWITCH_CLIENT_SECRET"@,
            Setting::FacebookAppId => "FACEBOOK_APP_ID"@,
            Setting::FacebookAppSecret => "FACEBOOK_APP_SECRET"@,
            Setting::AudienceGoogle => "ALLOWED_AUDIENCE_GOOGLE"@,
            Setting::GoogleClientSecret => "GOOGLE_CLIENT_SECRET"@,
            Setting::AudienceApple => "ALLOWED_AUDIENCE_APPLE"@,
            Setting::AppleTeamId => "APPLE_TEAM_ID"@,
            Setting::AppleKeyIdentifier => "APPLE_KEY_IDENTIFIER"@,
            Setting::ApplePrivateKey => "APPLE_PRIVATE_KEY"@,
            Setting::AudienceFacebook => "ALLOWED_AUDIENCE_FACEBOOK"@,
            Setting::AudienceTwitch => "ALLOWED_AUDIENCE_TWITCH"@,
            Setting::AuthCallbackUrl => "AUTH_CALLBACK_URL"@,
            Setting::IndexerUrl => "MYSO_INDEXER_GRAPHQL_URL"@,
            Setting::MysocialIssuer => "MYSOCIAL_AUTH_ISSUER"@,
            Setting::MysocialJwksUri => "MYSOCIAL_AUTH_JWKS_URI"@,
            Setting::AudienceMysocial => "ALLOWED_AUDIENCE_MYSOCIAL"@,
            Setting::SigningKey => "JWT_SIGNING_KEY"@,
        }
    }

    /// The setting in a configuration.
    pub open spec fn in_config(self, c: Config) -> Option<Seq<char>> {
        match self {
            Setting::TwitchClientId => c.twitch_client_id.deep_view(),
            Setting::TwitchClientSecret => c.twitch_client_secret.deep_view(),
            Setting::FacebookAppId => c.facebook_app_id.deep_view(),
            Setting::FacebookAppSecret => c.facebook_app_secret.deep_view(),
            Setting::AudienceGoogle => c.allowed_audience_google.deep_view(),
            Setting::GoogleClientSecret => c.google_client_secret.deep_view(),
            Setting::AudienceApple => c.allowed_audience_apple.deep_view(),
            Setting::AppleTeamId => c.apple_team_id.deep_view(),
            Setting::AppleKeyIdentifier => c.apple_key_identifier.deep_view(),
            Setting::ApplePrivateKey => c.apple_private_key.deep_view(),
            Setting::AudienceFacebook => c.allowed_audience_facebook.deep_view(),
            Setting::AudienceTwitch => c.allowed_audience_twitch.deep_view(),
            Setting::AuthCallbackUrl => c.auth_callback_url.deep_view(),
            Setting::IndexerUrl => c.myso_indexer_graphql_url.deep_view(),
            Setting::MysocialIssuer => c.mysocial_auth_issuer.deep_view(),
            Setting::MysocialJwksUri => c.mysocial_auth_jwks_uri.deep_view(),
            Setting::AudienceMysocial => c.allowed_audience_mysocial.deep_view(),
            Setting::SigningKey => c.jwt_signing_key.deep_view(),
        }
    }
}

/// A variable has the value of its first entry: an entry in front sets its own variable and leaves
/// every other one as it was.
pub proof fn law_first_entry_sets_variable(env: Environment, rest: Environment, name: Seq<char>)
    requires
        env.vars@.len() > 0,
        rest.vars@ == env.vars@.drop_first(),
    ensures
        env.var(env.vars@[0].0@) == Some(env.vars@[0].1@),
        name != env.vars@[0].0@ ==> env.var(name) == rest.var(name),
        env.vars@.len() == 1 && name != env.vars@[0].0@ ==> env.var(name) is None,
{
    if env.vars@.len() == 1 {
        assert(env.vars@.drop_first().len() == 0);
    }
}

/// A loaded configuration has each setting from the variable of its name, and from no other: two
/// environments that agree on that variable load the same setting.
pub proof fn law_settings_come_from_their_variables(
    env: Environment,
    decoded: Option<Vec<AllowedClient>>,
    c: Config,
    setting: Setting,
)
    requires
        is_loaded(env, decoded, c),
    ensures
        setting.in_config(c) == env.var(setting.variable()),
        env.var("DATABASE_URL"@) == Some(c.database_url@),
        env.var("MASTER_SEED"@) == Some(c.master_seed_base64@),
{
}

/// A loaded configuration has the defaults where nothing is set, and for lists also where what is
/// set is blank.
pub proof fn law_loaded_defaults(env: Environment, decoded: Option<Vec<AllowedClient>>, c: Config)
    requires
        is_loaded(env, decoded, c),
    ensures
        env.var("PORT"@) is None ==> c.port == 3000,
        env.var("RATE_LIMIT"@) is None ==> c.rate_limit_per_minute == 60,
        env.var("LOG_LEVEL"@) is None ==> c.log_level@ == "info"@,
        env.var("JWT_KEY_ID"@) is None ==> c.jwt_key_id@ == "mysocial-salt"@,
        env.var("JWT_ISSUER"@) is None ==> c.jwt_issuer.deep_view() == Some(
            "https://salt.testnet.mysocial.network"@,
        ),
        env.var("INDEXER_PLATFORMS_PAGE_LIMIT"@) is None ==> c.indexer_platforms_page_limit == 200,
        env.var("REQUIRE_REDIRECT_URI_FROM_LINKS"@) is None ==> !c.require_redirect_uri_from_links,
        env.var("PLATFORM_STATUS_ALLOWLIST"@) is None ==> c.platform_status_allowlist is None,
        env.var("PLATFORM_STATUS_DENYLIST"@) is None ==> texts(c.platform_status_denylist@)
            == comma_list("Shutdown,Sunset"@),
        env.var("PLATFORM_LINKS_REDIRECT_KEYS"@) is None ==> texts(c.platform_links_redirect_keys@)
            == comma_list("website,url"@),
        env.var("ALLOWED_ORIGINS"@) is None ==> texts(c.allowed_origins@) == comma_pieces(
            "https://mysocial.network,http://localhost:3000"@,
        ),
        env.var("ALLOWED_CLIENTS"@) is None ==> c.allowed_clients_env@.len() == 0,
        c.allowed_clients@.len() == 0,
        env.var("PLATFORM_STATUS_DENYLIST"@) matches Some(v) ==> is_blank(v) ==> texts(
            c.platform_status_denylist@,
        ) == comma_list("Shutdown,Sunset"@),
        env.var("PLATFORM_LINKS_REDIRECT_KEYS"@) matches Some(v) ==> is_blank(v) ==> texts(
            c.platform_links_redirect_keys@,
        ) == comma_list("website,url"@),
        env.var("ALLOWED_CLIENTS"@) matches Some(v) ==> is_blank(v) ==> c.allowed_clients_env@.len()
            == 0,
        env.var("INDEXER_PLATFORMS_PAGE_LIMIT"@) matches Some(v) ==> natural(v) is None
            ==> c.indexer_platforms_page_limit == 200,
{
    reveal_with_fuel(crate::numeral::decimal, 4);
    reveal_strlit("3000");
    reveal_strlit("60");
    assert(decimal(3000) =~= "3000"@);
    assert(decimal(60) =~= "60"@);
    law_numerals_read_back(3000);
    law_numerals_read_back(60);
}

/// A loaded configuration has the numbers and the texts that the environment writes, and reads a
/// switch as on exactly where its trimmed word is `1`, or `true` or `yes` in any case.
pub proof fn law_loaded_values(
    env: Environment,
    decoded: Option<Vec<AllowedClient>>,
    c: Config,
    n: nat,
)
    requires
        is_loaded(env, decoded, c),
    ensures
        env.var("PORT"@) == Some(decimal(n)) ==> c.port == n,
        env.var("RATE_LIMIT"@) == Some(decimal(n)) ==> c.rate_limit_per_minute == n,
        env.var("RATE_LIMIT"@) == Some(signed_decimal(-(n as int))) ==> c.rate_limit_per_minute == -(
        n as int),
        env.var("INDEXER_PLATFORMS_PAGE_LIMIT"@) == Some(decimal(n)) && n < 0x1_0000_0000
            ==> c.indexer_platforms_page_limit == n,
        env.var("INDEXER_PLATFORMS_PAGE_LIMIT"@) == Some(decimal(n)) && n >= 0x1_0000_0000
            ==> c.indexer_platforms_page_limit == 200,
        env.var("LOG_LEVEL"@) matches Some(v) ==> c.log_level@ == v,
        env.var("JWT_KEY_ID"@) matches Some(v) ==> c.jwt_key_id@ == v,
        env.var("JWT_ISSUER"@) matches Some(v) ==> c.jwt_issuer.deep_view() == Some(v),
        env.var("ALLOWED_ORIGINS"@) matches Some(v) ==> texts(c.allowed_origins@) == comma_pieces(v),
        env.var("PLATFORM_STATUS_DENYLIST"@) matches Some(v) ==> !is_blank(v) ==> texts(
            c.platform_status_denylist@,
        ) == comma_list(v),
        env.var("PLATFORM_LINKS_REDIRECT_KEYS"@) matches Some(v) ==> !is_blank(v) ==> texts(
            c.platform_links_redirect_keys@,
        ) == comma_list(v),
        env.var("PLATFORM_STATUS_ALLOWLIST"@) matches Some(v) ==> comma_list(v).len() > 0
            ==> c.platform_status_allowlist is Some && texts(c.platform_status_allowlist->0@)
            == comma_list(v),
        env.var("PLATFORM_STATUS_ALLOWLIST"@) matches Some(v) ==> comma_list(v).len() == 0
            ==> c.platform_status_allowlist is None,
        env.var("REQUIRE_REDIRECT_URI_FROM_LINKS"@) matches Some(v) ==> (
        c.require_redirect_uri_from_links <==> (trimmed(v) == "1"@ || ascii_lowercased(trimmed(v))
            == "true"@ || ascii_lowercased(trimmed(v)) == "yes"@)),
        env.var("ALLOWED_CLIENTS"@) matches Some(v) ==> !is_blank(v) ==> decoded == Some(
            c.allowed_clients_env,
        ),
{
    law_numerals_read_back(n);
    reveal_strlit("1");
    if env.var("REQUIRE_REDIRECT_URI_FROM_LINKS"@) is Some {
        let word = trimmed(env.var("REQUIRE_REDIRECT_URI_FROM_LINKS"@)->0);
        if ascii_lowercased(word) == "1"@ {
            assert(ascii_lowercased(word).len() == word.len());
            law_ascii_lowercase(word, 0);
            assert(word =~= "1"@);
        }
        if word == "1"@ {
            law_ascii_lowercase(word, 0);
            assert(ascii_lowercased(word) =~= "1"@);
        }
    }
}

/// How many conditions an environment has to meet.
pub open spec fn load_condition_count() -> int {
    5
}

/// An environment meets the condition with the number `k`, in the order in which they are checked:
/// the database and the master seed are set, the port and the rate limit, where they are set, are
/// numbers of sixteen bits and of thirty-two bits with a sign, and the JSON of the clients, where
/// there is any, could be decoded.
pub open spec fn loads(env: Environment, decoded: Option<Vec<AllowedClient>>, k: int) -> bool {
    if k == 0 {
        env.var("DATABASE_URL"@) is Some
    } else if k == 1 {
        env.var("MASTER_SEED"@) is Some
    } else if k == 2 {
        env.var("PORT"@) matches Some(v) ==> (natural(v) matches Some(n) && n < 65536)
    } else if k == 3 {
        env.var("RATE_LIMIT"@) matches Some(v) ==> (integer(v) matches Some(n) && -2147483648 <= n
            < 2147483648)
    } else {
        env.var("ALLOWED_CLIENTS"@) matches Some(v) ==> trimmed(v).len() == 0 || decoded is Some
    }
}

/// The number of the condition that an error says is not met.
pub open spec fn broken_load_condition(e: ConfigError) -> int {
    match e {
        ConfigError::MissingDatabaseUrl => 0,
        ConfigError::MissingMasterSeed => 1,
        ConfigError::InvalidPort => 2,
        ConfigError::InvalidRateLimit => 3,
        ConfigError::InvalidAllowedClients => 4,
        _ => -1,
    }
}

/// An environment loads exactly where it meets every condition, and otherwise the error is that of
/// the first condition that it does not meet.
pub proof fn law_what_loads(env: Environment, decoded: Option<Vec<AllowedClient>>)
    ensures
        load_error(env, decoded) is None <==> forall|k: int|
            0 <= k < load_condition_count() ==> #[trigger] loads(env, decoded, k),
        load_error(env, decoded) matches Some(e) ==> {
            &&& 0 <= broken_load_condition(e) < load_condition_count()
            &&& !loads(env, decoded, broken_load_condition(e))
            &&& forall|k: int|
                0 <= k < broken_load_condition(e) ==> #[trigger] loads(env, decoded, k)
        },
{
    reveal_with_fuel(crate::numeral::decimal, 4);
    reveal_strlit("3000");
    reveal_strlit("60");
    assert(decimal(3000) =~= "3000"@);
    assert(decimal(60) =~= "60"@);
    law_numerals_read_back(3000);
    law_numerals_read_back(60);
    match load_error(env, decoded) {
        Some(e) => {
            assert(!loads(env, decoded, broken_load_condition(e)));
        },
        None => {},
    }
    if forall|k: int| 0 <= k < load_condition_count() ==> #[trigger] loads(env, decoded, k) {
        assert(loads(env, decoded, 0) && loads(env, decoded, 1) && loads(env, decoded, 2));
        assert(loads(env, decoded, 3) && loads(env, decoded, 4));
    }
}

/// How many conditions a configuration has to meet.
pub open spec fn condition_count() -> int {
    13
}

/// A configuration meets the condition with the number `k`, in the order in which they are checked.
pub open spec fn meets(c: Config, k: int) -> bool {
    if k == 0 {
        base64_decoded(c.master_seed_base64@) is Some
    } else if k == 1 {
        base64_decoded(c.master_seed_base64@) matches Some(seed) ==> seed.len() >= 32
    } else if k == 2 {
        c.jwt_signing_key matches Some(key) && trimmed(key@).len() > 0
    } else if k == 3 {
        c.jwt_signing_key matches Some(key) ==> base64_decoded(key@) is Some
    } else if k == 4 {
        c.jwt_signing_key matches Some(key) ==> base64_decoded(key@) matches Some(bytes)
            ==> bytes.len() >= 32
    } else if k == 5 {
        trimmed(c.jwt_key_id@).len() > 0
    } else if k == 6 {
        c.jwt_issuer matches Some(issuer) && trimmed(issuer@).len() > 0
    } else if k == 7 {
        "postgresql://"@.is_prefix_of(c.database_url@) || "postgres://"@.is_prefix_of(
            c.database_url@,
        )
    } else if k == 8 {
        c.allowed_audience_google matches Some(audience) && audience@.len() > 0
    } else if k == 9 {
        c.allowed_audience_apple matches Some(audience) && audience@.len() > 0
    } else if k == 10 {
        c.facebook_app_id is Some ==> (c.allowed_audience_facebook matches Some(audience)
            && audience@.len() > 0)
    } else if k == 11 {
        c.twitch_client_id is Some ==> (c.allowed_audience_twitch matches Some(audience)
            && audience@.len() > 0)
    } else {
        (c.auth_callback_url matches Some(url) && trimmed(url@).len() > 0) || forall|i: int|
            0 <= i < c.allowed_clients@.len() ==> trimmed(
                #[trigger] c.allowed_clients@[i].redirect_uri@,
            ).len() > 0
    }
}

/// The number of the condition that an error says is not met.
pub open spec fn broken_condition(e: ConfigError) -> int {
    match e {
        ConfigError::InvalidMasterSeed => 0,
        ConfigError::ShortMasterSeed => 1,
        ConfigError::MissingSigningKey => 2,
        ConfigError::InvalidSigningKey => 3,
        ConfigError::ShortSigningKey => 4,
        ConfigError::EmptyKeyId => 5,
        ConfigError::EmptyIssuer => 6,
        ConfigError::NotPostgres => 7,
        ConfigError::MissingGoogleAudience => 8,
        ConfigError::MissingAppleAudience => 9,
        ConfigError::MissingFacebookAudience => 10,
        ConfigError::MissingTwitchAudience => 11,
        ConfigError::MissingRedirectUri { .. } => 12,
        _ => -1,
    }
}

/// Where some client lacks a `redirect_uri`, the first such client is found.
proof fn lemma_first_without_redirect(clients: Seq<AllowedClient>)
    ensures
        match first_without_redirect(clients) {
            Some(client) => exists|i: int|
                0 <= i < clients.len() && #[trigger] clients[i] == client && is_blank(
                    clients[i].redirect_uri@,
                ) && forall|j: int| 0 <= j < i ==> !is_blank(#[trigger] clients[j].redirect_uri@),
            None => forall|i: int|
                0 <= i < clients.len() ==> !is_blank(#[trigger] clients[i].redirect_uri@),
        },
    decreases clients.len(),
{
    if clients.len() > 0 {
        if is_blank(clients[0].redirect_uri@) {
            assert(clients[0] == first_without_redirect(clients)->0);
        } else {
            let rest = clients.drop_first();
            lemma_first_without_redirect(rest);
            match first_without_redirect(rest) {
                Some(client) => {
                    let i = choose|i: int|
                        0 <= i < rest.len() && #[trigger] rest[i] == client && is_blank(
                            rest[i].redirect_uri@,
                        ) && forall|j: int|
                            0 <= j < i ==> !is_blank(#[trigger] rest[j].redirect_uri@);
                    assert(clients[i + 1] == client);
                    assert forall|j: int| 0 <= j < i + 1 implies !is_blank(
                        #[trigger] clients[j].redirect_uri@,
                    ) by {
                        if j > 0 {
                            assert(clients[j] == rest[j - 1]);
                            assert(!is_blank(rest[j - 1].redirect_uri@));
                        }
                    }
                },
                None => {
                    assert forall|i: int| 0 <= i < clients.len() implies !is_blank(
                        #[trigger] clients[i].redirect_uri@,
                    ) by {
                        if i > 0 {
                            assert(clients[i] == rest[i - 1]);
                            assert(!is_blank(rest[i - 1].redirect_uri@));
                        }
                    }
                },
            }
        }
    }
}

/// A configuration is usable exactly where it meets every condition, and otherwise the error is
/// that of the first condition that it does not meet. A client that an error names has no
/// `redirect_uri`, and every client before it has one.
pub proof fn law_usable_exactly(c: Config)
    ensures
        validation_error(c) is None <==> forall|k: int|
            0 <= k < condition_count() ==> #[trigger] meets(c, k),
        validation_error(c) matches Some(e) ==> {
            &&& 0 <= broken_condition(e) < condition_count()
            &&& !meets(c, broken_condition(e))
            &&& forall|k: int| 0 <= k < broken_condition(e) ==> #[trigger] meets(c, k)
            &&& e matches ConfigError::MissingRedirectUri { client_id } ==> exists|i: int|
                0 <= i < c.allowed_clients@.len() && (#[trigger] c.allowed_clients@[i]).client_id
                    == client_id && trimmed(c.allowed_clients@[i].redirect_uri@).len() == 0
                    && forall|j: int|
                    0 <= j < i ==> trimmed(#[trigger] c.allowed_clients@[j].redirect_uri@).len() > 0
        },
{
    lemma_first_without_redirect(c.allowed_clients@);
    match validation_error(c) {
        None => {},
        Some(e) => {
            assert(!meets(c, broken_condition(e)));
        },
    }
    if forall|k: int| 0 <= k < condition_count() ==> #[trigger] meets(c, k) {
        assert(meets(c, 0) && meets(c, 1) && meets(c, 2) && meets(c, 3) && meets(c, 4));
        assert(meets(c, 5) && meets(c, 6) && meets(c, 7) && meets(c, 8) && meets(c, 9));
        assert(meets(c, 10) && meets(c, 11) && meets(c, 12));
    }
}

/// In a usable configuration each provider that is configured has an audience that is not empty:
/// Google and Apple always, Facebook with its app ID and Twitch with its client ID.
pub proof fn law_usable_config_has_audiences(c: Config)
    requires
        validation_error(c) is None,
    ensures
        c.allowed_audience_google matches Some(audience) && audience@.len() > 0,
        c.allowed_audience_apple matches Some(audience) && audience@.len() > 0,
        c.facebook_app_id is Some ==> (c.allowed_audience_facebook matches Some(audience)
            && audience@.len() > 0),
        c.twitch_client_id is Some ==> (c.allowed_audience_twitch matches Some(audience)
            && audience@.len() > 0),
{
}

/// Where no Facebook app ID is configured, the Facebook audience has no say in whether a
/// configuration is usable or in what is wrong with it; and the Twitch audience has none where no
/// Twitch client ID is configured.
pub proof fn law_audience_counts_only_with_its_client(
    c: Config,
    facebook: Option<String>,
    twitch: Option<String>,
)
    ensures
        c.facebook_app_id is None ==> validation_error(
            (Config { allowed_audience_facebook: facebook, ..c }),
        ) == validation_error(c),
        c.twitch_client_id is None ==> validation_error(
            (Config { allowed_audience_twitch: twitch, ..c }),
        ) == validation_error(c),
        c.twitch_client_id is Some && is_nonempty(c.allowed_audience_twitch.deep_view())
            && c.facebook_app_id is None ==> validation_error(c) == validation_error(
            (Config { twitch_client_id: None, allowed_audience_facebook: facebook, ..c }),
        ),
{
}

/// White space around a redirect URI and slashes at its end make no difference, and nothing else
/// is left out.
pub proof fn law_canonical_uri(
    left: Seq<char>,
    uri: Seq<char>,
    slashes: Seq<char>,
    right: Seq<char>,
)
    requires
        all_white(left),
        all_white(right),
        forall|i: int| 0 <= i < slashes.len() ==> #[trigger] slashes[i] == '/',
        uri.len() > 0 ==> !is_white_space(uri[0]) && !is_white_space(uri.last()) && uri.last() != '/',
    ensures
        canonical_uri(left + (uri + slashes) + right) == uri,
{
    let s = uri + slashes;
    if s.len() > 0 {
        if slashes.len() > 0 {
            assert(s.last() == slashes[slashes.len() - 1]);
            assert(uri.len() == 0 ==> s[0] == slashes[0]);
        } else {
            assert(s =~= uri);
        }
    }
    law_trimming_ignores_white_space(left, s, right);
    law_trailing_slashes_do_not_count(uri, slashes);
}

/// White space around a redirect URI is left out once and for all.
proof fn lemma_canonical_of_trimmed(s: Seq<char>)
    ensures
        canonical_uri(trimmed(s)) == canonical_uri(s),
        is_blank(s) ==> canonical_uri(s).len() == 0,
{
    law_trimmed(s);
    lemma_strip_end(trimmed(s), |c: char| c == '/');
}

/// The `redirect_uri` of a token exchange is the one that the request names, in its canonical form,
/// whenever the request names one of which anything is left in that form. Only else is it the
/// client's own, where that is not blank, and only where that is blank the global callback, each in
/// its canonical form too.
pub proof fn law_request_names_the_uri(
    requested: Option<Seq<char>>,
    client_uri: Seq<char>,
    callback: Option<Seq<char>>,
)
    ensures
        ({
            let resolved = resolved_uri(requested, client_uri, callback);
            let named = requested matches Some(r) && canonical_uri(r).len() > 0;
            &&& named ==> (resolved matches Ok(uri) ==> uri == canonical_uri(requested->0))
            &&& named && (callback matches Some(url) ==> canonical_uri(url).len() == 0) ==> resolved
                is Ok
            &&& !named && !is_blank(client_uri) ==> (resolved is Ok <==> canonical_uri(
                client_uri,
            ).len() > 0)
            &&& !named && !is_blank(client_uri) ==> (resolved matches Ok(uri) ==> uri
                == canonical_uri(client_uri))
            &&& !named && is_blank(client_uri) ==> (resolved is Ok <==> (callback matches Some(
                url,
            ) && canonical_uri(url).len() > 0))
            &&& !named && is_blank(client_uri) ==> (resolved matches Ok(uri) ==> callback
                matches Some(url) && uri == canonical_uri(url))
        }),
{
    lemma_canonical_of_trimmed(client_uri);
    if callback is Some {
        lemma_canonical_of_trimmed(callback->0);
    }
}

/// The URI for an exchange without a requested one is the client's own where that is not blank, and
/// the global callback only where it is, without white space around it; there is none exactly where
/// both are blank or lack.
pub proof fn law_client_uri_before_callback(client_uri: Seq<char>, callback: Option<Seq<char>>)
    ensures
        trimmed(client_uri).len() > 0 ==> exchange_uri(client_uri, callback) == Some(
            trimmed(client_uri),
        ),
        trimmed(client_uri).len() == 0 ==> (callback matches Some(url) ==> trimmed(url).len() > 0
            ==> exchange_uri(client_uri, callback) == Some(trimmed(url))),
        exchange_uri(client_uri, callback) is None <==> trimmed(client_uri).len() == 0 && (callback
            matches Some(url) ==> trimmed(url).len() == 0),
{
}

/// The text about a URI that does not match tells the one that it got and the one that it expected.
pub proof fn law_mismatch_tells_both(uri: Seq<char>, expected: Seq<char>)
    ensures
        occurs_in(mismatch_text(uri, expected), "(got "@ + uri),
        occurs_in(mismatch_text(uri, expected), ", expected "@ + expected),
{
    let text = mismatch_text(uri, expected);
    let start = "redirect_uri mismatch: must match AUTH_CALLBACK_URL for token exchange (got "@;
    reveal_strlit("redirect_uri mismatch: must match AUTH_CALLBACK_URL for token exchange (got ");
    reveal_strlit("(got ");
    let cut = start.len() - 5;
    assert(start.skip(cut) =~= "(got "@);
    assert(text =~= start.take(cut) + ("(got "@ + uri) + (", expected "@ + expected + ")"@));
    law_occurrence(text, "(got "@ + uri);
    assert(text =~= (start + uri) + (", expected "@ + expected) + ")"@);
    law_occurrence(text, ", expected "@ + expected);
}

/// The error about a client without a `redirect_uri` names the client.
pub proof fn law_missing_uri_names_the_client(client_id: String)
    ensures
        occurs_in(
            (ConfigError::MissingRedirectUri { client_id }).text(),
            debug_quoted(client_id@),
        ),
{
    law_occurrence(
        (ConfigError::MissingRedirectUri { client_id }).text(),
        debug_quoted(client_id@),
    );
}

} // verus!
