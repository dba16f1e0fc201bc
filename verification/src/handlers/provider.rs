//! `POST /auth/provider/callback`: turns an OAuth code into a salt and a session.

use vstd::prelude::*;
use vstd::string::*;

use super::get_salt::{law_answer_is_the_access, SaltGate, SaltOutcomes};
use super::salt::{is_salt_len, salt_decimal, salt_to_bigint_string};
use super::session::{
    is_opened, law_opened_session_is_the_users, open_session, session_signing, OpenedSession,
};
use super::{
    client_with, find_client, gate_refusal, pass_gate, rate_of, rate_query, refusal, refuse,
    uncounted, AuditRecord, AuditView, Failure, GateRefusal, GateRefusalView, RateQuery, Refusal,
    RefusalView, TokenIdentity,
};
use crate::config::{
    canonical_uri, is_filled, law_request_names_the_uri, law_requested_uri_is_the_callback,
    law_resolved_uri_is_canonical, resolve_oauth_redirect_uri_for_token_exchange, resolved_uri,
    validation_error, AllowedClient, Config,
};
use crate::db::salts::{
    law_later_access_agrees, new_row, new_user_salt, row_of, NewUserSalt, SaltAccess, SaltRow,
    SaltTable,
};
use crate::foreign::{lowercase, lowercased};
use crate::json::{text_entry, JsonValue, JsonView};
use crate::models::{
    ActionType, AuthCallbackRequest, AuthCallbackResponse, AuthExchangeResponse, JwtClaims,
    UserSalt,
};
use crate::security::session_token::{
    is_issued, refresh_hash, SessionClaims, ACCESS_TOKEN_EXPIRY_SECS,
};
use crate::text::{
    blank, contains, is_blank, law_occurrence, occurs_in, same_text, starts_with, text_in, trim,
    trimmed,
};

verus! {

/// The text is there and is this one.
fn is_text(o: &Option<String>, text: &str) -> (r: bool)
    ensures
        r == (o.deep_view() == Some(text@)),
{
    match o {
        Some(s) => same_text(s.as_str(), text),
        None => false,
    }
}

/// The provider of a callback: the one that the request names, else the one whose audience the
/// client ID is.
pub open spec fn provider_of(request: AuthCallbackRequest, config: Config) -> Option<Seq<char>> {
    let client = Some(trimmed(request.client_id@));
    if request.provider is Some && lowercased(trimmed(request.provider->0@)).len() > 0 {
        Some(lowercased(trimmed(request.provider->0@)))
    } else if config.allowed_audience_google.deep_view() == client {
        Some("google"@)
    } else if config.allowed_audience_apple.deep_view() == client {
        Some("apple"@)
    } else if config.allowed_audience_facebook.deep_view() == client {
        Some("facebook"@)
    } else if config.allowed_audience_twitch.deep_view() == client {
        Some("twitch"@)
    } else {
        None
    }
}

/// Resolves the provider from the request, or infers it from the client ID.
pub fn resolve_provider(request: &AuthCallbackRequest, config: &Config) -> (r: Result<
    String,
    String,
>)
    ensures
        match provider_of(*request, *config) {
            Some(name) => r matches Ok(s) && s@ == name,
            None => r matches Err(e) && e@
                == "Could not determine provider. Set provider in request or use client_id that matches an ALLOWED_AUDIENCE_* value."@,
        },
{
    match &request.provider {
        Some(name) => {
            let name = lowercase(trim(name.as_str()));
            if !name.as_str().is_empty() {
                return Ok(name);
            }
        },
        None => {},
    }
    let client = trim(request.client_id.as_str());
    if is_text(&config.allowed_audience_google, client) {
        return Ok("google".to_owned());
    }
    if is_text(&config.allowed_audience_apple, client) {
        return Ok("apple".to_owned());
    }
    if is_text(&config.allowed_audience_facebook, client) {
        return Ok("facebook".to_owned());
    }
    if is_text(&config.allowed_audience_twitch, client) {
        return Ok("twitch".to_owned());
    }
    Err(
        "Could not determine provider. Set provider in request or use client_id that matches an ALLOWED_AUDIENCE_* value.".to_owned(),
    )
}

/// A configured text, else another one, else an error text.
pub open spec fn either_or(
    first: Option<String>,
    second: Option<String>,
    missing: Seq<char>,
) -> Result<Seq<char>, Seq<char>> {
    match (first, second) {
        (Some(s), _) => Ok(s@),
        (None, Some(s)) => Ok(s@),
        (None, None) => Err(missing),
    }
}

/// The client ID of a provider's OAuth flow, which is the configured one.
pub open spec fn oauth_client_id(provider: Seq<char>, config: Config) -> Result<
    Seq<char>,
    Seq<char>,
> {
    let name = lowercased(provider);
    if name == "google"@ {
        either_or(
            config.allowed_audience_google,
            None,
            "ALLOWED_AUDIENCE_GOOGLE not configured"@,
        )
    } else if name == "apple"@ {
        either_or(config.allowed_audience_apple, None, "ALLOWED_AUDIENCE_APPLE not configured"@)
    } else if name == "facebook"@ {
        either_or(
            config.allowed_audience_facebook,
            config.facebook_app_id,
            "ALLOWED_AUDIENCE_FACEBOOK or FACEBOOK_APP_ID not configured"@,
        )
    } else if name == "twitch"@ {
        either_or(
            config.allowed_audience_twitch,
            config.twitch_client_id,
            "ALLOWED_AUDIENCE_TWITCH or TWITCH_CLIENT_ID not configured"@,
        )
    } else {
        Err("Unknown provider: "@ + provider)
    }
}

/// A configured text, else another one, else an error text.
fn configured(first: &Option<String>, second: &Option<String>, missing: &str) -> (r: Result<
    String,
    String,
>)
    ensures
        match either_or(*first, *second, missing@) {
            Ok(id) => r matches Ok(s) && s@ == id,
            Err(text) => r matches Err(e) && e@ == text,
        },
{
    match first {
        Some(s) => Ok(s.clone()),
        None => match second {
            Some(s) => Ok(s.clone()),
            None => Err(missing.to_owned()),
        },
    }
}

/// The OAuth client ID for the token exchange. The auth frontend uses the provider's client ID of
/// the configuration for the OAuth request, so the exchange uses the same, whatever client ID the
/// request has.
pub fn get_oauth_client_id_for_provider(
    provider: &str,
    _request_client_id: &str,
    config: &Config,
) -> (r: Result<String, String>)
    ensures
        match oauth_client_id(provider@, *config) {
            Ok(id) => r matches Ok(s) && s@ == id,
            Err(text) => r matches Err(e) && e@ == text,
        },
{
    let name = lowercase(provider);
    if same_text(name.as_str(), "google") {
        configured(
            &config.allowed_audience_google,
            &None,
            "ALLOWED_AUDIENCE_GOOGLE not configured",
        )
    } else if same_text(name.as_str(), "apple") {
        configured(&config.allowed_audience_apple, &None, "ALLOWED_AUDIENCE_APPLE not configured")
    } else if same_text(name.as_str(), "facebook") {
        configured(
            &config.allowed_audience_facebook,
            &config.facebook_app_id,
            "ALLOWED_AUDIENCE_FACEBOOK or FACEBOOK_APP_ID not configured",
        )
    } else if same_text(name.as_str(), "twitch") {
        configured(
            &config.allowed_audience_twitch,
            &config.twitch_client_id,
            "ALLOWED_AUDIENCE_TWITCH or TWITCH_CLIENT_ID not configured",
        )
    } else {
        Err("Unknown provider: ".to_owned().concat(provider))
    }
}

/// A callback that waits for the rate limiter.
#[derive(Debug)]
pub struct CallbackGate {
    pub request: AuthCallbackRequest,
    pub ip_address: String,
}

/// With what the code is exchanged for tokens.
#[derive(Debug)]
pub struct CodeExchange {
    pub provider: String,
    pub oauth_client_id: String,
    pub redirect_uri: String,
}

/// With what the code is exchanged for tokens.
pub struct CodeExchangeView {
    pub provider: Seq<char>,
    pub oauth_client_id: Seq<char>,
    pub redirect_uri: Seq<char>,
}

impl View for CodeExchange {
    type V = CodeExchangeView;

    open spec fn view(&self) -> CodeExchangeView {
        CodeExchangeView {
            provider: self.provider@,
            oauth_client_id: self.oauth_client_id@,
            redirect_uri: self.redirect_uri@,
        }
    }
}

/// A callback that waits for the exchange of its code.
#[derive(Debug)]
pub struct CallbackExchange {
    pub request: AuthCallbackRequest,
    pub ip_address: String,
    pub exchange: CodeExchange,
}

/// How the token of a callback is checked.
#[derive(Debug)]
pub enum CallbackCheck {
    /// As a JWT.
    IdToken,
    /// As an access token, at a provider.
    AccessToken { provider: String },
}

/// How the token of a callback is checked.
pub enum CallbackCheckView {
    IdToken,
    AccessToken(Seq<char>),
}

impl View for CallbackCheck {
    type V = CallbackCheckView;

    open spec fn view(&self) -> CallbackCheckView {
        match self {
            CallbackCheck::IdToken => CallbackCheckView::IdToken,
            CallbackCheck::AccessToken { provider } => CallbackCheckView::AccessToken(provider@),
        }
    }
}

/// A callback that waits for the check of its token.
#[derive(Debug)]
pub struct CallbackToken {
    pub request: AuthCallbackRequest,
    pub ip_address: String,
    pub exchange: CodeExchange,
    pub tokens: AuthExchangeResponse,
    pub check: CallbackCheck,
}

/// Who calls back, and with what.
#[derive(Debug)]
pub struct CallbackUser {
    pub request: AuthCallbackRequest,
    pub ip_address: String,
    pub exchange: CodeExchange,
    pub tokens: AuthExchangeResponse,
    pub claims: JwtClaims,
    pub user_identifier: String,
    pub token_hash: String,
}

/// A callback that waits for the lookup of the user's salt.
#[derive(Debug)]
pub struct CallbackLookup {
    pub user: CallbackUser,
}

/// A callback that waits for a new salt.
#[derive(Debug)]
pub struct CallbackMissing {
    pub user: CallbackUser,
}

/// A callback that waits for the encryption of the new salt.
#[derive(Debug)]
pub struct CallbackGenerated {
    pub user: CallbackUser,
    pub salt: Vec<u8>,
}

/// A callback that waits for the new salt to be stored.
#[derive(Debug)]
pub struct CallbackEncrypted {
    pub user: CallbackUser,
    pub encrypted: Vec<u8>,
}

/// A callback that waits for the decryption of the stored salt.
#[derive(Debug)]
pub struct CallbackStored {
    pub user: CallbackUser,
    pub stored: UserSalt,
}

/// What the lookup of a salt leads to.
#[derive(Debug)]
pub enum CallbackFound {
    Existing(CallbackStored),
    Missing(CallbackMissing),
}

/// A callback that has its salt, and waits for the wallet address.
#[derive(Debug)]
pub struct CallbackSalted {
    pub user: CallbackUser,
    pub salt: String,
}

/// A callback that has its session, and waits for it to be stored.
#[derive(Debug)]
pub struct CallbackSession {
    pub user: CallbackUser,
    pub salt: String,
    pub wallet_address: String,
    pub session: OpenedSession,
}

/// Takes a callback.
pub fn auth_provider_callback(request: AuthCallbackRequest, ip_address: String) -> (r: CallbackGate)
    ensures
        r == (CallbackGate { request, ip_address }),
{
    CallbackGate { request, ip_address }
}

/// With what the code of a callback is exchanged, or how the callback is refused.
pub open spec fn exchange_of(request: AuthCallbackRequest, config: Config) -> Result<
    CodeExchangeView,
    RefusalView,
> {
    match client_with(config.allowed_clients@, request.client_id@) {
        None => Err(refusal(400, "Unknown client"@)),
        Some(client) => match provider_of(request, config) {
            None => Err(
                refusal(
                    400,
                    "Could not determine provider. Set provider in request or use client_id that matches an ALLOWED_AUDIENCE_* value."@,
                ),
            ),
            Some(provider) => match oauth_client_id(provider, config) {
                Err(text) => Err(refusal(400, text)),
                Ok(oauth_client_id) => match resolved_uri(
                    request.redirect_uri.deep_view(),
                    client.redirect_uri@,
                    config.auth_callback_url.deep_view(),
                ) {
                    Ok(redirect_uri) => Ok(
                        CodeExchangeView { provider, oauth_client_id, redirect_uri },
                    ),
                    Err(text) => Err(
                        refusal(
                            if "redirect_uri mismatch:"@.is_prefix_of(text) {
                                400
                            } else {
                                500
                            },
                            text,
                        ),
                    ),
                },
            },
        },
    }
}

/// Decides with what the code of a callback is exchanged.
fn code_exchange(request: &AuthCallbackRequest, config: &Config) -> (r: Result<
    CodeExchange,
    Refusal,
>)
    ensures
        match exchange_of(*request, *config) {
            Ok(exchange) => r matches Ok(x) && x@ == exchange,
            Err(refused) => r matches Err(e) && e@ == refused,
        },
{
    let client = match find_client(&config.allowed_clients, request.client_id.as_str()) {
        Some(client) => client,
        None => return Err(refuse(400, "Unknown client")),
    };
    let provider = match resolve_provider(request, config) {
        Ok(provider) => provider,
        Err(message) => return Err(Refusal { status: 400, message }),
    };
    let oauth_client_id = match get_oauth_client_id_for_provider(
        provider.as_str(),
        request.client_id.as_str(),
        config,
    ) {
        Ok(id) => id,
        Err(message) => return Err(Refusal { status: 400, message }),
    };
    match resolve_oauth_redirect_uri_for_token_exchange(
        text_in(&request.redirect_uri),
        client,
        text_in(&config.auth_callback_url),
    ) {
        Ok(redirect_uri) => Ok(CodeExchange { provider, oauth_client_id, redirect_uri }),
        Err(message) => {
            let status: u16 = if starts_with(message.as_str(), "redirect_uri mismatch:") {
                400
            } else {
                500
            };
            Err(Refusal { status, message })
        },
    }
}

impl CallbackGate {
    /// What the rate limiter is asked.
    pub fn rate_query(&self, config: &Config) -> (r: RateQuery)
        ensures
            r@ == rate_of(self.ip_address@, *config),
            r.identifier@ == self.ip_address@,
            r.window_minutes == 1,
            r.max_requests == config.rate_limit_per_minute,
    {
        rate_query(self.ip_address.as_str(), config)
    }

    /// What follows the answer of the rate limiter.
    pub open spec fn after_rate_limit(self, outcome: Result<bool, Failure>, config: Config) -> Result<
        CodeExchangeView,
        GateRefusalView,
    > {
        match gate_refusal(outcome) {
            Some(refused) => Err(refused),
            None => match exchange_of(self.request, config) {
                Ok(exchange) => Ok(exchange),
                Err(refused) => Err(uncounted(refused)),
            },
        }
    }

    /// `r` is the next stage, which carries the request on, or how the callback is refused.
    pub open spec fn leads_to(
        self,
        outcome: Result<bool, Failure>,
        config: Config,
        r: Result<CallbackExchange, GateRefusal>,
    ) -> bool {
        match self.after_rate_limit(outcome, config) {
            Ok(exchange) => r matches Ok(next) && next.request == self.request && next.ip_address
                == self.ip_address && next.exchange@ == exchange,
            Err(refused) => r matches Err(e) && e@ == refused,
        }
    }

    /// Takes the answer of the rate limiter.
    pub fn on_rate_limit(self, outcome: Result<bool, Failure>, config: &Config) -> (r: Result<
        CallbackExchange,
        GateRefusal,
    >)
        ensures
            self.leads_to(outcome, *config, r),
    {
        match pass_gate(outcome) {
            Ok(_) => {},
            Err(refused) => return Err(refused),
        }
        match code_exchange(&self.request, config) {
            Ok(exchange) => Ok(
                CallbackExchange { request: self.request, ip_address: self.ip_address, exchange },
            ),
            Err(refusal) => Err(GateRefusal { counted: None, refusal }),
        }
    }
}

/// The provider that the user object of an exchange names.
pub open spec fn user_provider(user: Option<JsonView>) -> Seq<char> {
    match user {
        None => "unknown"@,
        Some(object) => {
            let named = match object.member("provider"@) {
                Some(v) => Some(v),
                None => object.member("iss"@),
            };
            match named {
                Some(JsonView::Text(name)) => if occurs_in(name, "facebook"@) {
                    "facebook"@
                } else if occurs_in(name, "twitch"@) {
                    "twitch"@
                } else {
                    name
                },
                _ => "unknown"@,
            }
        },
    }
}

/// The provider that the user object of an exchange names.
pub fn provider_of_user(user: &Option<JsonValue>) -> (r: String)
    ensures
        r@ == user_provider(user.deep_view()),
{
    let object = match user {
        Some(object) => object,
        None => return "unknown".to_owned(),
    };
    let named = match object.get("provider") {
        Some(v) => Some(v),
        None => object.get("iss"),
    };
    match named {
        Some(v) => match v.as_str() {
            Some(name) => if contains(name, "facebook") {
                "facebook".to_owned()
            } else if contains(name, "twitch") {
                "twitch".to_owned()
            } else {
                name.to_owned()
            },
            None => "unknown".to_owned(),
        },
        None => "unknown".to_owned(),
    }
}

/// How the tokens of an exchange are checked, or how the callback is refused. Google and Apple
/// have to give an ID token.
pub open spec fn token_check(tokens: AuthExchangeResponse) -> Result<
    CallbackCheckView,
    RefusalView,
> {
    if tokens.id_token is Some {
        Ok(CallbackCheckView::IdToken)
    } else if tokens.access_token is Some {
        let provider = user_provider(tokens.user.deep_view());
        if lowercased(provider) == "apple"@ || lowercased(provider) == "google"@ {
            Err(refusal(400, "id_token required for Google/Apple"@))
        } else {
            Ok(CallbackCheckView::AccessToken(provider))
        }
    } else {
        Err(refusal(502, "Auth response missing id_token and access_token"@))
    }
}

/// Decides how the tokens of an exchange are checked.
fn check_of(tokens: &AuthExchangeResponse) -> (r: Result<CallbackCheck, Refusal>)
    ensures
        match token_check(*tokens) {
            Ok(check) => r matches Ok(c) && c@ == check,
            Err(refused) => r matches Err(e) && e@ == refused,
        },
{
    if tokens.id_token.is_some() {
        return Ok(CallbackCheck::IdToken);
    }
    if tokens.access_token.is_none() {
        return Err(refuse(502, "Auth response missing id_token and access_token"));
    }
    let provider = provider_of_user(&tokens.user);
    let name = lowercase(provider.as_str());
    if same_text(name.as_str(), "apple") || same_text(name.as_str(), "google") {
        return Err(refuse(400, "id_token required for Google/Apple"));
    }
    Ok(CallbackCheck::AccessToken { provider })
}

impl CallbackExchange {
    /// `r` is the next stage, which carries the tokens, or how the callback is refused.
    pub open spec fn leads_to(
        self,
        outcome: Result<AuthExchangeResponse, String>,
        r: Result<CallbackToken, Refusal>,
    ) -> bool {
        match outcome {
            Err(error) => r matches Err(e) && e@ == refusal(
                502,
                "Auth exchange failed: "@ + error@,
            ),
            Ok(tokens) => match token_check(tokens) {
                Err(refused) => r matches Err(e) && e@ == refused,
                Ok(check) => r matches Ok(next) && {
                    &&& next.request == self.request
                    &&& next.ip_address == self.ip_address
                    &&& next.exchange == self.exchange
                    &&& next.tokens == tokens
                    &&& next.check@ == check
                },
            },
        }
    }

    /// Takes what the exchange of the code gave, or why it failed.
    pub fn on_exchange(self, outcome: Result<AuthExchangeResponse, String>) -> (r: Result<
        CallbackToken,
        Refusal,
    >)
        ensures
            self.leads_to(outcome, r),
    {
        let tokens = match outcome {
            Ok(tokens) => tokens,
            Err(error) => {
                let message = "Auth exchange failed: ".to_owned().concat(error.as_str());
                return Err(Refusal { status: 502, message });
            },
        };
        match check_of(&tokens) {
            Ok(check) => Ok(
                CallbackToken {
                    request: self.request,
                    ip_address: self.ip_address,
                    exchange: self.exchange,
                    tokens,
                    check,
                },
            ),
            Err(refused) => Err(refused),
        }
    }
}

/// The token that an exchange gives: the ID token, else the access token.
pub open spec fn token_of(tokens: AuthExchangeResponse) -> Seq<char> {
    match (tokens.id_token, tokens.access_token) {
        (Some(token), _) => token@,
        (None, Some(token)) => token@,
        (None, None) => Seq::empty(),
    }
}

/// The token that an exchange gives: the ID token, else the access token.
fn given_token(tokens: &AuthExchangeResponse) -> (r: String)
    ensures
        r@ == token_of(*tokens),
{
    match &tokens.id_token {
        Some(token) => token.clone(),
        None => match &tokens.access_token {
            Some(token) => token.clone(),
            None => String::new(),
        },
    }
}

/// A provider whose ID tokens carry the nonce of the request.
pub open spec fn needs_nonce(provider: Seq<char>) -> bool {
    provider == "google"@ || provider == "apple"@
}

impl CallbackToken {
    /// The token to check.
    pub fn token(&self) -> (r: String)
        ensures
            r@ == token_of(self.tokens),
    {
        given_token(&self.tokens)
    }

    /// What is said of a token that is not valid.
    pub open spec fn invalid_token_text(self, error: Seq<char>) -> Seq<char> {
        match self.check@ {
            CallbackCheckView::IdToken => "Invalid JWT: "@ + error,
            CallbackCheckView::AccessToken(provider) => "Invalid token for provider "@ + provider
                + ": "@ + error,
        }
    }

    /// How the nonce of an ID token is refused, if it is: the request has to name one, and the
    /// token has to carry that one.
    pub open spec fn nonce_refusal(self, claims: JwtClaims) -> Option<RefusalView> {
        if !needs_nonce(self.exchange.provider@) {
            None
        } else if !is_filled(self.request.nonce.deep_view()) {
            Some(refusal(400, "nonce is required"@))
        } else if claims.nonce.deep_view() != self.request.nonce.deep_view() {
            Some(refusal(401, "Invalid nonce"@))
        } else {
            None
        }
    }

    /// What follows the check of the token, of which `token_hash` is the hash for the audit log.
    pub open spec fn after_check(
        self,
        outcome: Result<TokenIdentity, String>,
        token_hash: String,
    ) -> Result<CallbackLookup, RefusalView> {
        match outcome {
            Err(error) => Err(refusal(401, self.invalid_token_text(error@))),
            Ok(identity) => match self.nonce_refusal(identity.claims) {
                Some(refused) => Err(refused),
                None => Ok(
                    CallbackLookup {
                        user: CallbackUser {
                            request: self.request,
                            ip_address: self.ip_address,
                            exchange: self.exchange,
                            tokens: self.tokens,
                            claims: identity.claims,
                            user_identifier: identity.user_identifier,
                            token_hash,
                        },
                    },
                ),
            },
        }
    }

    /// Takes the outcome of the token check: who the token speaks for, or why it is not valid.
    pub fn on_check(self, outcome: Result<TokenIdentity, String>, token_hash: String) -> (r: Result<
        CallbackLookup,
        Refusal,
    >)
        ensures
            ends_as(r, self.after_check(outcome, token_hash)),
    {
        let identity = match outcome {
            Ok(identity) => identity,
            Err(error) => {
                let message = match &self.check {
                    CallbackCheck::IdToken => "Invalid JWT: ".to_owned().concat(error.as_str()),
                    CallbackCheck::AccessToken { provider } =>
                        "Invalid token for provider ".to_owned().concat(provider.as_str()).concat(
                            ": ",
                        ).concat(error.as_str()),
                };
                return Err(Refusal { status: 401, message });
            },
        };
        if same_text(self.exchange.provider.as_str(), "google") || same_text(
            self.exchange.provider.as_str(),
            "apple",
        ) {
            match &self.request.nonce {
                None => return Err(refuse(400, "nonce is required")),
                Some(nonce) => {
                    if blank(nonce.as_str()) {
                        return Err(refuse(400, "nonce is required"));
                    }
                    if !is_text(&identity.claims.nonce, nonce.as_str()) {
                        return Err(refuse(401, "Invalid nonce"));
                    }
                },
            }
        }
        Ok(
            CallbackLookup {
                user: CallbackUser {
                    request: self.request,
                    ip_address: self.ip_address,
                    exchange: self.exchange,
                    tokens: self.tokens,
                    claims: identity.claims,
                    user_identifier: identity.user_identifier,
                    token_hash,
                },
            },
        )
    }
}

/// A stage ends as it is said to: with this next stage, or with this refusal.
pub open spec fn ends_as<S>(r: Result<S, Refusal>, expected: Result<S, RefusalView>) -> bool {
    match (r, expected) {
        (Ok(next), Ok(wanted)) => next == wanted,
        (Err(refused), Err(wanted)) => refused@ == wanted,
        _ => false,
    }
}

impl CallbackLookup {
    /// What follows the lookup of the user's salt.
    pub open spec fn after_lookup(self, outcome: Result<Option<UserSalt>, String>) -> Result<
        CallbackFound,
        RefusalView,
    > {
        match outcome {
            Err(error) => Err(refusal(500, "Database error: "@ + error@)),
            Ok(Some(stored)) => Ok(
                CallbackFound::Existing(CallbackStored { user: self.user, stored }),
            ),
            Ok(None) => Ok(CallbackFound::Missing(CallbackMissing { user: self.user })),
        }
    }

    /// Takes what the lookup of the user's salt gave, or why it failed.
    pub fn on_lookup(self, outcome: Result<Option<UserSalt>, String>) -> (r: Result<
        CallbackFound,
        Refusal,
    >)
        ensures
            ends_as(r, self.after_lookup(outcome)),
    {
        match outcome {
            Err(error) => {
                let message = "Database error: ".to_owned().concat(error.as_str());
                Err(Refusal { status: 500, message })
            },
            Ok(Some(stored)) => Ok(
                CallbackFound::Existing(CallbackStored { user: self.user, stored }),
            ),
            Ok(None) => Ok(CallbackFound::Missing(CallbackMissing { user: self.user })),
        }
    }
}

impl CallbackMissing {
    /// What follows the generation of a salt.
    pub open spec fn after_generation(self, outcome: Result<Vec<u8>, Failure>) -> Result<
        CallbackGenerated,
        RefusalView,
    > {
        match outcome {
            Err(_) => Err(refusal(500, "Salt generation error"@)),
            Ok(salt) => Ok(CallbackGenerated { user: self.user, salt }),
        }
    }

    /// Takes the salt that was generated for the claims.
    pub fn on_generation(self, outcome: Result<Vec<u8>, Failure>) -> (r: Result<
        CallbackGenerated,
        Refusal,
    >)
        ensures
            ends_as(r, self.after_generation(outcome)),
    {
        match outcome {
            Err(_) => Err(refuse(500, "Salt generation error")),
            Ok(salt) => Ok(CallbackGenerated { user: self.user, salt }),
        }
    }
}

impl CallbackGenerated {
    /// What follows the encryption of the new salt.
    pub open spec fn after_encryption(self, outcome: Result<Vec<u8>, Failure>) -> Result<
        CallbackEncrypted,
        RefusalView,
    > {
        match outcome {
            Err(_) => Err(refusal(500, "Encryption error"@)),
            Ok(encrypted) => Ok(CallbackEncrypted { user: self.user, encrypted }),
        }
    }

    /// Takes the encrypted salt.
    pub fn on_encryption(self, outcome: Result<Vec<u8>, Failure>) -> (r: Result<
        CallbackEncrypted,
        Refusal,
    >)
        ensures
            ends_as(r, self.after_encryption(outcome)),
    {
        match outcome {
            Err(_) => Err(refuse(500, "Encryption error")),
            Ok(encrypted) => Ok(CallbackEncrypted { user: self.user, encrypted }),
        }
    }
}

impl CallbackEncrypted {
    /// The row to store.
    pub open spec fn row_view(self) -> SaltRow {
        new_row(self.user.user_identifier@, self.user.claims, self.encrypted@)
    }

    /// The row to store.
    pub fn row(&self) -> (r: NewUserSalt)
        ensures
            r@ == self.row_view(),
    {
        new_user_salt(self.user.user_identifier.as_str(), &self.user.claims, &self.encrypted)
    }

    /// What follows the attempt to store the new salt.
    pub open spec fn after_storing(self, outcome: Result<UserSalt, Failure>) -> Result<
        CallbackStored,
        RefusalView,
    > {
        match outcome {
            Err(_) => Err(refusal(500, "Storage error"@)),
            Ok(stored) => Ok(CallbackStored { user: self.user, stored }),
        }
    }

    /// Takes the row that is stored: the new one, or one that another request stored before.
    pub fn on_storing(self, outcome: Result<UserSalt, Failure>) -> (r: Result<
        CallbackStored,
        Refusal,
    >)
        ensures
            ends_as(r, self.after_storing(outcome)),
    {
        match outcome {
            Err(_) => Err(refuse(500, "Storage error")),
            Ok(stored) => Ok(CallbackStored { user: self.user, stored }),
        }
    }
}

impl CallbackUser {
    /// What is logged of the salt that is handed out.
    pub open spec fn logged(self) -> AuditView {
        AuditView {
            user_identifier: self.user_identifier@,
            action: ActionType::Read,
            ip_address: Some(self.ip_address@),
            user_agent: None,
            jwt_hash: Some(self.token_hash@),
            success: true,
            error_message: None,
        }
    }

    /// What is logged of the salt that is handed out.
    fn audit(&self) -> (r: AuditRecord)
        ensures
            r@ == self.logged(),
    {
        AuditRecord {
            user_identifier: self.user_identifier.clone(),
            action: ActionType::Read,
            ip_address: Some(self.ip_address.clone()),
            user_agent: None,
            jwt_hash: Some(self.token_hash.clone()),
            success: true,
            error_message: None,
        }
    }
}

impl CallbackStored {
    /// The salt that is handed out after the decryption, as a number.
    pub open spec fn after_decryption(self, outcome: Result<Vec<u8>, Failure>) -> Result<
        Seq<char>,
        RefusalView,
    > {
        match outcome {
            Err(_) => Err(refusal(500, "Decryption error"@)),
            Ok(salt) => Ok(salt_decimal(salt@)),
        }
    }

    /// `r` is the next stage with the salt, and what is logged of it, or how the callback is
    /// refused.
    pub open spec fn leads_to(
        self,
        outcome: Result<Vec<u8>, Failure>,
        r: Result<(AuditRecord, CallbackSalted), Refusal>,
    ) -> bool {
        match self.after_decryption(outcome) {
            Err(refused) => r matches Err(e) && e@ == refused,
            Ok(text) => r matches Ok((audit, next)) && {
                &&& audit@ == self.user.logged()
                &&& next.user == self.user
                &&& next.salt@ == text
            },
        }
    }

    /// Takes the decrypted salt. What is logged of it comes with the next stage.
    pub fn on_decryption(self, outcome: Result<Vec<u8>, Failure>) -> (r: Result<
        (AuditRecord, CallbackSalted),
        Refusal,
    >)
        requires
            outcome matches Ok(salt) ==> is_salt_len(salt@.len()),
        ensures
            self.leads_to(outcome, r),
    {
        match outcome {
            Err(_) => Err(refuse(500, "Decryption error")),
            Ok(salt) => {
                let audit = self.user.audit();
                let next = CallbackSalted {
                    user: self.user,
                    salt: salt_to_bigint_string(salt.as_slice()),
                };
                Ok((audit, next))
            },
        }
    }
}

impl CallbackSalted {
    /// `r` is the next stage with a session of the user, or how the callback is refused.
    pub open spec fn leads_to(
        self,
        outcome: Result<String, Failure>,
        config: Config,
        r: Result<CallbackSession, Refusal>,
    ) -> bool {
        match outcome {
            Err(_) => r matches Err(e) && e@ == refusal(500, "Wallet derivation failed"@),
            Ok(wallet_address) => match session_signing(config) {
                Err(refused) => r matches Err(e) && e@ == refused,
                Ok((seed, issuer)) => r matches Ok(next) && {
                    &&& next.user == self.user
                    &&& next.salt == self.salt
                    &&& next.wallet_address == wallet_address
                    &&& is_opened(
                        next.session,
                        self.user.user_identifier@,
                        wallet_address@,
                        self.user.exchange.provider@,
                        self.user.request.client_id@,
                        seed,
                        issuer,
                        config.jwt_key_id@,
                    )
                },
            },
        }
    }

    /// Takes the wallet address that is derived from the subject and the salt, and opens a
    /// session for it.
    pub fn on_address(self, outcome: Result<String, Failure>, config: &Config) -> (r: Result<
        CallbackSession,
        Refusal,
    >)
        ensures
            self.leads_to(outcome, *config, r),
    {
        let wallet_address = match outcome {
            Ok(address) => address,
            Err(_) => return Err(refuse(500, "Wallet derivation failed")),
        };
        match open_session(
            self.user.user_identifier.as_str(),
            wallet_address.as_str(),
            self.user.exchange.provider.as_str(),
            self.user.request.client_id.as_str(),
            config,
        ) {
            Ok(session) => Ok(
                CallbackSession { user: self.user, salt: self.salt, wallet_address, session },
            ),
            Err(refused) => Err(refused),
        }
    }
}

/// The user object of the reply: the wallet address, the subject, and the email where the claims
/// have one.
pub open spec fn user_object(
    address: Seq<char>,
    sub: Seq<char>,
    email: Option<Seq<char>>,
) -> JsonView {
    let named = seq![("address"@, JsonView::Text(address)), ("sub"@, JsonView::Text(sub))];
    JsonView::Object(
        match email {
            Some(text) => named.push(("email"@, JsonView::Text(text))),
            None => named,
        },
    )
}

/// The user object of the reply.
fn reply_user(address: &str, claims: &JwtClaims) -> (r: JsonValue)
    ensures
        r@ == user_object(address@, claims.sub@, claims.email.deep_view()),
{
    let mut members = vec![text_entry("address", address), text_entry("sub", claims.sub.as_str())];
    match &claims.email {
        Some(email) => members.push(text_entry("email", email.as_str())),
        None => {},
    }
    let user = JsonValue::Object(members);
    assert(user@->Object_0 =~= user_object(
        address@,
        claims.sub@,
        claims.email.deep_view(),
    )->Object_0);
    user
}

impl CallbackSession {
    /// `reply` hands out the salt, the provider's tokens and the session.
    pub open spec fn is_reply(self, reply: AuthCallbackResponse) -> bool {
        &&& reply.code@ == token_of(self.user.tokens)
        &&& reply.salt == self.salt
        &&& reply.id_token == self.user.tokens.id_token
        &&& reply.user.deep_view() == Some(
            user_object(
                self.wallet_address@,
                self.user.claims.sub@,
                self.user.claims.email.deep_view(),
            ),
        )
        &&& reply.access_token == self.user.tokens.access_token
        &&& reply.session_access_token == Some(self.session.access_token)
        &&& reply.refresh_token == Some(self.session.refresh_token)
        &&& reply.expires_in == Some(ACCESS_TOKEN_EXPIRY_SECS as u64)
    }

    /// `r` is the reply where the session was stored, and a refusal where it was not.
    pub open spec fn leads_to(
        self,
        outcome: Result<(), Failure>,
        r: Result<AuthCallbackResponse, Refusal>,
    ) -> bool {
        match outcome {
            Err(_) => r matches Err(e) && e@ == refusal(500, "Session storage failed"@),
            Ok(_) => r matches Ok(reply) && self.is_reply(reply),
        }
    }

    /// Takes the outcome of storing the session.
    pub fn on_storing(self, outcome: Result<(), Failure>) -> (r: Result<
        AuthCallbackResponse,
        Refusal,
    >)
        ensures
            self.leads_to(outcome, r),
    {
        match outcome {
            Err(_) => return Err(refuse(500, "Session storage failed")),
            Ok(_) => {},
        }
        let code = given_token(&self.user.tokens);
        let user = reply_user(self.wallet_address.as_str(), &self.user.claims);
        Ok(
            AuthCallbackResponse {
                code,
                salt: self.salt,
                id_token: self.user.tokens.id_token,
                user: Some(user),
                access_token: self.user.tokens.access_token,
                session_access_token: Some(self.session.access_token),
                refresh_token: Some(self.session.refresh_token),
                expires_in: Some(ACCESS_TOKEN_EXPIRY_SECS as u64),
            },
        )
    }
}

/// How the outside calls for the salt of one callback end, each where it is made.
pub struct CallbackOutcomes {
    pub lookup: Result<Option<UserSalt>, String>,
    pub decryption: Result<Vec<u8>, Failure>,
    pub generation: Result<Vec<u8>, Failure>,
    pub encryption: Result<Vec<u8>, Failure>,
    pub storing: Result<UserSalt, Failure>,
}

impl CallbackLookup {
    /// The callback when a new salt is to be stored, if it gets there.
    pub open spec fn encrypted_of(self, outcomes: CallbackOutcomes) -> Option<CallbackEncrypted> {
        match self.after_lookup(outcomes.lookup) {
            Ok(CallbackFound::Missing(missing)) => match missing.after_generation(
                outcomes.generation,
            ) {
                Err(_) => None,
                Ok(generated) => match generated.after_encryption(outcomes.encryption) {
                    Err(_) => None,
                    Ok(encrypted) => Some(encrypted),
                },
            },
            _ => None,
        }
    }

    /// The row that the callback asks to store, if it does, whatever comes of it.
    pub open spec fn stored_row(self, outcomes: CallbackOutcomes) -> Option<SaltRow> {
        match self.encrypted_of(outcomes) {
            Some(encrypted) => Some(encrypted.row_view()),
            None => None,
        }
    }

    /// The salt that the callback hands out, as a number, if it gets one.
    pub open spec fn salt_text(self, outcomes: CallbackOutcomes) -> Option<Seq<char>> {
        let stored = match self.after_lookup(outcomes.lookup) {
            Ok(CallbackFound::Existing(stored)) => Some(stored),
            _ => match self.encrypted_of(outcomes) {
                None => None,
                Some(encrypted) => match encrypted.after_storing(outcomes.storing) {
                    Err(_) => None,
                    Ok(stored) => Some(stored),
                },
            },
        };
        match stored {
            None => None,
            Some(stored) => match stored.after_decryption(outcomes.decryption) {
                Err(_) => None,
                Ok(text) => Some(text),
            },
        }
    }

    /// How the callback came by a salt, if it did.
    pub open spec fn access(self, outcomes: CallbackOutcomes) -> Option<SaltAccess> {
        let user = self.user.user_identifier@;
        match (outcomes.decryption, outcomes.lookup) {
            (Ok(salt), Ok(Some(existing))) => Some(
                SaltAccess { user, found: Some(row_of(existing)), stored: None, salt: salt@ },
            ),
            (Ok(salt), Ok(None)) => match (self.stored_row(outcomes), outcomes.storing) {
                (Some(asked), Ok(got)) => Some(
                    SaltAccess {
                        user,
                        found: None,
                        stored: Some((asked, row_of(got))),
                        salt: salt@,
                    },
                ),
                _ => None,
            },
            _ => None,
        }
    }
}

/// A salt that a callback hands out is the one that it came by, and the row that was stored on
/// the way is one of its user.
pub proof fn law_callback_salt_is_the_access(lookup: CallbackLookup, outcomes: CallbackOutcomes)
    requires
        lookup.salt_text(outcomes) is Some,
    ensures
        lookup.access(outcomes) matches Some(access) && {
            &&& access.is_orderly()
            &&& access.user == lookup.user.user_identifier@
            &&& lookup.salt_text(outcomes) == Some(salt_decimal(access.salt))
            &&& (access.stored is Some <==> lookup.stored_row(outcomes) is Some)
        },
{
}

/// A user keeps the salt: of two callbacks for the same user, one after the other, both hand out
/// the same salt, and the second one stores nothing, whatever others store meanwhile.
pub proof fn law_callbacks_keep_salt(
    first: CallbackLookup,
    first_outcomes: CallbackOutcomes,
    second: CallbackLookup,
    second_outcomes: CallbackOutcomes,
    table: SaltTable,
    during_first: Seq<SaltRow>,
    between: Seq<SaltRow>,
    during_second: Seq<SaltRow>,
    decrypt: spec_fn(Seq<u8>) -> Option<Seq<u8>>,
)
    requires
        first.salt_text(first_outcomes) is Some,
        second.salt_text(second_outcomes) is Some,
        first.user.user_identifier@ == second.user.user_identifier@,
        first.access(first_outcomes)->0.happens(table, during_first, decrypt),
        second.access(second_outcomes)->0.happens(
            first.access(first_outcomes)->0.table_after(table, during_first).after_stores(between),
            during_second,
            decrypt,
        ),
    ensures
        first.salt_text(first_outcomes) == second.salt_text(second_outcomes),
        second_outcomes.lookup matches Ok(Some(_)),
        second.stored_row(second_outcomes) is None,
{
    law_callback_salt_is_the_access(first, first_outcomes);
    law_callback_salt_is_the_access(second, second_outcomes);
    law_later_access_agrees(
        first.access(first_outcomes)->0,
        second.access(second_outcomes)->0,
        table,
        during_first,
        between,
        during_second,
        decrypt,
    );
}

/// A salt request after a callback for the same user gets the salt that the callback handed out,
/// and stores nothing.
pub proof fn law_request_after_callback_keeps_salt(
    first: CallbackLookup,
    first_outcomes: CallbackOutcomes,
    second: SaltGate,
    second_outcomes: SaltOutcomes,
    config: Config,
    table: SaltTable,
    during_first: Seq<SaltRow>,
    between: Seq<SaltRow>,
    during_second: Seq<SaltRow>,
    decrypt: spec_fn(Seq<u8>) -> Option<Seq<u8>>,
)
    requires
        first.salt_text(first_outcomes) is Some,
        second.answer(second_outcomes, config).result is Ok,
        second.user_of(second_outcomes, config) == Some(first.user.user_identifier@),
        first.access(first_outcomes)->0.happens(table, during_first, decrypt),
        second.access(second_outcomes, config)->0.happens(
            first.access(first_outcomes)->0.table_after(table, during_first).after_stores(between),
            during_second,
            decrypt,
        ),
    ensures
        first.salt_text(first_outcomes) == Some(
            second.answer(second_outcomes, config).result->Ok_0,
        ),
        second.stored_row(second_outcomes, config) is None,
{
    law_callback_salt_is_the_access(first, first_outcomes);
    law_answer_is_the_access(second, second_outcomes, config);
    law_later_access_agrees(
        first.access(first_outcomes)->0,
        second.access(second_outcomes, config)->0,
        table,
        during_first,
        between,
        during_second,
        decrypt,
    );
}

/// A callback after a salt request for the same user hands out the salt that the request got, and
/// stores nothing.
pub proof fn law_callback_after_request_keeps_salt(
    first: SaltGate,
    first_outcomes: SaltOutcomes,
    config: Config,
    second: CallbackLookup,
    second_outcomes: CallbackOutcomes,
    table: SaltTable,
    during_first: Seq<SaltRow>,
    between: Seq<SaltRow>,
    during_second: Seq<SaltRow>,
    decrypt: spec_fn(Seq<u8>) -> Option<Seq<u8>>,
)
    requires
        first.answer(first_outcomes, config).result is Ok,
        second.salt_text(second_outcomes) is Some,
        first.user_of(first_outcomes, config) == Some(second.user.user_identifier@),
        first.access(first_outcomes, config)->0.happens(table, during_first, decrypt),
        second.access(second_outcomes)->0.happens(
            first.access(first_outcomes, config)->0.table_after(table, during_first).after_stores(
                between,
            ),
            during_second,
            decrypt,
        ),
    ensures
        second.salt_text(second_outcomes) == Some(
            first.answer(first_outcomes, config).result->Ok_0,
        ),
        second.stored_row(second_outcomes) is None,
{
    law_answer_is_the_access(first, first_outcomes, config);
    law_callback_salt_is_the_access(second, second_outcomes);
    law_later_access_agrees(
        first.access(first_outcomes, config)->0,
        second.access(second_outcomes)->0,
        table,
        during_first,
        between,
        during_second,
        decrypt,
    );
}

/// A Google or Apple login goes on only with a nonce that is not blank and that the ID token
/// carries.
pub proof fn law_nonce_is_checked(
    token: CallbackToken,
    outcome: Result<TokenIdentity, String>,
    token_hash: String,
)
    requires
        needs_nonce(token.exchange.provider@),
        token.after_check(outcome, token_hash) is Ok,
    ensures
        token.request.nonce matches Some(nonce) && {
            &&& !is_blank(nonce@)
            &&& outcome->Ok_0.claims.nonce.deep_view() == Some(nonce@)
        },
{
}

/// A code is exchanged only for a client that is on the allowlist and within the rate limit, with
/// the client ID that is configured for the provider.
pub proof fn law_exchange_is_for_allowed_client(
    gate: CallbackGate,
    outcome: Result<bool, Failure>,
    config: Config,
)
    ensures
        gate.after_rate_limit(outcome, config) matches Ok(exchange) ==> {
            &&& outcome == Ok::<bool, Failure>(true)
            &&& client_with(config.allowed_clients@, gate.request.client_id@) is Some
            &&& oauth_client_id(exchange.provider, config) == Ok::<Seq<char>, Seq<char>>(
                exchange.oauth_client_id,
            )
        },
{
}

/// Where a callback passes its gate, the `redirect_uri` of its code exchange is the one that the
/// request names, without surrounding white space and trailing slashes, whenever the request names
/// one of which anything is left in that form. Only else is it the allowed client's own, where that
/// is not blank, and only where that is blank the global callback, each in that form too.
pub proof fn law_exchange_uses_the_requested_uri(
    gate: CallbackGate,
    outcome: Result<bool, Failure>,
    config: Config,
)
    ensures
        gate.after_rate_limit(outcome, config) matches Ok(exchange) ==> {
            let named = gate.request.redirect_uri matches Some(uri) && canonical_uri(uri@).len()
                > 0;
            let own = client_with(config.allowed_clients@, gate.request.client_id@)->0.redirect_uri@;
            &&& named ==> exchange.redirect_uri == canonical_uri(gate.request.redirect_uri->0@)
            &&& !named && !is_blank(own) ==> exchange.redirect_uri == canonical_uri(own)
            &&& !named && is_blank(own) ==> (config.auth_callback_url matches Some(url)
                && exchange.redirect_uri == canonical_uri(url@))
            &&& exchange.redirect_uri.len() > 0
        },
{
    let client = client_with(config.allowed_clients@, gate.request.client_id@);
    if client is Some {
        law_request_names_the_uri(
            gate.request.redirect_uri.deep_view(),
            client->0.redirect_uri@,
            config.auth_callback_url.deep_view(),
        );
        law_resolved_uri_is_canonical(
            gate.request.redirect_uri.deep_view(),
            client->0.redirect_uri@,
            config.auth_callback_url.deep_view(),
        );
    }
}

/// What a requested URI leads to does not depend on the client's own one.
pub proof fn law_requested_uri_overrides_the_clients(
    gate: CallbackGate,
    outcome: Result<bool, Failure>,
    config: Config,
    other: Config,
)
    requires
        gate.request.redirect_uri matches Some(uri) && canonical_uri(uri@).len() > 0,
        gate.after_rate_limit(outcome, config) is Ok,
        gate.after_rate_limit(outcome, other) is Ok,
    ensures
        gate.after_rate_limit(outcome, config)->Ok_0.redirect_uri == gate.after_rate_limit(
            outcome,
            other,
        )->Ok_0.redirect_uri,
{
    law_exchange_uses_the_requested_uri(gate, outcome, config);
    law_exchange_uses_the_requested_uri(gate, outcome, other);
}

/// A callback passes its gate exactly where the rate limiter lets it through, its client is on the
/// allowlist, a provider is named or found, a client ID is configured for that provider, and there
/// is a `redirect_uri` that may be used. The exchange is with that provider and that client ID.
pub proof fn law_when_codes_are_exchanged(
    gate: CallbackGate,
    outcome: Result<bool, Failure>,
    config: Config,
)
    ensures
        ({
            let client = client_with(config.allowed_clients@, gate.request.client_id@);
            let provider = provider_of(gate.request, config);
            &&& gate.after_rate_limit(outcome, config) is Ok <==> {
                &&& outcome == Ok::<bool, Failure>(true)
                &&& client is Some
                &&& provider is Some
                &&& oauth_client_id(provider->0, config) is Ok
                &&& resolved_uri(
                    gate.request.redirect_uri.deep_view(),
                    client->0.redirect_uri@,
                    config.auth_callback_url.deep_view(),
                ) is Ok
            }
            &&& gate.after_rate_limit(outcome, config) matches Ok(exchange) ==> Some(
                exchange.provider,
            ) == provider
            &&& gate.after_rate_limit(outcome, config) matches Ok(exchange) ==> oauth_client_id(
                exchange.provider,
                config,
            ) == Ok::<Seq<char>, Seq<char>>(exchange.oauth_client_id)
            &&& outcome == Ok::<bool, Failure>(true) && (client is None || provider is None)
                ==> gate.after_rate_limit(outcome, config)->Err_0.refusal.status == 400
            &&& outcome == Ok::<bool, Failure>(true) && client is None ==> gate.after_rate_limit(
                outcome,
                config,
            )->Err_0.refusal.message == "Unknown client"@
            &&& outcome == Ok::<bool, Failure>(true) ==> (gate.after_rate_limit(outcome, config)
                matches Err(refused) ==> refused.counted is None)
            &&& outcome == Ok::<bool, Failure>(true) && client is Some ==> (provider matches Some(
                name,
            ) ==> (oauth_client_id(name, config) matches Err(text) ==> (gate.after_rate_limit(
                outcome,
                config,
            ) matches Err(refused) && refused.refusal.status == 400 && refused.refusal.message
                == text)))
        }),
{
}

/// A callback that names a `redirect_uri` other than the configured callback is refused as a bad
/// request; one that names none, where none is configured, meets a failure of the service.
pub proof fn law_wrong_uri_is_a_bad_request(gate: CallbackGate, config: Config, client: AllowedClient)
    requires
        client_with(config.allowed_clients@, gate.request.client_id@) == Some(client),
        provider_of(gate.request, config) matches Some(provider) && oauth_client_id(
            provider,
            config,
        ) is Ok,
    ensures
        ({
            let named = gate.request.redirect_uri matches Some(uri) && canonical_uri(uri@).len()
                > 0;
            let next = gate.after_rate_limit(Ok(true), config);
            &&& named ==> (next is Err <==> (config.auth_callback_url matches Some(url)
                && canonical_uri(url@).len() > 0 && canonical_uri(url@) != canonical_uri(
                gate.request.redirect_uri->0@,
            )))
            &&& named ==> (next matches Err(refused) ==> refused.refusal.status == 400)
            &&& !named ==> (next matches Err(refused) ==> refused.refusal.status == 500)
        }),
{
    let requested = gate.request.redirect_uri.deep_view();
    let callback = config.auth_callback_url.deep_view();
    law_request_names_the_uri(requested, client.redirect_uri@, callback);
    if requested is Some && canonical_uri(requested->0).len() > 0 && callback is Some
        && canonical_uri(callback->0).len() > 0 {
        law_requested_uri_is_the_callback(requested->0, client.redirect_uri@, callback->0);
    }
    reveal_strlit("redirect_uri mismatch:");
    reveal_strlit("AUTH_CALLBACK_URL not configured and client has no redirect_uri");
    let text = "AUTH_CALLBACK_URL not configured and client has no redirect_uri"@;
    assert("redirect_uri mismatch:"@[0] == 'r');
    assert(text[0] == 'A');
    assert(!"redirect_uri mismatch:"@.is_prefix_of(text));
}

/// A provider that the request names is the provider, in lower case and without white space around
/// it, whatever the client ID is. Where none is named, it is the one of which the client ID,
/// without white space around it, is the configured audience, and none where there is no such
/// audience.
pub proof fn law_named_provider_wins(request: AuthCallbackRequest, config: Config)
    ensures
        ({
            let named = request.provider matches Some(p) && lowercased(trimmed(p@)).len() > 0;
            let id = Some(trimmed(request.client_id@));
            let google = config.allowed_audience_google.deep_view() == id;
            let apple = config.allowed_audience_apple.deep_view() == id;
            let facebook = config.allowed_audience_facebook.deep_view() == id;
            let twitch = config.allowed_audience_twitch.deep_view() == id;
            let provider = provider_of(request, config);
            &&& named ==> provider == Some(lowercased(trimmed(request.provider->0@)))
            &&& !named ==> (provider is Some <==> google || apple || facebook || twitch)
            &&& !named && google ==> provider == Some("google"@)
            &&& !named && apple && !google ==> provider == Some("apple"@)
            &&& !named && facebook && !google && !apple ==> provider == Some("facebook"@)
            &&& !named && twitch && !google && !apple && !facebook ==> provider == Some("twitch"@)
        }),
{
}

/// The client ID of an exchange is the audience that is configured for its provider; for Facebook
/// and Twitch, where no audience is configured, it is the configured app or client ID. No other
/// provider has one, and the error names it.
pub proof fn law_client_id_is_the_providers(provider: Seq<char>, config: Config)
    ensures
        ({
            let name = lowercased(provider);
            let id = oauth_client_id(provider, config);
            &&& name == "google"@ ==> (id is Ok <==> config.allowed_audience_google is Some)
            &&& name == "google"@ ==> (id matches Ok(text) ==> text
                == config.allowed_audience_google->0@)
            &&& name == "apple"@ ==> (id is Ok <==> config.allowed_audience_apple is Some)
            &&& name == "apple"@ ==> (id matches Ok(text) ==> text
                == config.allowed_audience_apple->0@)
            &&& name == "facebook"@ ==> (id is Ok <==> config.allowed_audience_facebook is Some
                || config.facebook_app_id is Some)
            &&& name == "facebook"@ && config.allowed_audience_facebook is Some ==> (id
                matches Ok(text) ==> text == config.allowed_audience_facebook->0@)
            &&& name == "facebook"@ && config.allowed_audience_facebook is None ==> (id
                matches Ok(text) ==> text == config.facebook_app_id->0@)
            &&& name == "twitch"@ ==> (id is Ok <==> config.allowed_audience_twitch is Some
                || config.twitch_client_id is Some)
            &&& name == "twitch"@ && config.allowed_audience_twitch is Some ==> (id
                matches Ok(text) ==> text == config.allowed_audience_twitch->0@)
            &&& name == "twitch"@ && config.allowed_audience_twitch is None ==> (id
                matches Ok(text) ==> text == config.twitch_client_id->0@)
            &&& name != "google"@ && name != "apple"@ && name != "facebook"@ && name != "twitch"@
                ==> (id matches Err(text) && occurs_in(text, provider))
        }),
{
    reveal_strlit("google");
    reveal_strlit("apple");
    reveal_strlit("facebook");
    reveal_strlit("twitch");
    assert("google"@.len() == 6 && "apple"@.len() == 5 && "facebook"@.len() == 8);
    assert("twitch"@.len() == 6 && "google"@[0] == 'g' && "twitch"@[0] == 't');
    let text = "Unknown provider: "@ + provider;
    assert(text =~= "Unknown provider: "@ + provider + Seq::<char>::empty());
    law_occurrence(text, provider);
}

/// In a usable configuration every known provider that is configured has a client ID.
pub proof fn law_usable_config_has_client_ids(config: Config, provider: Seq<char>)
    requires
        validation_error(config) is None,
    ensures
        lowercased(provider) == "google"@ || lowercased(provider) == "apple"@ ==> oauth_client_id(
            provider,
            config,
        ) is Ok,
        lowercased(provider) == "facebook"@ && config.facebook_app_id is Some ==> oauth_client_id(
            provider,
            config,
        ) is Ok,
        lowercased(provider) == "twitch"@ && config.twitch_client_id is Some ==> oauth_client_id(
            provider,
            config,
        ) is Ok,
{
    law_client_id_is_the_providers(provider, config);
}

/// The provider of an exchange's user object is its text member `provider`, or, where it has no
/// such member, its text member `iss`; a name that tells of Facebook or Twitch counts as theirs.
/// Anything else is unknown.
pub proof fn law_user_object_names_the_provider(object: JsonView, name: Seq<char>)
    ensures
        ({
            let said = object.member("provider"@) == Some(JsonView::Text(name)) || (object.member(
                "provider"@,
            ) is None && object.member("iss"@) == Some(JsonView::Text(name)));
            let provider = user_provider(Some(object));
            &&& said && occurs_in(name, "facebook"@) ==> provider == "facebook"@
            &&& said && !occurs_in(name, "facebook"@) && occurs_in(name, "twitch"@) ==> provider
                == "twitch"@
            &&& said && !occurs_in(name, "facebook"@) && !occurs_in(name, "twitch"@) ==> provider
                == name
            &&& (object.member("provider"@) matches Some(value) && !(value is Text)) ==> provider
                == "unknown"@
            &&& object.member("provider"@) is None && (object.member("iss"@) matches Some(value)
                ==> !(value is Text)) ==> provider == "unknown"@
            &&& user_provider(None) == "unknown"@
        }),
{
}

/// An exchange with an ID token is checked by that token, whatever else it gave; one without is
/// checked by its access token, at the provider of its user object, unless that is Google or Apple,
/// which have to give an ID token. One with neither is a bad answer of the provider.
pub proof fn law_id_token_is_checked_first(tokens: AuthExchangeResponse)
    ensures
        ({
            let provider = user_provider(tokens.user.deep_view());
            let strict = lowercased(provider) == "google"@ || lowercased(provider) == "apple"@;
            let check = token_check(tokens);
            &&& tokens.id_token matches Some(token) ==> check == Ok::<_, RefusalView>(
                CallbackCheckView::IdToken,
            ) && token_of(tokens) == token@
            &&& tokens.id_token is None ==> (tokens.access_token matches Some(token) ==> token_of(
                tokens,
            ) == token@)
            &&& tokens.id_token is None && tokens.access_token is Some ==> (check is Ok <==> !strict)
            &&& tokens.id_token is None ==> (check matches Ok(c) ==> c
                == CallbackCheckView::AccessToken(provider))
            &&& tokens.id_token is None && tokens.access_token is Some ==> (check matches Err(r)
                ==> r.status == 400)
            &&& tokens.id_token is None && tokens.access_token is None ==> (check matches Err(r)
                && r.status == 502)
        }),
{
}

/// A callback whose code was exchanged goes on with the provider's tokens and its own request; a
/// failed exchange is a failure of the provider, and is told.
pub proof fn law_exchange_carries_the_tokens(
    exchange: CallbackExchange,
    outcome: Result<AuthExchangeResponse, String>,
    r: Result<CallbackToken, Refusal>,
)
    requires
        exchange.leads_to(outcome, r),
    ensures
        r is Ok <==> (outcome matches Ok(tokens) && token_check(tokens) is Ok),
        r matches Ok(next) ==> {
            &&& outcome == Ok::<_, String>(next.tokens)
            &&& next.request == exchange.request
            &&& next.ip_address == exchange.ip_address
            &&& next.exchange == exchange.exchange
            &&& token_check(next.tokens) == Ok::<_, RefusalView>(next.check@)
        },
        outcome matches Err(error) ==> (r matches Err(e) && e.status == 502 && occurs_in(
            e.message@,
            error@,
        )),
{
    if outcome is Err {
        let error = outcome->Err_0@;
        let text = "Auth exchange failed: "@ + error;
        assert(text =~= "Auth exchange failed: "@ + error + Seq::<char>::empty());
        law_occurrence(text, error);
    }
}

/// A valid token of a provider other than Google and Apple goes on whatever the nonce. For those
/// two it goes on exactly where the request names a nonce that is not blank and the token carries
/// that one; a nonce that lacks is a bad request, a wrong one is no authentication. A token that is
/// not valid is none either, and what was wrong is told.
pub proof fn law_when_tokens_are_accepted(
    token: CallbackToken,
    outcome: Result<TokenIdentity, String>,
    token_hash: String,
)
    ensures
        ({
            let next = token.after_check(outcome, token_hash);
            let strict = token.exchange.provider@ == "google"@ || token.exchange.provider@
                == "apple"@;
            let named = token.request.nonce matches Some(nonce) && trimmed(nonce@).len() > 0;
            &&& outcome is Ok && !strict ==> next is Ok
            &&& outcome matches Ok(identity) ==> strict ==> (next is Ok <==> named
                && identity.claims.nonce.deep_view() == token.request.nonce.deep_view())
            &&& outcome is Ok && strict && !named ==> (next matches Err(refused) && refused.status
                == 400)
            &&& outcome is Ok && strict && named ==> (next matches Err(refused) ==> refused.status
                == 401)
            &&& outcome matches Err(error) ==> (next matches Err(refused) && refused.status == 401
                && occurs_in(refused.message, error@))
            &&& outcome is Err ==> (token.check@ matches CallbackCheckView::AccessToken(provider)
                ==> occurs_in(next->Err_0.message, provider))
        }),
{
    if outcome is Err {
        let error = outcome->Err_0@;
        let none = Seq::<char>::empty();
        let jwt = "Invalid JWT: "@ + error;
        assert(jwt =~= "Invalid JWT: "@ + error + none);
        law_occurrence(jwt, error);
        if token.check@ is AccessToken {
            let provider = token.check@->AccessToken_0;
            let left = "Invalid token for provider "@ + provider + ": "@;
            let text = left + error;
            assert(text =~= left + error + none);
            law_occurrence(text, error);
            assert(text =~= "Invalid token for provider "@ + provider + (": "@ + error));
            law_occurrence(text, provider);
        }
    }
}

/// The user of a callback is the one that the valid token speaks for; its claims, the token's hash
/// and what came before are carried on.
pub proof fn law_callback_user_is_the_tokens(
    token: CallbackToken,
    identity: TokenIdentity,
    token_hash: String,
)
    ensures
        token.after_check(Ok(identity), token_hash) matches Ok(lookup) ==> {
            &&& lookup.user.user_identifier@ == identity.user_identifier@
            &&& lookup.user.claims == identity.claims
            &&& lookup.user.token_hash@ == token_hash@
            &&& lookup.user.request == token.request
            &&& lookup.user.ip_address == token.ip_address
            &&& lookup.user.exchange == token.exchange
            &&& lookup.user.tokens == token.tokens
        },
{
}

/// A callback hands out a salt exactly where a salt of the user is stored and decrypted, or none is
/// stored, a new one is made, encrypted and stored, and the stored row is decrypted; and it hands
/// out what was decrypted. What is stored is the user's, says what the claims say, and holds the
/// encrypted salt.
pub proof fn law_when_a_callback_gets_a_salt(lookup: CallbackLookup, outcomes: CallbackOutcomes)
    ensures
        lookup.salt_text(outcomes) is Some <==> {
            &&& outcomes.lookup is Ok
            &&& outcomes.decryption is Ok
            &&& outcomes.lookup->Ok_0 is None ==> {
                &&& outcomes.generation is Ok
                &&& outcomes.encryption is Ok
                &&& outcomes.storing is Ok
            }
        },
        lookup.salt_text(outcomes) matches Some(text) ==> text == salt_decimal(
            outcomes.decryption->Ok_0@,
        ),
        lookup.stored_row(outcomes) matches Some(row) ==> {
            &&& outcomes.lookup matches Ok(found)
            &&& found is None
            &&& row.user_identifier == lookup.user.user_identifier@
            &&& row.iss == lookup.user.claims.iss@
            &&& row.aud == lookup.user.claims.aud@
            &&& row.sub == lookup.user.claims.sub@
            &&& outcomes.encryption matches Ok(bytes)
            &&& row.encrypted_salt == bytes@
        },
{
}

/// Whatever fails on the way to the salt is a failure of the service.
pub proof fn law_salt_failures_are_the_services(
    lookup: CallbackLookup,
    missing: CallbackMissing,
    generated: CallbackGenerated,
    encrypted: CallbackEncrypted,
    stored: CallbackStored,
    found: Result<Option<UserSalt>, String>,
    bytes: Result<Vec<u8>, Failure>,
    row: Result<UserSalt, Failure>,
)
    ensures
        lookup.after_lookup(found) is Err <==> found is Err,
        lookup.after_lookup(found) matches Err(refused) ==> refused.status == 500 && occurs_in(
            refused.message,
            found->Err_0@,
        ),
        found matches Ok(Some(salt)) ==> lookup.after_lookup(found) == Ok::<_, RefusalView>(
            CallbackFound::Existing((CallbackStored { user: lookup.user, stored: salt })),
        ),
        found matches Ok(None) ==> lookup.after_lookup(found) == Ok::<_, RefusalView>(
            CallbackFound::Missing((CallbackMissing { user: lookup.user })),
        ),
        missing.after_generation(bytes) is Err <==> bytes is Err,
        missing.after_generation(bytes) matches Err(refused) ==> refused.status == 500,
        missing.after_generation(bytes) matches Ok(next) ==> next.user == missing.user && next.salt
            == bytes->Ok_0,
        generated.after_encryption(bytes) is Err <==> bytes is Err,
        generated.after_encryption(bytes) matches Err(refused) ==> refused.status == 500,
        generated.after_encryption(bytes) matches Ok(next) ==> next.user == generated.user
            && next.encrypted == bytes->Ok_0,
        encrypted.after_storing(row) is Err <==> row is Err,
        encrypted.after_storing(row) matches Err(refused) ==> refused.status == 500,
        encrypted.after_storing(row) matches Ok(next) ==> next.user == encrypted.user && next.stored
            == row->Ok_0,
        stored.after_decryption(bytes) is Err <==> bytes is Err,
        stored.after_decryption(bytes) matches Err(refused) ==> refused.status == 500,
        stored.after_decryption(bytes) matches Ok(text) ==> text == salt_decimal(bytes->Ok_0@),
{
    if found is Err {
        let error = found->Err_0@;
        let text = "Database error: "@ + error;
        assert(text =~= "Database error: "@ + error + Seq::<char>::empty());
        law_occurrence(text, error);
    }
}

/// A salt that a callback hands out is logged as read by its user, from the address and with the
/// hash of the token of the callback.
pub proof fn law_callback_is_logged(
    stored: CallbackStored,
    outcome: Result<Vec<u8>, Failure>,
    r: Result<(AuditRecord, CallbackSalted), Refusal>,
)
    requires
        stored.leads_to(outcome, r),
    ensures
        r is Ok <==> outcome is Ok,
        r matches Ok((audit, next)) ==> {
            &&& audit@.user_identifier == stored.user.user_identifier@
            &&& audit@.action == ActionType::Read
            &&& audit@.success
            &&& audit@.ip_address == Some(stored.user.ip_address@)
            &&& audit@.jwt_hash == Some(stored.user.token_hash@)
            &&& audit@.user_agent is None
            &&& audit@.error_message is None
            &&& next.user == stored.user
            &&& next.salt@ == salt_decimal(outcome->Ok_0@)
        },
{
}

/// The session that a callback opens is the user's: for the derived wallet address, with the
/// provider of the exchange and with the client of the request as the audience of its access token
/// and as the client of its row.
pub proof fn law_callback_session_is_the_users(
    salted: CallbackSalted,
    outcome: Result<String, Failure>,
    config: Config,
    r: Result<CallbackSession, Refusal>,
)
    requires
        salted.leads_to(outcome, config, r),
    ensures
        r is Ok <==> outcome is Ok && session_signing(config) is Ok,
        outcome is Err ==> (r matches Err(e) && e.status == 500),
        r matches Ok(next) ==> {
            &&& next.user == salted.user
            &&& next.salt@ == salted.salt@
            &&& next.wallet_address@ == outcome->Ok_0@
            &&& next.session.row@.user_identifier == salted.user.user_identifier@
            &&& next.session.row@.wallet_address == outcome->Ok_0@
            &&& next.session.row@.provider == salted.user.exchange.provider@
            &&& next.session.row@.client_id == salted.user.request.client_id@
            &&& next.session.row@.refresh_token_hash == refresh_hash(next.session.refresh_token@)
            &&& exists|claims: SessionClaims|
                {
                    &&& #[trigger] is_issued(
                        next.session.access_token@,
                        session_signing(config)->Ok_0.0,
                        config.jwt_key_id@,
                        claims,
                    )
                    &&& claims.iss@ == session_signing(config)->Ok_0.1
                    &&& claims.aud@ == salted.user.request.client_id@
                    &&& claims.sub@ == salted.user.user_identifier@
                    &&& claims.provider@ == salted.user.exchange.provider@
                    &&& claims.wallet_address@ == lowercased(outcome->Ok_0@)
                }
        },
{
    if r is Ok {
        law_opened_session_is_the_users(
            r->Ok_0.session,
            salted.user.user_identifier@,
            outcome->Ok_0@,
            salted.user.exchange.provider@,
            salted.user.request.client_id@,
            session_signing(config)->Ok_0.0,
            session_signing(config)->Ok_0.1,
            config.jwt_key_id@,
        );
    }
}

/// The user object of a reply has the wallet address, the subject, and the email exactly where the
/// claims have one.
pub proof fn law_user_object_tells_the_user(
    address: Seq<char>,
    sub: Seq<char>,
    email: Option<Seq<char>>,
)
    ensures
        user_object(address, sub, email).text_member("address"@) == Some(address),
        user_object(address, sub, email).text_member("sub"@) == Some(sub),
        user_object(address, sub, email).text_member("email"@) == email,
        email is None ==> user_object(address, sub, email).member("email"@) is None,
{
    reveal_strlit("address");
    reveal_strlit("sub");
    reveal_strlit("email");
    assert("address"@.len() == 7 && "sub"@.len() == 3 && "email"@.len() == 5);
    reveal_with_fuel(crate::json::lookup, 4);
    let m = user_object(address, sub, email)->Object_0;
    assert(m.drop_first()[0] == m[1]);
    if email is Some {
        assert(m.drop_first().drop_first()[0] == m[2]);
    }
}

/// A callback is answered with the salt, the session and the provider's tokens, the ID token before
/// the access token as its code, and with the user: exactly where the session was stored.
pub proof fn law_callback_reply_hands_out_the_session(
    session: CallbackSession,
    outcome: Result<(), Failure>,
    r: Result<AuthCallbackResponse, Refusal>,
)
    requires
        session.leads_to(outcome, r),
    ensures
        r is Ok <==> outcome is Ok,
        r matches Err(e) ==> e.status == 500,
        r matches Ok(reply) ==> {
            &&& reply.salt@ == session.salt@
            &&& reply.id_token.deep_view() == session.user.tokens.id_token.deep_view()
            &&& reply.access_token.deep_view() == session.user.tokens.access_token.deep_view()
            &&& session.user.tokens.id_token matches Some(token) ==> reply.code@ == token@
            &&& session.user.tokens.id_token is None ==> (session.user.tokens.access_token
                matches Some(token) ==> reply.code@ == token@)
            &&& reply.session_access_token.deep_view() == Some(session.session.access_token@)
            &&& reply.refresh_token.deep_view() == Some(session.session.refresh_token@)
            &&& reply.expires_in == Some(1800u64)
            &&& reply.user matches Some(user)
            &&& user@.text_member("address"@) == Some(session.wallet_address@)
            &&& user@.text_member("sub"@) == Some(session.user.claims.sub@)
            &&& user@.text_member("email"@) == session.user.claims.email.deep_view()
        },
{
    law_user_object_tells_the_user(
        session.wallet_address@,
        session.user.claims.sub@,
        session.user.claims.email.deep_view(),
    );
}

/// What an exchange and a check say is what they hold.
pub proof fn law_exchange_says_its_fields(exchange: CodeExchange, provider: String)
    ensures
        exchange@.provider == exchange.provider@,
        exchange@.oauth_client_id == exchange.oauth_client_id@,
        exchange@.redirect_uri == exchange.redirect_uri@,
        CallbackCheck::IdToken@ == CallbackCheckView::IdToken,
        (CallbackCheck::AccessToken { provider })@ == CallbackCheckView::AccessToken(provider@),
{
}

/// A callback that passes its gate goes on with its own request, from its own address, and with the
/// exchange that was decided on; one that does not is refused as was decided.
pub proof fn law_gate_carries_the_request(
    gate: CallbackGate,
    outcome: Result<bool, Failure>,
    config: Config,
    r: Result<CallbackExchange, GateRefusal>,
)
    requires
        gate.leads_to(outcome, config, r),
    ensures
        r is Ok <==> gate.after_rate_limit(outcome, config) is Ok,
        r matches Ok(next) ==> {
            &&& next.request == gate.request
            &&& next.ip_address == gate.ip_address
            &&& gate.after_rate_limit(outcome, config) == Ok::<_, GateRefusalView>(next.exchange@)
        },
        r matches Err(e) ==> gate.after_rate_limit(outcome, config) == Err::<CodeExchangeView, _>(
            e@,
        ),
{
}

/// A `redirect_uri` that cannot be used is refused with the reason.
pub proof fn law_unusable_uri_is_told(gate: CallbackGate, config: Config, client: AllowedClient)
    requires
        client_with(config.allowed_clients@, gate.request.client_id@) == Some(client),
        provider_of(gate.request, config) matches Some(provider) && oauth_client_id(
            provider,
            config,
        ) is Ok,
    ensures
        resolved_uri(
            gate.request.redirect_uri.deep_view(),
            client.redirect_uri@,
            config.auth_callback_url.deep_view(),
        ) matches Err(text) ==> (gate.after_rate_limit(Ok(true), config) matches Err(refused)
            && refused.refusal.message == text),
{
}

} // verus!
