//! The values that requests, replies and database rows are made of.
//!
//! A UUID is held as its 128 bits, a point in time as microseconds since 1970 UTC.

use vstd::prelude::*;
use vstd::string::*;

use crate::json::{JsonValue, JsonView};
use crate::text::{law_occurrence, occurs_in};

verus! {

/// A stored salt, encrypted.
#[derive(Debug, Clone)]
pub struct UserSalt {
    pub id: u128,
    pub user_identifier: String,
    pub iss: String,
    pub aud: String,
    pub sub: String,
    pub encrypted_salt: Vec<u8>,
    pub encryption_version: i32,
    pub created_at: i64,
    pub updated_at: i64,
}

/// A row of the audit log.
#[derive(Debug, Clone)]
pub struct AuditLogEntry {
    pub id: u128,
    pub user_identifier: String,
    pub action_type: String,
    pub ip_address: Option<String>,
    pub user_agent: Option<String>,
    pub jwt_hash: Option<String>,
    pub success: bool,
    pub error_message: Option<String>,
    pub created_at: i64,
}

/// The claims of an identity token.
#[derive(Debug, Clone)]
pub struct JwtClaims {
    /// Issuer.
    pub iss: String,
    /// Audience: a string, or the first of an array of strings.
    pub aud: String,
    /// Subject (user ID).
    pub sub: String,
    /// Expiration.
    pub exp: i64,
    /// Issued at.
    pub iat: i64,
    pub nonce: Option<String>,
    pub email: Option<String>,
    pub email_verified: Option<bool>,
    pub name: Option<String>,
    pub picture: Option<String>,
    pub given_name: Option<String>,
    pub family_name: Option<String>,
}

/// Why a JSON value is no audience.
#[derive(Debug, Clone, PartialEq, Eq)]
pub enum AudienceError {
    /// Neither a string nor an array, but what is described.
    NotAudience { found: String },
    /// An array without elements.
    EmptyArray,
    /// An array whose first element is no string, but what is described.
    FirstNotText { found: String },
}

/// Why a JSON value is no audience.
pub enum AudienceErrorView {
    NotAudience(Seq<char>),
    EmptyArray,
    FirstNotText(Seq<char>),
}

impl View for AudienceError {
    type V = AudienceErrorView;

    open spec fn view(&self) -> AudienceErrorView {
        match self {
            AudienceError::NotAudience { found } => AudienceErrorView::NotAudience(found@),
            AudienceError::EmptyArray => AudienceErrorView::EmptyArray,
            AudienceError::FirstNotText { found } => AudienceErrorView::FirstNotText(found@),
        }
    }
}

impl AudienceErrorView {
    /// What the error says.
    pub open spec fn text(self) -> Seq<char> {
        match self {
            AudienceErrorView::NotAudience(found) => "invalid type: "@ + found
                + ", expected a string or array of strings"@,
            AudienceErrorView::EmptyArray => "audience array is empty"@,
            AudienceErrorView::FirstNotText(found) => "invalid type: "@ + found
                + ", expected a string"@,
        }
    }
}

impl AudienceError {
    /// What the error says.
    pub fn message(&self) -> (r: String)
        ensures
            r@ == self@.text(),
    {
        match self {
            AudienceError::NotAudience { found } => "invalid type: ".to_owned().concat(
                found.as_str(),
            ).concat(", expected a string or array of strings"),
            AudienceError::EmptyArray => "audience array is empty".to_owned(),
            AudienceError::FirstNotText { found } => "invalid type: ".to_owned().concat(
                found.as_str(),
            ).concat(", expected a string"),
        }
    }
}

/// The audience that a JSON value names: a string itself, of an array the first element.
pub open spec fn audience_of(value: JsonView) -> Result<Seq<char>, AudienceErrorView> {
    match value {
        JsonView::Text(t) => Ok(t),
        JsonView::Array(items) => if items.len() == 0 {
            Err(AudienceErrorView::EmptyArray)
        } else {
            match items[0] {
                JsonView::Text(t) => Ok(t),
                other => Err(AudienceErrorView::FirstNotText(other.description())),
            }
        },
        other => Err(AudienceErrorView::NotAudience(other.description())),
    }
}

/// Reads the audience claim, which may be a string or an array of strings.
pub fn deserialize_audience(value: &JsonValue) -> (r: Result<String, AudienceError>)
    ensures
        match audience_of(value@) {
            Ok(aud) => r matches Ok(text) && text@ == aud,
            Err(error) => r matches Err(e) && e@ == error,
        },
{
    match value {
        JsonValue::Text(t) => Ok(t.clone()),
        JsonValue::Array(items) => {
            if items.len() == 0 {
                return Err(AudienceError::EmptyArray);
            }
            assert(value@->Array_0[0] == items@[0]@);
            match &items[0] {
                JsonValue::Text(t) => Ok(t.clone()),
                other => Err(AudienceError::FirstNotText { found: other.describe() }),
            }
        },
        other => Err(AudienceError::NotAudience { found: other.describe() }),
    }
}

/// A request for a salt.
#[derive(Debug, Clone)]
pub enum GetSaltRequest {
    /// Legacy format: JWT token.
    Jwt { jwt: String },
    /// New format: provider and access token.
    Provider { provider: String, token: String },
}

impl GetSaltRequest {
    /// The token, in both formats.
    pub open spec fn token_text(self) -> Seq<char> {
        match self {
            GetSaltRequest::Jwt { jwt } => jwt@,
            GetSaltRequest::Provider { provider, token } => token@,
        }
    }

    /// The provider name, which only the new format has.
    pub open spec fn provider_text(self) -> Option<Seq<char>> {
        match self {
            GetSaltRequest::Jwt { jwt } => None,
            GetSaltRequest::Provider { provider, token } => Some(provider@),
        }
    }

    /// Whether this is a JWT-based request.
    pub fn is_jwt(&self) -> (r: bool)
        ensures
            r == (self is Jwt),
    {
        matches!(self, GetSaltRequest::Jwt { .. })
    }

    /// The token, in both formats.
    pub fn token(&self) -> (r: &str)
        ensures
            r@ == self.token_text(),
    {
        match self {
            GetSaltRequest::Jwt { jwt } => jwt.as_str(),
            GetSaltRequest::Provider { token, .. } => token.as_str(),
        }
    }

    /// The provider name, if there is one.
    pub fn provider(&self) -> (r: Option<&str>)
        ensures
            r.deep_view() == self.provider_text(),
    {
        match self {
            GetSaltRequest::Jwt { .. } => None,
            GetSaltRequest::Provider { provider, .. } => Some(provider.as_str()),
        }
    }
}

/// A request names a provider exactly where it is not JWT-based.
pub proof fn law_provider_only_without_jwt(request: GetSaltRequest)
    ensures
        request.provider_text() is None <==> request is Jwt,
{
}

/// The reply to a salt request.
#[derive(Debug, Clone)]
pub struct GetSaltResponse {
    pub salt: String,
}

/// The body of the OAuth callback.
#[derive(Debug, Clone)]
pub struct AuthCallbackRequest {
    pub client_id: String,
    pub code: String,
    pub provider: Option<String>,
    pub state: Option<String>,
    pub nonce: Option<String>,
    /// PKCE challenge, kept for API compatibility; the token exchange uses `code_verifier`.
    pub code_challenge: Option<String>,
    /// The `redirect_uri` of the authorize request, not the consuming app's final redirect.
    pub redirect_uri: Option<String>,
    pub code_verifier: Option<String>,
}

/// What a provider returns for an authorization code.
#[derive(Debug)]
pub struct AuthExchangeResponse {
    pub access_token: Option<String>,
    pub id_token: Option<String>,
    pub refresh_token: Option<String>,
    pub expires_in: Option<u64>,
    pub user: Option<JsonValue>,
}

/// The reply to an authentication callback.
#[derive(Debug)]
pub struct AuthCallbackResponse {
    pub code: String,
    pub salt: String,
    pub id_token: Option<String>,
    pub user: Option<JsonValue>,
    pub access_token: Option<String>,
    /// Session access token (JWT, 30 minutes).
    pub session_access_token: Option<String>,
    /// Refresh token (opaque, 30 days).
    pub refresh_token: Option<String>,
    /// Seconds until the session access token expires.
    pub expires_in: Option<u64>,
}

/// A stored refresh session.
#[derive(Debug, Clone)]
pub struct RefreshSession {
    pub id: u128,
    pub user_identifier: String,
    pub wallet_address: String,
    pub provider: String,
    pub client_id: String,
    pub refresh_token_hash: String,
    pub expires_at: i64,
    pub created_at: i64,
}

/// The body of a refresh request.
#[derive(Debug, Clone)]
pub struct RefreshRequest {
    pub refresh_token: String,
}

/// The reply to a refresh request.
#[derive(Debug)]
pub struct RefreshResponse {
    pub access_token: String,
    pub session_access_token: String,
    pub refresh_token: String,
    pub expires_in: u64,
    pub user: JsonValue,
}

/// The body of a logout request.
#[derive(Debug, Clone)]
pub struct LogoutRequest {
    pub refresh_token: String,
}

/// The body of the wallet callback.
#[derive(Debug, Clone)]
pub struct WalletAuthRequest {
    pub address: String,
    pub message: String,
    /// Base64-encoded Ed25519 SimpleSignature (1 + 64 + 32 bytes).
    pub signature: String,
    pub client_id: String,
    pub redirect_uri: Option<String>,
    pub state: Option<String>,
    pub nonce: Option<String>,
    pub request_id: Option<String>,
}

/// The reply to a health check.
#[derive(Debug, Clone)]
pub struct HealthCheckResponse {
    pub status: String,
    pub timestamp: i64,
    pub version: String,
}

/// What an audit entry records.
#[derive(Debug, Clone, Copy, PartialEq, Eq, Structural)]
pub enum ActionType {
    Create,
    Read,
    Rotate,
    Error,
}

impl ActionType {
    /// The name under which the action is stored.
    pub open spec fn label(self) -> Seq<char> {
        match self {
            ActionType::Create => "CREATE"@,
            ActionType::Read => "READ"@,
            ActionType::Rotate => "ROTATE"@,
            ActionType::Error => "ERROR"@,
        }
    }

    /// The name under which the action is stored.
    pub fn as_str(&self) -> (r: &'static str)
        ensures
            r@ == self.label(),
    {
        match self {
            ActionType::Create => "CREATE",
            ActionType::Read => "READ",
            ActionType::Rotate => "ROTATE",
            ActionType::Error => "ERROR",
        }
    }
}

/// Different actions are stored under different names.
pub proof fn law_labels_differ(a: ActionType, b: ActionType)
    ensures
        a.label() == b.label() ==> a == b,
{
    reveal_strlit("CREATE");
    reveal_strlit("READ");
    reveal_strlit("ROTATE");
    reveal_strlit("ERROR");
    if a.label() == b.label() {
        assert(a.label().len() == b.label().len());
        assert(a.label()[0] == b.label()[0]);
    }
}

/// Where an OAuth provider is reached.
#[derive(Debug, Clone)]
pub struct OAuthProviderConfig {
    pub issuer: String,
    pub jwks_uri: String,
    pub token_endpoint: Option<String>,
    pub userinfo_endpoint: Option<String>,
}

/// Where an OAuth provider is reached.
pub struct EndpointsView {
    pub issuer: Seq<char>,
    pub jwks_uri: Seq<char>,
    pub token_endpoint: Option<Seq<char>>,
    pub userinfo_endpoint: Option<Seq<char>>,
}

impl View for OAuthProviderConfig {
    type V = EndpointsView;

    open spec fn view(&self) -> EndpointsView {
        EndpointsView {
            issuer: self.issuer@,
            jwks_uri: self.jwks_uri@,
            token_endpoint: self.token_endpoint.deep_view(),
            userinfo_endpoint: self.userinfo_endpoint.deep_view(),
        }
    }
}

/// Where Google is reached.
pub open spec fn google_endpoints() -> EndpointsView {
    EndpointsView {
        issuer: "https://accounts.google.com"@,
        jwks_uri: "https://www.googleapis.com/oauth2/v3/certs"@,
        token_endpoint: Some("https://oauth2.googleapis.com/token"@),
        userinfo_endpoint: Some("https://openidconnect.googleapis.com/v1/userinfo"@),
    }
}

/// Where Facebook is reached.
pub open spec fn facebook_endpoints() -> EndpointsView {
    EndpointsView {
        issuer: "https://www.facebook.com"@,
        jwks_uri: "https://www.facebook.com/.well-known/oauth/openid/jwks/"@,
        token_endpoint: Some("https://graph.facebook.com/v12.0/oauth/access_token"@),
        userinfo_endpoint: Some("https://graph.facebook.com/me"@),
    }
}

/// Where Apple is reached.
pub open spec fn apple_endpoints() -> EndpointsView {
    EndpointsView {
        issuer: "https://appleid.apple.com"@,
        jwks_uri: "https://appleid.apple.com/auth/keys"@,
        token_endpoint: Some("https://appleid.apple.com/auth/token"@),
        userinfo_endpoint: None,
    }
}

/// Where Twitch is reached.
pub open spec fn twitch_endpoints() -> EndpointsView {
    EndpointsView {
        issuer: "https://id.twitch.tv/oauth2"@,
        jwks_uri: "https://id.twitch.tv/oauth2/keys"@,
        token_endpoint: Some("https://id.twitch.tv/oauth2/token"@),
        userinfo_endpoint: Some("https://api.twitch.tv/helix/users"@),
    }
}

impl OAuthProviderConfig {
    /// Google.
    pub fn google() -> (r: Self)
        ensures
            r@ == google_endpoints(),
            r.issuer@ == "https://accounts.google.com"@,
            r.jwks_uri@ == "https://www.googleapis.com/oauth2/v3/certs"@,
            r.token_endpoint.deep_view() == Some("https://oauth2.googleapis.com/token"@),
            r.userinfo_endpoint.deep_view() == Some(
                "https://openidconnect.googleapis.com/v1/userinfo"@,
            ),
    {
        OAuthProviderConfig {
            issuer: "https://accounts.google.com".to_owned(),
            jwks_uri: "https://www.googleapis.com/oauth2/v3/certs".to_owned(),
            token_endpoint: Some("https://oauth2.googleapis.com/token".to_owned()),
            userinfo_endpoint: Some("https://openidconnect.googleapis.com/v1/userinfo".to_owned()),
        }
    }

    /// Facebook.
    pub fn facebook() -> (r: Self)
        ensures
            r@ == facebook_endpoints(),
            r.issuer@ == "https://www.facebook.com"@,
            r.jwks_uri@ == "https://www.facebook.com/.well-known/oauth/openid/jwks/"@,
            r.token_endpoint.deep_view() == Some(
                "https://graph.facebook.com/v12.0/oauth/access_token"@,
            ),
            r.userinfo_endpoint.deep_view() == Some("https://graph.facebook.com/me"@),
    {
        OAuthProviderConfig {
            issuer: "https://www.facebook.com".to_owned(),
            jwks_uri: "https://www.facebook.com/.well-known/oauth/openid/jwks/".to_owned(),
            token_endpoint: Some("https://graph.facebook.com/v12.0/oauth/access_token".to_owned()),
            userinfo_endpoint: Some("https://graph.facebook.com/me".to_owned()),
        }
    }

    /// Apple, which has no userinfo endpoint.
    pub fn apple() -> (r: Self)
        ensures
            r@ == apple_endpoints(),
            r.issuer@ == "https://appleid.apple.com"@,
            r.jwks_uri@ == "https://appleid.apple.com/auth/keys"@,
            r.token_endpoint.deep_view() == Some("https://appleid.apple.com/auth/token"@),
            r.userinfo_endpoint is None,
    {
        OAuthProviderConfig {
            issuer: "https://appleid.apple.com".to_owned(),
            jwks_uri: "https://appleid.apple.com/auth/keys".to_owned(),
            token_endpoint: Some("https://appleid.apple.com/auth/token".to_owned()),
            userinfo_endpoint: None,
        }
    }

    /// Twitch.
    pub fn twitch() -> (r: Self)
        ensures
            r@ == twitch_endpoints(),
            r.issuer@ == "https://id.twitch.tv/oauth2"@,
            r.jwks_uri@ == "https://id.twitch.tv/oauth2/keys"@,
            r.token_endpoint.deep_view() == Some("https://id.twitch.tv/oauth2/token"@),
            r.userinfo_endpoint.deep_view() == Some("https://api.twitch.tv/helix/users"@),
    {
        OAuthProviderConfig {
            issuer: "https://id.twitch.tv/oauth2".to_owned(),
            jwks_uri: "https://id.twitch.tv/oauth2/keys".to_owned(),
            token_endpoint: Some("https://id.twitch.tv/oauth2/token".to_owned()),
            userinfo_endpoint: Some("https://api.twitch.tv/helix/users".to_owned()),
        }
    }

    /// The MySocial auth backend, which has neither endpoint.
    pub fn mysocial(issuer: String, jwks_uri: String) -> (r: Self)
        ensures
            r.issuer == issuer,
            r.jwks_uri == jwks_uri,
            r.token_endpoint is None,
            r.userinfo_endpoint is None,
    {
        OAuthProviderConfig { issuer, jwks_uri, token_endpoint: None, userinfo_endpoint: None }
    }
}

/// The audience is a text itself, or the first element of an array where that is a text, and
/// nothing else names one: not an empty array, not an array that starts otherwise, no other value.
pub proof fn law_audience_is_the_first_text(value: JsonView, aud: Seq<char>)
    ensures
        audience_of(value) == Ok::<Seq<char>, AudienceErrorView>(aud) <==> (value == JsonView::Text(
            aud,
        ) || (value matches JsonView::Array(items) && items.len() > 0 && items[0] == JsonView::Text(
            aud,
        ))),
        (audience_of(value) matches Err(e) && e is EmptyArray) <==> (value matches JsonView::Array(
            items,
        ) && items.len() == 0),
        (audience_of(value) matches Err(e) && e is FirstNotText) <==> (value
            matches JsonView::Array(items) && items.len() > 0 && !(items[0] is Text)),
        audience_of(value) matches Err(AudienceErrorView::FirstNotText(found)) ==> found
            == value->Array_0[0].description(),
        audience_of(value) matches Err(AudienceErrorView::NotAudience(found)) ==> found
            == value.description(),
{
}

/// Further elements of an array have no say in its audience.
pub proof fn law_only_first_element_counts(first: JsonView, a: Seq<JsonView>, b: Seq<JsonView>)
    ensures
        audience_of(JsonView::Array(seq![first] + a)) == audience_of(
            JsonView::Array(seq![first] + b),
        ),
{
}

/// A request carries the token that it was made with, in both formats, and the provider only in
/// the one that names it.
pub proof fn law_request_carries_its_token(jwt: String, provider: String, token: String)
    ensures
        (GetSaltRequest::Jwt { jwt }).token_text() == jwt@,
        (GetSaltRequest::Jwt { jwt }).provider_text() is None,
        (GetSaltRequest::Provider { provider, token }).token_text() == token@,
        (GetSaltRequest::Provider { provider, token }).provider_text() == Some(provider@),
{
}

/// Facebook, Apple and Twitch publish their keys under their issuer's address, and Apple and Twitch
/// hand out tokens there too, each at a path of its own. Every provider has a token endpoint, and
/// all but Apple tell at their API who the user is.
pub proof fn law_keys_are_under_the_issuer()
    ensures
        facebook_endpoints().issuer == "https://www.facebook.com"@,
        facebook_endpoints().jwks_uri == facebook_endpoints().issuer
            + "/.well-known/oauth/openid/jwks/"@,
        facebook_endpoints().token_endpoint == Some(
            "https://graph.facebook.com"@ + "/v12.0/oauth/access_token"@,
        ),
        facebook_endpoints().userinfo_endpoint == Some("https://graph.facebook.com"@ + "/me"@),
        apple_endpoints().issuer == "https://appleid.apple.com"@,
        apple_endpoints().jwks_uri == apple_endpoints().issuer + "/auth/keys"@,
        apple_endpoints().token_endpoint == Some(apple_endpoints().issuer + "/auth/token"@),
        apple_endpoints().userinfo_endpoint is None,
        twitch_endpoints().issuer == "https://id.twitch.tv/oauth2"@,
        twitch_endpoints().jwks_uri == twitch_endpoints().issuer + "/keys"@,
        twitch_endpoints().token_endpoint == Some(twitch_endpoints().issuer + "/token"@),
        twitch_endpoints().userinfo_endpoint == Some("https://api.twitch.tv"@ + "/helix/users"@),
        google_endpoints().token_endpoint is Some,
        google_endpoints().userinfo_endpoint == Some(
            "https://openidconnect.googleapis.com"@ + "/v1/userinfo"@,
        ),
{
    reveal_strlit("https://www.facebook.com");
    reveal_strlit("/.well-known/oauth/openid/jwks/");
    reveal_strlit("https://www.facebook.com/.well-known/oauth/openid/jwks/");
    reveal_strlit("https://graph.facebook.com");
    reveal_strlit("/v12.0/oauth/access_token");
    reveal_strlit("https://graph.facebook.com/v12.0/oauth/access_token");
    reveal_strlit("/me");
    reveal_strlit("https://graph.facebook.com/me");
    reveal_strlit("https://appleid.apple.com");
    reveal_strlit("/auth/keys");
    reveal_strlit("https://appleid.apple.com/auth/keys");
    reveal_strlit("/auth/token");
    reveal_strlit("https://appleid.apple.com/auth/token");
    reveal_strlit("https://id.twitch.tv/oauth2");
    reveal_strlit("/keys");
    reveal_strlit("https://id.twitch.tv/oauth2/keys");
    reveal_strlit("/token");
    reveal_strlit("https://id.twitch.tv/oauth2/token");
    reveal_strlit("https://api.twitch.tv");
    reveal_strlit("/helix/users");
    reveal_strlit("https://api.twitch.tv/helix/users");
    reveal_strlit("https://openidconnect.googleapis.com");
    reveal_strlit("/v1/userinfo");
    reveal_strlit("https://openidconnect.googleapis.com/v1/userinfo");
    assert(facebook_endpoints().jwks_uri =~= facebook_endpoints().issuer
        + "/.well-known/oauth/openid/jwks/"@);
    assert("https://graph.facebook.com/v12.0/oauth/access_token"@ =~= "https://graph.facebook.com"@
        + "/v12.0/oauth/access_token"@);
    assert("https://graph.facebook.com/me"@ =~= "https://graph.facebook.com"@ + "/me"@);
    assert(apple_endpoints().jwks_uri =~= apple_endpoints().issuer + "/auth/keys"@);
    assert(apple_endpoints().token_endpoint->0 =~= apple_endpoints().issuer + "/auth/token"@);
    assert(twitch_endpoints().jwks_uri =~= twitch_endpoints().issuer + "/keys"@);
    assert(twitch_endpoints().token_endpoint->0 =~= twitch_endpoints().issuer + "/token"@);
    assert("https://api.twitch.tv/helix/users"@ =~= "https://api.twitch.tv"@ + "/helix/users"@);
    assert("https://openidconnect.googleapis.com/v1/userinfo"@
        =~= "https://openidconnect.googleapis.com"@ + "/v1/userinfo"@);
}

/// The message of an audience error tells what was found.
pub proof fn law_audience_errors_tell_what_was_found(found: Seq<char>)
    ensures
        occurs_in(AudienceErrorView::NotAudience(found).text(), found),
        occurs_in(AudienceErrorView::FirstNotText(found).text(), found),
{
    law_occurrence(AudienceErrorView::NotAudience(found).text(), found);
    law_occurrence(AudienceErrorView::FirstNotText(found).text(), found);
}

} // verus!
