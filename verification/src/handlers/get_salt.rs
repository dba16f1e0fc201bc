//! `POST /salt`: gets or creates the salt of a user.

use vstd::prelude::*;
use vstd::string::*;

use super::salt::{is_salt_len, salt_decimal, salt_to_bigint_string};
use super::{
    rate_of, rate_query, refusal, refuse, same_bytes, times, AuditRecord, AuditView, Failure,
    Metric, RateQuery, Refusal, RefusalView, TokenIdentity,
};
use crate::config::Config;
use crate::db::salts::{
    law_later_access_agrees, law_overlapping_accesses_agree, new_row, new_user_salt, row_of,
    NewUserSalt, SaltAccess, SaltRow, SaltTable,
};
use crate::foreign::{lowercase, lowercased};
use crate::models::{ActionType, GetSaltRequest, GetSaltResponse, JwtClaims, UserSalt};
use crate::text::{law_occurrence, occurs_in, same_text};

verus! {

/// Where a request comes from.
#[derive(Debug, Clone)]
pub struct Requester {
    pub ip_address: String,
    pub user_agent: Option<String>,
}

/// The answer to a salt request: what is counted, what is logged, and the reply.
#[derive(Debug)]
pub struct SaltReply {
    pub metrics: Vec<Metric>,
    pub audit: Option<AuditRecord>,
    pub result: Result<GetSaltResponse, Refusal>,
}

/// What the answer to a salt request says.
#[verifier::ext_equal]
pub struct SaltReplyView {
    pub metrics: Seq<Metric>,
    pub audit: Option<AuditView>,
    pub result: Result<Seq<char>, RefusalView>,
}

impl View for SaltReply {
    type V = SaltReplyView;

    open spec fn view(&self) -> SaltReplyView {
        SaltReplyView {
            metrics: self.metrics@,
            audit: match self.audit {
                Some(record) => Some(record@),
                None => None,
            },
            result: match self.result {
                Ok(reply) => Ok(reply.salt@),
                Err(refused) => Err(refused@),
            },
        }
    }
}

/// The answer that refuses a request and logs nothing.
pub open spec fn plain_refusal(
    metrics: Seq<Metric>,
    status: u16,
    message: Seq<char>,
) -> SaltReplyView {
    SaltReplyView { metrics, audit: None, result: Err(refusal(status, message)) }
}

/// Refuses a request and logs nothing.
fn refused(metrics: Vec<Metric>, status: u16, message: &str) -> (r: SaltReply)
    ensures
        r@ == plain_refusal(metrics@, status, message@),
{
    SaltReply { metrics, audit: None, result: Err(refuse(status, message)) }
}

/// A stage ends as it is said to: with this next stage, or with this answer.
pub open spec fn ends_as<S>(r: Result<S, SaltReply>, expected: Result<S, SaltReplyView>) -> bool {
    match (r, expected) {
        (Ok(next), Ok(wanted)) => next == wanted,
        (Err(reply), Err(wanted)) => reply@ =~= wanted,
        _ => false,
    }
}

/// A salt request that waits for the rate limiter.
#[derive(Debug)]
pub struct SaltGate {
    pub request: GetSaltRequest,
    pub requester: Requester,
}

/// How the token of a salt request is checked.
#[derive(Debug, Clone, Copy, PartialEq, Eq, Structural)]
pub enum TokenCheck {
    /// As a JWT of a provider.
    Jwt,
    /// As a JWT of the MySocial auth backend.
    MySocialJwt,
    /// As an access token, at the provider that the request names.
    AccessToken,
}

/// A salt request that waits for the check of its token.
#[derive(Debug)]
pub struct SaltToken {
    pub request: GetSaltRequest,
    pub requester: Requester,
    pub check: TokenCheck,
}

/// A salt request that waits for the lookup of the user's salt.
#[derive(Debug)]
pub struct SaltLookup {
    pub requester: Requester,
    pub claims: JwtClaims,
    /// By which the salt is looked up: the subject of a token of the MySocial auth backend, which
    /// is the identifier of a user, else the identifier that is derived from the claims.
    pub user_identifier: String,
    pub token_hash: String,
    /// The token is one of the MySocial auth backend.
    pub is_mysocial: bool,
}

/// Of whom a salt request is answered, and what is logged of it.
#[derive(Debug)]
pub struct SaltUser {
    pub requester: Requester,
    pub claims: JwtClaims,
    pub user_identifier: String,
    pub token_hash: String,
}

/// A salt request that waits for the decryption of the stored salt.
#[derive(Debug)]
pub struct SaltExisting {
    pub user: SaltUser,
    pub stored: UserSalt,
}

/// A salt request that waits for a new salt.
#[derive(Debug)]
pub struct SaltMissing {
    pub user: SaltUser,
}

/// What the lookup of a salt leads to.
#[derive(Debug)]
pub enum SaltFound {
    Existing(SaltExisting),
    Missing(SaltMissing),
}

/// A salt request that waits for the encryption of the new salt.
#[derive(Debug)]
pub struct SaltGenerated {
    pub user: SaltUser,
    pub salt: Vec<u8>,
}

/// A salt request that waits for the new salt to be stored.
#[derive(Debug)]
pub struct SaltEncrypted {
    pub user: SaltUser,
    pub salt: Vec<u8>,
    pub encrypted: Vec<u8>,
}

/// A salt request that waits for the decryption of what was stored.
#[derive(Debug)]
pub struct SaltStored {
    pub user: SaltUser,
    pub salt: Vec<u8>,
    pub stored: UserSalt,
}

/// Takes a salt request: it is counted, and waits for the rate limiter.
pub fn get_salt(request: GetSaltRequest, requester: Requester) -> (r: (Metric, SaltGate))
    ensures
        r == (Metric::Requests, (SaltGate { request, requester })),
{
    (Metric::Requests, SaltGate { request, requester })
}

impl SaltGate {
    /// What the rate limiter is asked.
    pub fn rate_query(&self, config: &Config) -> (r: RateQuery)
        ensures
            r@ == rate_of(self.requester.ip_address@, *config),
            r.identifier@ == self.requester.ip_address@,
            r.window_minutes == 1,
            r.max_requests == config.rate_limit_per_minute,
    {
        rate_query(self.requester.ip_address.as_str(), config)
    }

    /// How the token is checked, or `None` where the request has the wrong format: Apple only
    /// supports the JWT format.
    pub open spec fn token_check(self) -> Option<TokenCheck> {
        match self.request {
            GetSaltRequest::Jwt { jwt } => Some(TokenCheck::Jwt),
            GetSaltRequest::Provider { provider, token } => {
                let name = lowercased(provider@);
                if name == "apple"@ {
                    None
                } else if name == "mysocial"@ {
                    Some(TokenCheck::MySocialJwt)
                } else {
                    Some(TokenCheck::AccessToken)
                }
            },
        }
    }

    /// What follows the answer of the rate limiter.
    pub open spec fn after_rate_limit(self, outcome: Result<bool, Failure>) -> Result<
        SaltToken,
        SaltReplyView,
    > {
        match outcome {
            Err(_) => Err(plain_refusal(seq![Metric::Failed], 500, "Internal error"@)),
            Ok(false) => Err(
                plain_refusal(
                    seq![Metric::RateLimit, Metric::Failed],
                    429,
                    "Rate limit exceeded"@,
                ),
            ),
            Ok(true) => match self.token_check() {
                None => Err(
                    plain_refusal(
                        seq![],
                        400,
                        "Apple authentication requires JWT format. Use { \"jwt\": \"...\" } instead of { \"provider\": \"apple\", \"token\": \"...\" }"@,
                    ),
                ),
                Some(check) => Ok(
                    SaltToken { request: self.request, requester: self.requester, check },
                ),
            },
        }
    }

    /// Takes the answer of the rate limiter.
    pub fn on_rate_limit(self, outcome: Result<bool, Failure>) -> (r: Result<SaltToken, SaltReply>)
        ensures
            ends_as(r, self.after_rate_limit(outcome)),
    {
        match outcome {
            Err(_) => return Err(refused(vec![Metric::Failed], 500, "Internal error")),
            Ok(allowed) => if !allowed {
                return Err(
                    refused(vec![Metric::RateLimit, Metric::Failed], 429, "Rate limit exceeded"),
                );
            },
        }
        let check = match &self.request {
            GetSaltRequest::Jwt { .. } => TokenCheck::Jwt,
            GetSaltRequest::Provider { provider, .. } => {
                let name = lowercase(provider.as_str());
                if same_text(name.as_str(), "apple") {
                    return Err(
                        refused(
                            vec![],
                            400,
                            "Apple authentication requires JWT format. Use { \"jwt\": \"...\" } instead of { \"provider\": \"apple\", \"token\": \"...\" }",
                        ),
                    );
                }
                if same_text(name.as_str(), "mysocial") {
                    TokenCheck::MySocialJwt
                } else {
                    TokenCheck::AccessToken
                }
            },
        };
        Ok(SaltToken { request: self.request, requester: self.requester, check })
    }
}

/// The issuer is the configured MySocial auth backend.
pub open spec fn is_mysocial_issuer(iss: Seq<char>, config: Config) -> bool {
    config.mysocial_auth_issuer.deep_view() == Some(iss)
}

/// Whether the issuer is the configured MySocial auth backend.
fn mysocial_issuer(iss: &str, config: &Config) -> (r: bool)
    ensures
        r == is_mysocial_issuer(iss@, *config),
{
    match &config.mysocial_auth_issuer {
        Some(issuer) => same_text(iss, issuer.as_str()),
        None => false,
    }
}

impl SaltToken {
    /// The provider that the request names.
    pub open spec fn provider_name(self) -> Seq<char> {
        match self.request {
            GetSaltRequest::Jwt { jwt } => "unknown"@,
            GetSaltRequest::Provider { provider, token } => provider@,
        }
    }

    /// The provider that the request names.
    pub fn provider(&self) -> (r: &str)
        ensures
            r@ == self.provider_name(),
    {
        match &self.request {
            GetSaltRequest::Jwt { .. } => "unknown",
            GetSaltRequest::Provider { provider, .. } => provider.as_str(),
        }
    }

    /// What is logged of a token that is not valid.
    pub open spec fn logged_error(self, error: Seq<char>) -> Seq<char> {
        match self.check {
            TokenCheck::Jwt => error,
            TokenCheck::MySocialJwt => "MySocial: "@ + error,
            TokenCheck::AccessToken => "Provider "@ + self.provider_name() + ": "@ + error,
        }
    }

    /// What is said of a token that is not valid.
    pub open spec fn invalid_token_text(self) -> Seq<char> {
        match self.check {
            TokenCheck::Jwt => "Invalid JWT"@,
            TokenCheck::MySocialJwt =>
                "Invalid MySocial JWT. Ensure you are sending id_token (JWT), not access_token."@,
            TokenCheck::AccessToken => "Invalid token for provider "@ + self.provider_name(),
        }
    }

    /// What follows the check of the token, of which `token_hash` is the hash for the audit log.
    pub open spec fn after_check(
        self,
        outcome: Result<TokenIdentity, String>,
        token_hash: String,
        config: Config,
    ) -> Result<SaltLookup, SaltReplyView> {
        match outcome {
            Err(error) => Err(
                SaltReplyView {
                    metrics: seq![Metric::JwtFailed, Metric::Failed],
                    audit: Some(
                        AuditView {
                            user_identifier: "unknown"@,
                            action: ActionType::Error,
                            ip_address: Some(self.requester.ip_address@),
                            user_agent: self.requester.user_agent.deep_view(),
                            jwt_hash: Some(token_hash@),
                            success: false,
                            error_message: Some(self.logged_error(error@)),
                        },
                    ),
                    result: Err(refusal(401, self.invalid_token_text())),
                },
            ),
            Ok(identity) => {
                let is_mysocial = is_mysocial_issuer(identity.claims.iss@, config);
                Ok(
                    SaltLookup {
                        requester: self.requester,
                        claims: identity.claims,
                        user_identifier: if is_mysocial {
                            identity.claims.sub
                        } else {
                            identity.user_identifier
                        },
                        token_hash,
                        is_mysocial,
                    },
                )
            },
        }
    }

    /// Takes the outcome of the token check: who the token speaks for, or why it is not valid.
    pub fn on_check(
        self,
        outcome: Result<TokenIdentity, String>,
        token_hash: String,
        config: &Config,
    ) -> (r: Result<SaltLookup, SaltReply>)
        ensures
            ends_as(r, self.after_check(outcome, token_hash, *config)),
    {
        let identity = match outcome {
            Ok(identity) => identity,
            Err(error) => {
                let logged = match self.check {
                    TokenCheck::Jwt => error,
                    TokenCheck::MySocialJwt => "MySocial: ".to_owned().concat(error.as_str()),
                    TokenCheck::AccessToken => "Provider ".to_owned().concat(
                        self.provider(),
                    ).concat(": ").concat(error.as_str()),
                };
                let said = match self.check {
                    TokenCheck::Jwt => "Invalid JWT".to_owned(),
                    TokenCheck::MySocialJwt =>
                        "Invalid MySocial JWT. Ensure you are sending id_token (JWT), not access_token.".to_owned(),
                    TokenCheck::AccessToken => "Invalid token for provider ".to_owned().concat(
                        self.provider(),
                    ),
                };
                return Err(
                    SaltReply {
                        metrics: vec![Metric::JwtFailed, Metric::Failed],
                        audit: Some(
                            AuditRecord {
                                user_identifier: "unknown".to_owned(),
                                action: ActionType::Error,
                                ip_address: Some(self.requester.ip_address),
                                user_agent: self.requester.user_agent,
                                jwt_hash: Some(token_hash),
                                success: false,
                                error_message: Some(logged),
                            },
                        ),
                        result: Err(refuse(401, said.as_str())),
                    },
                );
            },
        };
        let is_mysocial = mysocial_issuer(identity.claims.iss.as_str(), config);
        let user_identifier = if is_mysocial {
            identity.claims.sub.clone()
        } else {
            identity.user_identifier
        };
        Ok(
            SaltLookup {
                requester: self.requester,
                claims: identity.claims,
                user_identifier,
                token_hash,
                is_mysocial,
            },
        )
    }
}

impl SaltLookup {
    /// Of whom the request is answered.
    pub open spec fn user(self) -> SaltUser {
        SaltUser {
            requester: self.requester,
            claims: self.claims,
            user_identifier: self.user_identifier,
            token_hash: self.token_hash,
        }
    }

    /// What follows the lookup. No salt is made for a token of the MySocial auth backend.
    pub open spec fn after_lookup(self, outcome: Result<Option<UserSalt>, Failure>) -> Result<
        SaltFound,
        SaltReplyView,
    > {
        match outcome {
            Err(_) => Err(plain_refusal(seq![Metric::Failed], 500, "Database error"@)),
            Ok(Some(stored)) => Ok(SaltFound::Existing(SaltExisting { user: self.user(), stored })),
            Ok(None) => if self.is_mysocial {
                Err(
                    plain_refusal(
                        seq![Metric::Failed],
                        404,
                        "No salt found for this user. Please authenticate via OAuth (Google, Apple, etc.) first."@,
                    ),
                )
            } else {
                Ok(SaltFound::Missing(SaltMissing { user: self.user() }))
            },
        }
    }

    /// Takes what the lookup of the user's salt gave.
    pub fn on_lookup(self, outcome: Result<Option<UserSalt>, Failure>) -> (r: Result<
        SaltFound,
        SaltReply,
    >)
        ensures
            ends_as(r, self.after_lookup(outcome)),
    {
        let found = match outcome {
            Ok(found) => found,
            Err(_) => return Err(refused(vec![Metric::Failed], 500, "Database error")),
        };
        if found.is_none() && self.is_mysocial {
            return Err(
                refused(
                    vec![Metric::Failed],
                    404,
                    "No salt found for this user. Please authenticate via OAuth (Google, Apple, etc.) first.",
                ),
            );
        }
        let user = SaltUser {
            requester: self.requester,
            claims: self.claims,
            user_identifier: self.user_identifier,
            token_hash: self.token_hash,
        };
        match found {
            Some(stored) => Ok(SaltFound::Existing(SaltExisting { user, stored })),
            None => Ok(SaltFound::Missing(SaltMissing { user })),
        }
    }
}

impl SaltUser {
    /// What is logged of a salt that is handed out.
    pub open spec fn logged(self, action: ActionType) -> AuditView {
        AuditView {
            user_identifier: self.user_identifier@,
            action,
            ip_address: Some(self.requester.ip_address@),
            user_agent: self.requester.user_agent.deep_view(),
            jwt_hash: Some(self.token_hash@),
            success: true,
            error_message: None,
        }
    }

    /// The answer that hands a salt out, which was there before or is new.
    pub open spec fn handed_out(self, salt: Seq<u8>, is_new: bool) -> SaltReplyView {
        SaltReplyView {
            metrics: seq![
                if is_new {
                    Metric::SaltCreated
                } else {
                    Metric::SaltRetrieved
                },
                Metric::Success,
            ],
            audit: Some(
                self.logged(
                    if is_new {
                        ActionType::Create
                    } else {
                        ActionType::Read
                    },
                ),
            ),
            result: Ok(salt_decimal(salt)),
        }
    }

    /// Hands a salt out.
    fn hand_out(self, salt: &Vec<u8>, is_new: bool) -> (r: SaltReply)
        requires
            is_salt_len(salt@.len()),
        ensures
            r@ == self.handed_out(salt@, is_new),
    {
        let counted = if is_new {
            Metric::SaltCreated
        } else {
            Metric::SaltRetrieved
        };
        let action = if is_new {
            ActionType::Create
        } else {
            ActionType::Read
        };
        SaltReply {
            metrics: vec![counted, Metric::Success],
            audit: Some(
                AuditRecord {
                    user_identifier: self.user_identifier,
                    action,
                    ip_address: Some(self.requester.ip_address),
                    user_agent: self.requester.user_agent,
                    jwt_hash: Some(self.token_hash),
                    success: true,
                    error_message: None,
                },
            ),
            result: Ok(GetSaltResponse { salt: salt_to_bigint_string(salt.as_slice()) }),
        }
    }
}

impl SaltExisting {
    /// What follows the decryption of the stored salt.
    pub open spec fn after_decryption(self, outcome: Result<Vec<u8>, Failure>) -> SaltReplyView {
        match outcome {
            Err(_) => plain_refusal(seq![Metric::Failed], 500, "Decryption error"@),
            Ok(salt) => self.user.handed_out(salt@, false),
        }
    }

    /// Takes the decrypted salt.
    pub fn on_decryption(self, outcome: Result<Vec<u8>, Failure>) -> (r: SaltReply)
        requires
            outcome matches Ok(salt) ==> is_salt_len(salt@.len()),
        ensures
            r@ == self.after_decryption(outcome),
    {
        match outcome {
            Err(_) => refused(vec![Metric::Failed], 500, "Decryption error"),
            Ok(salt) => self.user.hand_out(&salt, false),
        }
    }
}

impl SaltMissing {
    /// What follows the generation of a salt.
    pub open spec fn after_generation(self, outcome: Result<Vec<u8>, Failure>) -> Result<
        SaltGenerated,
        SaltReplyView,
    > {
        match outcome {
            Err(_) => Err(plain_refusal(seq![Metric::Failed], 500, "Generation error"@)),
            Ok(salt) => Ok(SaltGenerated { user: self.user, salt }),
        }
    }

    /// Takes the salt that was generated for the claims.
    pub fn on_generation(self, outcome: Result<Vec<u8>, Failure>) -> (r: Result<
        SaltGenerated,
        SaltReply,
    >)
        ensures
            ends_as(r, self.after_generation(outcome)),
    {
        match outcome {
            Err(_) => Err(refused(vec![Metric::Failed], 500, "Generation error")),
            Ok(salt) => Ok(SaltGenerated { user: self.user, salt }),
        }
    }
}

impl SaltGenerated {
    /// What follows the encryption of the new salt.
    pub open spec fn after_encryption(self, outcome: Result<Vec<u8>, Failure>) -> Result<
        SaltEncrypted,
        SaltReplyView,
    > {
        match outcome {
            Err(_) => Err(plain_refusal(seq![Metric::Failed], 500, "Encryption error"@)),
            Ok(encrypted) => Ok(SaltEncrypted { user: self.user, salt: self.salt, encrypted }),
        }
    }

    /// Takes the encrypted salt.
    pub fn on_encryption(self, outcome: Result<Vec<u8>, Failure>) -> (r: Result<
        SaltEncrypted,
        SaltReply,
    >)
        ensures
            ends_as(r, self.after_encryption(outcome)),
    {
        match outcome {
            Err(_) => Err(refused(vec![Metric::Failed], 500, "Encryption error")),
            Ok(encrypted) => Ok(SaltEncrypted { user: self.user, salt: self.salt, encrypted }),
        }
    }
}

impl SaltEncrypted {
    /// The row to store.
    pub open spec fn row_view(self) -> SaltRow {
        new_row(self.user.user_identifier@, self.user.claims, self.encrypted@)
    }

    /// The row to store.
    pub fn row(&self) -> (r: NewUserSalt)
        ensures
            r@ == self.row_view(),
    {
        new_user_salt(self.user.user_identifier.as_str(), &self.user.claims, &self.encrypted)
    }

    /// What follows the attempt to store the new salt.
    pub open spec fn after_storing(self, outcome: Result<UserSalt, Failure>) -> Result<
        SaltStored,
        SaltReplyView,
    > {
        match outcome {
            Err(_) => Err(plain_refusal(seq![Metric::Failed], 500, "Storage error"@)),
            Ok(stored) => Ok(SaltStored { user: self.user, salt: self.salt, stored }),
        }
    }

    /// Takes the row that is stored: the new one, or one that another request stored before.
    pub fn on_storing(self, outcome: Result<UserSalt, Failure>) -> (r: Result<
        SaltStored,
        SaltReply,
    >)
        ensures
            ends_as(r, self.after_storing(outcome)),
    {
        match outcome {
            Err(_) => Err(refused(vec![Metric::Failed], 500, "Storage error")),
            Ok(stored) => Ok(SaltStored { user: self.user, salt: self.salt, stored }),
        }
    }
}

impl SaltStored {
    /// What follows the decryption of the stored row: it has to be the salt that was generated,
    /// and it is new where it was never updated.
    pub open spec fn after_decryption(self, outcome: Result<Vec<u8>, Failure>) -> SaltReplyView {
        match outcome {
            Err(_) => plain_refusal(seq![Metric::Failed], 500, "Decryption error"@),
            Ok(decrypted) => if decrypted@ != self.salt@ {
                plain_refusal(seq![Metric::Failed], 500, "Salt consistency check failed"@)
            } else {
                self.user.handed_out(self.salt@, self.stored.created_at == self.stored.updated_at)
            },
        }
    }

    /// Takes the decryption of the stored row.
    pub fn on_decryption(self, outcome: Result<Vec<u8>, Failure>) -> (r: SaltReply)
        requires
            outcome matches Ok(decrypted) ==> decrypted@ == self.salt@ ==> is_salt_len(
                self.salt@.len(),
            ),
        ensures
            r@ == self.after_decryption(outcome),
    {
        let decrypted = match outcome {
            Ok(decrypted) => decrypted,
            Err(_) => return refused(vec![Metric::Failed], 500, "Decryption error"),
        };
        if !same_bytes(&decrypted, &self.salt) {
            return refused(vec![Metric::Failed], 500, "Salt consistency check failed");
        }
        self.user.hand_out(&self.salt, self.stored.created_at == self.stored.updated_at)
    }
}

/// How the outside calls for one salt request end, each where it is made.
pub struct SaltOutcomes {
    pub rate_limit: Result<bool, Failure>,
    pub check: Result<TokenIdentity, String>,
    pub token_hash: String,
    pub lookup: Result<Option<UserSalt>, Failure>,
    pub decryption: Result<Vec<u8>, Failure>,
    pub generation: Result<Vec<u8>, Failure>,
    pub encryption: Result<Vec<u8>, Failure>,
    pub storing: Result<UserSalt, Failure>,
}

impl SaltMissing {
    /// The answer where a salt has to be made.
    pub open spec fn answer(self, outcomes: SaltOutcomes) -> SaltReplyView {
        match self.after_generation(outcomes.generation) {
            Err(reply) => reply,
            Ok(generated) => match generated.after_encryption(outcomes.encryption) {
                Err(reply) => reply,
                Ok(encrypted) => match encrypted.after_storing(outcomes.storing) {
                    Err(reply) => reply,
                    Ok(stored) => stored.after_decryption(outcomes.decryption),
                },
            },
        }
    }
}

impl SaltLookup {
    /// The answer to a request whose token is valid.
    pub open spec fn answer(self, outcomes: SaltOutcomes) -> SaltReplyView {
        match self.after_lookup(outcomes.lookup) {
            Err(reply) => reply,
            Ok(SaltFound::Existing(existing)) => existing.after_decryption(outcomes.decryption),
            Ok(SaltFound::Missing(missing)) => missing.answer(outcomes),
        }
    }
}

impl SaltGate {
    /// The answer to a salt request, from its first stage to its last.
    pub open spec fn answer(self, outcomes: SaltOutcomes, config: Config) -> SaltReplyView {
        match self.after_rate_limit(outcomes.rate_limit) {
            Err(reply) => reply,
            Ok(token) => match token.after_check(outcomes.check, outcomes.token_hash, config) {
                Err(reply) => reply,
                Ok(lookup) => lookup.answer(outcomes),
            },
        }
    }
}

impl SaltGate {
    /// The request when its token is checked, if it gets there.
    pub open spec fn lookup_of(self, outcomes: SaltOutcomes, config: Config) -> Option<SaltLookup> {
        match self.after_rate_limit(outcomes.rate_limit) {
            Err(_) => None,
            Ok(token) => match token.after_check(outcomes.check, outcomes.token_hash, config) {
                Err(_) => None,
                Ok(lookup) => Some(lookup),
            },
        }
    }

    /// The user that the token of the request names, where it is valid.
    pub open spec fn user_of(self, outcomes: SaltOutcomes, config: Config) -> Option<Seq<char>> {
        match self.lookup_of(outcomes, config) {
            Some(lookup) => Some(lookup.user_identifier@),
            None => None,
        }
    }

    /// The row that the request asks to store, if it does, whatever comes of it.
    pub open spec fn stored_row(self, outcomes: SaltOutcomes, config: Config) -> Option<SaltRow> {
        match self.lookup_of(outcomes, config) {
            None => None,
            Some(lookup) => match lookup.after_lookup(outcomes.lookup) {
                Ok(SaltFound::Missing(missing)) => match missing.after_generation(
                    outcomes.generation,
                ) {
                    Err(_) => None,
                    Ok(generated) => match generated.after_encryption(outcomes.encryption) {
                        Err(_) => None,
                        Ok(encrypted) => Some(encrypted.row_view()),
                    },
                },
                _ => None,
            },
        }
    }

    /// How the request came by a salt, if it did.
    pub open spec fn access(self, outcomes: SaltOutcomes, config: Config) -> Option<SaltAccess> {
        let user = self.user_of(outcomes, config);
        match (user, outcomes.decryption, outcomes.lookup) {
            (Some(user), Ok(salt), Ok(Some(existing))) => Some(
                SaltAccess { user, found: Some(row_of(existing)), stored: None, salt: salt@ },
            ),
            (Some(user), Ok(salt), Ok(None)) => match (
                self.stored_row(outcomes, config),
                outcomes.storing,
            ) {
                (Some(asked), Ok(got)) => Some(
                    SaltAccess {
                        user,
                        found: None,
                        stored: Some((asked, row_of(got))),
                        salt: salt@,
                    },
                ),
                _ => None,
            },
            _ => None,
        }
    }
}

/// A salt that is handed out is the one that the request came by, for the user that its token
/// names, and the row that was stored on the way is one of that user.
pub proof fn law_answer_is_the_access(gate: SaltGate, outcomes: SaltOutcomes, config: Config)
    requires
        gate.answer(outcomes, config).result is Ok,
    ensures
        gate.access(outcomes, config) matches Some(access) && {
            &&& access.is_orderly()
            &&& Some(access.user) == gate.user_of(outcomes, config)
            &&& gate.answer(outcomes, config).result->Ok_0 == salt_decimal(access.salt)
            &&& (access.stored is Some <==> gate.stored_row(outcomes, config) is Some)
        },
{
}

/// A user keeps the salt: of two requests for the same user, one after the other, both answers
/// are the same, and the second one stores nothing, whatever others store meanwhile.
pub proof fn law_user_keeps_salt(
    first: SaltGate,
    first_outcomes: SaltOutcomes,
    second: SaltGate,
    second_outcomes: SaltOutcomes,
    config: Config,
    table: SaltTable,
    during_first: Seq<SaltRow>,
    between: Seq<SaltRow>,
    during_second: Seq<SaltRow>,
    decrypt: spec_fn(Seq<u8>) -> Option<Seq<u8>>,
)
    requires
        first.answer(first_outcomes, config).result is Ok,
        second.answer(second_outcomes, config).result is Ok,
        first.user_of(first_outcomes, config) == second.user_of(second_outcomes, config),
        first.access(first_outcomes, config)->0.happens(table, during_first, decrypt),
        second.access(second_outcomes, config)->0.happens(
            first.access(first_outcomes, config)->0.table_after(table, during_first).after_stores(
                between,
            ),
            during_second,
            decrypt,
        ),
    ensures
        first.answer(first_outcomes, config).result == second.answer(
            second_outcomes,
            config,
        ).result,
        second_outcomes.lookup matches Ok(Some(_)),
        second.stored_row(second_outcomes, config) is None,
{
    law_answer_is_the_access(first, first_outcomes, config);
    law_answer_is_the_access(second, second_outcomes, config);
    law_later_access_agrees(
        first.access(first_outcomes, config)->0,
        second.access(second_outcomes, config)->0,
        table,
        during_first,
        between,
        during_second,
        decrypt,
    );
}

/// Two requests for the same user that overlap get the same answer, too.
pub proof fn law_overlapping_requests_agree(
    first: SaltGate,
    first_outcomes: SaltOutcomes,
    second: SaltGate,
    second_outcomes: SaltOutcomes,
    config: Config,
    table_first: SaltTable,
    during_first: Seq<SaltRow>,
    after_first: Seq<SaltRow>,
    table_second: SaltTable,
    during_second: Seq<SaltRow>,
    after_second: Seq<SaltRow>,
    decrypt: spec_fn(Seq<u8>) -> Option<Seq<u8>>,
)
    requires
        first.answer(first_outcomes, config).result is Ok,
        second.answer(second_outcomes, config).result is Ok,
        first.user_of(first_outcomes, config) == second.user_of(second_outcomes, config),
        first.access(first_outcomes, config)->0.happens(table_first, during_first, decrypt),
        second.access(second_outcomes, config)->0.happens(table_second, during_second, decrypt),
        first.access(first_outcomes, config)->0.table_after(
            table_first,
            during_first,
        ).after_stores(after_first) == second.access(second_outcomes, config)->0.table_after(
            table_second,
            during_second,
        ).after_stores(after_second),
    ensures
        first.answer(first_outcomes, config).result == second.answer(
            second_outcomes,
            config,
        ).result,
{
    law_answer_is_the_access(first, first_outcomes, config);
    law_answer_is_the_access(second, second_outcomes, config);
    law_overlapping_accesses_agree(
        first.access(first_outcomes, config)->0,
        second.access(second_outcomes, config)->0,
        table_first,
        during_first,
        after_first,
        table_second,
        during_second,
        after_second,
        decrypt,
    );
}

/// Every salt request counts as a success or as a failure, by its reply, and never as both; only
/// the refusal of an Apple token in the wrong format counts as neither.
pub proof fn law_salt_request_counts_once(gate: SaltGate, outcomes: SaltOutcomes, config: Config)
    ensures
        ({
            let reply = gate.answer(outcomes, config);
            let wrong_format = outcomes.rate_limit == Ok::<bool, Failure>(true)
                && gate.token_check() is None;
            &&& times(reply.metrics, Metric::Success) == if reply.result is Ok {
                1nat
            } else {
                0nat
            }
            &&& times(reply.metrics, Metric::Failed) == if reply.result is Err && !wrong_format {
                1nat
            } else {
                0nat
            }
            &&& times(reply.metrics, Metric::Requests) == 0
        }),
{
    reveal_with_fuel(times, 3);
    let reply = gate.answer(outcomes, config);
    assert(reply.metrics.len() <= 2);
    assert(reply.metrics.len() == 2 ==> reply.metrics.drop_last().drop_last() =~= Seq::empty());
    assert(reply.metrics.len() == 1 ==> reply.metrics.drop_last() =~= Seq::empty());
}

/// A salt that is handed out is logged, with its user, as read or as created, and counted as what
/// it is logged as.
pub proof fn law_handed_out_salt_is_logged(gate: SaltGate, outcomes: SaltOutcomes, config: Config)
    ensures
        ({
            let reply = gate.answer(outcomes, config);
            reply.result is Ok ==> {
                &&& reply.audit matches Some(entry)
                &&& entry.success
                &&& entry.jwt_hash == Some(outcomes.token_hash@)
                &&& entry.ip_address == Some(gate.requester.ip_address@)
                &&& entry.action == ActionType::Create || entry.action == ActionType::Read
                &&& entry.action == ActionType::Create <==> times(
                    reply.metrics,
                    Metric::SaltCreated,
                ) == 1
                &&& entry.action == ActionType::Read <==> times(
                    reply.metrics,
                    Metric::SaltRetrieved,
                ) == 1
            }
        }),
{
    reveal_with_fuel(times, 3);
    let reply = gate.answer(outcomes, config);
    if reply.result is Ok {
        assert(reply.metrics.drop_last().drop_last() =~= Seq::empty());
    }
}

/// A token that is not valid, or a request over the rate limit, gets no salt.
pub proof fn law_no_salt_without_valid_token(
    gate: SaltGate,
    outcomes: SaltOutcomes,
    config: Config,
)
    ensures
        gate.answer(outcomes, config).result is Ok ==> outcomes.check is Ok && outcomes.rate_limit
            == Ok::<bool, Failure>(true),
{
}

/// For a token of the MySocial auth backend a salt is only handed out where one is stored, and
/// never made.
pub proof fn law_mysocial_never_creates(gate: SaltGate, outcomes: SaltOutcomes, config: Config)
    requires
        outcomes.check matches Ok(identity) && is_mysocial_issuer(identity.claims.iss@, config),
    ensures
        ({
            let reply = gate.answer(outcomes, config);
            &&& times(reply.metrics, Metric::SaltCreated) == 0
            &&& reply.result is Ok ==> {
                &&& outcomes.lookup matches Ok(Some(_))
                &&& reply.audit matches Some(entry)
                &&& entry.user_identifier == outcomes.check->Ok_0.claims.sub@
            }
        }),
{
    reveal_with_fuel(times, 3);
    let reply = gate.answer(outcomes, config);
    assert(reply.metrics.len() <= 2);
    assert(reply.metrics.len() == 2 ==> reply.metrics.drop_last().drop_last() =~= Seq::empty());
    assert(reply.metrics.len() == 1 ==> reply.metrics.drop_last() =~= Seq::empty());
}

/// A salt that is handed out is the one that is stored: the decryption of the stored row.
pub proof fn law_salt_is_the_stored_one(gate: SaltGate, outcomes: SaltOutcomes, config: Config)
    ensures
        gate.answer(outcomes, config).result matches Ok(text) ==> {
            &&& outcomes.decryption matches Ok(salt)
            &&& text == salt_decimal(salt@)
        },
{
}

/// For a valid token whose issuer is not the configured MySocial auth backend, the user is the
/// identifier that was derived from the claims; for one of that backend it is the subject of the
/// claims. Nothing else has a say in that: not the format of the request and not how the token was
/// checked. The claims, the requester and the token's hash are carried on.
pub proof fn law_user_is_the_tokens(
    token: SaltToken,
    identity: TokenIdentity,
    token_hash: String,
    config: Config,
)
    ensures
        ({
            let of_mysocial = config.mysocial_auth_issuer matches Some(issuer) && issuer@
                == identity.claims.iss@;
            &&& token.after_check(Ok(identity), token_hash, config) matches Ok(lookup)
            &&& !of_mysocial ==> lookup.user_identifier@ == identity.user_identifier@
            &&& of_mysocial ==> lookup.user_identifier@ == identity.claims.sub@
            &&& lookup.is_mysocial <==> of_mysocial
            &&& lookup.claims == identity.claims
            &&& lookup.requester == token.requester
            &&& lookup.token_hash@ == token_hash@
            &&& lookup.user().user_identifier == lookup.user_identifier
            &&& lookup.user().claims == identity.claims
            &&& lookup.user().requester == token.requester
            &&& lookup.user().token_hash == lookup.token_hash
        }),
{
}

/// What a valid token leads to does not depend on the format of the request.
pub proof fn law_format_does_not_change_the_user(
    a: SaltToken,
    b: SaltToken,
    identity: TokenIdentity,
    token_hash: String,
    config: Config,
)
    requires
        a.requester == b.requester,
    ensures
        a.after_check(Ok(identity), token_hash, config) == b.after_check(
            Ok(identity),
            token_hash,
            config,
        ),
{
}

/// The user whose salt is looked up, stored, logged and handed out is the one that the valid token
/// speaks for: the identifier that was derived from the claims, or the subject of a token of the
/// MySocial auth backend. What is stored says what the claims say, and holds the encrypted salt.
pub proof fn law_salt_is_for_the_tokens_user(
    gate: SaltGate,
    outcomes: SaltOutcomes,
    config: Config,
    identity: TokenIdentity,
)
    requires
        outcomes.check == Ok::<TokenIdentity, String>(identity),
    ensures
        ({
            let of_mysocial = config.mysocial_auth_issuer matches Some(issuer) && issuer@
                == identity.claims.iss@;
            let user = if of_mysocial {
                identity.claims.sub@
            } else {
                identity.user_identifier@
            };
            let reply = gate.answer(outcomes, config);
            &&& gate.user_of(outcomes, config) matches Some(u) ==> u == user
            &&& gate.stored_row(outcomes, config) matches Some(row) ==> {
                &&& !of_mysocial
                &&& row.user_identifier == user
                &&& row.iss == identity.claims.iss@
                &&& row.aud == identity.claims.aud@
                &&& row.sub == identity.claims.sub@
                &&& outcomes.encryption matches Ok(bytes) && row.encrypted_salt == bytes@
                &&& row.encryption_version == 1
            }
            &&& gate.access(outcomes, config) matches Some(access) ==> access.user == user
            &&& reply.result is Ok ==> {
                &&& reply.audit matches Some(entry)
                &&& entry.user_identifier == user
                &&& entry.ip_address == Some(gate.requester.ip_address@)
                &&& entry.user_agent == gate.requester.user_agent.deep_view()
                &&& entry.jwt_hash == Some(outcomes.token_hash@)
                &&& entry.error_message is None
            }
        }),
{
}

/// A salt is handed out exactly where the request is within the rate limit and in a format that the
/// provider supports, its token is valid, and either a salt of the user is stored and decrypted, or
/// none is stored, the token is not one of the MySocial auth backend, and a new salt is made,
/// encrypted and stored, and the stored row is decrypted to that salt.
pub proof fn law_when_a_salt_is_handed_out(gate: SaltGate, outcomes: SaltOutcomes, config: Config)
    ensures
        gate.answer(outcomes, config).result is Ok <==> {
            &&& outcomes.rate_limit == Ok::<bool, Failure>(true)
            &&& gate.request matches GetSaltRequest::Provider { provider, .. } ==> lowercased(
                provider@,
            ) != "apple"@
            &&& outcomes.check matches Ok(identity)
            &&& outcomes.lookup is Ok
            &&& outcomes.decryption is Ok
            &&& outcomes.lookup->Ok_0 is None ==> {
                &&& config.mysocial_auth_issuer matches Some(issuer) ==> issuer@
                    != identity.claims.iss@
                &&& outcomes.generation is Ok
                &&& outcomes.encryption is Ok
                &&& outcomes.storing is Ok
                &&& outcomes.decryption->Ok_0@ == outcomes.generation->Ok_0@
            }
        },
{
}

/// The status of a refusal says why: too many requests, an Apple token in the wrong format, a token
/// that is not valid, no salt for a token of the MySocial auth backend, or else a failure of the
/// service.
pub proof fn law_refusals_say_why(gate: SaltGate, outcomes: SaltOutcomes, config: Config)
    ensures
        gate.answer(outcomes, config).result matches Err(refused) ==> {
            let passed = outcomes.rate_limit == Ok::<bool, Failure>(true);
            let apple = gate.request matches GetSaltRequest::Provider { provider, .. }
                && lowercased(provider@) == "apple"@;
            &&& refused.status == 429 <==> outcomes.rate_limit == Ok::<bool, Failure>(false)
            &&& refused.status == 400 <==> passed && apple
            &&& refused.status == 401 <==> passed && !apple && outcomes.check is Err
            &&& refused.status == 404 <==> {
                &&& passed
                &&& !apple
                &&& outcomes.check matches Ok(identity)
                &&& config.mysocial_auth_issuer matches Some(issuer)
                &&& issuer@ == identity.claims.iss@
                &&& outcomes.lookup matches Ok(found)
                &&& found is None
            }
            &&& refused.status == 429 || refused.status == 400 || refused.status == 401
                || refused.status == 404 || refused.status == 500
        },
{
}

/// A token that is not valid is logged as an error of an unknown user, with the token's hash, where
/// the request came from, and what was wrong; no other refusal is logged.
pub proof fn law_only_invalid_tokens_are_logged(
    gate: SaltGate,
    outcomes: SaltOutcomes,
    config: Config,
)
    ensures
        ({
            let reply = gate.answer(outcomes, config);
            let invalid = reply.result matches Err(refused) && refused.status == 401;
            &&& invalid ==> {
                &&& outcomes.check matches Err(error)
                &&& reply.audit matches Some(entry)
                &&& entry.user_identifier == "unknown"@
                &&& entry.action == ActionType::Error
                &&& !entry.success
                &&& entry.jwt_hash == Some(outcomes.token_hash@)
                &&& entry.ip_address == Some(gate.requester.ip_address@)
                &&& entry.user_agent == gate.requester.user_agent.deep_view()
                &&& entry.error_message matches Some(text)
                &&& occurs_in(text, error@)
            }
            &&& reply.result is Err && !invalid ==> reply.audit is None
            &&& times(reply.metrics, Metric::JwtFailed) == if invalid {
                1nat
            } else {
                0nat
            }
            &&& times(reply.metrics, Metric::RateLimit) == if outcomes.rate_limit == Ok::<
                bool,
                Failure,
            >(false) {
                1nat
            } else {
                0nat
            }
        }),
{
    reveal_with_fuel(times, 3);
    let reply = gate.answer(outcomes, config);
    assert(reply.metrics.len() <= 2);
    assert(reply.metrics.len() == 2 ==> reply.metrics.drop_last().drop_last() =~= Seq::empty());
    assert(reply.metrics.len() == 1 ==> reply.metrics.drop_last() =~= Seq::empty());
    if outcomes.rate_limit == Ok::<bool, Failure>(true) && gate.token_check() is Some
        && outcomes.check is Err {
        let token = gate.after_rate_limit(outcomes.rate_limit)->Ok_0;
        let error = outcomes.check->Err_0@;
        let text = token.logged_error(error);
        let none = Seq::<char>::empty();
        assert(none + error + none =~= error);
        assert(("MySocial: "@ + error) + none =~= "MySocial: "@ + error);
        let named = "Provider "@ + token.provider_name() + ": "@;
        assert((named + error) + none =~= named + error);
        assert(text == none + error + none || text == "MySocial: "@ + error + none || text == named
            + error + none);
        law_occurrence(text, error);
    }
}

/// How a token is checked follows from the format and from the provider's name in any case: the
/// legacy format as a JWT, MySocial as a JWT of its own, Apple not at all, and every other provider
/// by its access token.
pub proof fn law_check_follows_the_format(gate: SaltGate)
    ensures
        ({
            let next = gate.after_rate_limit(Ok(true));
            match gate.request {
                GetSaltRequest::Jwt { jwt } => next matches Ok(token) && token.check
                    == TokenCheck::Jwt,
                GetSaltRequest::Provider { provider, token } => {
                    let name = lowercased(provider@);
                    &&& next is Err <==> name == "apple"@
                    &&& next matches Ok(token) ==> (token.check == TokenCheck::MySocialJwt <==> name
                        == "mysocial"@)
                    &&& next matches Ok(token) ==> (token.check == TokenCheck::AccessToken <==> name
                        != "mysocial"@)
                },
            }
        }),
        gate.after_rate_limit(Ok(true)) matches Ok(token) ==> token.request == gate.request
            && token.requester == gate.requester,
{
    reveal_strlit("apple");
    reveal_strlit("mysocial");
    assert("apple"@.len() != "mysocial"@.len());
}

/// An access token that is not valid is refused and logged in the name of its provider, as the
/// request writes it.
pub proof fn law_invalid_access_token_names_its_provider(
    token: SaltToken,
    provider: String,
    access_token: String,
    error: String,
    token_hash: String,
    config: Config,
)
    requires
        token.check == TokenCheck::AccessToken,
        token.request == (GetSaltRequest::Provider { provider, token: access_token }),
    ensures
        token.after_check(Err(error), token_hash, config) matches Err(reply) && {
            &&& reply.result matches Err(refused)
            &&& occurs_in(refused.message, provider@)
            &&& reply.audit matches Some(entry)
            &&& entry.error_message matches Some(text)
            &&& occurs_in(text, provider@)
        },
{
    let none = Seq::<char>::empty();
    let said = "Invalid token for provider "@ + provider@;
    assert(said =~= "Invalid token for provider "@ + provider@ + none);
    law_occurrence(said, provider@);
    let logged = "Provider "@ + provider@ + ": "@ + error@;
    assert(logged =~= "Provider "@ + provider@ + (": "@ + error@));
    law_occurrence(logged, provider@);
}

/// A salt is logged as created exactly where the lookup found none and the row that is then stored
/// was never updated; else it is logged as read.
pub proof fn law_created_salts_are_new(gate: SaltGate, outcomes: SaltOutcomes, config: Config)
    requires
        gate.answer(outcomes, config).result is Ok,
    ensures
        gate.answer(outcomes, config).audit matches Some(entry) && (entry.action
            == ActionType::Create <==> (outcomes.lookup matches Ok(found) && found is None && (
        outcomes.storing matches Ok(stored) && stored.created_at == stored.updated_at))),
{
}

/// A request is told by the provider that it names; one in the legacy format names none.
pub proof fn law_request_names_its_provider(token: SaltToken)
    ensures
        token.request matches GetSaltRequest::Provider { provider, .. } ==> token.provider_name()
            == provider@,
        token.request is Jwt ==> token.provider_name() == "unknown"@,
{
}

/// What the answer to a salt request says is what it holds.
pub proof fn law_salt_reply_says_its_fields(reply: SaltReply)
    ensures
        reply@.metrics == reply.metrics@,
        reply@.audit is Some <==> reply.audit is Some,
        reply.audit matches Some(record) ==> reply@.audit == Some(record@),
        reply.result matches Ok(response) ==> reply@.result == Ok::<_, RefusalView>(response.salt@),
        reply.result matches Err(refused) ==> reply@.result == Err::<Seq<char>, _>(refused@),
{
}

} // verus!
