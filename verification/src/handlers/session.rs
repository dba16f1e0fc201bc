//! Sessions: opening one, `POST /auth/refresh`, `POST /auth/logout` and
//! `GET /.well-known/jwks.json`.

use vstd::prelude::*;
use vstd::string::*;

use super::{
    gate_refusal, pass_gate, rate_of, rate_query, refusal, refuse, AuditRecord, AuditView, Failure,
    GateRefusal, RateQuery, RateView, Refusal, RefusalView,
};
use crate::config::{validation_error, Config};
use crate::db::{
    law_revocation, law_revoked_token_stays_recorded, law_rotation, rotation, NewRefreshSession,
    SessionRow, SessionTables, SessionWrite, SessionWriteView, REFRESH_SESSION_MICROS,
};
use crate::foreign::{base64url_encoded, ed25519_public_key, is_uuid_v4, lowercased, utc_now_micros};
use crate::json::{text_entry, JsonValue, JsonView};
use crate::models::{ActionType, LogoutRequest, RefreshRequest, RefreshResponse, RefreshSession};
use crate::security::session_token::{
    are_claims, generate_refresh_token, hash_refresh_token, is_access_token, is_clock_second,
    is_confirmed, is_issued, is_published, is_refresh_token, issue_access_token, jwks, key_set,
    law_key_set_publishes_the_key, law_published_key_confirms_tokens, law_token_tells, refresh_hash,
    seed_in, SessionClaims, SessionTokenError, ACCESS_TOKEN_EXPIRY_SECS,
};
use crate::text::{all_white, blank, is_blank, law_trimmed_is_the_middle};

verus! {

/// A session that was opened and has to be stored.
#[derive(Debug)]
pub struct OpenedSession {
    pub access_token: String,
    pub refresh_token: String,
    pub row: NewRefreshSession,
}

/// `row` is the session of a user that is opened at `now` and expires after 30 days. Of the
/// refresh token it holds the hash.
pub open spec fn is_session_row(
    row: SessionRow,
    user_identifier: Seq<char>,
    wallet_address: Seq<char>,
    provider: Seq<char>,
    client_id: Seq<char>,
    refresh_token: Seq<char>,
    now: int,
) -> bool {
    row == (SessionRow {
        user_identifier,
        wallet_address,
        provider,
        client_id,
        refresh_token_hash: refresh_hash(refresh_token),
        expires_at: now + REFRESH_SESSION_MICROS,
    })
}

/// The session of a user that is opened at `now`.
pub fn session_row(
    user_identifier: &str,
    wallet_address: &str,
    provider: &str,
    client_id: &str,
    refresh_token: &str,
    now: i64,
) -> (r: NewRefreshSession)
    requires
        now + REFRESH_SESSION_MICROS <= i64::MAX,
    ensures
        is_session_row(
            r@,
            user_identifier@,
            wallet_address@,
            provider@,
            client_id@,
            refresh_token@,
            now as int,
        ),
{
    NewRefreshSession {
        user_identifier: user_identifier.to_owned(),
        wallet_address: wallet_address.to_owned(),
        provider: provider.to_owned(),
        client_id: client_id.to_owned(),
        refresh_token_hash: hash_refresh_token(refresh_token),
        expires_at: now + REFRESH_SESSION_MICROS,
    }
}

/// The seed and the issuer with which sessions are signed, or what is answered where they lack.
pub open spec fn session_signing(config: Config) -> Result<(Seq<u8>, Seq<char>), RefusalView> {
    if config.jwt_signing_key is None || config.jwt_issuer is None {
        Err(refusal(503, "MySocial session signing is not configured"@))
    } else {
        match seed_in(config.jwt_signing_key->0@) {
            Ok(seed) => Ok((seed, config.jwt_issuer->0@)),
            Err(_) => Err(refusal(500, "Token issuance failed"@)),
        }
    }
}

/// `opened` is a session of a user: an access token that is signed with the seed, and a refresh
/// token of which the hash is stored.
pub open spec fn is_opened(
    opened: OpenedSession,
    user_identifier: Seq<char>,
    wallet_address: Seq<char>,
    provider: Seq<char>,
    client_id: Seq<char>,
    seed: Seq<u8>,
    issuer: Seq<char>,
    key_id: Seq<char>,
) -> bool {
    &&& is_access_token(
        opened.access_token@,
        seed,
        key_id,
        user_identifier,
        wallet_address,
        provider,
        client_id,
        issuer,
    )
    &&& is_refresh_token(opened.refresh_token@)
    &&& exists|now: int|
        now >= 0 && #[trigger] is_session_row(
            opened.row@,
            user_identifier,
            wallet_address,
            provider,
            client_id,
            opened.refresh_token@,
            now,
        )
}

/// Opens a session for a user of a client.
pub fn open_session(
    user_identifier: &str,
    wallet_address: &str,
    provider: &str,
    client_id: &str,
    config: &Config,
) -> (r: Result<OpenedSession, Refusal>)
    ensures
        match session_signing(*config) {
            Err(refused) => r matches Err(e) && e@ == refused,
            Ok((seed, issuer)) => r matches Ok(opened) && is_opened(
                opened,
                user_identifier@,
                wallet_address@,
                provider@,
                client_id@,
                seed,
                issuer,
                config.jwt_key_id@,
            ),
        },
{
    let (key, issuer) = match (&config.jwt_signing_key, &config.jwt_issuer) {
        (Some(key), Some(issuer)) => (key, issuer),
        _ => return Err(refuse(503, "MySocial session signing is not configured")),
    };
    let access_token = match issue_access_token(
        user_identifier,
        wallet_address,
        provider,
        client_id,
        issuer.as_str(),
        key.as_str(),
        config.jwt_key_id.as_str(),
    ) {
        Ok(token) => token,
        Err(_) => return Err(refuse(500, "Token issuance failed")),
    };
    let refresh_token = match generate_refresh_token() {
        Ok((token, _)) => token,
        Err(_) => return Err(refuse(500, "Token generation failed")),
    };
    let now: i64 = utc_now_micros();
    let row = session_row(
        user_identifier,
        wallet_address,
        provider,
        client_id,
        refresh_token.as_str(),
        now,
    );
    let opened = OpenedSession { access_token, refresh_token, row };
    assert(is_session_row(
        opened.row@,
        user_identifier@,
        wallet_address@,
        provider@,
        client_id@,
        opened.refresh_token@,
        now as int,
    ));
    Ok(opened)
}

/// What is logged of an operation on the session of a refresh token: the action of one that
/// succeeds, or what was answered to one that does not.
pub open spec fn session_entry(
    user_identifier: Seq<char>,
    action: ActionType,
    ip_address: Seq<char>,
    refresh_token_hash: Seq<char>,
    error: Option<Seq<char>>,
) -> AuditView {
    AuditView {
        user_identifier,
        action: if error is Some {
            ActionType::Error
        } else {
            action
        },
        ip_address: Some(ip_address),
        user_agent: None,
        jwt_hash: Some(refresh_token_hash),
        success: error is None,
        error_message: error,
    }
}

/// What is logged of an operation that succeeds.
fn done_entry(
    user_identifier: &str,
    action: ActionType,
    ip_address: String,
    refresh_token_hash: String,
) -> (r: AuditRecord)
    ensures
        r@ == session_entry(user_identifier@, action, ip_address@, refresh_token_hash@, None),
{
    AuditRecord {
        user_identifier: user_identifier.to_owned(),
        action,
        ip_address: Some(ip_address),
        user_agent: None,
        jwt_hash: Some(refresh_token_hash),
        success: true,
        error_message: None,
    }
}

/// What is logged of an operation that is refused.
fn refused_entry(
    user_identifier: &str,
    ip_address: String,
    refresh_token_hash: String,
    refused: &Refusal,
) -> (r: AuditRecord)
    ensures
        forall|action: ActionType|
            r@ == #[trigger] session_entry(
                user_identifier@,
                action,
                ip_address@,
                refresh_token_hash@,
                Some(refused@.message),
            ),
{
    AuditRecord {
        user_identifier: user_identifier.to_owned(),
        action: ActionType::Error,
        ip_address: Some(ip_address),
        user_agent: None,
        jwt_hash: Some(refresh_token_hash),
        success: false,
        error_message: Some(refused.message.clone()),
    }
}

/// The answer to a refresh request, and what is logged of it.
#[derive(Debug)]
pub struct RefreshReply {
    pub audit: AuditRecord,
    pub result: Result<RefreshResponse, Refusal>,
}

impl RefreshReply {
    /// The answer refuses the request, and that is logged.
    pub open spec fn refuses(
        self,
        wanted: RefusalView,
        user_identifier: Seq<char>,
        ip_address: Seq<char>,
        refresh_token_hash: Seq<char>,
    ) -> bool {
        &&& self.result matches Err(e)
        &&& e@ == wanted
        &&& self.audit@ == session_entry(
            user_identifier,
            ActionType::Rotate,
            ip_address,
            refresh_token_hash,
            Some(wanted.message),
        )
    }
}

/// Refuses a refresh request, and logs that.
fn refuse_refresh(
    status: u16,
    message: &str,
    user_identifier: &str,
    ip_address: String,
    refresh_token_hash: String,
) -> (r: RefreshReply)
    ensures
        r.refuses(
            refusal(status, message@),
            user_identifier@,
            ip_address@,
            refresh_token_hash@,
        ),
{
    let refused = refuse(status, message);
    let ghost hash = refresh_token_hash@;
    let audit = refused_entry(user_identifier, ip_address, refresh_token_hash, &refused);
    assert(audit@ == session_entry(
        user_identifier@,
        ActionType::Rotate,
        ip_address@,
        hash,
        Some(refused@.message),
    ));
    RefreshReply { audit, result: Err(refused) }
}

/// A refresh request that waits for the rate limiter.
#[derive(Debug)]
pub struct RefreshGate {
    pub request: RefreshRequest,
    pub ip_address: String,
}

/// A refresh request that waits for the lookup of its token among the revoked ones.
#[derive(Debug)]
pub struct RefreshReuse {
    pub ip_address: String,
    pub old_hash: String,
}

/// A refresh request with a revoked token, which waits for the deletion of its owner's sessions.
#[derive(Debug)]
pub struct RefreshReplay {
    pub ip_address: String,
    pub old_hash: String,
    pub user_identifier: String,
}

/// A refresh request that waits for the rotation of its session.
#[derive(Debug)]
pub struct RefreshRotation {
    pub ip_address: String,
    pub old_hash: String,
    pub new_token: String,
    pub new_hash: String,
}

/// What the lookup among the revoked tokens leads to.
#[derive(Debug)]
pub enum RefreshNext {
    Replay(RefreshReplay),
    Rotation(RefreshRotation),
}

/// How a request without a refresh token is refused.
pub open spec fn token_missing(refresh_token: Seq<char>) -> Option<RefusalView> {
    if is_blank(refresh_token) {
        Some(refusal(400, "refresh_token is required"@))
    } else {
        None
    }
}

/// Takes a refresh request.
pub fn auth_refresh(request: RefreshRequest, ip_address: String) -> (r: Result<
    RefreshGate,
    Refusal,
>)
    ensures
        match token_missing(request.refresh_token@) {
            Some(refused) => r matches Err(e) && e@ == refused,
            None => r == Ok::<_, Refusal>(RefreshGate { request, ip_address }),
        },
{
    if blank(request.refresh_token.as_str()) {
        return Err(refuse(400, "refresh_token is required"));
    }
    Ok(RefreshGate { request, ip_address })
}

/// The question that the refreshes of an address are subject to: ten a minute.
pub open spec fn refresh_rate(ip_address: Seq<char>) -> RateView {
    RateView { identifier: "refresh:"@ + ip_address, window_minutes: 1, max_requests: 10 }
}

impl RefreshGate {
    /// `r` is the next stage with the token's hash, or how the request is refused.
    pub open spec fn leads_to(
        self,
        outcome: Result<bool, Failure>,
        r: Result<RefreshReuse, Refusal>,
    ) -> bool {
        match outcome {
            Err(_) => r matches Err(e) && e@ == refusal(500, "Internal error"@),
            Ok(false) => r matches Err(e) && e@ == refusal(429, "Rate limit exceeded"@),
            Ok(true) => r matches Ok(next) && next.ip_address == self.ip_address
                && next.old_hash@ == refresh_hash(self.request.refresh_token@),
        }
    }

    /// What the rate limiter is asked: refreshes are counted apart, ten a minute.
    pub fn rate_query(&self) -> (r: RateQuery)
        ensures
            r@ == refresh_rate(self.ip_address@),
            r.identifier@ == "refresh:"@ + self.ip_address@,
            r.window_minutes == 1,
            r.max_requests == 10,
    {
        RateQuery {
            identifier: "refresh:".to_owned().concat(self.ip_address.as_str()),
            window_minutes: 1,
            max_requests: 10,
        }
    }

    /// Takes the answer of the rate limiter.
    pub fn on_rate_limit(self, outcome: Result<bool, Failure>) -> (r: Result<RefreshReuse, Refusal>)
        ensures
            self.leads_to(outcome, r),
    {
        match outcome {
            Err(_) => Err(refuse(500, "Internal error")),
            Ok(allowed) => if allowed {
                let old_hash = hash_refresh_token(self.request.refresh_token.as_str());
                Ok(RefreshReuse { ip_address: self.ip_address, old_hash })
            } else {
                Err(refuse(429, "Rate limit exceeded"))
            },
        }
    }
}

impl RefreshReuse {
    /// `r` is the next stage: for a revoked token the deletion of its owner's sessions, for another
    /// one the rotation to a new token. Or it is how the request is refused.
    pub open spec fn leads_to(
        self,
        outcome: Result<Option<String>, Failure>,
        r: Result<RefreshNext, RefreshReply>,
    ) -> bool {
        match outcome {
            Err(_) => r matches Err(reply) && reply.refuses(
                refusal(500, "Internal error"@),
                "unknown"@,
                self.ip_address@,
                self.old_hash@,
            ),
            Ok(Some(user_identifier)) => r == Ok::<_, RefreshReply>(
                RefreshNext::Replay(
                    RefreshReplay {
                        ip_address: self.ip_address,
                        old_hash: self.old_hash,
                        user_identifier,
                    },
                ),
            ),
            Ok(None) => r matches Ok(RefreshNext::Rotation(next)) && {
                &&& next.ip_address == self.ip_address
                &&& next.old_hash == self.old_hash
                &&& is_refresh_token(next.new_token@)
                &&& next.new_hash@ == refresh_hash(next.new_token@)
            },
        }
    }

    /// Takes the owner of the token, where it is a revoked one. Another token is to be replaced
    /// by a new random one.
    pub fn on_revoked_owner(self, outcome: Result<Option<String>, Failure>) -> (r: Result<
        RefreshNext,
        RefreshReply,
    >)
        ensures
            self.leads_to(outcome, r),
    {
        match outcome {
            Err(_) => Err(
                refuse_refresh(500, "Internal error", "unknown", self.ip_address, self.old_hash),
            ),
            Ok(Some(user_identifier)) => Ok(
                RefreshNext::Replay(
                    RefreshReplay {
                        ip_address: self.ip_address,
                        old_hash: self.old_hash,
                        user_identifier,
                    },
                ),
            ),
            Ok(None) => match generate_refresh_token() {
                Ok((new_token, new_hash)) => Ok(
                    RefreshNext::Rotation(
                        RefreshRotation {
                            ip_address: self.ip_address,
                            old_hash: self.old_hash,
                            new_token,
                            new_hash,
                        },
                    ),
                ),
                Err(_) => Err(
                    refuse_refresh(
                        500,
                        "Token generation failed",
                        "unknown",
                        self.ip_address,
                        self.old_hash,
                    ),
                ),
            },
        }
    }
}

impl RefreshReplay {
    /// The statement that revokes the rest of the session family.
    pub open spec fn deletion_view(self) -> SessionWriteView {
        SessionWriteView::DeleteByUser(self.user_identifier@)
    }

    /// The statement that revokes the rest of the session family.
    pub fn deletion(&self) -> (r: SessionWrite)
        ensures
            r@ == self.deletion_view(),
    {
        SessionWrite::DeleteByUser { user_identifier: self.user_identifier.clone() }
    }

    /// `r` refuses the request.
    pub open spec fn leads_to(self, outcome: Result<(), Failure>, r: RefreshReply) -> bool {
        r.refuses(
            match outcome {
                Err(_) => refusal(500, "Internal error"@),
                Ok(_) => refusal(401, "Refresh token revoked"@),
            },
            self.user_identifier@,
            self.ip_address@,
            self.old_hash@,
        )
    }

    /// Takes the outcome of the deletion. A replayed token is refused in any case.
    pub fn on_deletion(self, outcome: Result<(), Failure>) -> (r: RefreshReply)
        ensures
            self.leads_to(outcome, r),
    {
        let user = self.user_identifier.as_str();
        match outcome {
            Err(_) => refuse_refresh(500, "Internal error", user, self.ip_address, self.old_hash),
            Ok(_) => refuse_refresh(
                401,
                "Refresh token revoked",
                user,
                self.ip_address,
                self.old_hash,
            ),
        }
    }
}

/// A JSON object with one member that is a string.
pub open spec fn single_text(name: Seq<char>, value: Seq<char>) -> JsonView {
    JsonView::Object(seq![(name, JsonView::Text(value))])
}

/// The JSON object that names a wallet address.
pub(crate) fn address_object(address: &str) -> (r: JsonValue)
    ensures
        r@ == single_text("address"@, address@),
{
    let user = JsonValue::Object(vec![text_entry("address", address)]);
    assert(user@->Object_0 =~= seq![("address"@, JsonView::Text(address@))]);
    user
}

/// The reply that hands out the tokens of a rotated session.
pub fn refresh_response(access_token: String, refresh_token: String, wallet_address: &str) -> (r:
    RefreshResponse)
    ensures
        r.access_token == access_token,
        r.session_access_token == access_token,
        r.refresh_token == refresh_token,
        r.expires_in == ACCESS_TOKEN_EXPIRY_SECS,
        r.user@ == single_text("address"@, wallet_address@),
{
    RefreshResponse {
        access_token: access_token.clone(),
        session_access_token: access_token,
        refresh_token,
        expires_in: ACCESS_TOKEN_EXPIRY_SECS as u64,
        user: address_object(wallet_address),
    }
}

/// The seed and the issuer with which a refreshed session is signed, or what is answered where
/// they lack.
pub open spec fn refresh_signing(config: Config) -> Result<(Seq<u8>, Seq<char>), RefusalView> {
    if config.jwt_signing_key is None {
        Err(refusal(503, "Session signing unavailable"@))
    } else if config.jwt_issuer is None {
        Err(refusal(503, "Session issuer unavailable"@))
    } else {
        match seed_in(config.jwt_signing_key->0@) {
            Ok(seed) => Ok((seed, config.jwt_issuer->0@)),
            Err(_) => Err(refusal(500, "Token issuance failed"@)),
        }
    }
}

impl RefreshRotation {
    /// `reply` hands out a new access token for a session, signed with the seed, and the new
    /// refresh token; the rotation is logged.
    pub open spec fn is_reply(
        self,
        reply: RefreshReply,
        session: RefreshSession,
        seed: Seq<u8>,
        issuer: Seq<char>,
        key_id: Seq<char>,
    ) -> bool {
        &&& reply.result matches Ok(response)
        &&& is_access_token(
            response.access_token@,
            seed,
            key_id,
            session.user_identifier@,
            session.wallet_address@,
            session.provider@,
            session.client_id@,
            issuer,
        )
        &&& response.session_access_token == response.access_token
        &&& response.refresh_token == self.new_token
        &&& response.expires_in == ACCESS_TOKEN_EXPIRY_SECS
        &&& response.user@ == single_text("address"@, session.wallet_address@)
        &&& reply.audit@ == session_entry(
            session.user_identifier@,
            ActionType::Rotate,
            self.ip_address@,
            self.old_hash@,
            None,
        )
    }

    /// `r` hands out new tokens for the session that was rotated, or refuses the request.
    pub open spec fn leads_to(
        self,
        outcome: Result<Option<RefreshSession>, Failure>,
        config: Config,
        r: RefreshReply,
    ) -> bool {
        match outcome {
            Err(_) => r.refuses(
                refusal(500, "Session rotation failed"@),
                "unknown"@,
                self.ip_address@,
                self.old_hash@,
            ),
            Ok(None) => r.refuses(
                refusal(401, "Invalid refresh token"@),
                "unknown"@,
                self.ip_address@,
                self.old_hash@,
            ),
            Ok(Some(session)) => match refresh_signing(config) {
                Err(refused) => r.refuses(
                    refused,
                    session.user_identifier@,
                    self.ip_address@,
                    self.old_hash@,
                ),
                Ok((seed, issuer)) => self.is_reply(r, session, seed, issuer, config.jwt_key_id@),
            },
        }
    }

    /// Takes the session that was rotated, if there was one under the old token.
    pub fn on_rotation(
        self,
        outcome: Result<Option<RefreshSession>, Failure>,
        config: &Config,
    ) -> (r: RefreshReply)
        ensures
            self.leads_to(outcome, *config, r),
    {
        let ip = self.ip_address;
        let hash = self.old_hash;
        let session = match outcome {
            Err(_) => return refuse_refresh(500, "Session rotation failed", "unknown", ip, hash),
            Ok(None) => return refuse_refresh(401, "Invalid refresh token", "unknown", ip, hash),
            Ok(Some(session)) => session,
        };
        let user = session.user_identifier.as_str();
        let key = match &config.jwt_signing_key {
            Some(key) => key,
            None => return refuse_refresh(503, "Session signing unavailable", user, ip, hash),
        };
        let issuer = match &config.jwt_issuer {
            Some(issuer) => issuer,
            None => return refuse_refresh(503, "Session issuer unavailable", user, ip, hash),
        };
        match issue_access_token(
            user,
            session.wallet_address.as_str(),
            session.provider.as_str(),
            session.client_id.as_str(),
            issuer.as_str(),
            key.as_str(),
            config.jwt_key_id.as_str(),
        ) {
            Ok(access_token) => RefreshReply {
                audit: done_entry(user, ActionType::Rotate, ip, hash),
                result: Ok(
                    refresh_response(access_token, self.new_token, session.wallet_address.as_str()),
                ),
            },
            Err(_) => refuse_refresh(500, "Token issuance failed", user, ip, hash),
        }
    }
}

/// A logout that waits for the rate limiter.
#[derive(Debug)]
pub struct LogoutGate {
    pub request: LogoutRequest,
    pub ip_address: String,
}

/// A logout that waits for the revocation of its token.
#[derive(Debug)]
pub struct LogoutRevocation {
    pub ip_address: String,
    pub refresh_token_hash: String,
}

/// The answer to a logout, a status or a refusal, and what is logged of it.
#[derive(Debug)]
pub struct LogoutReply {
    pub audit: AuditRecord,
    pub result: Result<u16, Refusal>,
}

/// Takes a logout request.
pub fn auth_logout(request: LogoutRequest, ip_address: String) -> (r: Result<LogoutGate, Refusal>)
    ensures
        match token_missing(request.refresh_token@) {
            Some(refused) => r matches Err(e) && e@ == refused,
            None => r == Ok::<_, Refusal>(LogoutGate { request, ip_address }),
        },
{
    if blank(request.refresh_token.as_str()) {
        return Err(refuse(400, "refresh_token is required"));
    }
    Ok(LogoutGate { request, ip_address })
}

impl LogoutGate {
    /// `r` is the next stage with the token's hash, or how the request is refused.
    pub open spec fn leads_to(
        self,
        outcome: Result<bool, Failure>,
        r: Result<LogoutRevocation, GateRefusal>,
    ) -> bool {
        match gate_refusal(outcome) {
            Some(refused) => r matches Err(e) && e@ == refused,
            None => r matches Ok(next) && next.ip_address == self.ip_address
                && next.refresh_token_hash@ == refresh_hash(self.request.refresh_token@),
        }
    }

    /// What the rate limiter is asked.
    pub fn rate_query(&self, config: &Config) -> (r: RateQuery)
        ensures
            r@ == rate_of(self.ip_address@, *config),
            r.identifier@ == self.ip_address@,
            r.window_minutes == 1,
            r.max_requests == config.rate_limit_per_minute,
    {
        rate_query(self.ip_address.as_str(), config)
    }

    /// Takes the answer of the rate limiter.
    pub fn on_rate_limit(self, outcome: Result<bool, Failure>) -> (r: Result<
        LogoutRevocation,
        GateRefusal,
    >)
        ensures
            self.leads_to(outcome, r),
    {
        match pass_gate(outcome) {
            Ok(_) => {},
            Err(refused) => return Err(refused),
        }
        let refresh_token_hash = hash_refresh_token(self.request.refresh_token.as_str());
        Ok(LogoutRevocation { ip_address: self.ip_address, refresh_token_hash })
    }
}

/// Whose session a logout ended; `unknown` where the token had none.
pub open spec fn logged_out(owner: Option<String>) -> Seq<char> {
    match owner {
        Some(user) => user@,
        None => "unknown"@,
    }
}

impl LogoutRevocation {
    /// `r` is the answer to the logout, and what is logged of it.
    pub open spec fn leads_to(self, outcome: Result<Option<String>, Failure>, r: LogoutReply) -> bool {
        match outcome {
            Err(_) => {
                &&& r.result matches Err(e)
                &&& e@ == refusal(500, "Session revocation failed"@)
                &&& r.audit@ == session_entry(
                    "unknown"@,
                    ActionType::Read,
                    self.ip_address@,
                    self.refresh_token_hash@,
                    Some("Session revocation failed"@),
                )
            },
            Ok(owner) => {
                &&& r.result == Ok::<u16, Refusal>(204)
                &&& r.audit@ == session_entry(
                    logged_out(owner),
                    ActionType::Read,
                    self.ip_address@,
                    self.refresh_token_hash@,
                    None,
                )
            },
        }
    }

    /// Takes the outcome of the revocation: whether the token had a session or not, the reply is
    /// the status 204.
    pub fn on_revocation(self, outcome: Result<Option<String>, Failure>) -> (r: LogoutReply)
        ensures
            self.leads_to(outcome, r),
    {
        let ip = self.ip_address;
        let hash = self.refresh_token_hash;
        match outcome {
            Err(_) => {
                let refused = refuse(500, "Session revocation failed");
                let audit = refused_entry("unknown", ip, hash, &refused);
                assert(audit@ == session_entry(
                    "unknown"@,
                    ActionType::Read,
                    self.ip_address@,
                    self.refresh_token_hash@,
                    Some(refused@.message),
                ));
                LogoutReply { audit, result: Err(refused) }
            },
            Ok(owner) => {
                let audit = match &owner {
                    Some(user) => done_entry(user.as_str(), ActionType::Read, ip, hash),
                    None => done_entry("unknown", ActionType::Read, ip, hash),
                };
                LogoutReply { audit, result: Ok(204) }
            },
        }
    }
}

/// `r` publishes the key with which sessions are signed, or says that there is none.
pub open spec fn publishes(config: Config, r: Result<JsonValue, Refusal>) -> bool {
    if config.jwt_signing_key is None {
        r matches Err(e) && e@ == refusal(404, "JWKS unavailable"@)
    } else {
        match seed_in(config.jwt_signing_key->0@) {
            Ok(seed) => r matches Ok(set) && {
                let x = base64url_encoded(ed25519_public_key(seed));
                set@ == key_set(config.jwt_key_id@, x) && is_published(x, seed)
            },
            Err(_) => r matches Err(e) && e@ == refusal(500, "JWKS unavailable"@),
        }
    }
}

/// The key set under which session tokens are verified.
pub fn session_jwks(config: &Config) -> (r: Result<JsonValue, Refusal>)
    ensures
        publishes(*config, r),
{
    match &config.jwt_signing_key {
        None => Err(refuse(404, "JWKS unavailable")),
        Some(key) => match jwks(key.as_str(), config.jwt_key_id.as_str()) {
            Ok(set) => Ok(set),
            Err(_) => Err(refuse(500, "JWKS unavailable")),
        },
    }
}

/// With a configuration that can be used, every authentication returns a session.
pub proof fn law_usable_config_signs_sessions(config: Config)
    requires
        validation_error(config) is None,
    ensures
        session_signing(config) is Ok,
        refresh_signing(config) == session_signing(config),
{
}

/// A refresh token finds its session from when it is opened until 30 days later, by the hash that
/// a refresh looks for.
pub proof fn law_refresh_token_finds_its_session(
    tables: SessionTables,
    id: u128,
    user_identifier: Seq<char>,
    wallet_address: Seq<char>,
    provider: Seq<char>,
    client_id: Seq<char>,
    refresh_token: Seq<char>,
    opened_at: int,
    now: int,
)
    requires
        tables.sessions.dom().contains(id),
        is_session_row(
            tables.sessions[id],
            user_identifier,
            wallet_address,
            provider,
            client_id,
            refresh_token,
            opened_at,
        ),
    ensures
        tables.is_active(id, refresh_hash(refresh_token), now) <==> now < opened_at
            + REFRESH_SESSION_MICROS,
{
}

/// Reuse of a revoked refresh token revokes the session family, whatever happens between the
/// revocation and the reuse: the owner is still the one that was recorded, and the deletion that
/// follows leaves no session of that owner and all others.
pub proof fn law_reuse_revokes_family(
    tables: SessionTables,
    token: Seq<char>,
    between: Seq<(SessionWriteView, u128)>,
    replay: RefreshReplay,
    id: u128,
)
    requires
        tables.revoked.dom().contains(refresh_hash(token)),
        replay.user_identifier@ == tables.after_history(between).revoked[refresh_hash(token)],
    ensures
        ({
            let owner = tables.revoked[refresh_hash(token)];
            let before = tables.after_history(between);
            let after = before.after(replay.deletion_view(), 0);
            &&& before.revoked.dom().contains(refresh_hash(token))
            &&& replay.user_identifier@ == owner
            &&& after.sessions.dom().contains(id) <==> before.sessions.dom().contains(id)
                && before.sessions[id].user_identifier != owner
        }),
{
    law_revoked_token_stays_recorded(tables, between, refresh_hash(token));
}

/// Reuse of a refresh token any time after its rotation revokes the session family: the owner of
/// the rotated session is found among the revoked tokens, and the deletion that follows leaves no
/// session of that owner.
pub proof fn law_reuse_after_rotation_revokes_family(
    tables: SessionTables,
    id: u128,
    token: Seq<char>,
    new_hash: Seq<char>,
    now: int,
    new_id: u128,
    between: Seq<(SessionWriteView, u128)>,
    replay: RefreshReplay,
    other: u128,
)
    requires
        tables.is_active(id, refresh_hash(token), now),
        !tables.sessions.dom().contains(new_id),
        !tables.revoked.dom().contains(refresh_hash(token)),
        ({
            let rotated = tables.after_all(
                rotation(id, tables.sessions[id], refresh_hash(token), new_hash),
                new_id,
            );
            replay.user_identifier@ == rotated.after_history(between).revoked[refresh_hash(token)]
        }),
    ensures
        ({
            let owner = tables.sessions[id].user_identifier;
            let rotated = tables.after_all(
                rotation(id, tables.sessions[id], refresh_hash(token), new_hash),
                new_id,
            );
            let before = rotated.after_history(between);
            let after = before.after(replay.deletion_view(), 0);
            &&& before.revoked.dom().contains(refresh_hash(token))
            &&& replay.user_identifier@ == owner
            &&& after.sessions.dom().contains(other) ==> after.sessions[other].user_identifier
                != owner
        }),
{
    law_rotation(tables, id, refresh_hash(token), new_hash, now, new_id);
    let rotated = tables.after_all(
        rotation(id, tables.sessions[id], refresh_hash(token), new_hash),
        new_id,
    );
    law_reuse_revokes_family(rotated, token, between, replay, other);
}

/// Reuse of a refresh token any time after a logout revokes the session family of the user who
/// logged out.
pub proof fn law_reuse_after_logout_revokes_family(
    tables: SessionTables,
    token: Seq<char>,
    owner: Seq<char>,
    between: Seq<(SessionWriteView, u128)>,
    replay: RefreshReplay,
    other: u128,
)
    requires
        tables.finds_owner(refresh_hash(token), Some(owner)),
        !tables.revoked.dom().contains(refresh_hash(token)),
        replay.user_identifier@ == tables.after_revocation(
            refresh_hash(token),
            Some(owner),
        ).after_history(between).revoked[refresh_hash(token)],
    ensures
        ({
            let before = tables.after_revocation(
                refresh_hash(token),
                Some(owner),
            ).after_history(between);
            let after = before.after(replay.deletion_view(), 0);
            &&& before.revoked.dom().contains(refresh_hash(token))
            &&& replay.user_identifier@ == owner
            &&& after.sessions.dom().contains(other) ==> after.sessions[other].user_identifier
                != owner
        }),
{
    law_revocation(tables, refresh_hash(token), owner, other);
    law_reuse_revokes_family(
        tables.after_revocation(refresh_hash(token), Some(owner)),
        token,
        between,
        replay,
        other,
    );
}

/// The key set that the service publishes confirms the access tokens that it issues.
pub proof fn law_published_keys_confirm_sessions(
    opened: OpenedSession,
    user_identifier: Seq<char>,
    wallet_address: Seq<char>,
    provider: Seq<char>,
    client_id: Seq<char>,
    seed: Seq<u8>,
    issuer: Seq<char>,
    key_id: Seq<char>,
    x: Seq<char>,
)
    requires
        is_opened(
            opened,
            user_identifier,
            wallet_address,
            provider,
            client_id,
            seed,
            issuer,
            key_id,
        ),
        is_published(x, seed),
    ensures
        is_confirmed(opened.access_token@, x),
{
    let (claims, now, jti) = choose|claims: SessionClaims, now: int, jti: Seq<char>|
        {
            &&& is_clock_second(now)
            &&& is_uuid_v4(jti)
            &&& #[trigger] are_claims(
                claims,
                user_identifier,
                wallet_address,
                provider,
                client_id,
                issuer,
                now,
                jti,
            )
            &&& is_issued(opened.access_token@, seed, key_id, claims)
        };
    law_published_key_confirms_tokens(opened.access_token@, x, seed, key_id, claims);
}

/// The claims of two tokens are the same, apart from their times and their IDs.
pub open spec fn tell_the_same(a: SessionClaims, b: SessionClaims) -> bool {
    &&& a.iss@ == b.iss@
    &&& a.aud@ == b.aud@
    &&& a.sub@ == b.sub@
    &&& a.wallet_address@ == b.wallet_address@
    &&& a.provider@ == b.provider@
    &&& a.exp - a.iat == b.exp - b.iat
}

/// An opened session is the user's: its access token and the row that is stored of it tell the same
/// user, wallet, provider and client, the token's audience being the client. The row holds the hash
/// of the refresh token, not the token, and expires 30 days after some time of the clock.
pub proof fn law_opened_session_is_the_users(
    opened: OpenedSession,
    user_identifier: Seq<char>,
    wallet_address: Seq<char>,
    provider: Seq<char>,
    client_id: Seq<char>,
    seed: Seq<u8>,
    issuer: Seq<char>,
    key_id: Seq<char>,
)
    requires
        is_opened(
            opened,
            user_identifier,
            wallet_address,
            provider,
            client_id,
            seed,
            issuer,
            key_id,
        ),
    ensures
        opened.row@.user_identifier == user_identifier,
        opened.row@.wallet_address == wallet_address,
        opened.row@.provider == provider,
        opened.row@.client_id == client_id,
        opened.row@.refresh_token_hash == refresh_hash(opened.refresh_token@),
        opened.row@.expires_at >= 30 * 24 * 60 * 60 * 1_000_000,
        is_refresh_token(opened.refresh_token@),
        exists|claims: SessionClaims|
            {
                &&& #[trigger] is_issued(opened.access_token@, seed, key_id, claims)
                &&& claims.iss@ == issuer
                &&& claims.aud@ == opened.row@.client_id
                &&& claims.sub@ == opened.row@.user_identifier
                &&& claims.provider@ == opened.row@.provider
                &&& claims.wallet_address@ == lowercased(opened.row@.wallet_address)
                &&& claims.exp == claims.iat + 30 * 60
            },
{
    law_token_tells(
        opened.access_token@,
        seed,
        key_id,
        user_identifier,
        wallet_address,
        provider,
        client_id,
        issuer,
    );
}

/// A row expires 30 days after it is made, to the microsecond.
pub proof fn law_sessions_live_for_thirty_days(
    row: SessionRow,
    user_identifier: Seq<char>,
    wallet_address: Seq<char>,
    provider: Seq<char>,
    client_id: Seq<char>,
    refresh_token: Seq<char>,
    now: int,
)
    requires
        is_session_row(
            row,
            user_identifier,
            wallet_address,
            provider,
            client_id,
            refresh_token,
            now,
        ),
    ensures
        row.expires_at - now == 30 * 24 * 60 * 60 * 1_000_000,
        row.user_identifier == user_identifier,
        row.wallet_address == wallet_address,
        row.provider == provider,
        row.client_id == client_id,
        row.refresh_token_hash == refresh_hash(refresh_token),
{
}

/// The access token that a refresh hands out carries the client of the rotated session as its
/// audience, the provider of that session as its provider, its user as its subject and its wallet
/// in lower case. The reply names that wallet, and hands out the new refresh token with it.
pub proof fn law_refreshed_token_tells_the_session(
    rotation: RefreshRotation,
    reply: RefreshReply,
    session: RefreshSession,
    seed: Seq<u8>,
    issuer: Seq<char>,
    key_id: Seq<char>,
)
    requires
        rotation.is_reply(reply, session, seed, issuer, key_id),
    ensures
        reply.result matches Ok(response) && {
            &&& exists|claims: SessionClaims|
                {
                    &&& #[trigger] is_issued(response.access_token@, seed, key_id, claims)
                    &&& claims.iss@ == issuer
                    &&& claims.aud@ == session.client_id@
                    &&& claims.sub@ == session.user_identifier@
                    &&& claims.provider@ == session.provider@
                    &&& claims.wallet_address@ == lowercased(session.wallet_address@)
                    &&& claims.exp == claims.iat + 30 * 60
                }
            &&& response.session_access_token@ == response.access_token@
            &&& response.refresh_token@ == rotation.new_token@
            &&& response.expires_in == 30 * 60
            &&& response.user@.text_member("address"@) == Some(session.wallet_address@)
        },
        reply.audit@.user_identifier == session.user_identifier@,
        reply.audit@.action == ActionType::Rotate,
        reply.audit@.success,
        reply.audit@.jwt_hash == Some(rotation.old_hash@),
        reply.audit@.ip_address == Some(rotation.ip_address@),
{
    let response = reply.result->Ok_0;
    law_token_tells(
        response.access_token@,
        seed,
        key_id,
        session.user_identifier@,
        session.wallet_address@,
        session.provider@,
        session.client_id@,
        issuer,
    );
}

/// A refresh keeps the claims: apart from their times and their IDs, the access token that a
/// refresh hands out tells the same as the one with which the session was opened, where the
/// rotated session is the stored one, whatever its token was rotated to meanwhile.
pub proof fn law_refresh_keeps_the_claims(
    opened: OpenedSession,
    user_identifier: Seq<char>,
    wallet_address: Seq<char>,
    provider: Seq<char>,
    client_id: Seq<char>,
    seed: Seq<u8>,
    issuer: Seq<char>,
    key_id: Seq<char>,
    rotation: RefreshRotation,
    reply: RefreshReply,
    session: RefreshSession,
    refresh_seed: Seq<u8>,
    refresh_key_id: Seq<char>,
)
    requires
        is_opened(
            opened,
            user_identifier,
            wallet_address,
            provider,
            client_id,
            seed,
            issuer,
            key_id,
        ),
        session@ == (SessionRow {
            refresh_token_hash: session.refresh_token_hash@,
            ..opened.row@
        }),
        rotation.is_reply(reply, session, refresh_seed, issuer, refresh_key_id),
    ensures
        reply.result matches Ok(response) && exists|before: SessionClaims, after: SessionClaims|
            {
                &&& #[trigger] is_issued(opened.access_token@, seed, key_id, before)
                &&& #[trigger] is_issued(
                    response.access_token@,
                    refresh_seed,
                    refresh_key_id,
                    after,
                )
                &&& tell_the_same(before, after)
            },
{
    law_opened_session_is_the_users(
        opened,
        user_identifier,
        wallet_address,
        provider,
        client_id,
        seed,
        issuer,
        key_id,
    );
    law_refreshed_token_tells_the_session(
        rotation,
        reply,
        session,
        refresh_seed,
        issuer,
        refresh_key_id,
    );
    let response = reply.result->Ok_0;
    let row = opened.row@;
    assert(session@.client_id == row.client_id && session@.provider == row.provider);
    assert(session@.user_identifier == row.user_identifier);
    assert(session@.wallet_address == row.wallet_address);
    let before = choose|claims: SessionClaims|
        {
            &&& #[trigger] is_issued(opened.access_token@, seed, key_id, claims)
            &&& claims.iss@ == issuer
            &&& claims.aud@ == row.client_id
            &&& claims.sub@ == row.user_identifier
            &&& claims.provider@ == row.provider
            &&& claims.wallet_address@ == lowercased(row.wallet_address)
            &&& claims.exp == claims.iat + 30 * 60
        };
    let after = choose|claims: SessionClaims|
        {
            &&& #[trigger] is_issued(response.access_token@, refresh_seed, refresh_key_id, claims)
            &&& claims.iss@ == issuer
            &&& claims.aud@ == session.client_id@
            &&& claims.sub@ == session.user_identifier@
            &&& claims.provider@ == session.provider@
            &&& claims.wallet_address@ == lowercased(session.wallet_address@)
            &&& claims.exp == claims.iat + 30 * 60
        };
    assert(tell_the_same(before, after));
}

/// The access tokens of two refreshes of one session tell the same, apart from their times and
/// their IDs.
pub proof fn law_refreshes_agree(
    first: RefreshRotation,
    first_reply: RefreshReply,
    first_session: RefreshSession,
    second: RefreshRotation,
    second_reply: RefreshReply,
    second_session: RefreshSession,
    seed: Seq<u8>,
    issuer: Seq<char>,
    key_id: Seq<char>,
)
    requires
        first.is_reply(first_reply, first_session, seed, issuer, key_id),
        second.is_reply(second_reply, second_session, seed, issuer, key_id),
        second_session@ == (SessionRow {
            refresh_token_hash: second_session.refresh_token_hash@,
            ..first_session@
        }),
    ensures
        exists|a: SessionClaims, b: SessionClaims|
            {
                &&& #[trigger] is_issued(first_reply.result->Ok_0.access_token@, seed, key_id, a)
                &&& #[trigger] is_issued(second_reply.result->Ok_0.access_token@, seed, key_id, b)
                &&& tell_the_same(a, b)
            },
{
    law_refreshed_token_tells_the_session(first, first_reply, first_session, seed, issuer, key_id);
    law_refreshed_token_tells_the_session(
        second,
        second_reply,
        second_session,
        seed,
        issuer,
        key_id,
    );
    let s = first_session@;
    assert(second_session@.client_id == s.client_id && second_session@.provider == s.provider);
    assert(second_session@.user_identifier == s.user_identifier);
    assert(second_session@.wallet_address == s.wallet_address);
    let a = choose|claims: SessionClaims|
        {
            &&& #[trigger] is_issued(
                first_reply.result->Ok_0.access_token@,
                seed,
                key_id,
                claims,
            )
            &&& claims.iss@ == issuer
            &&& claims.aud@ == first_session.client_id@
            &&& claims.sub@ == first_session.user_identifier@
            &&& claims.provider@ == first_session.provider@
            &&& claims.wallet_address@ == lowercased(first_session.wallet_address@)
            &&& claims.exp == claims.iat + 30 * 60
        };
    let b = choose|claims: SessionClaims|
        {
            &&& #[trigger] is_issued(
                second_reply.result->Ok_0.access_token@,
                seed,
                key_id,
                claims,
            )
            &&& claims.iss@ == issuer
            &&& claims.aud@ == second_session.client_id@
            &&& claims.sub@ == second_session.user_identifier@
            &&& claims.provider@ == second_session.provider@
            &&& claims.wallet_address@ == lowercased(second_session.wallet_address@)
            &&& claims.exp == claims.iat + 30 * 60
        };
    assert(tell_the_same(a, b));
}

/// Sessions are signed with the configured key and in the name of the configured issuer, and they
/// can be exactly where both are set and the key has a seed. What lacks is answered as a service
/// that is not available, and a key without a seed as a failure; a refresh answers alike.
pub proof fn law_signing_needs_key_and_issuer(config: Config)
    ensures
        session_signing(config) is Ok <==> (config.jwt_issuer is Some && (config.jwt_signing_key
            matches Some(key) && seed_in(key@) is Ok)),
        session_signing(config) matches Ok((seed, issuer)) ==> issuer == config.jwt_issuer->0@
            && seed_in(config.jwt_signing_key->0@) == Ok::<_, SessionTokenError>(seed),
        session_signing(config) matches Err(refused) ==> (refused.status == 503 <==> (
        config.jwt_issuer is None || config.jwt_signing_key is None)),
        session_signing(config) matches Err(refused) ==> refused.status == 503 || refused.status
            == 500,
        refresh_signing(config) is Ok <==> session_signing(config) is Ok,
        refresh_signing(config) is Ok ==> refresh_signing(config) == session_signing(config),
        refresh_signing(config) is Err ==> (session_signing(config) matches Err(refused)
            && refresh_signing(config)->Err_0.status == refused.status),
        config.jwt_signing_key is None ==> refresh_signing(config)->Err_0.message
            == "Session signing unavailable"@,
        config.jwt_signing_key is Some && config.jwt_issuer is None ==> refresh_signing(
            config,
        )->Err_0.message == "Session issuer unavailable"@,
{
}

/// An entry of the audit log is a success exactly where nothing went wrong, and says then what was
/// done; else it is an error and says what was answered.
pub proof fn law_session_entries(
    user_identifier: Seq<char>,
    action: ActionType,
    ip_address: Seq<char>,
    hash: Seq<char>,
    error: Option<Seq<char>>,
)
    ensures
        ({
            let entry = session_entry(user_identifier, action, ip_address, hash, error);
            &&& entry.success <==> error is None
            &&& entry.success ==> entry.action == action && entry.error_message is None
            &&& !entry.success ==> entry.action == ActionType::Error && entry.error_message == error
            &&& entry.user_identifier == user_identifier
            &&& entry.ip_address == Some(ip_address)
            &&& entry.jwt_hash == Some(hash)
            &&& entry.user_agent is None
        }),
{
}

/// A refresh goes on only within its rate limit, and then with the hash of the very token that was
/// sent; the refusals tell too many requests from a failure.
pub proof fn law_refresh_looks_for_its_token(
    gate: RefreshGate,
    outcome: Result<bool, Failure>,
    r: Result<RefreshReuse, Refusal>,
)
    requires
        gate.leads_to(outcome, r),
    ensures
        r is Ok <==> outcome == Ok::<bool, Failure>(true),
        r matches Ok(next) ==> next.old_hash@ == refresh_hash(gate.request.refresh_token@)
            && next.ip_address@ == gate.ip_address@,
        r matches Err(e) ==> (e.status == 429 <==> outcome == Ok::<bool, Failure>(false)),
        r matches Err(e) ==> (e.status == 500 <==> outcome is Err),
{
}

/// A revoked token never leads to a rotation: it leads to the deletion of the sessions of the owner
/// that is recorded for it. Any other token leads to a rotation to a new token, under that token's
/// own hash.
pub proof fn law_revoked_tokens_are_not_rotated(
    reuse: RefreshReuse,
    outcome: Result<Option<String>, Failure>,
    r: Result<RefreshNext, RefreshReply>,
)
    requires
        reuse.leads_to(outcome, r),
    ensures
        r is Ok <==> outcome is Ok,
        outcome matches Ok(Some(owner)) ==> (r matches Ok(RefreshNext::Replay(replay))
            && replay.user_identifier@ == owner@ && replay.old_hash@ == reuse.old_hash@
            && replay.ip_address@ == reuse.ip_address@ && replay.deletion_view()
            == SessionWriteView::DeleteByUser(owner@)),
        outcome matches Ok(None) ==> (r matches Ok(RefreshNext::Rotation(next)) && next.old_hash@
            == reuse.old_hash@ && next.ip_address@ == reuse.ip_address@ && next.new_hash@
            == refresh_hash(next.new_token@) && is_refresh_token(next.new_token@)),
        outcome is Err ==> (r matches Err(reply) && (reply.result matches Err(e) && e.status
            == 500) && !reply.audit@.success && reply.audit@.user_identifier == "unknown"@
            && reply.audit@.jwt_hash == Some(reuse.old_hash@)),
{
}

/// A replayed token is refused whatever comes of the deletion, and that is logged as an error of
/// the token's owner.
pub proof fn law_replays_are_refused(
    replay: RefreshReplay,
    outcome: Result<(), Failure>,
    reply: RefreshReply,
)
    requires
        replay.leads_to(outcome, reply),
    ensures
        reply.result matches Err(e) && (e.status == 401 <==> outcome is Ok) && (e.status == 500
            <==> outcome is Err) && reply.audit@.error_message == Some(e.message@),
        reply.audit@.user_identifier == replay.user_identifier@,
        reply.audit@.action == ActionType::Error,
        !reply.audit@.success,
        reply.audit@.jwt_hash == Some(replay.old_hash@),
        reply.audit@.ip_address == Some(replay.ip_address@),
{
}

/// A refresh hands out tokens exactly where a session was rotated and sessions can be signed, and
/// then with the configured key, issuer and key ID. A token without a session is refused as not
/// valid. What is logged names the session's user, or nobody where there was no session.
pub proof fn law_when_tokens_are_refreshed(
    rotation: RefreshRotation,
    outcome: Result<Option<RefreshSession>, Failure>,
    config: Config,
    reply: RefreshReply,
)
    requires
        rotation.leads_to(outcome, config, reply),
    ensures
        reply.result is Ok <==> {
            &&& outcome matches Ok(found)
            &&& found is Some
            &&& config.jwt_issuer is Some
            &&& config.jwt_signing_key matches Some(key)
            &&& seed_in(key@) is Ok
        },
        reply.result is Ok ==> rotation.is_reply(
            reply,
            outcome->Ok_0->0,
            seed_in(config.jwt_signing_key->0@)->Ok_0,
            config.jwt_issuer->0@,
            config.jwt_key_id@,
        ),
        reply.result matches Err(e) ==> (e.status == 401 <==> (outcome matches Ok(found) && found
            is None)),
        outcome is Err ==> (reply.result matches Err(e) && e.status == 500),
        reply.audit@.success <==> reply.result is Ok,
        reply.audit@.user_identifier == (match outcome {
            Ok(Some(session)) => session.user_identifier@,
            _ => "unknown"@,
        }),
        reply.audit@.jwt_hash == Some(rotation.old_hash@),
        reply.audit@.ip_address == Some(rotation.ip_address@),
        reply.result matches Err(e) ==> reply.audit@.error_message == Some(e.message@),
{
}

/// The refreshes of different addresses are counted apart, ten a minute each.
pub proof fn law_refreshes_are_counted_apart(a: Seq<char>, b: Seq<char>)
    ensures
        refresh_rate(a).identifier == refresh_rate(b).identifier <==> a == b,
        "refresh:"@.is_prefix_of(refresh_rate(a).identifier),
        refresh_rate(a).max_requests == 10,
        refresh_rate(a).window_minutes == 1,
{
    let prefix = "refresh:"@;
    let x = refresh_rate(a).identifier;
    let y = refresh_rate(b).identifier;
    assert(x.skip(prefix.len() as int) =~= a);
    assert(y.skip(prefix.len() as int) =~= b);
    assert(prefix =~= x.take(prefix.len() as int));
}

/// A logout goes on only within the rate limit, and then with the hash of the very token that was
/// sent.
pub proof fn law_logout_revokes_its_token(
    gate: LogoutGate,
    outcome: Result<bool, Failure>,
    r: Result<LogoutRevocation, GateRefusal>,
)
    requires
        gate.leads_to(outcome, r),
    ensures
        r is Ok <==> outcome == Ok::<bool, Failure>(true),
        r matches Ok(next) ==> next.refresh_token_hash@ == refresh_hash(
            gate.request.refresh_token@,
        ) && next.ip_address@ == gate.ip_address@,
        r matches Err(e) ==> (e.refusal.status == 429 <==> outcome == Ok::<bool, Failure>(false)),
{
}

/// A logout succeeds whether its token had a session or not, and nothing in the reply tells which.
/// The log names the owner of the session, or nobody.
pub proof fn law_logout_does_not_tell(
    revocation: LogoutRevocation,
    outcome: Result<Option<String>, Failure>,
    reply: LogoutReply,
)
    requires
        revocation.leads_to(outcome, reply),
    ensures
        outcome is Ok <==> reply.result == Ok::<u16, Refusal>(204),
        outcome is Err <==> (reply.result matches Err(e) && e.status == 500),
        outcome matches Ok(Some(user)) ==> reply.audit@.user_identifier == user@,
        !(outcome matches Ok(Some(_))) ==> reply.audit@.user_identifier == "unknown"@,
        reply.audit@.success <==> outcome is Ok,
        outcome is Ok ==> reply.audit@.action == ActionType::Read,
        reply.audit@.jwt_hash == Some(revocation.refresh_token_hash@),
        reply.audit@.ip_address == Some(revocation.ip_address@),
{
}

/// The published key set names the configured key ID, and its key confirms every access token that
/// is signed with the configured key, those of opened sessions and those of refreshes. Without a
/// signing key there is no key set to be found.
pub proof fn law_published_set_confirms_tokens(
    config: Config,
    r: Result<JsonValue, Refusal>,
    token: Seq<char>,
    claims: SessionClaims,
    key_id: Seq<char>,
)
    requires
        publishes(config, r),
    ensures
        r is Ok <==> (config.jwt_signing_key matches Some(key) && seed_in(key@) is Ok),
        r matches Err(e) ==> (e.status == 404 <==> config.jwt_signing_key is None),
        r matches Ok(set) ==> (set@.member("keys"@) matches Some(JsonView::Array(keys)) && {
            &&& keys.len() == 1
            &&& keys[0].text_member("kid"@) == Some(config.jwt_key_id@)
            &&& keys[0].text_member("x"@) matches Some(x)
            &&& is_issued(token, seed_in(config.jwt_signing_key->0@)->Ok_0, key_id, claims)
                ==> is_confirmed(token, x)
        }),
{
    if r is Ok {
        let seed = seed_in(config.jwt_signing_key->0@)->Ok_0;
        let x = base64url_encoded(ed25519_public_key(seed));
        law_key_set_publishes_the_key(config.jwt_key_id@, x);
        if is_issued(token, seed, key_id, claims) {
            law_published_key_confirms_tokens(token, x, seed, key_id, claims);
        }
    }
}

/// A refresh token that is nothing but white space is refused as a bad request, and no other is.
pub proof fn law_blank_tokens_are_refused(refresh_token: Seq<char>)
    ensures
        token_missing(refresh_token) is Some <==> all_white(refresh_token),
        token_missing(refresh_token) matches Some(refused) ==> refused.status == 400,
{
    law_trimmed_is_the_middle(refresh_token);
}

} // verus!
