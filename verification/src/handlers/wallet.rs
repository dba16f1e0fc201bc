//! `POST /auth/wallet/callback`: turns a signature of a wallet into a session.

use vstd::prelude::*;
use vstd::string::*;

use super::session::{
    address_object, is_opened, law_opened_session_is_the_users, open_session, session_signing,
    single_text, OpenedSession,
};
use super::{
    client_with, find_client, gate_refusal, pass_gate, rate_of, rate_query, refusal, refuse,
    uncounted, AuditRecord, AuditView, Failure, GateRefusal, GateRefusalView, RateQuery, Refusal,
};
use crate::config::Config;
use crate::foreign::lowercased;
use crate::models::{ActionType, AuthCallbackResponse, WalletAuthRequest};
use crate::security::session_token::{
    is_issued, refresh_hash, SessionClaims, ACCESS_TOKEN_EXPIRY_SECS,
};

verus! {

/// A wallet callback that waits for the rate limiter.
#[derive(Debug)]
pub struct WalletGate {
    pub request: WalletAuthRequest,
    pub ip_address: String,
}

/// A wallet callback that waits for the check of its signature.
#[derive(Debug)]
pub struct WalletSignature {
    pub request: WalletAuthRequest,
    pub ip_address: String,
}

/// A wallet callback whose signature is valid.
#[derive(Debug)]
pub struct WalletProven {
    pub request: WalletAuthRequest,
    pub user_identifier: String,
}

/// A wallet callback that has its session, and waits for it to be stored.
#[derive(Debug)]
pub struct WalletSession {
    pub request: WalletAuthRequest,
    pub session: OpenedSession,
}

/// Takes a wallet callback.
pub fn auth_wallet_callback(request: WalletAuthRequest, ip_address: String) -> (r: WalletGate)
    ensures
        r == (WalletGate { request, ip_address }),
{
    WalletGate { request, ip_address }
}

impl WalletGate {
    /// What the rate limiter is asked.
    pub fn rate_query(&self, config: &Config) -> (r: RateQuery)
        ensures
            r@ == rate_of(self.ip_address@, *config),
            r.identifier@ == self.ip_address@,
            r.window_minutes == 1,
            r.max_requests == config.rate_limit_per_minute,
    {
        rate_query(self.ip_address.as_str(), config)
    }

    /// What follows the answer of the rate limiter.
    pub open spec fn after_rate_limit(self, outcome: Result<bool, Failure>, config: Config) -> Result<
        WalletSignature,
        GateRefusalView,
    > {
        match gate_refusal(outcome) {
            Some(refused) => Err(refused),
            None => if client_with(config.allowed_clients@, self.request.client_id@) is None {
                Err(uncounted(refusal(400, "Unknown client"@)))
            } else {
                Ok(WalletSignature { request: self.request, ip_address: self.ip_address })
            },
        }
    }

    /// Takes the answer of the rate limiter.
    pub fn on_rate_limit(self, outcome: Result<bool, Failure>, config: &Config) -> (r: Result<
        WalletSignature,
        GateRefusal,
    >)
        ensures
            match self.after_rate_limit(outcome, *config) {
                Ok(next) => r == Ok::<_, GateRefusal>(next),
                Err(refused) => r matches Err(e) && e@ == refused,
            },
    {
        match pass_gate(outcome) {
            Ok(_) => {},
            Err(refused) => return Err(refused),
        }
        if find_client(&config.allowed_clients, self.request.client_id.as_str()).is_none() {
            return Err(GateRefusal { counted: None, refusal: refuse(400, "Unknown client") });
        }
        Ok(WalletSignature { request: self.request, ip_address: self.ip_address })
    }
}

/// The identifier of a user who signs in with a wallet.
pub open spec fn wallet_user(address: Seq<char>) -> Seq<char> {
    "wallet:"@ + address
}

/// What is logged of a login with a wallet, where `signature_hash` is the hash of the signature.
pub open spec fn logged_login(
    request: WalletAuthRequest,
    ip_address: Seq<char>,
    signature_hash: Seq<char>,
) -> AuditView {
    AuditView {
        user_identifier: wallet_user(request.address@),
        action: ActionType::Read,
        ip_address: Some(ip_address),
        user_agent: None,
        jwt_hash: Some(signature_hash),
        success: true,
        error_message: None,
    }
}

impl WalletSignature {
    /// `r` is the next stage with the user of the wallet, and what is logged, or how the callback
    /// is refused.
    pub open spec fn leads_to(
        self,
        outcome: Result<(), Failure>,
        signature_hash: Seq<char>,
        r: Result<(AuditRecord, WalletProven), Refusal>,
    ) -> bool {
        match outcome {
            Err(_) => r matches Err(e) && e@ == refusal(401, "Invalid signature"@),
            Ok(_) => r matches Ok((audit, next)) && {
                &&& audit@ == logged_login(self.request, self.ip_address@, signature_hash)
                &&& next.request == self.request
                &&& next.user_identifier@ == wallet_user(self.request.address@)
            },
        }
    }

    /// Takes the outcome of the check that the signature is one of the message by the address,
    /// and the hash of the signature for the audit log. What is logged comes with the next stage.
    pub fn on_verification(self, outcome: Result<(), Failure>, signature_hash: String) -> (r: Result<
        (AuditRecord, WalletProven),
        Refusal,
    >)
        ensures
            self.leads_to(outcome, signature_hash@, r),
    {
        match outcome {
            Err(_) => return Err(refuse(401, "Invalid signature")),
            Ok(_) => {},
        }
        let user_identifier = "wallet:".to_owned().concat(self.request.address.as_str());
        let audit = AuditRecord {
            user_identifier: user_identifier.clone(),
            action: ActionType::Read,
            ip_address: Some(self.ip_address),
            user_agent: None,
            jwt_hash: Some(signature_hash),
            success: true,
            error_message: None,
        };
        Ok((audit, WalletProven { request: self.request, user_identifier }))
    }
}

impl WalletProven {
    /// `r` is the next stage with a session of the wallet, or how the callback is refused.
    pub open spec fn leads_to(self, config: Config, r: Result<WalletSession, Refusal>) -> bool {
        match session_signing(config) {
            Err(refused) => r matches Err(e) && e@ == refused,
            Ok((seed, issuer)) => r matches Ok(next) && next.request == self.request && is_opened(
                next.session,
                self.user_identifier@,
                self.request.address@,
                "wallet"@,
                self.request.client_id@,
                seed,
                issuer,
                config.jwt_key_id@,
            ),
        }
    }

    /// Opens a session for the wallet.
    pub fn open(self, config: &Config) -> (r: Result<WalletSession, Refusal>)
        ensures
            self.leads_to(*config, r),
    {
        match open_session(
            self.user_identifier.as_str(),
            self.request.address.as_str(),
            "wallet",
            self.request.client_id.as_str(),
            config,
        ) {
            Ok(session) => Ok(WalletSession { request: self.request, session }),
            Err(refused) => Err(refused),
        }
    }
}

impl WalletSession {
    /// `reply` hands out the session. A wallet has no salt and no tokens of a provider.
    pub open spec fn is_reply(self, reply: AuthCallbackResponse) -> bool {
        &&& reply.code == self.request.address
        &&& reply.salt@ == Seq::<char>::empty()
        &&& reply.id_token is None
        &&& reply.user.deep_view() == Some(single_text("address"@, self.request.address@))
        &&& reply.access_token is None
        &&& reply.session_access_token == Some(self.session.access_token)
        &&& reply.refresh_token == Some(self.session.refresh_token)
        &&& reply.expires_in == Some(ACCESS_TOKEN_EXPIRY_SECS as u64)
    }

    /// `r` is the reply where the session was stored, and a refusal where it was not.
    pub open spec fn leads_to(
        self,
        outcome: Result<(), Failure>,
        r: Result<AuthCallbackResponse, Refusal>,
    ) -> bool {
        match outcome {
            Err(_) => r matches Err(e) && e@ == refusal(500, "Session storage failed"@),
            Ok(_) => r matches Ok(reply) && self.is_reply(reply),
        }
    }

    /// Takes the outcome of storing the session.
    pub fn on_storing(self, outcome: Result<(), Failure>) -> (r: Result<
        AuthCallbackResponse,
        Refusal,
    >)
        ensures
            self.leads_to(outcome, r),
    {
        match outcome {
            Err(_) => return Err(refuse(500, "Session storage failed")),
            Ok(_) => {},
        }
        let user = address_object(self.request.address.as_str());
        Ok(
            AuthCallbackResponse {
                code: self.request.address,
                salt: String::new(),
                id_token: None,
                user: Some(user),
                access_token: None,
                session_access_token: Some(self.session.access_token),
                refresh_token: Some(self.session.refresh_token),
                expires_in: Some(ACCESS_TOKEN_EXPIRY_SECS as u64),
            },
        )
    }
}

/// Only a wallet callback of a client that is on the allowlist has its signature checked.
pub proof fn law_wallet_client_is_allowed(
    gate: WalletGate,
    outcome: Result<bool, Failure>,
    config: Config,
)
    ensures
        gate.after_rate_limit(outcome, config) is Ok <==> outcome == Ok::<bool, Failure>(true)
            && client_with(config.allowed_clients@, gate.request.client_id@) is Some,
{
}

/// Two wallets are the same user only where they have the same address.
pub proof fn law_wallets_are_users_of_their_own(a: Seq<char>, b: Seq<char>)
    ensures
        wallet_user(a) == wallet_user(b) <==> a == b,
        "wallet:"@.is_prefix_of(wallet_user(a)),
        wallet_user(a).skip(7) == a,
{
    reveal_strlit("wallet:");
    let prefix = "wallet:"@;
    assert(prefix.len() == 7);
    assert(wallet_user(a).skip(7) =~= a);
    assert(wallet_user(b).skip(7) =~= b);
    assert(prefix =~= wallet_user(a).take(7));
}

/// A wallet callback goes on exactly where its signature is valid, as the user of the address in
/// its request, and is then logged as that user's login. Any other signature is no authentication.
pub proof fn law_wallet_login_needs_a_signature(
    stage: WalletSignature,
    outcome: Result<(), Failure>,
    signature_hash: Seq<char>,
    r: Result<(AuditRecord, WalletProven), Refusal>,
)
    requires
        stage.leads_to(outcome, signature_hash, r),
    ensures
        r is Ok <==> outcome is Ok,
        r matches Err(e) ==> e.status == 401,
        r matches Ok((audit, next)) ==> {
            &&& next.request == stage.request
            &&& next.user_identifier@ == "wallet:"@ + stage.request.address@
            &&& audit@.user_identifier == next.user_identifier@
            &&& audit@.action == ActionType::Read
            &&& audit@.success
            &&& audit@.ip_address == Some(stage.ip_address@)
            &&& audit@.jwt_hash == Some(signature_hash)
            &&& audit@.error_message is None
            &&& audit@.user_agent is None
        },
{
}

/// The session of a wallet is that of its user: for the address and the client of the request, with
/// the wallet as the provider.
pub proof fn law_wallet_session_is_the_wallets(
    proven: WalletProven,
    config: Config,
    r: Result<WalletSession, Refusal>,
)
    requires
        proven.leads_to(config, r),
    ensures
        r is Ok <==> session_signing(config) is Ok,
        r matches Ok(next) ==> {
            &&& next.request == proven.request
            &&& next.session.row@.user_identifier == proven.user_identifier@
            &&& next.session.row@.wallet_address == proven.request.address@
            &&& next.session.row@.provider == "wallet"@
            &&& next.session.row@.client_id == proven.request.client_id@
            &&& next.session.row@.refresh_token_hash == refresh_hash(next.session.refresh_token@)
            &&& exists|claims: SessionClaims|
                {
                    &&& #[trigger] is_issued(
                        next.session.access_token@,
                        session_signing(config)->Ok_0.0,
                        config.jwt_key_id@,
                        claims,
                    )
                    &&& claims.iss@ == session_signing(config)->Ok_0.1
                    &&& claims.aud@ == proven.request.client_id@
                    &&& claims.sub@ == proven.user_identifier@
                    &&& claims.provider@ == "wallet"@
                    &&& claims.wallet_address@ == lowercased(proven.request.address@)
                }
        },
{
    if r is Ok {
        law_opened_session_is_the_users(
            r->Ok_0.session,
            proven.user_identifier@,
            proven.request.address@,
            "wallet"@,
            proven.request.client_id@,
            session_signing(config)->Ok_0.0,
            session_signing(config)->Ok_0.1,
            config.jwt_key_id@,
        );
    }
}

/// A wallet callback is answered with the session and the address, with no salt and no provider's
/// tokens: exactly where the session was stored.
pub proof fn law_wallet_reply_hands_out_the_session(
    session: WalletSession,
    outcome: Result<(), Failure>,
    r: Result<AuthCallbackResponse, Refusal>,
)
    requires
        session.leads_to(outcome, r),
    ensures
        r is Ok <==> outcome is Ok,
        r matches Err(e) ==> e.status == 500,
        r matches Ok(reply) ==> {
            &&& reply.code@ == session.request.address@
            &&& reply.salt@.len() == 0
            &&& reply.id_token is None
            &&& reply.access_token is None
            &&& reply.session_access_token.deep_view() == Some(session.session.access_token@)
            &&& reply.refresh_token.deep_view() == Some(session.session.refresh_token@)
            &&& reply.expires_in == Some(1800u64)
            &&& reply.user matches Some(user)
            &&& user@.text_member("address"@) == Some(session.request.address@)
        },
{
}

/// A wallet callback of an unknown client is refused as a bad request; the others go on with their
/// own request.
pub proof fn law_unknown_wallet_clients_are_refused(gate: WalletGate, config: Config)
    ensures
        client_with(config.allowed_clients@, gate.request.client_id@) is None ==> (
        gate.after_rate_limit(Ok(true), config) matches Err(refused) && refused.refusal.status == 400
            && refused.counted is None && refused.refusal.message == "Unknown client"@),
        gate.after_rate_limit(Ok(true), config) matches Ok(next) ==> next.request == gate.request
            && next.ip_address == gate.ip_address,
{
}

} // verus!
