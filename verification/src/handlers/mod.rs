//! What the service answers to requests.
//!
//! A handler is a chain of stages. A stage says what has to be done outside (a database query, a
//! token check); its methods take the outcome and give the next stage or the answer.

use vstd::prelude::*;
use vstd::string::*;

use crate::config::{AllowedClient, Config};
use crate::models::{ActionType, JwtClaims};
use crate::text::same_text;

pub mod get_salt;
pub mod provider;
pub mod salt;
pub mod salt_test;
pub mod session;
pub mod status;
pub mod wallet;

verus! {

/// An outside call failed. The cause goes to the log and changes nothing else.
#[derive(Debug, Clone, Copy, PartialEq, Eq, Structural)]
pub struct Failure;

/// A counter of the service metrics that goes up by one.
#[derive(Debug, Clone, Copy, PartialEq, Eq, Structural)]
pub enum Metric {
    Requests,
    Success,
    Failed,
    JwtFailed,
    SaltCreated,
    SaltRetrieved,
    RateLimit,
}

/// How often a counter goes up.
pub open spec fn times(metrics: Seq<Metric>, metric: Metric) -> nat
    decreases metrics.len(),
{
    if metrics.len() == 0 {
        0
    } else {
        times(metrics.drop_last(), metric) + if metrics.last() == metric {
            1nat
        } else {
            0nat
        }
    }
}

/// A request that is answered with an error: the HTTP status and the body.
#[derive(Debug, Clone)]
pub struct Refusal {
    pub status: u16,
    pub message: String,
}

/// What a refusal says.
pub struct RefusalView {
    pub status: u16,
    pub message: Seq<char>,
}

impl View for Refusal {
    type V = RefusalView;

    open spec fn view(&self) -> RefusalView {
        RefusalView { status: self.status, message: self.message@ }
    }
}

/// The refusal with a status and a body.
pub open spec fn refusal(status: u16, message: Seq<char>) -> RefusalView {
    RefusalView { status, message }
}

/// Refuses with a status and a body.
pub(crate) fn refuse(status: u16, message: &str) -> (r: Refusal)
    ensures
        r@ == refusal(status, message@),
{
    Refusal { status, message: message.to_owned() }
}

/// An entry for the audit log.
#[derive(Debug, Clone)]
pub struct AuditRecord {
    pub user_identifier: String,
    pub action: ActionType,
    pub ip_address: Option<String>,
    pub user_agent: Option<String>,
    pub jwt_hash: Option<String>,
    pub success: bool,
    pub error_message: Option<String>,
}

/// What an entry for the audit log says.
pub struct AuditView {
    pub user_identifier: Seq<char>,
    pub action: ActionType,
    pub ip_address: Option<Seq<char>>,
    pub user_agent: Option<Seq<char>>,
    pub jwt_hash: Option<Seq<char>>,
    pub success: bool,
    pub error_message: Option<Seq<char>>,
}

impl View for AuditRecord {
    type V = AuditView;

    open spec fn view(&self) -> AuditView {
        AuditView {
            user_identifier: self.user_identifier@,
            action: self.action,
            ip_address: self.ip_address.deep_view(),
            user_agent: self.user_agent.deep_view(),
            jwt_hash: self.jwt_hash.deep_view(),
            success: self.success,
            error_message: self.error_message.deep_view(),
        }
    }
}

/// A question to the rate limiter: may `identifier` make another request, where it may make
/// `max_requests` in `window_minutes`.
#[derive(Debug, Clone)]
pub struct RateQuery {
    pub identifier: String,
    pub window_minutes: i32,
    pub max_requests: i32,
}

/// What the rate limiter is asked.
pub struct RateView {
    pub identifier: Seq<char>,
    pub window_minutes: i32,
    pub max_requests: i32,
}

impl View for RateQuery {
    type V = RateView;

    open spec fn view(&self) -> RateView {
        RateView {
            identifier: self.identifier@,
            window_minutes: self.window_minutes,
            max_requests: self.max_requests,
        }
    }
}

/// The question under a name: the configured number a minute.
pub open spec fn rate_of(identifier: Seq<char>, config: Config) -> RateView {
    RateView { identifier, window_minutes: 1, max_requests: config.rate_limit_per_minute }
}

/// The question that every request of an address is subject to: the configured number a minute.
pub fn rate_query(ip_address: &str, config: &Config) -> (r: RateQuery)
    ensures
        r@ == rate_of(ip_address@, *config),
        r.identifier@ == ip_address@,
        r.window_minutes == 1,
        r.max_requests == config.rate_limit_per_minute,
{
    RateQuery {
        identifier: ip_address.to_owned(),
        window_minutes: 1,
        max_requests: config.rate_limit_per_minute,
    }
}

/// A refusal of a callback at its gate, and what is counted with it.
#[derive(Debug)]
pub struct GateRefusal {
    pub counted: Option<Metric>,
    pub refusal: Refusal,
}

/// What such a refusal says.
pub struct GateRefusalView {
    pub counted: Option<Metric>,
    pub refusal: RefusalView,
}

impl View for GateRefusal {
    type V = GateRefusalView;

    open spec fn view(&self) -> GateRefusalView {
        GateRefusalView { counted: self.counted, refusal: self.refusal@ }
    }
}

/// The refusal of a callback that counts nothing.
pub open spec fn uncounted(refusal: RefusalView) -> GateRefusalView {
    GateRefusalView { counted: None, refusal }
}

/// How a callback is refused after the answer of the rate limiter, if it is.
pub open spec fn gate_refusal(outcome: Result<bool, Failure>) -> Option<GateRefusalView> {
    match outcome {
        Err(_) => Some(uncounted(refusal(500, "Internal error"@))),
        Ok(false) => Some(
            GateRefusalView {
                counted: Some(Metric::RateLimit),
                refusal: refusal(429, "Rate limit exceeded"@),
            },
        ),
        Ok(true) => None,
    }
}

/// Lets a callback through its gate or refuses it.
pub(crate) fn pass_gate(outcome: Result<bool, Failure>) -> (r: Result<(), GateRefusal>)
    ensures
        match gate_refusal(outcome) {
            Some(wanted) => r matches Err(refused) && refused@ == wanted,
            None => r is Ok,
        },
{
    match outcome {
        Err(_) => Err(GateRefusal { counted: None, refusal: refuse(500, "Internal error") }),
        Ok(allowed) => if allowed {
            Ok(())
        } else {
            Err(
                GateRefusal {
                    counted: Some(Metric::RateLimit),
                    refusal: refuse(429, "Rate limit exceeded"),
                },
            )
        },
    }
}

/// The first allowed client with the ID `id`.
pub open spec fn client_with(clients: Seq<AllowedClient>, id: Seq<char>) -> Option<AllowedClient>
    decreases clients.len(),
{
    if clients.len() == 0 {
        None
    } else if clients[0].client_id@ == id {
        Some(clients[0])
    } else {
        client_with(clients.drop_first(), id)
    }
}

/// Finds the first allowed client with the ID `id`.
pub fn find_client<'a>(clients: &'a Vec<AllowedClient>, id: &str) -> (r: Option<&'a AllowedClient>)
    ensures
        match r {
            Some(client) => client_with(clients@, id@) == Some(*client),
            None => client_with(clients@, id@) is None,
        },
{
    let ghost all = clients@;
    let mut i: usize = 0;
    assert(all.skip(0) =~= all);
    while i < clients.len()
        invariant
            i <= clients.len(),
            all == clients@,
            client_with(all, id@) == client_with(all.skip(i as int), id@),
        decreases clients.len() - i,
    {
        assert(all.skip(i as int)[0] == all[i as int]);
        assert(all.skip(i as int).drop_first() =~= all.skip(i + 1));
        if same_text(clients[i].client_id.as_str(), id) {
            return Some(&clients[i]);
        }
        i = i + 1;
    }
    None
}

/// Who a token speaks for: its claims, and the identifier that is derived from them.
#[derive(Debug, Clone)]
pub struct TokenIdentity {
    pub claims: JwtClaims,
    pub user_identifier: String,
}

/// Whether two byte strings are the same.
pub(crate) fn same_bytes(a: &Vec<u8>, b: &Vec<u8>) -> (r: bool)
    ensures
        r == (a@ == b@),
{
    if a.len() != b.len() {
        return false;
    }
    let mut i: usize = 0;
    while i < a.len()
        invariant
            i <= a.len(),
            a.len() == b.len(),
            forall|k: int| 0 <= k < i ==> a@[k] == b@[k],
        decreases a.len() - i,
    {
        if a[i] != b[i] {
            return false;
        }
        i = i + 1;
    }
    assert(a@ =~= b@);
    true
}

/// Two addresses share a count of requests only where they are the same, and every address may make
/// the configured number of requests in a minute.
pub proof fn law_addresses_are_counted_apart(a: Seq<char>, b: Seq<char>, config: Config)
    ensures
        rate_of(a, config).identifier == rate_of(b, config).identifier <==> a == b,
        rate_of(a, config).window_minutes == 1,
        rate_of(a, config).max_requests == config.rate_limit_per_minute,
{
}

/// A callback passes its gate exactly where the rate limiter answers and lets it through. Otherwise
/// it is refused with the status for too many requests, which is counted, or with the one for a
/// failure of the service, which is not.
pub proof fn law_gate_follows_the_rate_limiter(outcome: Result<bool, Failure>)
    ensures
        gate_refusal(outcome) is None <==> outcome == Ok::<bool, Failure>(true),
        outcome == Ok::<bool, Failure>(false) <==> (gate_refusal(outcome) matches Some(r)
            && r.refusal.status == 429),
        outcome is Err <==> (gate_refusal(outcome) matches Some(r) && r.refusal.status == 500),
        gate_refusal(outcome) matches Some(r) ==> (r.counted == Some(Metric::RateLimit) <==> outcome
            == Ok::<bool, Failure>(false)),
        gate_refusal(outcome) matches Some(r) ==> (r.counted is None <==> outcome is Err),
{
}

/// The client that is found for an ID is the first one with it; where none is found, no client has
/// the ID.
pub proof fn law_first_client_is_found(clients: Seq<AllowedClient>, id: Seq<char>)
    ensures
        match client_with(clients, id) {
            Some(client) => exists|i: int|
                0 <= i < clients.len() && #[trigger] clients[i] == client && client.client_id@ == id
                    && forall|j: int| 0 <= j < i ==> (#[trigger] clients[j]).client_id@ != id,
            None => forall|j: int|
                0 <= j < clients.len() ==> (#[trigger] clients[j]).client_id@ != id,
        },
    decreases clients.len(),
{
    if clients.len() > 0 && clients[0].client_id@ == id {
        assert(clients[0] == client_with(clients, id)->0);
    } else if clients.len() > 0 {
        let rest = clients.drop_first();
        law_first_client_is_found(rest, id);
        match client_with(rest, id) {
            Some(client) => {
                let i = choose|i: int|
                    0 <= i < rest.len() && #[trigger] rest[i] == client && client.client_id@ == id
                        && forall|j: int| 0 <= j < i ==> (#[trigger] rest[j]).client_id@ != id;
                assert(clients[i + 1] == client);
                assert forall|j: int| 0 <= j < i + 1 implies (#[trigger] clients[j]).client_id@
                    != id by {
                    if j > 0 {
                        assert(rest[j - 1] == clients[j]);
                    }
                }
            },
            None => {
                assert forall|j: int| 0 <= j < clients.len() implies (
                #[trigger] clients[j]).client_id@ != id by {
                    if j > 0 {
                        assert(rest[j - 1] == clients[j]);
                    }
                }
            },
        }
    }
}

/// What is answered, logged and asked is said field by field.
pub proof fn law_records_say_their_fields(
    refused: Refusal,
    gate: GateRefusal,
    record: AuditRecord,
    query: RateQuery,
    status: u16,
    message: Seq<char>,
)
    ensures
        refused@.status == refused.status,
        refused@.message == refused.message@,
        refusal(status, message).status == status,
        refusal(status, message).message == message,
        gate@.counted == gate.counted,
        gate@.refusal == gate.refusal@,
        uncounted(refused@).counted is None,
        uncounted(refused@).refusal == refused@,
        record@.user_identifier == record.user_identifier@,
        record@.action == record.action,
        record@.ip_address == record.ip_address.deep_view(),
        record@.user_agent == record.user_agent.deep_view(),
        record@.jwt_hash == record.jwt_hash.deep_view(),
        record@.success == record.success,
        record@.error_message == record.error_message.deep_view(),
        query@.identifier == query.identifier@,
        query@.window_minutes == query.window_minutes,
        query@.max_requests == query.max_requests,
{
}

} // verus!
