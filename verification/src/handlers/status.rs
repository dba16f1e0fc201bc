//! `GET /health` and `GET /salt/check`.

use vstd::prelude::*;
use vstd::string::*;

use super::Failure;
use crate::foreign::utc_now_micros;
use crate::json::{text_entry, JsonValue, JsonView};
use crate::models::HealthCheckResponse;

verus! {

/// The reply of a healthy service at `timestamp`.
pub fn healthy(timestamp: i64, version: &str) -> (r: HealthCheckResponse)
    ensures
        r.status@ == "healthy"@,
        r.timestamp == timestamp,
        r.version@ == version@,
{
    HealthCheckResponse { status: "healthy".to_owned(), timestamp, version: version.to_owned() }
}

/// `r` is the answer to a health check.
pub open spec fn reports_health(
    database: Result<(), Failure>,
    version: Seq<char>,
    r: Result<HealthCheckResponse, u16>,
) -> bool {
    match database {
        Ok(_) => r matches Ok(reply) && reply.status@ == "healthy"@ && reply.version@ == version
            && reply.timestamp >= 0,
        Err(_) => r == Err::<HealthCheckResponse, u16>(503),
    }
}

/// Answers a health check, where `database` is whether a query was answered: with the current
/// time, or with the status 503.
pub fn health_check(database: Result<(), Failure>, version: &str) -> (r: Result<
    HealthCheckResponse,
    u16,
>)
    ensures
        reports_health(database, version@, r),
{
    match database {
        Ok(_) => Ok(healthy(utc_now_micros(), version)),
        Err(_) => Err(503),
    }
}

/// The reply of a service that is ready to hand out salts.
pub open spec fn ready(version: Seq<char>) -> JsonView {
    JsonView::Object(
        seq![
            ("status"@, JsonView::Text("ready"@)),
            ("salt_endpoint"@, JsonView::Text("/salt"@)),
            ("version"@, JsonView::Text(version)),
        ],
    )
}

/// The answer to a readiness check.
pub open spec fn readiness(
    database: Result<(), Failure>,
    derivation: Result<(), Failure>,
    version: Seq<char>,
) -> Result<JsonView, u16> {
    if database is Ok && derivation is Ok {
        Ok(ready(version))
    } else {
        Err(503)
    }
}

/// Answers a readiness check, where `database` is whether a query was answered and `derivation`
/// whether a salt could be derived: unless both are, with the status 503.
pub fn salt_check(
    database: Result<(), Failure>,
    derivation: Result<(), Failure>,
    version: &str,
) -> (r: Result<JsonValue, u16>)
    ensures
        match readiness(database, derivation, version@) {
            Ok(reply) => r matches Ok(value) && value@ == reply,
            Err(status) => r == Err::<JsonValue, u16>(status),
        },
{
    match (database, derivation) {
        (Ok(_), Ok(_)) => {
            let reply = JsonValue::Object(
                vec![
                    text_entry("status", "ready"),
                    text_entry("salt_endpoint", "/salt"),
                    text_entry("version", version),
                ],
            );
            assert(reply@->Object_0 =~= ready(version@)->Object_0);
            Ok(reply)
        },
        _ => Err(503),
    }
}

/// The service is healthy exactly where the database answers, and tells its version then; else it
/// is not available.
pub proof fn law_health_is_the_databases(
    database: Result<(), Failure>,
    version: Seq<char>,
    r: Result<HealthCheckResponse, u16>,
)
    requires
        reports_health(database, version, r),
    ensures
        r is Ok <==> database is Ok,
        r matches Ok(reply) ==> reply.version@ == version && reply.status@ == "healthy"@,
        r matches Err(status) ==> status == 503,
{
}

/// The service is ready exactly where the database answers and a salt can be derived, either one
/// alone not being enough, and tells its version and its salt endpoint then; else it is not
/// available.
pub proof fn law_ready_needs_both(
    database: Result<(), Failure>,
    derivation: Result<(), Failure>,
    version: Seq<char>,
)
    ensures
        readiness(database, derivation, version) is Ok <==> database is Ok && derivation is Ok,
        readiness(database, derivation, version) matches Ok(reply) ==> {
            &&& reply.text_member("status"@) == Some("ready"@)
            &&& reply.text_member("salt_endpoint"@) == Some("/salt"@)
            &&& reply.text_member("version"@) == Some(version)
        },
        readiness(database, derivation, version) matches Err(status) ==> status == 503,
{
    reveal_strlit("status");
    reveal_strlit("salt_endpoint");
    reveal_strlit("version");
    assert("status"@.len() == 6 && "salt_endpoint"@.len() == 13 && "version"@.len() == 7);
    reveal_with_fuel(crate::json::lookup, 4);
    let m = ready(version)->Object_0;
    assert(m.drop_first()[0] == m[1]);
    assert(m.drop_first().drop_first()[0] == m[2]);
}

} // verus!
