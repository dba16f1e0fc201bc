//! `POST /salt/test`: a salt for the claims of an unchecked token, for development.

use vstd::prelude::*;
use vstd::string::*;

use super::salt::{is_salt_len, salt_decimal, salt_to_bigint_string};
use super::{refusal, refuse, Failure, Metric, Refusal, RefusalView};
use crate::foreign::{base64url_decode, base64url_decoded, json_document};
use crate::json::{JsonValue, JsonView};
use crate::models::{GetSaltRequest, GetSaltResponse, JwtClaims};
use crate::text::{same_text, split, split_on, texts};

verus! {

/// A text member of a payload, or a default.
pub open spec fn text_member_or(payload: JsonView, key: Seq<char>, default: Seq<char>) -> Seq<char> {
    match payload.text_member(key) {
        Some(text) => text,
        None => default,
    }
}

/// A member of a payload that is an integer of 64 bits, or a default.
pub open spec fn int_member_or(payload: JsonView, key: Seq<char>, default: i64) -> i64 {
    match payload.member(key) {
        Some(value) => match value.int64() {
            Some(n) => n,
            None => default,
        },
        None => default,
    }
}

/// A member of a payload that is a truth value.
pub open spec fn bool_member(payload: JsonView, key: Seq<char>) -> Option<bool> {
    match payload.member(key) {
        Some(value) => value.truth(),
        None => None,
    }
}

/// `claims` are those of a payload, with defaults for what it lacks and without a nonce.
pub open spec fn are_test_claims(payload: JsonView, claims: JwtClaims) -> bool {
    &&& claims.iss@ == text_member_or(payload, "iss"@, "https://test.example.com"@)
    &&& claims.aud@ == text_member_or(payload, "aud"@, "test-client-id"@)
    &&& claims.sub@ == text_member_or(payload, "sub"@, "test-user-id"@)
    &&& claims.exp == int_member_or(payload, "exp"@, 1999999999)
    &&& claims.iat == int_member_or(payload, "iat"@, 1516239022)
    &&& claims.nonce is None
    &&& claims.email.deep_view() == payload.text_member("email"@)
    &&& claims.email_verified == bool_member(payload, "email_verified"@)
    &&& claims.name.deep_view() == payload.text_member("name"@)
    &&& claims.picture.deep_view() == payload.text_member("picture"@)
    &&& claims.given_name.deep_view() == payload.text_member("given_name"@)
    &&& claims.family_name.deep_view() == payload.text_member("family_name"@)
}

/// A text member of a payload.
fn text_claim(payload: &JsonValue, key: &str) -> (r: Option<String>)
    ensures
        r.deep_view() == payload@.text_member(key@),
{
    match payload.get_str(key) {
        Some(text) => Some(text.to_owned()),
        None => None,
    }
}

/// A text member of a payload, or a default.
fn text_claim_or(payload: &JsonValue, key: &str, default: &str) -> (r: String)
    ensures
        r@ == text_member_or(payload@, key@, default@),
{
    match payload.get_str(key) {
        Some(text) => text.to_owned(),
        None => default.to_owned(),
    }
}

/// A member of a payload that is an integer of 64 bits, or a default.
fn int_claim_or(payload: &JsonValue, key: &str, default: i64) -> (r: i64)
    ensures
        r == int_member_or(payload@, key@, default),
{
    match payload.get(key) {
        Some(value) => match value.as_i64() {
            Some(n) => n,
            None => default,
        },
        None => default,
    }
}

/// A member of a payload that is a truth value.
fn bool_claim(payload: &JsonValue, key: &str) -> (r: Option<bool>)
    ensures
        r == bool_member(payload@, key@),
{
    match payload.get(key) {
        Some(value) => value.as_bool(),
        None => None,
    }
}

/// The claims of a payload, with defaults for what it lacks.
pub fn test_claims(payload: &JsonValue) -> (r: JwtClaims)
    ensures
        are_test_claims(payload@, r),
{
    JwtClaims {
        iss: text_claim_or(payload, "iss", "https://test.example.com"),
        aud: text_claim_or(payload, "aud", "test-client-id"),
        sub: text_claim_or(payload, "sub", "test-user-id"),
        exp: int_claim_or(payload, "exp", 1999999999),
        iat: int_claim_or(payload, "iat", 1516239022),
        nonce: None,
        email: text_claim(payload, "email"),
        email_verified: bool_claim(payload, "email_verified"),
        name: text_claim(payload, "name"),
        picture: text_claim(payload, "picture"),
        given_name: text_claim(payload, "given_name"),
        family_name: text_claim(payload, "family_name"),
    }
}

/// The payload of a JWT, which is not checked, or how the request is refused.
pub open spec fn unchecked_payload(token: Seq<char>) -> Result<JsonView, RefusalView> {
    let parts = split(token, '.');
    if parts.len() != 3 {
        Err(refusal(400, "Invalid JWT format"@))
    } else {
        match base64url_decoded(parts[1]) {
            None => Err(refusal(400, "Invalid base64 in JWT"@)),
            Some(bytes) => match json_document(bytes) {
                None => Err(refusal(400, "Invalid JSON in JWT payload"@)),
                Some(payload) => Ok(payload),
            },
        }
    }
}

/// Reads the payload of a JWT without checking it.
pub fn read_payload(token: &str) -> (r: Result<JsonValue, Refusal>)
    ensures
        match unchecked_payload(token@) {
            Ok(payload) => r matches Ok(value) && value@ == payload,
            Err(refused) => r matches Err(e) && e@ == refused,
        },
{
    let parts = split_on(token, '.');
    assert(texts(parts@).len() == parts.len());
    if parts.len() != 3 {
        return Err(refuse(400, "Invalid JWT format"));
    }
    assert(split(token@, '.')[1] == parts@[1]@);
    match base64url_decode(parts[1].as_str()) {
        Err(_) => Err(refuse(400, "Invalid base64 in JWT")),
        Ok(bytes) => match JsonValue::parse(bytes.as_slice()) {
            Err(_) => Err(refuse(400, "Invalid JSON in JWT payload")),
            Ok(payload) => Ok(payload),
        },
    }
}

/// A test request that waits for the salt of its claims.
#[derive(Debug)]
pub struct TestSalt {
    pub claims: JwtClaims,
}

/// The environment is the production one, where there is no test endpoint.
pub open spec fn is_production(environment: Option<Seq<char>>) -> bool {
    environment == Some("production"@)
}

/// The payload of a test request, or how the request is refused.
pub open spec fn test_payload(request: GetSaltRequest) -> Result<JsonView, RefusalView> {
    match request {
        GetSaltRequest::Jwt { jwt } => unchecked_payload(jwt@),
        GetSaltRequest::Provider { provider, token } => Err(
            refusal(400, "Test endpoint only accepts JWT format"@),
        ),
    }
}

/// `counted` is what a test request counts, and `r` its next stage with the claims of its payload,
/// or how it is refused.
pub open spec fn is_test_answer(
    request: GetSaltRequest,
    environment: Option<Seq<char>>,
    counted: Option<Metric>,
    r: Result<TestSalt, Refusal>,
) -> bool {
    if is_production(environment) {
        counted is None && (r matches Err(e) && e@ == refusal(404, "Not found"@))
    } else {
        counted == Some(Metric::Requests) && match test_payload(request) {
            Ok(payload) => r matches Ok(next) && are_test_claims(payload, next.claims),
            Err(refused) => r matches Err(e) && e@ == refused,
        }
    }
}

/// Takes a test request in the environment that is named by `ENVIRONMENT`, where it is set. What
/// is counted comes first: a request, but in production nothing.
pub fn get_salt_test(request: GetSaltRequest, environment: Option<&str>) -> (r: (
    Option<Metric>,
    Result<TestSalt, Refusal>,
))
    ensures
        is_test_answer(request, environment.deep_view(), r.0, r.1),
{
    let production = match environment {
        Some(name) => same_text(name, "production"),
        None => false,
    };
    if production {
        return (None, Err(refuse(404, "Not found")));
    }
    let result = match request {
        GetSaltRequest::Provider { .. } => Err(
            refuse(400, "Test endpoint only accepts JWT format"),
        ),
        GetSaltRequest::Jwt { jwt } => match read_payload(jwt.as_str()) {
            Ok(payload) => Ok(TestSalt { claims: test_claims(&payload) }),
            Err(refused) => Err(refused),
        },
    };
    (Some(Metric::Requests), result)
}

impl TestSalt {
    /// `r` is the reply and what is counted with it, or how the request is refused.
    pub open spec fn leads_to(
        self,
        outcome: Result<Vec<u8>, Failure>,
        r: Result<(Metric, GetSaltResponse), Refusal>,
    ) -> bool {
        match outcome {
            Err(_) => r matches Err(e) && e@ == refusal(500, "Generation error"@),
            Ok(salt) => r matches Ok(reply) && reply.0 == Metric::Success && reply.1.salt@
                == salt_decimal(salt@),
        }
    }

    /// Takes the salt that was generated for the claims: the reply, and what is counted with it.
    pub fn on_generation(self, outcome: Result<Vec<u8>, Failure>) -> (r: Result<
        (Metric, GetSaltResponse),
        Refusal,
    >)
        requires
            outcome matches Ok(salt) ==> is_salt_len(salt@.len()),
        ensures
            self.leads_to(outcome, r),
    {
        match outcome {
            Err(_) => Err(refuse(500, "Generation error")),
            Ok(salt) => Ok(
                (
                    Metric::Success,
                    GetSaltResponse { salt: salt_to_bigint_string(salt.as_slice()) },
                ),
            ),
        }
    }
}

/// Each test claim is the payload's member of its name, where that has the right type, and where it
/// has not a default or nothing. A nonce is never taken over.
pub proof fn law_test_claims_follow_the_payload(payload: JsonView, claims: JwtClaims)
    requires
        are_test_claims(payload, claims),
    ensures
        payload.text_member("iss"@) matches Some(text) ==> claims.iss@ == text,
        payload.text_member("aud"@) matches Some(text) ==> claims.aud@ == text,
        payload.text_member("sub"@) matches Some(text) ==> claims.sub@ == text,
        payload.text_member("iss"@) is None ==> claims.iss@ == "https://test.example.com"@,
        payload.text_member("aud"@) is None ==> claims.aud@ == "test-client-id"@,
        payload.text_member("sub"@) is None ==> claims.sub@ == "test-user-id"@,
        payload.member("exp"@) matches Some(value) ==> (value.int64() matches Some(n) ==> claims.exp
            == n),
        payload.member("exp"@) is None ==> claims.exp == 1999999999,
        payload.member("exp"@) matches Some(value) ==> value.int64() is None ==> claims.exp
            == 1999999999,
        payload.member("iat"@) matches Some(value) ==> (value.int64() matches Some(n) ==> claims.iat
            == n),
        payload.member("iat"@) is None ==> claims.iat == 1516239022,
        payload.member("iat"@) matches Some(value) ==> value.int64() is None ==> claims.iat
            == 1516239022,
        claims.nonce is None,
        claims.email.deep_view() == payload.text_member("email"@),
        claims.name.deep_view() == payload.text_member("name"@),
        claims.picture.deep_view() == payload.text_member("picture"@),
        claims.given_name.deep_view() == payload.text_member("given_name"@),
        claims.family_name.deep_view() == payload.text_member("family_name"@),
        payload.member("email_verified"@) == Some(JsonView::Bool(true)) <==> claims.email_verified
            == Some(true),
        payload.member("email_verified"@) == Some(JsonView::Bool(false)) <==> claims.email_verified
            == Some(false),
{
}

/// A payload is read exactly where the token has three parts between dots and the middle one is the
/// base64 of a JSON document, and it is that document; every other token is a bad request.
pub proof fn law_payload_is_the_middle_part(token: Seq<char>)
    ensures
        ({
            let parts = split(token, '.');
            &&& unchecked_payload(token) is Ok <==> {
                &&& parts.len() == 3
                &&& base64url_decoded(parts[1]) matches Some(bytes)
                &&& json_document(bytes) is Some
            }
            &&& unchecked_payload(token) matches Ok(payload) ==> json_document(
                base64url_decoded(parts[1])->0,
            ) == Some(payload)
            &&& unchecked_payload(token) matches Err(refused) ==> refused.status == 400
        }),
{
}

/// The header and the signature of a token have no say in its unchecked payload.
pub proof fn law_only_the_payload_counts(a: Seq<char>, b: Seq<char>)
    requires
        split(a, '.').len() == 3,
        split(b, '.').len() == 3,
        split(a, '.')[1] == split(b, '.')[1],
    ensures
        unchecked_payload(a) == unchecked_payload(b),
{
}

/// In production there is no test endpoint, whatever is asked, and nothing is counted. Anywhere
/// else a test request is counted, and goes on exactly where it is in the JWT format and has a
/// payload.
pub proof fn law_no_test_endpoint_in_production(
    request: GetSaltRequest,
    environment: Option<Seq<char>>,
    counted: Option<Metric>,
    r: Result<TestSalt, Refusal>,
)
    requires
        is_test_answer(request, environment, counted, r),
    ensures
        environment == Some("production"@) ==> (r matches Err(e) && e.status == 404) && counted
            is None,
        environment != Some("production"@) ==> counted == Some(Metric::Requests),
        environment != Some("production"@) ==> (r is Ok <==> (request matches GetSaltRequest::Jwt {
            jwt,
        } && unchecked_payload(jwt@) is Ok)),
        environment != Some("production"@) ==> (r matches Err(e) ==> e.status == 400),
        r matches Ok(next) ==> (request matches GetSaltRequest::Jwt { jwt } && are_test_claims(
            unchecked_payload(jwt@)->Ok_0,
            next.claims,
        )),
{
}

/// A test request is answered with the salt that was made for its claims, and counted as a success;
/// where none was made it meets a failure of the service.
pub proof fn law_test_salt_is_handed_out(
    test: TestSalt,
    outcome: Result<Vec<u8>, Failure>,
    r: Result<(Metric, GetSaltResponse), Refusal>,
)
    requires
        test.leads_to(outcome, r),
    ensures
        r is Ok <==> outcome is Ok,
        r matches Ok((counted, reply)) ==> counted == Metric::Success && reply.salt@
            == salt_decimal(outcome->Ok_0@),
        r matches Err(e) ==> e.status == 500,
{
}

} // verus!
