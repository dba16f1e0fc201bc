//! MySocial session token issuance.
//!
//! Access tokens are EdDSA JWTs with a public JWKS. Refresh tokens are random opaque values and
//! only their SHA-256 hashes are persisted.

use vstd::prelude::*;
use vstd::string::*;
use vstd::utf8::encode_utf8;

use crate::foreign::{
    base64_decode, base64_decoded, base64url_decode, base64url_decoded, base64url_encode,
    base64url_encoded, ed25519_public_key, ed25519_sign, ed25519_signature, ed25519_valid,
    ed25519_verify, ed25519_verifying_key, hex_encode, is_base64url_char, is_uuid_v4, json_quote,
    json_quoted, lowercase, lowercased, random_bytes, sha256, sha256_digest, utc_now_micros,
    uuid_v4,
};
use crate::json::{text_entry, JsonValue, JsonView};
use crate::numeral::{
    hex_lower, is_hex_char, law_hex_digits_tell_bytes_apart, lemma_hex_digits, signed_decimal,
    signed_decimal_text,
};
use crate::text::{
    law_occurrence, lemma_split_append, lemma_split_single, occurs_in, split, split_on, texts,
};

verus! {

/// Seconds until an access token expires.
pub const ACCESS_TOKEN_EXPIRY_SECS: i64 = 1800;

/// The claims of an access token.
#[derive(Debug)]
pub struct SessionClaims {
    pub iss: String,
    pub aud: String,
    pub sub: String,
    pub wallet_address: String,
    pub provider: String,
    pub iat: i64,
    pub exp: i64,
    pub jti: String,
}

/// Why a session token cannot be made.
#[derive(Debug, Clone, Copy, PartialEq, Eq, Structural)]
pub enum SessionTokenError {
    /// The signing key is no base64.
    InvalidKey,
    /// The signing key has fewer than 32 bytes.
    ShortKey,
    /// The claims cannot be written as JSON.
    Serialization,
}

impl SessionTokenError {
    /// What the error says.
    pub open spec fn text(self) -> Seq<char> {
        match self {
            SessionTokenError::InvalidKey => "Invalid JWT_SIGNING_KEY base64"@,
            SessionTokenError::ShortKey => "JWT_SIGNING_KEY must contain at least 32 bytes"@,
            SessionTokenError::Serialization => "Failed to write the token as JSON"@,
        }
    }

    /// What the error says.
    pub fn message(&self) -> (r: &'static str)
        ensures
            r@ == self.text(),
    {
        match self {
            SessionTokenError::InvalidKey => "Invalid JWT_SIGNING_KEY base64",
            SessionTokenError::ShortKey => "JWT_SIGNING_KEY must contain at least 32 bytes",
            SessionTokenError::Serialization => "Failed to write the token as JSON",
        }
    }
}

/// The Ed25519 seed in the bytes of a signing key: the first 32.
pub open spec fn seed_of(bytes: Seq<u8>) -> Result<Seq<u8>, SessionTokenError> {
    if bytes.len() < 32 {
        Err(SessionTokenError::ShortKey)
    } else {
        Ok(bytes.take(32))
    }
}

/// The Ed25519 seed in a signing key, which is written in base64.
pub open spec fn seed_in(signing_key_base64: Seq<char>) -> Result<Seq<u8>, SessionTokenError> {
    match base64_decoded(signing_key_base64) {
        None => Err(SessionTokenError::InvalidKey),
        Some(bytes) => seed_of(bytes),
    }
}

/// Reads the Ed25519 seed in a signing key.
pub fn signing_key(signing_key_base64: &str) -> (r: Result<[u8; 32], SessionTokenError>)
    ensures
        match r {
            Ok(seed) => seed_in(signing_key_base64@) == Ok::<Seq<u8>, SessionTokenError>(seed@),
            Err(e) => seed_in(signing_key_base64@) == Err::<Seq<u8>, SessionTokenError>(e),
        },
{
    match base64_decode(signing_key_base64) {
        Ok(bytes) => seed_of_bytes(&bytes),
        Err(_) => Err(SessionTokenError::InvalidKey),
    }
}

/// Takes the Ed25519 seed out of the bytes of a signing key.
pub fn seed_of_bytes(bytes: &Vec<u8>) -> (r: Result<[u8; 32], SessionTokenError>)
    ensures
        match r {
            Ok(seed) => seed_of(bytes@) == Ok::<Seq<u8>, SessionTokenError>(seed@),
            Err(e) => seed_of(bytes@) == Err::<Seq<u8>, SessionTokenError>(e),
        },
{
    if bytes.len() < 32 {
        return Err(SessionTokenError::ShortKey);
    }
    let mut seed: [u8; 32] = [0u8; 32];
    let mut i: usize = 0;
    while i < 32
        invariant
            i <= 32,
            32 <= bytes.len(),
            seed@.len() == 32,
            forall|k: int| 0 <= k < i ==> seed@[k] == bytes@[k],
        decreases 32 - i,
    {
        seed[i] = bytes[i];
        i = i + 1;
    }
    assert(seed@ =~= bytes@.take(32));
    Ok(seed)
}

/// The protected header of an access token, where `kid` is the JSON literal of the key ID.
pub open spec fn header_with(kid: Seq<char>) -> Seq<char> {
    "{\"alg\":\"EdDSA\",\"typ\":\"JWT\",\"kid\":"@ + kid + "}"@
}

/// The protected header of an access token.
pub open spec fn header_text(key_id: Seq<char>) -> Seq<char> {
    header_with(json_quoted(key_id))
}

/// Writes the protected header of an access token, where `kid` is the JSON literal of the key ID.
pub fn header_json(kid: &str) -> (r: String)
    ensures
        r@ == header_with(kid@),
{
    "{\"alg\":\"EdDSA\",\"typ\":\"JWT\",\"kid\":".to_owned().concat(kid).concat("}")
}

/// The claims of an access token in JSON, where the texts are given as JSON literals.
pub open spec fn claims_with(
    iss: Seq<char>,
    aud: Seq<char>,
    sub: Seq<char>,
    wallet_address: Seq<char>,
    provider: Seq<char>,
    iat: int,
    exp: int,
    jti: Seq<char>,
) -> Seq<char> {
    "{\"iss\":"@ + iss + ",\"aud\":"@ + aud + ",\"sub\":"@ + sub + ",\"wallet_address\":"@
        + wallet_address + ",\"provider\":"@ + provider + ",\"iat\":"@ + signed_decimal(iat)
        + ",\"exp\":"@ + signed_decimal(exp) + ",\"jti\":"@ + jti + "}"@
}

/// Writes the claims of an access token in JSON, where the texts are given as JSON literals.
pub fn claims_json(
    iss: &str,
    aud: &str,
    sub: &str,
    wallet_address: &str,
    provider: &str,
    iat: i64,
    exp: i64,
    jti: &str,
) -> (r: String)
    ensures
        r@ == claims_with(
            iss@,
            aud@,
            sub@,
            wallet_address@,
            provider@,
            iat as int,
            exp as int,
            jti@,
        ),
{
    "{\"iss\":".to_owned().concat(iss).concat(",\"aud\":").concat(aud).concat(
        ",\"sub\":",
    ).concat(sub).concat(",\"wallet_address\":").concat(wallet_address).concat(
        ",\"provider\":",
    ).concat(provider).concat(",\"iat\":").concat(signed_decimal_text(iat).as_str()).concat(
        ",\"exp\":",
    ).concat(signed_decimal_text(exp).as_str()).concat(",\"jti\":").concat(jti).concat("}")
}

impl SessionClaims {
    /// The claims in JSON.
    pub open spec fn text(self) -> Seq<char> {
        claims_with(
            json_quoted(self.iss@),
            json_quoted(self.aud@),
            json_quoted(self.sub@),
            json_quoted(self.wallet_address@),
            json_quoted(self.provider@),
            self.iat as int,
            self.exp as int,
            json_quoted(self.jti@),
        )
    }

    /// Writes the claims in JSON.
    fn to_json(&self) -> (r: Result<String, SessionTokenError>)
        ensures
            r is Ok,
            r->Ok_0@ == self.text(),
    {
        let iss = quoted(self.iss.as_str())?;
        let aud = quoted(self.aud.as_str())?;
        let sub = quoted(self.sub.as_str())?;
        let wallet_address = quoted(self.wallet_address.as_str())?;
        let provider = quoted(self.provider.as_str())?;
        let jti = quoted(self.jti.as_str())?;
        Ok(
            claims_json(
                iss.as_str(),
                aud.as_str(),
                sub.as_str(),
                wallet_address.as_str(),
                provider.as_str(),
                self.iat,
                self.exp,
                jti.as_str(),
            ),
        )
    }
}

/// Writes a text as a JSON string literal.
fn quoted(s: &str) -> (r: Result<String, SessionTokenError>)
    ensures
        r is Ok,
        r->Ok_0@ == json_quoted(s@),
{
    match json_quote(s) {
        Ok(literal) => Ok(literal),
        Err(_) => Err(SessionTokenError::Serialization),
    }
}

/// The part of a token that is signed.
pub open spec fn signing_input(key_id: Seq<char>, claims: SessionClaims) -> Seq<char> {
    base64url_encoded(encode_utf8(header_text(key_id))) + "."@ + base64url_encoded(
        encode_utf8(claims.text()),
    )
}

/// The token with these claims, signed with a seed.
pub open spec fn token_text(seed: Seq<u8>, key_id: Seq<char>, claims: SessionClaims) -> Seq<char> {
    let input = signing_input(key_id, claims);
    input + "."@ + base64url_encoded(ed25519_signature(seed, encode_utf8(input)))
}

/// `token` carries these claims, signed with a seed: three parts between dots, the header, the
/// claims and a signature of the first two that the public key of the seed confirms.
pub open spec fn is_issued(
    token: Seq<char>,
    seed: Seq<u8>,
    key_id: Seq<char>,
    claims: SessionClaims,
) -> bool {
    let input = signing_input(key_id, claims);
    let signature = ed25519_signature(seed, encode_utf8(input));
    let parts = split(token, '.');
    &&& token == token_text(seed, key_id, claims)
    &&& parts.len() == 3
    &&& base64url_decoded(parts[0]) == Some(encode_utf8(header_text(key_id)))
    &&& base64url_decoded(parts[1]) == Some(encode_utf8(claims.text()))
    &&& base64url_decoded(parts[2]) == Some(signature)
    &&& parts[0] + "."@ + parts[1] == input
    &&& signature.len() == 64
    &&& ed25519_valid(ed25519_public_key(seed), encode_utf8(input), signature)
}

/// The claims of a token that is issued at the second `now` to a client for a user.
pub open spec fn are_claims(
    claims: SessionClaims,
    user_identifier: Seq<char>,
    wallet_address: Seq<char>,
    provider: Seq<char>,
    client_id: Seq<char>,
    issuer: Seq<char>,
    now: int,
    jti: Seq<char>,
) -> bool {
    &&& claims.iss@ == issuer
    &&& claims.aud@ == client_id
    &&& claims.sub@ == user_identifier
    &&& claims.wallet_address@ == lowercased(wallet_address)
    &&& claims.provider@ == provider
    &&& claims.iat == now
    &&& claims.exp == now + ACCESS_TOKEN_EXPIRY_SECS
    &&& claims.jti@ == jti
}

/// `now` is a count of seconds since 1970 that the clock may give.
pub open spec fn is_clock_second(now: int) -> bool {
    0 <= now < 8_210_266_876_800
}

/// `token` is an access token for a user, signed with a seed: stamped with some time and some
/// random token ID.
pub open spec fn is_access_token(
    token: Seq<char>,
    seed: Seq<u8>,
    key_id: Seq<char>,
    user_identifier: Seq<char>,
    wallet_address: Seq<char>,
    provider: Seq<char>,
    client_id: Seq<char>,
    issuer: Seq<char>,
) -> bool {
    exists|claims: SessionClaims, now: int, jti: Seq<char>|
        {
            &&& is_clock_second(now)
            &&& is_uuid_v4(jti)
            &&& #[trigger] are_claims(
                claims,
                user_identifier,
                wallet_address,
                provider,
                client_id,
                issuer,
                now,
                jti,
            )
            &&& is_issued(token, seed, key_id, claims)
        }
}

/// Puts claims into a token and signs it.
pub fn sign_claims(claims: &SessionClaims, signing_key_base64: &str, key_id: &str) -> (r: Result<
    String,
    SessionTokenError,
>)
    ensures
        match seed_in(signing_key_base64@) {
            Ok(seed) => r matches Ok(token) && is_issued(token@, seed, key_id@, *claims),
            Err(e) => r == Err::<String, SessionTokenError>(e),
        },
{
    let header = base64url_encode(header_json(quoted(key_id)?.as_str()).as_str().as_bytes());
    let body = base64url_encode(claims.to_json()?.as_str().as_bytes());
    let ghost first = header@;
    let ghost second = body@;
    let input = header.concat(".").concat(body.as_str());
    let seed = match signing_key(signing_key_base64) {
        Ok(seed) => seed,
        Err(e) => return Err(e),
    };
    let signature = ed25519_sign(&seed, input.as_str().as_bytes());
    let third = base64url_encode(signature.as_slice());
    let ghost signed = input@;
    let token = input.concat(".").concat(third.as_str());
    proof {
        reveal_strlit(".");
        assert("."@ =~= seq!['.']);
        lemma_split_single(first, '.');
        lemma_split_append(first, second, '.');
        assert(first.push('.') + second =~= signed);
        lemma_split_append(signed, third@, '.');
        assert(signed.push('.') + third@ =~= token@);
        assert(split(token@, '.') =~= seq![first, second, third@]);
    }
    Ok(token)
}

/// Issues an access token: the claims are stamped with the current time and a random token ID.
pub fn issue_access_token(
    user_identifier: &str,
    wallet_address: &str,
    provider: &str,
    client_id: &str,
    issuer: &str,
    signing_key_base64: &str,
    key_id: &str,
) -> (r: Result<String, SessionTokenError>)
    ensures
        match seed_in(signing_key_base64@) {
            Ok(seed) => r matches Ok(token) && is_access_token(
                token@,
                seed,
                key_id@,
                user_identifier@,
                wallet_address@,
                provider@,
                client_id@,
                issuer@,
            ),
            Err(e) => r == Err::<String, SessionTokenError>(e),
        },
{
    let now_micros: i64 = utc_now_micros();
    let jti = uuid_v4();
    let ghost jti_text = jti@;
    let claims = claims_at(
        user_identifier,
        wallet_address,
        provider,
        client_id,
        issuer,
        now_micros,
        jti,
    );
    assert(are_claims(
        claims,
        user_identifier@,
        wallet_address@,
        provider@,
        client_id@,
        issuer@,
        now_micros as int / 1_000_000,
        jti_text,
    ));
    sign_claims(&claims, signing_key_base64, key_id)
}

/// The second of which a microsecond is a part, both counted since 1970.
pub open spec fn second_of(micros: int) -> int {
    micros / 1_000_000
}

/// The claims of a token that is issued when the clock shows `now_micros`, the microseconds since
/// 1970. Tokens are stamped in whole seconds.
pub fn claims_at(
    user_identifier: &str,
    wallet_address: &str,
    provider: &str,
    client_id: &str,
    issuer: &str,
    now_micros: i64,
    jti: String,
) -> (r: SessionClaims)
    requires
        0 <= now_micros,
    ensures
        are_claims(
            r,
            user_identifier@,
            wallet_address@,
            provider@,
            client_id@,
            issuer@,
            second_of(now_micros as int),
            jti@,
        ),
        r.iat == second_of(now_micros as int),
        r.exp == r.iat + ACCESS_TOKEN_EXPIRY_SECS,
{
    session_claims(
        user_identifier,
        wallet_address,
        provider,
        client_id,
        issuer,
        now_micros / 1_000_000,
        jti,
    )
}

/// The claims of a token that is issued at the second `now`.
pub fn session_claims(
    user_identifier: &str,
    wallet_address: &str,
    provider: &str,
    client_id: &str,
    issuer: &str,
    now: i64,
    jti: String,
) -> (r: SessionClaims)
    requires
        now + ACCESS_TOKEN_EXPIRY_SECS <= i64::MAX,
    ensures
        are_claims(
            r,
            user_identifier@,
            wallet_address@,
            provider@,
            client_id@,
            issuer@,
            now as int,
            jti@,
        ),
{
    SessionClaims {
        iss: issuer.to_owned(),
        aud: client_id.to_owned(),
        sub: user_identifier.to_owned(),
        wallet_address: lowercase(wallet_address),
        provider: provider.to_owned(),
        iat: now,
        exp: now + ACCESS_TOKEN_EXPIRY_SECS,
        jti,
    }
}

/// The key set that publishes a public key.
pub open spec fn key_set(key_id: Seq<char>, x: Seq<char>) -> JsonView {
    JsonView::Object(
        seq![
            (
                "keys"@,
                JsonView::Array(
                    seq![
                        JsonView::Object(
                            seq![
                                ("kty"@, JsonView::Text("OKP"@)),
                                ("crv"@, JsonView::Text("Ed25519"@)),
                                ("use"@, JsonView::Text("sig"@)),
                                ("alg"@, JsonView::Text("EdDSA"@)),
                                ("kid"@, JsonView::Text(key_id)),
                                ("x"@, JsonView::Text(x)),
                            ],
                        ),
                    ],
                ),
            ),
        ],
    )
}

/// `x` publishes the public key of a seed.
pub open spec fn is_published(x: Seq<char>, seed: Seq<u8>) -> bool {
    &&& x == base64url_encoded(ed25519_public_key(seed))
    &&& base64url_decoded(x) == Some(ed25519_public_key(seed))
    &&& ed25519_public_key(seed).len() == 32
}

/// The key set that publishes the public key `x`.
pub fn key_set_of(key_id: &str, x: &str) -> (r: JsonValue)
    ensures
        r@ == key_set(key_id@, x@),
{
    let key = JsonValue::Object(
        vec![
            text_entry("kty", "OKP"),
            text_entry("crv", "Ed25519"),
            text_entry("use", "sig"),
            text_entry("alg", "EdDSA"),
            text_entry("kid", key_id),
            text_entry("x", x),
        ],
    );
    let ghost key_members = seq![
        ("kty"@, JsonView::Text("OKP"@)),
        ("crv"@, JsonView::Text("Ed25519"@)),
        ("use"@, JsonView::Text("sig"@)),
        ("alg"@, JsonView::Text("EdDSA"@)),
        ("kid"@, JsonView::Text(key_id@)),
        ("x"@, JsonView::Text(x@)),
    ];
    assert(key@->Object_0 =~= key_members);
    let ghost key_view = key@;
    let keys = JsonValue::Array(vec![key]);
    assert(keys@->Array_0 =~= seq![key_view]);
    let ghost keys_view = keys@;
    let set = JsonValue::Object(vec![("keys".to_owned(), keys)]);
    assert(set@->Object_0 =~= seq![("keys"@, keys_view)]);
    set
}

/// The key set under which access tokens are verified.
pub fn jwks(signing_key_base64: &str, key_id: &str) -> (r: Result<JsonValue, SessionTokenError>)
    ensures
        match seed_in(signing_key_base64@) {
            Ok(seed) => r matches Ok(set) && set@ == key_set(
                key_id@,
                base64url_encoded(ed25519_public_key(seed)),
            ) && is_published(base64url_encoded(ed25519_public_key(seed)), seed),
            Err(e) => r == Err::<JsonValue, SessionTokenError>(e),
        },
{
    let seed = match signing_key(signing_key_base64) {
        Ok(seed) => seed,
        Err(e) => return Err(e),
    };
    let public_key = ed25519_verifying_key(&seed);
    let x = base64url_encode(public_key.as_slice());
    Ok(key_set_of(key_id, x.as_str()))
}

/// A token of three parts whose signature the public key in `x` confirms.
pub open spec fn is_confirmed(token: Seq<char>, x: Seq<char>) -> bool {
    let parts = split(token, '.');
    &&& parts.len() == 3
    &&& base64url_decoded(x) is Some
    &&& base64url_decoded(parts[2]) is Some
    &&& ed25519_valid(
        base64url_decoded(x)->0,
        encode_utf8(parts[0] + "."@ + parts[1]),
        base64url_decoded(parts[2])->0,
    )
}

/// Whether the public key in the member `x` of a published key confirms a token's signature.
pub fn verify_access_token(token: &str, x: &str) -> (r: bool)
    ensures
        r == is_confirmed(token@, x@),
{
    let parts = split_on(token, '.');
    assert(texts(parts@).len() == parts.len());
    if parts.len() != 3 {
        return false;
    }
    let ghost pieces = split(token@, '.');
    assert(pieces[0] == parts@[0]@ && pieces[1] == parts@[1]@ && pieces[2] == parts@[2]@);
    let input = parts[0].clone().concat(".").concat(parts[1].as_str());
    match base64url_decode(x) {
        Ok(public_key) => match base64url_decode(parts[2].as_str()) {
            Ok(signature) => ed25519_verify(
                public_key.as_slice(),
                input.as_str().as_bytes(),
                signature.as_slice(),
            ),
            Err(_) => false,
        },
        Err(_) => false,
    }
}

/// The published key set confirms every token that is issued with the same signing key.
pub proof fn law_published_key_confirms_tokens(
    token: Seq<char>,
    x: Seq<char>,
    seed: Seq<u8>,
    key_id: Seq<char>,
    claims: SessionClaims,
)
    requires
        is_issued(token, seed, key_id, claims),
        is_published(x, seed),
    ensures
        is_confirmed(token, x),
{
}

/// The hash under which a refresh token is stored.
pub open spec fn refresh_hash(token: Seq<char>) -> Seq<char> {
    hex_lower(sha256(encode_utf8(token)))
}

/// `token` is an opaque value of 32 bytes, in characters that need no escape in a URL.
pub open spec fn is_refresh_token(token: Seq<char>) -> bool {
    &&& exists|bytes: Seq<u8>| bytes.len() == 32 && token == #[trigger] base64url_encoded(bytes)
    &&& token.len() == 43
    &&& forall|i: int| 0 <= i < token.len() ==> is_base64url_char(#[trigger] token[i])
}

/// The refresh token of drawn bytes, and the hash under which it is stored.
pub fn refresh_token_of(bytes: &[u8; 32]) -> (r: (String, String))
    ensures
        r.0@ == base64url_encoded(bytes@),
        base64url_decoded(r.0@) == Some(bytes@),
        is_refresh_token(r.0@),
        r.1@ == refresh_hash(r.0@),
        is_hash_text(r.1@),
{
    let opaque = base64url_encode(bytes.as_slice());
    assert(bytes@.len() == 32 && opaque@ == base64url_encoded(bytes@));
    let hash = hash_refresh_token(opaque.as_str());
    (opaque, hash)
}

/// Makes a refresh token: a random value, and the hash under which it is stored.
pub fn generate_refresh_token() -> (r: Result<(String, String), SessionTokenError>)
    ensures
        r matches Ok(pair) && {
            &&& is_refresh_token(pair.0@)
            &&& pair.1@ == refresh_hash(pair.0@)
            &&& is_hash_text(pair.1@)
        },
{
    Ok(refresh_token_of(&random_bytes()))
}

/// `s` is written in 64 lower-case hexadecimal digits.
pub open spec fn is_hash_text(s: Seq<char>) -> bool {
    &&& s.len() == 64
    &&& forall|i: int| 0 <= i < s.len() ==> is_hex_char(#[trigger] s[i])
}

/// The hash under which a refresh token is stored.
pub fn hash_refresh_token(token: &str) -> (r: String)
    ensures
        r@ == refresh_hash(token@),
        is_hash_text(r@),
{
    let digest = sha256_digest(token.as_bytes());
    proof {
        lemma_hex_digits(digest@);
    }
    hex_encode(digest.as_slice())
}

/// A signing key has a seed exactly where it is base64 of at least 32 bytes. The seed is the first
/// 32 of them, and nothing behind them counts.
pub proof fn law_seed_is_the_first_bytes(key: Seq<char>, other: Seq<char>)
    ensures
        seed_in(key) is Ok <==> (base64_decoded(key) matches Some(bytes) && bytes.len() >= 32),
        seed_in(key) matches Ok(seed) ==> seed.len() == 32 && forall|i: int|
            0 <= i < 32 ==> #[trigger] seed[i] == base64_decoded(key)->0[i],
        seed_in(key) == Err::<Seq<u8>, _>(SessionTokenError::InvalidKey) <==> base64_decoded(key)
            is None,
        seed_in(key) is Ok && seed_in(other) is Ok && (forall|i: int|
            0 <= i < 32 ==> #[trigger] base64_decoded(key)->0[i] == base64_decoded(other)->0[i])
            ==> seed_in(key) == seed_in(other),
{
    if seed_in(key) is Ok && seed_in(other) is Ok {
        let a = base64_decoded(key)->0;
        let b = base64_decoded(other)->0;
        if forall|i: int| 0 <= i < 32 ==> #[trigger] a[i] == b[i] {
            assert(a.take(32) =~= b.take(32));
        }
    }
}

/// An access token tells, under the signature, the issuer as its issuer, the client's ID as its
/// audience, the user as its subject, the provider, and the wallet in lower case. It lives for half
/// an hour from a time of the clock on, and has an ID of its own.
pub proof fn law_token_tells(
    token: Seq<char>,
    seed: Seq<u8>,
    key_id: Seq<char>,
    user_identifier: Seq<char>,
    wallet_address: Seq<char>,
    provider: Seq<char>,
    client_id: Seq<char>,
    issuer: Seq<char>,
)
    requires
        is_access_token(
            token,
            seed,
            key_id,
            user_identifier,
            wallet_address,
            provider,
            client_id,
            issuer,
        ),
    ensures
        exists|claims: SessionClaims|
            {
                &&& #[trigger] is_issued(token, seed, key_id, claims)
                &&& claims.iss@ == issuer
                &&& claims.aud@ == client_id
                &&& claims.sub@ == user_identifier
                &&& claims.provider@ == provider
                &&& claims.wallet_address@ == lowercased(wallet_address)
                &&& claims.iat >= 0
                &&& claims.exp == claims.iat + 30 * 60
                &&& is_uuid_v4(claims.jti@)
            },
{
    let (claims, now, jti) = choose|claims: SessionClaims, now: int, jti: Seq<char>|
        {
            &&& is_clock_second(now)
            &&& is_uuid_v4(jti)
            &&& #[trigger] are_claims(
                claims,
                user_identifier,
                wallet_address,
                provider,
                client_id,
                issuer,
                now,
                jti,
            )
            &&& is_issued(token, seed, key_id, claims)
        };
    assert(is_issued(token, seed, key_id, claims));
}

/// A token is three parts between dots: the header, the claims, and a signature over the two parts
/// before it and the dot between them, which the public key of the seed confirms.
pub proof fn law_token_has_three_parts(
    token: Seq<char>,
    seed: Seq<u8>,
    key_id: Seq<char>,
    claims: SessionClaims,
)
    requires
        is_issued(token, seed, key_id, claims),
    ensures
        ({
            let parts = split(token, '.');
            &&& parts.len() == 3
            &&& base64url_decoded(parts[0]) == Some(encode_utf8(header_text(key_id)))
            &&& base64url_decoded(parts[1]) == Some(encode_utf8(claims.text()))
            &&& base64url_decoded(parts[2]) matches Some(signature) && ed25519_valid(
                ed25519_public_key(seed),
                encode_utf8(parts[0] + seq!['.'] + parts[1]),
                signature,
            )
        }),
{
    reveal_strlit(".");
    assert("."@ =~= seq!['.']);
}

/// A member of a JSON object, as it is written: the name, a colon and the literal.
pub open spec fn written_member(name: Seq<char>, literal: Seq<char>) -> Seq<char> {
    seq!['"'] + name + seq!['"', ':'] + literal
}

/// A text that stands between two others occurs.
proof fn lemma_occurs(whole: Seq<char>, left: Seq<char>, middle: Seq<char>, right: Seq<char>)
    requires
        whole =~= left + middle + right,
    ensures
        occurs_in(whole, middle),
{
    assert(whole == left + middle + right);
    law_occurrence(whole, middle);
}

/// A member that is written behind a text occurs in the whole.
proof fn lemma_member_is_written(
    before: Seq<char>,
    mark: char,
    name: Seq<char>,
    label: Seq<char>,
    literal: Seq<char>,
)
    requires
        label == seq![mark, '"'] + name + seq!['"', ':'],
    ensures
        occurs_in(before + label + literal, written_member(name, literal)),
{
    lemma_occurs(
        before + label + literal,
        before.push(mark),
        written_member(name, literal),
        Seq::empty(),
    );
}

/// What occurs in a text occurs in every longer one.
proof fn lemma_still_occurs(s: Seq<char>, needle: Seq<char>, label: Seq<char>, literal: Seq<char>)
    requires
        occurs_in(s, needle),
    ensures
        occurs_in(s + label + literal, needle),
{
    law_occurrence(s, needle);
    let (left, right) = choose|left: Seq<char>, right: Seq<char>|
        s == #[trigger] (left + needle + right);
    lemma_occurs(s + label + literal, left, needle, right + label + literal);
}

/// The claims are written as an object in which each claim stands under its own name.
pub proof fn law_claims_are_written_under_their_names(claims: SessionClaims)
    ensures
        occurs_in(claims.text(), written_member("iss"@, json_quoted(claims.iss@))),
        occurs_in(claims.text(), written_member("aud"@, json_quoted(claims.aud@))),
        occurs_in(claims.text(), written_member("sub"@, json_quoted(claims.sub@))),
        occurs_in(claims.text(), written_member("wallet_address"@, json_quoted(claims.wallet_address@))),
        occurs_in(claims.text(), written_member("provider"@, json_quoted(claims.provider@))),
        occurs_in(claims.text(), written_member("iat"@, signed_decimal(claims.iat as int))),
        occurs_in(claims.text(), written_member("exp"@, signed_decimal(claims.exp as int))),
        occurs_in(claims.text(), written_member("jti"@, json_quoted(claims.jti@))),
        claims.text().len() > 0,
        claims.text()[0] == '{',
        claims.text().last() == '}',
{
    assert("{\"iss\":"@ == seq!['{', '"'] + "iss"@ + seq!['"', ':']) by {
        reveal_strlit("{\"iss\":");
        reveal_strlit("iss");
        assert("{\"iss\":"@ =~= seq!['{', '"'] + "iss"@ + seq!['"', ':']);
    }
    assert(",\"aud\":"@ == seq![',', '"'] + "aud"@ + seq!['"', ':']) by {
        reveal_strlit(",\"aud\":");
        reveal_strlit("aud");
        assert(",\"aud\":"@ =~= seq![',', '"'] + "aud"@ + seq!['"', ':']);
    }
    assert(",\"sub\":"@ == seq![',', '"'] + "sub"@ + seq!['"', ':']) by {
        reveal_strlit(",\"sub\":");
        reveal_strlit("sub");
        assert(",\"sub\":"@ =~= seq![',', '"'] + "sub"@ + seq!['"', ':']);
    }
    assert(",\"wallet_address\":"@ == seq![',', '"'] + "wallet_address"@ + seq!['"', ':']) by {
        reveal_strlit(",\"wallet_address\":");
        reveal_strlit("wallet_address");
        assert(",\"wallet_address\":"@ =~= seq![',', '"'] + "wallet_address"@ + seq!['"', ':']);
    }
    assert(",\"provider\":"@ == seq![',', '"'] + "provider"@ + seq!['"', ':']) by {
        reveal_strlit(",\"provider\":");
        reveal_strlit("provider");
        assert(",\"provider\":"@ =~= seq![',', '"'] + "provider"@ + seq!['"', ':']);
    }
    assert(",\"iat\":"@ == seq![',', '"'] + "iat"@ + seq!['"', ':']) by {
        reveal_strlit(",\"iat\":");
        reveal_strlit("iat");
        assert(",\"iat\":"@ =~= seq![',', '"'] + "iat"@ + seq!['"', ':']);
    }
    assert(",\"exp\":"@ == seq![',', '"'] + "exp"@ + seq!['"', ':']) by {
        reveal_strlit(",\"exp\":");
        reveal_strlit("exp");
        assert(",\"exp\":"@ =~= seq![',', '"'] + "exp"@ + seq!['"', ':']);
    }
    assert(",\"jti\":"@ == seq![',', '"'] + "jti"@ + seq!['"', ':']) by {
        reveal_strlit(",\"jti\":");
        reveal_strlit("jti");
        assert(",\"jti\":"@ =~= seq![',', '"'] + "jti"@ + seq!['"', ':']);
    }
    let t0 = Seq::<char>::empty();
    let t1 = "{\"iss\":"@ + json_quoted(claims.iss@);
    assert(t1 =~= t0 + "{\"iss\":"@ + json_quoted(claims.iss@));
    lemma_member_is_written(t0, '{', "iss"@, "{\"iss\":"@, json_quoted(claims.iss@));
    let t2 = t1 + ",\"aud\":"@ + json_quoted(claims.aud@);
    lemma_member_is_written(t1, ',', "aud"@, ",\"aud\":"@, json_quoted(claims.aud@));
    lemma_still_occurs(t1, written_member("iss"@, json_quoted(claims.iss@)), ",\"aud\":"@, json_quoted(claims.aud@));
    let t3 = t2 + ",\"sub\":"@ + json_quoted(claims.sub@);
    lemma_member_is_written(t2, ',', "sub"@, ",\"sub\":"@, json_quoted(claims.sub@));
    lemma_still_occurs(t2, written_member("iss"@, json_quoted(claims.iss@)), ",\"sub\":"@, json_quoted(claims.sub@));
    lemma_still_occurs(t2, written_member("aud"@, json_quoted(claims.aud@)), ",\"sub\":"@, json_quoted(claims.sub@));
    let t4 = t3 + ",\"wallet_address\":"@ + json_quoted(claims.wallet_address@);
    lemma_member_is_written(t3, ',', "wallet_address"@, ",\"wallet_address\":"@, json_quoted(claims.wallet_address@));
    lemma_still_occurs(t3, written_member("iss"@, json_quoted(claims.iss@)), ",\"wallet_address\":"@, json_quoted(claims.wallet_address@));
    lemma_still_occurs(t3, written_member("aud"@, json_quoted(claims.aud@)), ",\"wallet_address\":"@, json_quoted(claims.wallet_address@));
    lemma_still_occurs(t3, written_member("sub"@, json_quoted(claims.sub@)), ",\"wallet_address\":"@, json_quoted(claims.wallet_address@));
    let t5 = t4 + ",\"provider\":"@ + json_quoted(claims.provider@);
    lemma_member_is_written(t4, ',', "provider"@, ",\"provider\":"@, json_quoted(claims.provider@));
    lemma_still_occurs(t4, written_member("iss"@, json_quoted(claims.iss@)), ",\"provider\":"@, json_quoted(claims.provider@));
    lemma_still_occurs(t4, written_member("aud"@, json_quoted(claims.aud@)), ",\"provider\":"@, json_quoted(claims.provider@));
    lemma_still_occurs(t4, written_member("sub"@, json_quoted(claims.sub@)), ",\"provider\":"@, json_quoted(claims.provider@));
    lemma_still_occurs(t4, written_member("wallet_address"@, json_quoted(claims.wallet_address@)), ",\"provider\":"@, json_quoted(claims.provider@));
    let t6 = t5 + ",\"iat\":"@ + signed_decimal(claims.iat as int);
    lemma_member_is_written(t5, ',', "iat"@, ",\"iat\":"@, signed_decimal(claims.iat as int));
    lemma_still_occurs(t5, written_member("iss"@, json_quoted(claims.iss@)), ",\"iat\":"@, signed_decimal(claims.iat as int));
    lemma_still_occurs(t5, written_member("aud"@, json_quoted(claims.aud@)), ",\"iat\":"@, signed_decimal(claims.iat as int));
    lemma_still_occurs(t5, written_member("sub"@, json_quoted(claims.sub@)), ",\"iat\":"@, signed_decimal(claims.iat as int));
    lemma_still_occurs(t5, written_member("wallet_address"@, json_quoted(claims.wallet_address@)), ",\"iat\":"@, signed_decimal(claims.iat as int));
    lemma_still_occurs(t5, written_member("provider"@, json_quoted(claims.provider@)), ",\"iat\":"@, signed_decimal(claims.iat as int));
    let t7 = t6 + ",\"exp\":"@ + signed_decimal(claims.exp as int);
    lemma_member_is_written(t6, ',', "exp"@, ",\"exp\":"@, signed_decimal(claims.exp as int));
    lemma_still_occurs(t6, written_member("iss"@, json_quoted(claims.iss@)), ",\"exp\":"@, signed_decimal(claims.exp as int));
    lemma_still_occurs(t6, written_member("aud"@, json_quoted(claims.aud@)), ",\"exp\":"@, signed_decimal(claims.exp as int));
    lemma_still_occurs(t6, written_member("sub"@, json_quoted(claims.sub@)), ",\"exp\":"@, signed_decimal(claims.exp as int));
    lemma_still_occurs(t6, written_member("wallet_address"@, json_quoted(claims.wallet_address@)), ",\"exp\":"@, signed_decimal(claims.exp as int));
    lemma_still_occurs(t6, written_member("provider"@, json_quoted(claims.provider@)), ",\"exp\":"@, signed_decimal(claims.exp as int));
    lemma_still_occurs(t6, written_member("iat"@, signed_decimal(claims.iat as int)), ",\"exp\":"@, signed_decimal(claims.exp as int));
    let t8 = t7 + ",\"jti\":"@ + json_quoted(claims.jti@);
    lemma_member_is_written(t7, ',', "jti"@, ",\"jti\":"@, json_quoted(claims.jti@));
    lemma_still_occurs(t7, written_member("iss"@, json_quoted(claims.iss@)), ",\"jti\":"@, json_quoted(claims.jti@));
    lemma_still_occurs(t7, written_member("aud"@, json_quoted(claims.aud@)), ",\"jti\":"@, json_quoted(claims.jti@));
    lemma_still_occurs(t7, written_member("sub"@, json_quoted(claims.sub@)), ",\"jti\":"@, json_quoted(claims.jti@));
    lemma_still_occurs(t7, written_member("wallet_address"@, json_quoted(claims.wallet_address@)), ",\"jti\":"@, json_quoted(claims.jti@));
    lemma_still_occurs(t7, written_member("provider"@, json_quoted(claims.provider@)), ",\"jti\":"@, json_quoted(claims.jti@));
    lemma_still_occurs(t7, written_member("iat"@, signed_decimal(claims.iat as int)), ",\"jti\":"@, json_quoted(claims.jti@));
    lemma_still_occurs(t7, written_member("exp"@, signed_decimal(claims.exp as int)), ",\"jti\":"@, json_quoted(claims.jti@));
    let whole = claims.text();
    assert(whole == t8 + "}"@);
    let none = Seq::<char>::empty();
    assert(whole =~= t8 + "}"@ + none);
    lemma_still_occurs(t8, written_member("iss"@, json_quoted(claims.iss@)), "}"@, none);
    lemma_still_occurs(t8, written_member("aud"@, json_quoted(claims.aud@)), "}"@, none);
    lemma_still_occurs(t8, written_member("sub"@, json_quoted(claims.sub@)), "}"@, none);
    lemma_still_occurs(t8, written_member("wallet_address"@, json_quoted(claims.wallet_address@)), "}"@, none);
    lemma_still_occurs(t8, written_member("provider"@, json_quoted(claims.provider@)), "}"@, none);
    lemma_still_occurs(t8, written_member("iat"@, signed_decimal(claims.iat as int)), "}"@, none);
    lemma_still_occurs(t8, written_member("exp"@, signed_decimal(claims.exp as int)), "}"@, none);
    lemma_still_occurs(t8, written_member("jti"@, json_quoted(claims.jti@)), "}"@, none);
    reveal_strlit("}");
    assert(whole.last() == '}');
    assert(whole[0] == t8[0] && t8[0] == t7[0] && t7[0] == t6[0] && t6[0] == t5[0]);
    assert(t5[0] == t4[0] && t4[0] == t3[0] && t3[0] == t2[0] && t2[0] == t1[0]);
}

/// The header of a token names the algorithm and the key.
pub proof fn law_header_names_the_key(key_id: Seq<char>)
    ensures
        occurs_in(header_text(key_id), written_member("kid"@, json_quoted(key_id))),
        occurs_in(header_text(key_id), written_member("alg"@, "\"EdDSA\""@)),
        occurs_in(header_text(key_id), written_member("typ"@, "\"JWT\""@)),
{
    reveal_strlit("kid");
    reveal_strlit("alg");
    reveal_strlit("typ");
    reveal_strlit("\"EdDSA\"");
    reveal_strlit("\"JWT\"");
    reveal_strlit("{\"alg\":\"EdDSA\",\"typ\":\"JWT\",\"kid\":");
    reveal_strlit("}");
    let whole = header_text(key_id);
    let open = "{\"alg\":\"EdDSA\",\"typ\":\"JWT\",\"kid\":"@;
    let quoted_id = json_quoted(key_id);
    lemma_occurs(whole, open.take(27), written_member("kid"@, quoted_id), "}"@);
    let alg = written_member("alg"@, "\"EdDSA\""@);
    let typ = written_member("typ"@, "\"JWT\""@);
    lemma_occurs(whole, open.take(1), alg, open.skip(1 + alg.len() as int) + quoted_id + "}"@);
    let at = 2 + alg.len() as int;
    lemma_occurs(whole, open.take(at), typ, open.skip(at + typ.len() as int) + quoted_id + "}"@);
}

/// A key set publishes one key, under its ID and with its public part, as an Ed25519 key for
/// signatures.
pub proof fn law_key_set_publishes_the_key(key_id: Seq<char>, x: Seq<char>)
    ensures
        key_set(key_id, x).member("keys"@) matches Some(JsonView::Array(keys)) && {
            &&& keys.len() == 1
            &&& keys[0].text_member("kid"@) == Some(key_id)
            &&& keys[0].text_member("x"@) == Some(x)
            &&& keys[0].text_member("kty"@) == Some("OKP"@)
            &&& keys[0].text_member("crv"@) == Some("Ed25519"@)
            &&& keys[0].text_member("alg"@) == Some("EdDSA"@)
            &&& keys[0].text_member("use"@) == Some("sig"@)
        },
{
    reveal_strlit("kty");
    reveal_strlit("crv");
    reveal_strlit("use");
    reveal_strlit("alg");
    reveal_strlit("kid");
    reveal_strlit("x");
    reveal_with_fuel(crate::json::lookup, 7);
    assert("kty"@[0] == 'k' && "kty"@[1] == 't');
    assert("crv"@[0] == 'c');
    assert("use"@[0] == 'u');
    assert("alg"@[0] == 'a');
    assert("kid"@[0] == 'k' && "kid"@[1] == 'i');
    assert("x"@.len() == 1);
    let keys = key_set(key_id, x).member("keys"@)->0->Array_0;
    let m = keys[0]->Object_0;
    assert(m.drop_first()[0] == m[1]);
    assert(m.drop_first().drop_first()[0] == m[2]);
    assert(m.drop_first().drop_first().drop_first()[0] == m[3]);
    assert(m.drop_first().drop_first().drop_first().drop_first()[0] == m[4]);
    assert(m.drop_first().drop_first().drop_first().drop_first().drop_first()[0] == m[5]);
}

/// A key confirms a token only where the token has three parts and the last one is a signature of
/// the others with that key.
pub proof fn law_only_signatures_are_confirmed(token: Seq<char>, x: Seq<char>)
    ensures
        is_confirmed(token, x) <==> {
            let parts = split(token, '.');
            &&& parts.len() == 3
            &&& base64url_decoded(x) matches Some(key) && base64url_decoded(parts[2])
                matches Some(signature) && ed25519_valid(
                key,
                encode_utf8(parts[0] + seq!['.'] + parts[1]),
                signature,
            )
        },
{
    reveal_strlit(".");
    assert("."@ =~= seq!['.']);
}

/// Claims are stamped with the second at which they are made, expire half an hour later, and carry
/// the token ID that they are given.
pub proof fn law_claims_are_stamped(
    claims: SessionClaims,
    user_identifier: Seq<char>,
    wallet_address: Seq<char>,
    provider: Seq<char>,
    client_id: Seq<char>,
    issuer: Seq<char>,
    now: int,
    jti: Seq<char>,
)
    requires
        are_claims(
            claims,
            user_identifier,
            wallet_address,
            provider,
            client_id,
            issuer,
            now,
            jti,
        ),
    ensures
        claims.iat == now,
        claims.exp - claims.iat == 1800,
        claims.jti@ == jti,
        claims.aud@ == client_id,
        claims.sub@ == user_identifier,
        claims.iss@ == issuer,
        claims.provider@ == provider,
        claims.wallet_address@ == lowercased(wallet_address),
{
}

/// Two refresh tokens are stored under the same hash exactly where their own bytes have the same
/// digest.
pub proof fn law_hash_is_of_the_whole_token(a: Seq<char>, b: Seq<char>)
    ensures
        refresh_hash(a) == refresh_hash(b) <==> sha256(encode_utf8(a)) == sha256(encode_utf8(b)),
{
    if refresh_hash(a) == refresh_hash(b) {
        law_hex_digits_tell_bytes_apart(sha256(encode_utf8(a)), sha256(encode_utf8(b)));
    }
}

/// A second has begun and has not ended at each of its microseconds.
pub proof fn law_seconds_hold_their_microseconds(micros: int)
    requires
        micros >= 0,
    ensures
        second_of(micros) * 1_000_000 <= micros < (second_of(micros) + 1) * 1_000_000,
{
}

/// A refresh token writes 32 bytes in characters that need no escape in a URL, and its hash 32
/// bytes in hexadecimal digits.
pub proof fn law_refresh_tokens_are_long(token: Seq<char>, hash: Seq<char>)
    requires
        is_refresh_token(token),
        is_hash_text(hash),
    ensures
        token.len() == 43,
        exists|bytes: Seq<u8>| #[trigger] base64url_encoded(bytes) == token && bytes.len() == 32,
        forall|i: int| 0 <= i < token.len() ==> is_base64url_char(#[trigger] token[i]),
        hash.len() == 64,
{
}

/// A published key is the public key of the seed, of 32 bytes.
pub proof fn law_published_key_is_the_seeds(x: Seq<char>, seed: Seq<u8>)
    requires
        is_published(x, seed),
    ensures
        base64url_decoded(x) == Some(ed25519_public_key(seed)),
        ed25519_public_key(seed).len() == 32,
{
}

} // verus!
