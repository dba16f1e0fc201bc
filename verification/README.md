# MySocial salt service

A salt backup service for zkLogin with MySocial sessions: it hands out the salt of a user whose
token is valid, opens a session after a login with a provider or a wallet, and rotates and revokes
refresh tokens.

The decisions are a Verus library, verified against its contracts; what talks to the outside is
ordinary Rust around it.

## Layout

- `src/` is the verified library.
  - `config.rs`: reading and checking the configuration, and the `redirect_uri` of a token exchange.
  - `indexer_platforms.rs`: the OAuth clients that the indexer's platforms make, page by page, and
    their merge with `ALLOWED_CLIENTS`.
  - `startup.rs`: the allowlist, the reasons not to start, and the routes.
  - `models.rs`, `json.rs`: the values of requests, replies and rows; JSON documents.
  - `security/session_token.rs`: access tokens, the key set that publishes their key, and refresh
    tokens.
  - `db/`: the rate limit, the stored salts, and the statements that rotate and revoke refresh
    sessions.
  - `handlers/`: the endpoints. Each is a chain of stages: a stage says what has to be done outside,
    and takes the outcome.
  - `text.rs`, `numeral.rs`: text and numerals.
  - `foreign.rs`: the calls into other crates. Their contracts are trusted, all others are proved.
- `tests/` runs the library with the real crates behind it.
- `app/` holds HTTP, PostgreSQL, the environment and the requests to the indexer. It runs the stages
  in order. The parts that check provider tokens, make and encrypt salts and derive wallet addresses
  are a trait (`app/services.rs`) that a deployment implements and hands to `server::run`.

Properties that span several functions stand next to them as proof functions whose names begin with
`law_`.
