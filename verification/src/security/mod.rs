//! Tokens and keys.

pub mod session_token;
