//! Issuance of OAuth2-style credentials: short-lived authorization codes
//! bound to a user/client/redirect-URI tuple, and hashed client secrets for
//! registered relying-party applications.
//!
//! A credential is handed to the caller only after it has been durably
//! recorded; the plaintext client secret is returned exactly once and only
//! its salted hash is ever stored.

pub mod auth;
pub mod client;
pub mod clock;
pub mod error;
pub mod hashing;
pub mod token;
