//! Secrets: password hashes and session claims.

pub mod hash;
pub mod token;
