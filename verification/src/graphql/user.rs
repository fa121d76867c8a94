//! Users: the validated parts of an account.

pub mod schema;
pub mod validators;
