//! A real-time chat relay: the rules of the live fan-out and of the durable
//! event pipeline, with the account checks that guard them.

pub mod configuration;
pub mod crypt;
pub mod decimal;
pub mod errors;
pub mod graphql;
pub mod instant;
pub mod service;
pub mod ws;
