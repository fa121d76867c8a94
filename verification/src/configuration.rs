//! The settings of the relay, as they are once loaded.

use crate::decimal::{decimal_string, decimal_text};
use vstd::prelude::*;
use vstd::string::StringExecFns;

verus! {

/// All settings.
#[derive(Debug, PartialEq, Eq)]
pub struct Settings {
    pub redis: RedisSettings,
    pub database: DatabaseSettings,
    pub token_max_age: i64,
    pub application_port: u16,
}

/// Where the store of messages and users is, and how to log in to it.
#[derive(Debug, PartialEq, Eq)]
pub struct DatabaseSettings {
    pub username: String,
    pub password: String,
    pub port: u16,
    pub host: String,
    pub database_name: String,
}

/// Where the event log is, and how it is drained.
#[derive(Debug, PartialEq, Eq)]
pub struct RedisSettings {
    pub host: String,
    pub port: u16,
    pub redis_worker_config: RedisWorkerConfig,
}

/// One partition of the event log and the interval, in seconds, at which it
/// is polled.
#[derive(Debug, PartialEq, Eq)]
pub struct RedisEventConfig {
    pub key: String,
    pub interval: u64,
}

/// The partitions to drain, one per kind of durable event.
#[derive(Debug, PartialEq, Eq)]
pub struct RedisWorkerConfig {
    pub task_config: Vec<RedisEventConfig>,
}

/// The address of the event log at a host and port.
pub open spec fn redis_url(host: Seq<char>, port: u16) -> Seq<char> {
    "redis://"@ + host + ":"@ + decimal_text(port as nat)
}

/// The address of the store for the given settings.
pub open spec fn postgres_url(
    username: Seq<char>,
    password: Seq<char>,
    host: Seq<char>,
    port: u16,
    database_name: Seq<char>,
) -> Seq<char> {
    "postgres://"@ + username + ":"@ + password + "@"@ + host + ":"@ + decimal_text(port as nat)
        + "/"@ + database_name
}

/// A port number in decimal.
pub fn port_text(port: u16) -> (text: String)
    ensures
        text@ == decimal_text(port as nat),
{
    decimal_string(port as u64)
}

impl RedisSettings {
    /// The address of the event log.
    pub fn redis_connection_string(&self) -> (url: String)
        ensures
            url@ == redis_url(self.host@, self.port),
    {
        String::from_str("redis://").concat(self.host.as_str()).concat(":").concat(
            port_text(self.port).as_str(),
        )
    }
}

impl DatabaseSettings {
    /// The address of the store, with the credentials in it.
    pub fn db_connection_string(&self) -> (url: String)
        ensures
            url@ == postgres_url(
                self.username@,
                self.password@,
                self.host@,
                self.port,
                self.database_name@,
            ),
    {
        String::from_str("postgres://").concat(self.username.as_str()).concat(":").concat(
            self.password.as_str(),
        ).concat("@").concat(self.host.as_str()).concat(":").concat(
            port_text(self.port).as_str(),
        ).concat("/").concat(self.database_name.as_str())
    }
}

} // verus!
