//! The settings of the service, decided from the values that the
//! environment gives for them.

use vstd::prelude::*;
use crate::text::{parse_unsigned, parsed_unsigned};

verus! {

/// The port that the service listens on when none is set.
pub const DEFAULT_PORT: u16 = 8080;

/// The size of the pool of database connections when none is set.
pub const DEFAULT_MAX_CONNECTIONS: u32 = 5;

/// Why the settings could not be made.
#[derive(Debug)]
pub struct ConfigError(String);

impl ConfigError {
    /// The text of the error, as it prints itself.
    pub fn message(&self) -> (r: &String)
        ensures
            r@ == self.text(),
    {
        &self.0
    }

    /// The text of the error.
    pub closed spec fn text(&self) -> Seq<char> {
        self.0@
    }
}

/// The settings of the service.
#[derive(Debug)]
pub struct Config {
    pub port: u16,
    pub database_url: String,
    pub max_connections: u32,
}

/// The number that a setting holds: its value when it is given and parses
/// as an unsigned number no larger than `max`, `default` otherwise.
pub open spec fn numeric_setting(value: Option<String>, max: nat, default: nat) -> nat {
    match value {
        Some(text) => match parsed_unsigned(text@, max) {
            Some(n) => n,
            None => default,
        },
        None => default,
    }
}

/// The port setting: the given value when it parses as a `u16`, 8080
/// otherwise.
pub fn port_setting(value: &Option<String>) -> (r: u16)
    ensures
        r == numeric_setting(*value, u16::MAX as nat, DEFAULT_PORT as nat),
{
    match value {
        Some(text) => match parse_unsigned(text.as_str(), 65535) {
            Some(n) => n as u16,
            None => DEFAULT_PORT,
        },
        None => DEFAULT_PORT,
    }
}

/// The pool size setting: the given value when it parses as a `u32`, 5
/// otherwise.
pub fn max_connections_setting(value: &Option<String>) -> (r: u32)
    ensures
        r == numeric_setting(*value, u32::MAX as nat, DEFAULT_MAX_CONNECTIONS as nat),
{
    match value {
        Some(text) => match parse_unsigned(text.as_str(), 4294967295) {
            Some(n) => n,
            None => DEFAULT_MAX_CONNECTIONS,
        },
        None => DEFAULT_MAX_CONNECTIONS,
    }
}

impl Clone for Config {
    fn clone(&self) -> (r: Self)
        ensures
            r == *self,
    {
        Config {
            port: self.port,
            database_url: self.database_url.clone(),
            max_connections: self.max_connections,
        }
    }
}

impl Config {
    /// The settings from the values of `DATABASE_URL`, `PORT` and
    /// `DATABASE_MAX_CONNECTIONS` (each `None` when the variable is unset or
    /// not valid Unicode). The database URL is required; the two numbers
    /// fall back to their defaults when missing or not numbers.
    pub fn from_values(
        database_url: Option<String>,
        port: Option<String>,
        max_connections: Option<String>,
    ) -> (r: Result<Config, ConfigError>)
        ensures
            match database_url {
                Some(url) => r matches Ok(config) && config.database_url == url && config.port
                    == numeric_setting(port, u16::MAX as nat, DEFAULT_PORT as nat)
                    && config.max_connections == numeric_setting(
                    max_connections,
                    u32::MAX as nat,
                    DEFAULT_MAX_CONNECTIONS as nat,
                ),
                None => r matches Err(error) && error.text()
                    == "DATABASE_URL must be set to a PostgreSQL connection string"@,
            },
    {
        match database_url {
            Some(url) => Ok(
                Config {
                    port: port_setting(&port),
                    database_url: url,
                    max_connections: max_connections_setting(&max_connections),
                },
            ),
            None => Err(
                ConfigError(
                    "DATABASE_URL must be set to a PostgreSQL connection string".to_owned(),
                ),
            ),
        }
    }
}

} // verus!
