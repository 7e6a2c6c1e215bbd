//! Settings of the agent (where it connects, with which token) and of the
//! server (database address, master token).

use vstd::prelude::*;

verus! {

/// The agent's saved login: the server host and the client token.
#[derive(Debug, Clone, PartialEq, Eq)]
pub struct AppConfig {
    pub host: String,
    pub token: String,
}

impl AppConfig {
    /// A login for `host` with `token`.
    pub fn new(host: String, token: String) -> (config: Self)
        ensures
            config.host == host,
            config.token == token,
    {
        AppConfig { host, token }
    }
}

/// The server's settings.
#[derive(Debug, Clone, PartialEq, Eq)]
pub struct BorerServerConfig {
    pub database_url: String,
    pub master_token: String,
}

/// A setting the server cannot start without.
#[derive(Debug, Clone, Copy, PartialEq, Eq)]
pub enum ConfigError {
    MissingDatabaseUrl,
    MissingMasterToken,
}

/// Builds the server's settings from the values found for `database_url` and
/// `master_token`. Both are required; when one is missing the first missing
/// one, in that order, is reported.
pub fn load_config(database_url: Option<String>, master_token: Option<String>) -> (config: Result<
    BorerServerConfig,
    ConfigError,
>)
    ensures
        match (database_url, master_token) {
            (Some(d), Some(m)) => config == Ok::<BorerServerConfig, ConfigError>(
                BorerServerConfig { database_url: d, master_token: m },
            ),
            (None, _) => config == Err::<BorerServerConfig, ConfigError>(
                ConfigError::MissingDatabaseUrl,
            ),
            (Some(_), None) => config == Err::<BorerServerConfig, ConfigError>(
                ConfigError::MissingMasterToken,
            ),
        },
{
    match database_url {
        None => Err(ConfigError::MissingDatabaseUrl),
        Some(d) => match master_token {
            None => Err(ConfigError::MissingMasterToken),
            Some(m) => Ok(BorerServerConfig { database_url: d, master_token: m }),
        },
    }
}

/// Body of a token-creation request: an optional name for the new client.
#[derive(Debug, Clone, PartialEq, Eq)]
pub struct CreateTokenRequest {
    pub name: Option<String>,
}

} // verus!
