//! The configuration, read from environment variables.
use crate::text::{i64_value, optional_view, parse_i64, parse_unsigned, unsigned_value};
use vstd::prelude::*;

verus! {

/// Application configuration loaded from environment variables.
#[derive(Debug, Clone)]
pub struct AppConfig {
    /// Telegram bot token (from @BotFather).
    pub bot_token: String,
    /// SQLite database connection URL.
    pub database_url: String,
    /// OK.ru API application key.
    pub application_key: String,
    /// Bearer token for authenticating HTTP API requests.
    pub api_bearer_token: String,
    /// Port for the HTTP API server (default: 8080).
    pub api_port: u16,
    /// Maximum SQLite connection pool size (default: 5).
    pub db_max_connections: u32,
    /// Telegram user ID of the bot administrator, who alone may run the
    /// admin commands.
    pub admin_id: i64,
}

/// The environment variables that the configuration is read from; `None`
/// stands for one that is not set.
pub struct EnvVars {
    /// `TELOXIDE_TOKEN`
    pub bot_token: Option<String>,
    /// `DATABASE_URL`
    pub database_url: Option<String>,
    /// `APPLICATION_KEY`
    pub application_key: Option<String>,
    /// `API_BEARER_TOKEN`
    pub api_bearer_token: Option<String>,
    /// `API_PORT`
    pub api_port: Option<String>,
    /// `DATABASE_MAX_CONNECTIONS`
    pub db_max_connections: Option<String>,
    /// `ADMIN_ID`
    pub admin_id: Option<String>,
}

/// Why there is no configuration.
#[derive(Clone, Copy, Debug, PartialEq, Eq, Structural)]
pub enum ConfigError {
    NoBotToken,
    NoDatabaseUrl,
    NoApiBearerToken,
    BadApiPort,
    BadDatabaseMaxConnections,
    NoAdminId,
    BadAdminId,
}

/// What the variable holds, or the default where it is not set.
pub open spec fn or_default(variable: Option<String>, default: Seq<char>) -> Seq<char> {
    match variable {
        Some(text) => text@,
        None => default,
    }
}

impl EnvVars {
    /// The port, if the variable (default: 8080) holds one.
    pub open spec fn port(self) -> Option<int> {
        unsigned_value(or_default(self.api_port, "8080"@), u16::MAX as int)
    }

    /// The pool size, if the variable (default: 5) holds one.
    pub open spec fn max_connections(self) -> Option<int> {
        unsigned_value(or_default(self.db_max_connections, "5"@), u32::MAX as int)
    }

    /// The first thing that is wrong, in the order in which the fields are read.
    pub open spec fn error(self) -> Option<ConfigError> {
        if self.bot_token is None {
            Some(ConfigError::NoBotToken)
        } else if self.database_url is None {
            Some(ConfigError::NoDatabaseUrl)
        } else if self.api_bearer_token is None {
            Some(ConfigError::NoApiBearerToken)
        } else if self.port() is None {
            Some(ConfigError::BadApiPort)
        } else if self.max_connections() is None {
            Some(ConfigError::BadDatabaseMaxConnections)
        } else if self.admin_id is None {
            Some(ConfigError::NoAdminId)
        } else if i64_value(self.admin_id->0@) is None {
            Some(ConfigError::BadAdminId)
        } else {
            None
        }
    }

    /// Whether `config` holds what the variables say.
    pub open spec fn describes(self, config: AppConfig) -> bool {
        &&& Some(config.bot_token@) == optional_view(self.bot_token)
        &&& Some(config.database_url@) == optional_view(self.database_url)
        &&& config.application_key@ == or_default(self.application_key, "CHKIPMKGDIHBABABA"@)
        &&& Some(config.api_bearer_token@) == optional_view(self.api_bearer_token)
        &&& Some(config.api_port as int) == self.port()
        &&& Some(config.db_max_connections as int) == self.max_connections()
        &&& Some(config.admin_id) == i64_value(self.admin_id->0@)
    }
}

/// What the variable holds, or the default where it is not set.
fn value_or(variable: Option<String>, default: &str) -> (value: String)
    ensures
        value@ == or_default(variable, default@),
{
    match variable {
        Some(text) => text,
        None => default.to_owned(),
    }
}

impl AppConfig {
    /// Reads the configuration from the environment variables.
    pub fn from_env(vars: EnvVars) -> (config: Result<Self, ConfigError>)
        ensures
            vars.error() matches Some(e) ==> config == Err::<AppConfig, ConfigError>(e),
            vars.error() is None ==> (config matches Ok(c) && vars.describes(c)),
    {
        let bot_token = match vars.bot_token {
            Some(token) => token,
            None => return Err(ConfigError::NoBotToken),
        };
        let database_url = match vars.database_url {
            Some(url) => url,
            None => return Err(ConfigError::NoDatabaseUrl),
        };
        let application_key = value_or(vars.application_key, "CHKIPMKGDIHBABABA");
        let api_bearer_token = match vars.api_bearer_token {
            Some(token) => token,
            None => return Err(ConfigError::NoApiBearerToken),
        };
        let port_text = value_or(vars.api_port, "8080");
        let api_port: u16 = match parse_unsigned(port_text.as_str(), 65535) {
            Some(port) => port as u16,
            None => return Err(ConfigError::BadApiPort),
        };
        let connections_text = value_or(vars.db_max_connections, "5");
        let db_max_connections: u32 = match parse_unsigned(connections_text.as_str(), u32::MAX) {
            Some(connections) => connections,
            None => return Err(ConfigError::BadDatabaseMaxConnections),
        };
        let admin_id: i64 = match vars.admin_id {
            Some(text) => match parse_i64(text.as_str()) {
                Some(id) => id,
                None => return Err(ConfigError::BadAdminId),
            },
            None => return Err(ConfigError::NoAdminId),
        };
        Ok(
            AppConfig {
                bot_token,
                database_url,
                application_key,
                api_bearer_token,
                api_port,
                db_max_connections,
                admin_id,
            },
        )
    }
}

impl ConfigError {
    /// The complaint about the environment.
    pub open spec fn text(self) -> Seq<char> {
        match self {
            ConfigError::NoBotToken => "TELOXIDE_TOKEN must be set"@,
            ConfigError::NoDatabaseUrl => "DATABASE_URL must be set"@,
            ConfigError::NoApiBearerToken => "API_BEARER_TOKEN must be set"@,
            ConfigError::BadApiPort => "API_PORT must be a valid port number"@,
            ConfigError::BadDatabaseMaxConnections =>
                "DATABASE_MAX_CONNECTIONS must be a valid u32"@,
            ConfigError::NoAdminId => "ADMIN_ID must be set"@,
            ConfigError::BadAdminId => "ADMIN_ID must be a valid integer (Telegram user ID)"@,
        }
    }

    /// The complaint, as it is reported at startup.
    pub fn message(self) -> (text: &'static str)
        ensures
            text@ == self.text(),
    {
        match self {
            ConfigError::NoBotToken => "TELOXIDE_TOKEN must be set",
            ConfigError::NoDatabaseUrl => "DATABASE_URL must be set",
            ConfigError::NoApiBearerToken => "API_BEARER_TOKEN must be set",
            ConfigError::BadApiPort => "API_PORT must be a valid port number",
            ConfigError::BadDatabaseMaxConnections =>
                "DATABASE_MAX_CONNECTIONS must be a valid u32",
            ConfigError::NoAdminId => "ADMIN_ID must be set",
            ConfigError::BadAdminId => "ADMIN_ID must be a valid integer (Telegram user ID)",
        }
    }
}

}
