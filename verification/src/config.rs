//! The server's configuration, and how it is made from the environment
//! where no configuration file is found.

use crate::text::{parse_port, port_of};
use vstd::prelude::*;
use vstd::string::*;

verus! {

/// How the server talks to its clients.
#[derive(Debug, Clone, Copy, PartialEq, Eq, Structural)]
pub enum TransportType {
    /// Over standard input and output.
    Stdio,
    /// Over streaming HTTP on a port.
    HttpStreaming { port: u16 },
}

/// How log lines are written.
#[derive(Debug, Clone, Copy, PartialEq, Eq, Structural)]
pub enum LogFormat {
    Pretty,
    Json,
}

#[derive(Debug, Clone, PartialEq, Eq)]
pub struct ServerConfig {
    pub name: String,
    pub transport: TransportType,
}

#[derive(Debug, Clone, PartialEq, Eq)]
pub struct TelemetryConfig {
    pub level: String,
    pub format: LogFormat,
    /// The file that log lines go to, if they go to a file.
    pub file: Option<String>,
}

#[derive(Debug, Clone, PartialEq, Eq)]
pub struct RedisConfig {
    pub url: String,
}

#[derive(Debug, Clone, PartialEq, Eq)]
pub struct DatabaseConfig {
    pub url: String,
    pub max_connections: u32,
}

#[derive(Debug, Clone, PartialEq, Eq)]
pub struct Config {
    pub server: ServerConfig,
    pub telemetry: TelemetryConfig,
    pub redis: Option<RedisConfig>,
    pub database: Option<DatabaseConfig>,
}

/// What the environment holds of the variables that configure the server.
/// A variable that is not set, or whose value is not Unicode, is `None`.
#[derive(Debug, Clone, PartialEq, Eq)]
pub struct Environment {
    /// `PORT`
    pub port: Option<String>,
    /// `MCP_TELEMETRY_LEVEL`
    pub telemetry_level: Option<String>,
    /// `MCP_TELEMETRY_FORMAT`
    pub telemetry_format: Option<String>,
    /// `MCP_REDIS_URL`
    pub mcp_redis_url: Option<String>,
    /// `REDIS_URL`
    pub redis_url: Option<String>,
    /// `DATABASE_URL`
    pub database_url: Option<String>,
}

/// The port to listen on: the one that the variable names, and 3000 where
/// it is not set or names none.
pub open spec fn port_from(port: Option<String>) -> u16 {
    match port {
        Some(text) => match port_of(text@) {
            Some(port) => port,
            None => 3000,
        },
        None => 3000,
    }
}

/// The log level: the one that the variable holds, and `info` where it is
/// not set.
pub open spec fn level_from(level: Option<String>) -> Seq<char> {
    match level {
        Some(text) => text@,
        None => "info"@,
    }
}

/// The log format: JSON where the variable holds `json`, and pretty
/// otherwise.
pub open spec fn format_from(format: Option<String>) -> LogFormat {
    match format {
        Some(text) => if text@ == "json"@ {
            LogFormat::Json
        } else {
            LogFormat::Pretty
        },
        None => LogFormat::Pretty,
    }
}

/// The URL of the Redis store: the server's own variable comes before the
/// common one.
pub open spec fn redis_url_from(own: Option<String>, common: Option<String>) -> Option<Seq<char>> {
    match own {
        Some(url) => Some(url@),
        None => match common {
            Some(url) => Some(url@),
            None => None,
        },
    }
}

/// The log file that a server on standard input and output writes to when
/// it was given none: its output belongs to the protocol.
pub open spec fn stdio_log_file(name: Seq<char>) -> Seq<char> {
    "/tmp/"@ + name + ".log"@
}

/// The connection limit of a database that the environment names.
pub const DEFAULT_MAX_CONNECTIONS: u32 = 10;

impl Config {
    /// The configuration of a server called `name` that has no
    /// configuration file: it listens on HTTP, and the environment decides
    /// the rest.
    pub fn from_environment(name: &str, env: &Environment) -> (config: Config)
        ensures
            config.server.name@ == name@,
            config.server.transport == (TransportType::HttpStreaming { port: port_from(env.port) }),
            config.telemetry.level@ == level_from(env.telemetry_level),
            config.telemetry.format == format_from(env.telemetry_format),
            config.telemetry.file is None,
            match redis_url_from(env.mcp_redis_url, env.redis_url) {
                Some(url) => (config.redis matches Some(redis) && redis.url@ == url),
                None => config.redis is None,
            },
            match env.database_url {
                Some(url) => (config.database matches Some(database) && database.url@ == url@
                    && database.max_connections == DEFAULT_MAX_CONNECTIONS),
                None => config.database is None,
            },
    {
        let port: u16 = match &env.port {
            Some(text) => match parse_port(text.as_str()) {
                Some(port) => port,
                None => 3000,
            },
            None => 3000,
        };
        let level = match &env.telemetry_level {
            Some(text) => text.clone(),
            None => String::from_str("info"),
        };
        let format = match &env.telemetry_format {
            Some(text) => if *text == String::from_str("json") {
                LogFormat::Json
            } else {
                LogFormat::Pretty
            },
            None => LogFormat::Pretty,
        };
        let redis = match &env.mcp_redis_url {
            Some(url) => Some(RedisConfig { url: url.clone() }),
            None => match &env.redis_url {
                Some(url) => Some(RedisConfig { url: url.clone() }),
                None => None,
            },
        };
        let database = match &env.database_url {
            Some(url) => Some(
                DatabaseConfig { url: url.clone(), max_connections: DEFAULT_MAX_CONNECTIONS },
            ),
            None => None,
        };
        Config {
            server: ServerConfig {
                name: String::from_str(name),
                transport: TransportType::HttpStreaming { port },
            },
            telemetry: TelemetryConfig { level, format, file: None },
            redis,
            database,
        }
    }

    /// Whether a configuration that was read from a file has to be given a
    /// log file: it has if the server talks over standard input and output
    /// and the file names no log file.
    pub open spec fn needs_log_file(&self) -> bool {
        self.server.transport == TransportType::Stdio && self.telemetry.file is None
    }

    /// Gives a configuration that was read from a file its log file where
    /// it needs one, `/tmp/` and the name of the package with `.log`, and
    /// changes nothing else.
    pub fn with_stdio_log_file(self, package: &str) -> (config: Config)
        ensures
            config.server == self.server,
            config.redis == self.redis,
            config.database == self.database,
            config.telemetry.level == self.telemetry.level,
            config.telemetry.format == self.telemetry.format,
            self.needs_log_file() ==> (config.telemetry.file matches Some(file) && file@
                == stdio_log_file(package@)),
            !self.needs_log_file() ==> config.telemetry.file == self.telemetry.file,
    {
        let mut config = self;
        let stdio = match config.server.transport {
            TransportType::Stdio => true,
            TransportType::HttpStreaming { port: _ } => false,
        };
        if stdio && config.telemetry.file.is_none() {
            let mut file = String::from_str("/tmp/");
            file.append(package);
            file.append(".log");
            config.telemetry.file = Some(file);
        }
        config
    }
}

} // verus!
