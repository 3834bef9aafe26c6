//! Configuration of a SPECTRE service: its shape, the defaults taken
//! from the environment, validation, and the loading strategy.
use vstd::prelude::*;
use crate::error::{ErrorValue, SpectreError};

verus! {

/// The characters of an optional string.
pub open spec fn opt_chars(o: Option<String>) -> Option<Seq<char>> {
    match o {
        Some(s) => Some(s@),
        None => None,
    }
}

/// Copies an optional string.
pub fn copy_opt(o: &Option<String>) -> (r: Option<String>)
    ensures
        opt_chars(r) == opt_chars(*o),
{
    match o {
        Some(s) => Some(s.clone()),
        None => None,
    }
}

/// The characters of `o`, or `fallback` when it is absent.
pub open spec fn or_default(o: Option<String>, fallback: Seq<char>) -> Seq<char> {
    match o {
        Some(s) => s@,
        None => fallback,
    }
}

fn value_or(o: Option<String>, fallback: &str) -> (r: String)
    ensures
        r@ == or_default(o, fallback@),
{
    match o {
        Some(s) => s,
        None => String::from_str(fallback),
    }
}

/// Main SPECTRE configuration
#[derive(Debug, Clone)]
pub struct Config {
    /// Service configuration
    pub service: ServiceConfig,
    /// NATS configuration
    pub nats: NatsConfig,
    /// Observability configuration
    pub observability: ObservabilityConfig,
    /// Security configuration
    pub security: SecurityConfig,
}

/// Service-specific configuration
#[derive(Debug, Clone)]
pub struct ServiceConfig {
    /// Service ID (e.g., "llm-gateway", "rag-service")
    pub id: String,
    /// Service name (human-readable)
    pub name: String,
    /// Service version
    pub version: String,
    /// Environment (dev, staging, prod)
    pub environment: String,
}

/// NATS message bus configuration
#[derive(Debug, Clone)]
pub struct NatsConfig {
    /// NATS server URL (e.g., "nats://localhost:4222")
    pub url: String,
    /// JetStream enabled
    pub jetstream: bool,
    /// Max reconnect attempts
    pub max_reconnects: u32,
    /// Reconnect delay in milliseconds
    pub reconnect_delay_ms: u64,
}

/// Observability configuration
#[derive(Debug, Clone)]
pub struct ObservabilityConfig {
    /// Enable metrics export
    pub metrics_enabled: bool,
    /// Enable tracing export
    pub tracing_enabled: bool,
    /// Log level (trace, debug, info, warn, error)
    pub log_level: String,
    /// TimescaleDB URL for observability storage
    pub timescaledb_url: Option<String>,
    /// Neo4j URI for dependency graph
    pub neo4j_uri: Option<String>,
}

/// Security configuration
#[derive(Debug, Clone)]
pub struct SecurityConfig {
    /// Enable TLS
    pub tls_enabled: bool,
    /// TLS certificate path
    pub tls_cert_path: Option<String>,
    /// TLS key path
    pub tls_key_path: Option<String>,
    /// Secrets service URL
    pub secrets_service_url: Option<String>,
}

impl Default for ObservabilityConfig {
    /// Everything off, empty log level, no storage URLs.
    fn default() -> (r: Self)
        ensures
            !r.metrics_enabled,
            !r.tracing_enabled,
            r.log_level@ == Seq::<char>::empty(),
            r.timescaledb_url is None,
            r.neo4j_uri is None,
    {
        ObservabilityConfig {
            metrics_enabled: false,
            tracing_enabled: false,
            log_level: String::new(),
            timescaledb_url: None,
            neo4j_uri: None,
        }
    }
}

impl Default for SecurityConfig {
    /// TLS off, no paths, no secrets service.
    fn default() -> (r: Self)
        ensures
            !r.tls_enabled,
            r.tls_cert_path is None,
            r.tls_key_path is None,
            r.secrets_service_url is None,
    {
        SecurityConfig {
            tls_enabled: false,
            tls_cert_path: None,
            tls_key_path: None,
            secrets_service_url: None,
        }
    }
}

/// The version a service reports when none is configured: the version
/// of this library.
pub open spec fn crate_version() -> Seq<char> {
    "0.1.0"@
}

pub fn default_version() -> (r: String)
    ensures
        r@ == crate_version(),
{
    String::from_str("0.1.0")
}

/// The environment named by `SPECTRE_ENV` (its value is passed in), or "dev".
pub fn default_environment(spectre_env: Option<String>) -> (r: String)
    ensures
        r@ == or_default(spectre_env, "dev"@),
{
    value_or(spectre_env, "dev")
}

/// The NATS URL named by `NATS_URL` (its value is passed in), or the
/// local default server.
pub fn default_nats_url(nats_url: Option<String>) -> (r: String)
    ensures
        r@ == or_default(nats_url, "nats://localhost:4222"@),
{
    value_or(nats_url, "nats://localhost:4222")
}

pub fn default_true() -> (r: bool)
    ensures
        r,
{
    true
}

pub fn default_max_reconnects() -> (r: u32)
    ensures
        r == 10,
{
    10
}

pub fn default_reconnect_delay_ms() -> (r: u64)
    ensures
        r == 1000,
{
    1000
}

/// The log level named by `RUST_LOG` (its value is passed in), or "info".
pub fn default_log_level(rust_log: Option<String>) -> (r: String)
    ensures
        r@ == or_default(rust_log, "info"@),
{
    value_or(rust_log, "info")
}

/// The environment variables a service configuration is built from;
/// each is `None` when unset (or not valid Unicode).
#[derive(Debug, Clone)]
pub struct EnvVars {
    pub spectre_service_id: Option<String>,
    pub spectre_service_name: Option<String>,
    pub spectre_env: Option<String>,
    pub nats_url: Option<String>,
    pub rust_log: Option<String>,
    pub timescaledb_url: Option<String>,
    pub neo4j_uri: Option<String>,
}

impl Config {
    /// A configuration names a service and a NATS server.
    pub open spec fn valid(self) -> bool {
        self.service.id@.len() > 0 && self.nats.url@.len() > 0
    }

    /// What validation reports for this configuration.
    pub open spec fn validation(self) -> Result<(), ErrorValue> {
        if self.service.id@.len() == 0 {
            Err(ErrorValue::Config("service.id cannot be empty"@))
        } else if self.nats.url@.len() == 0 {
            Err(ErrorValue::Config("nats.url cannot be empty"@))
        } else {
            Ok(())
        }
    }

    /// `c` is the configuration that the environment `env` describes
    /// for the service whose id is `id` and the NATS server at `url`.
    pub open spec fn describes(c: Config, env: EnvVars, id: Seq<char>, url: Seq<char>) -> bool {
        &&& c.service.id@ == id
        &&& c.service.name@ == or_default(env.spectre_service_name, id)
        &&& c.service.version@ == crate_version()
        &&& c.service.environment@ == or_default(env.spectre_env, "dev"@)
        &&& c.nats.url@ == url
        &&& c.nats.jetstream
        &&& c.nats.max_reconnects == 10
        &&& c.nats.reconnect_delay_ms == 1000
        &&& c.observability.metrics_enabled
        &&& c.observability.tracing_enabled
        &&& c.observability.log_level@ == or_default(env.rust_log, "info"@)
        &&& opt_chars(c.observability.timescaledb_url) == opt_chars(env.timescaledb_url)
        &&& opt_chars(c.observability.neo4j_uri) == opt_chars(env.neo4j_uri)
        &&& !c.security.tls_enabled
        &&& c.security.tls_cert_path is None
        &&& c.security.tls_key_path is None
        &&& c.security.secrets_service_url is None
    }

    /// What loading from the environment `env` gives.
    pub open spec fn from_env_result(env: EnvVars, r: Result<Config, SpectreError>) -> bool {
        match (env.spectre_service_id, env.nats_url) {
            (None, _) => r is Err && r->Err_0@ == ErrorValue::Config("SPECTRE_SERVICE_ID not set"@),
            (Some(_), None) => r is Err && r->Err_0@ == ErrorValue::Config("NATS_URL not set"@),
            (Some(id), Some(url)) => r is Ok && Config::describes(r->Ok_0, env, id@, url@),
        }
    }

    /// Load configuration from environment variables (fallback). It fails
    /// fast when `SPECTRE_SERVICE_ID` or `NATS_URL` is missing; every
    /// other setting has a default.
    pub fn from_env(env: EnvVars) -> (r: Result<Self, SpectreError>)
        ensures
            Config::from_env_result(env, r),
            r is Ok <==> (env.spectre_service_id is Some && env.nats_url is Some),
            r is Ok ==> opt_chars(r->Ok_0.observability.neo4j_uri) == opt_chars(env.neo4j_uri),
            r is Ok ==> opt_chars(r->Ok_0.observability.timescaledb_url) == opt_chars(env.timescaledb_url),
            r is Ok ==> Some(r->Ok_0.service.id@) == opt_chars(env.spectre_service_id),
            r is Ok ==> Some(r->Ok_0.nats.url@) == opt_chars(env.nats_url),
    {
        let service_id = match env.spectre_service_id {
            Some(id) => id,
            None => {
                return Err(SpectreError::config("SPECTRE_SERVICE_ID not set"));
            },
        };
        let nats_url = match env.nats_url {
            Some(url) => url,
            None => {
                return Err(SpectreError::config("NATS_URL not set"));
            },
        };
        let service_name = match env.spectre_service_name {
            Some(name) => name,
            None => service_id.clone(),
        };
        Ok(Config {
            service: ServiceConfig {
                id: service_id,
                name: service_name,
                version: default_version(),
                environment: default_environment(env.spectre_env),
            },
            nats: NatsConfig {
                url: nats_url,
                jetstream: true,
                max_reconnects: default_max_reconnects(),
                reconnect_delay_ms: default_reconnect_delay_ms(),
            },
            observability: ObservabilityConfig {
                metrics_enabled: true,
                tracing_enabled: true,
                log_level: default_log_level(env.rust_log),
                timescaledb_url: env.timescaledb_url,
                neo4j_uri: env.neo4j_uri,
            },
            security: SecurityConfig::default(),
        })
    }

    /// Validate configuration: the service id and the NATS URL must not
    /// be empty.
    pub fn validate(&self) -> (r: Result<(), SpectreError>)
        ensures
            match (r, self.validation()) {
                (Ok(_), Ok(_)) => true,
                (Err(e), Err(v)) => e@ == v,
                _ => false,
            },
            r is Ok <==> self.valid(),
    {
        if self.service.id.as_str().is_empty() {
            return Err(SpectreError::config("service.id cannot be empty"));
        }
        if self.nats.url.as_str().is_empty() {
            return Err(SpectreError::config("nats.url cannot be empty"));
        }
        Ok(())
    }
}

/// Loading from the environment succeeds exactly when the service id and
/// the NATS URL are set, and then carries them, the optional database
/// URLs, the service name and environment and the log level over from
/// the environment unchanged (the last three defaulting when unset).
pub proof fn env_settings_are_carried(env: EnvVars, r: Result<Config, SpectreError>)
    requires
        Config::from_env_result(env, r),
    ensures
        r is Ok <==> (env.spectre_service_id is Some && env.nats_url is Some),
        r is Ok ==> {
            let c = r->Ok_0;
            &&& Some(c.service.id@) == opt_chars(env.spectre_service_id)
            &&& Some(c.nats.url@) == opt_chars(env.nats_url)
            &&& opt_chars(c.observability.neo4j_uri) == opt_chars(env.neo4j_uri)
            &&& opt_chars(c.observability.timescaledb_url) == opt_chars(env.timescaledb_url)
            &&& (env.spectre_service_name matches Some(n) ==> c.service.name@ == n@)
            &&& (env.spectre_service_name is None ==> c.service.name@ == c.service.id@)
            &&& (env.spectre_env matches Some(e) ==> c.service.environment@ == e@)
            &&& (env.spectre_env is None ==> c.service.environment@ == "dev"@)
            &&& (env.rust_log matches Some(l) ==> c.observability.log_level@ == l@)
            &&& (env.rust_log is None ==> c.observability.log_level@ == "info"@)
        },
{
}

/// A configuration described by the environment is valid exactly when
/// the service id and the NATS URL are not empty.
pub proof fn env_config_validity(c: Config, env: EnvVars, id: Seq<char>, url: Seq<char>)
    requires
        Config::describes(c, env, id, url),
    ensures
        c.valid() <==> (id.len() > 0 && url.len() > 0),
{
}

/// Configuration loader utility
pub struct ConfigLoader;

impl ConfigLoader {
    /// What loading from the environment `env` and then validating gives.
    pub open spec fn env_load_result(env: EnvVars, r: Result<Config, SpectreError>) -> bool {
        match (env.spectre_service_id, env.nats_url) {
            (None, _) => r is Err && r->Err_0@ == ErrorValue::Config("SPECTRE_SERVICE_ID not set"@),
            (Some(_), None) => r is Err && r->Err_0@ == ErrorValue::Config("NATS_URL not set"@),
            (Some(id), Some(url)) => exists|c: Config| #![trigger Config::describes(c, env, id@, url@)]
                Config::describes(c, env, id@, url@) && match c.validation() {
                    Ok(_) => r == Ok::<Config, SpectreError>(c),
                    Err(v) => r is Err && r->Err_0@ == v,
                },
        }
    }

    /// Load configuration with fallback strategy: from the file when a
    /// path was given and reading and parsing it succeeded (`file` holds
    /// what they gave), else from the environment, whose unset settings
    /// take their defaults; the result is then validated.
    pub fn load(file: Option<Result<Config, SpectreError>>, env: EnvVars) -> (r: Result<Config, SpectreError>)
        ensures
            r is Ok ==> r->Ok_0.valid(),
            match file {
                Some(Ok(c)) => match c.validation() {
                    Ok(_) => r == Ok::<Config, SpectreError>(c),
                    Err(v) => r is Err && r->Err_0@ == v,
                },
                _ => ConfigLoader::env_load_result(env, r),
            },
    {
        let config = match file {
            Some(Ok(c)) => c,
            _ => match Config::from_env(env) {
                Ok(c) => c,
                Err(e) => {
                    return Err(e);
                },
            },
        };
        match config.validate() {
            Ok(()) => Ok(config),
            Err(e) => Err(e),
        }
    }
}

} // verus!
