//! Observability settings: how a service logs and whether it exports
//! traces, and the labels under which proxy requests are counted.
use vstd::prelude::*;
use crate::config::{Config, or_default};
use crate::text::{decimal, decimal_string, same_text};

verus! {

/// How logs are written.
#[derive(Debug, Clone, Copy, PartialEq, Eq, Structural)]
pub enum LogFormat {
    /// One JSON object per line.
    Json,
    /// Multi-line human-readable output.
    Pretty,
}

/// The observability setup chosen from the environment.
#[derive(Debug, Clone)]
pub struct ObservabilityPlan {
    /// Log filter directive (`RUST_LOG`, default "info").
    pub log_level: String,
    /// Log format (`SPECTRE_LOG_FORMAT`: "json", anything else pretty).
    pub format: LogFormat,
    /// OTLP collector endpoint; traces are exported only when it is set.
    pub otlp_endpoint: Option<String>,
}

/// Chooses the observability setup from the values of `RUST_LOG`,
/// `SPECTRE_LOG_FORMAT` and `OTEL_EXPORTER_OTLP_ENDPOINT`.
pub fn plan_observability(
    rust_log: Option<String>,
    log_format: Option<String>,
    otlp_endpoint: Option<String>,
) -> (r: ObservabilityPlan)
    ensures
        r.log_level@ == or_default(rust_log, "info"@),
        r.format == (if or_default(log_format, "pretty"@) == "json"@ {
            LogFormat::Json
        } else {
            LogFormat::Pretty
        }),
        r.otlp_endpoint == otlp_endpoint,
{
    let log_level = match rust_log {
        Some(l) => l,
        None => String::from_str("info"),
    };
    let format_name = match log_format {
        Some(f) => f,
        None => String::from_str("pretty"),
    };
    let format = if same_text(format_name.as_str(), "json") {
        LogFormat::Json
    } else {
        LogFormat::Pretty
    };
    ObservabilityPlan { log_level, format, otlp_endpoint }
}

/// The log format of a service: JSON in production, pretty elsewhere.
pub fn logging_format(config: &Config) -> (r: LogFormat)
    ensures
        r == (if config.service.environment@ == "prod"@ { LogFormat::Json } else { LogFormat::Pretty }),
{
    if same_text(config.service.environment.as_str(), "prod") {
        LogFormat::Json
    } else {
        LogFormat::Pretty
    }
}

/// Whether `tracing_subscriber::EnvFilter` accepts `directives` as a
/// filter.
pub uninterp spec fn env_filter_accepts(directives: Seq<char>) -> bool;

/// `EnvFilter::try_new(directives).is_ok()`. Claimed: the answer depends
/// on the text alone (the builder splits it at commas and parses each
/// directive), and an empty text is accepted as a filter of no directives.
#[verifier::external_body]
fn filter_accepts(directives: &str) -> (r: bool)
    ensures
        r == env_filter_accepts(directives@),
        directives@.len() == 0 ==> r,
{
    tracing_subscriber::EnvFilter::try_new(directives).is_ok()
}

/// The filter logging starts with: `RUST_LOG` when it is set and valid,
/// else the configured level when it is valid, else "info". `rust_log_ok`
/// and `level_ok` say whether each text is a valid filter.
pub fn choose_log_filter(rust_log: Option<String>, rust_log_ok: bool, level: &str, level_ok: bool) -> (r: String)
    ensures
        r@ == (match rust_log {
            Some(d) if rust_log_ok => d@,
            _ => if level_ok { level@ } else { "info"@ },
        }),
{
    match rust_log {
        Some(d) if rust_log_ok => d,
        _ => if level_ok { String::from_str(level) } else { String::from_str("info") },
    }
}

/// The filter logging starts with, given the value of `RUST_LOG`.
pub fn log_filter(rust_log: Option<String>, config: &Config) -> (r: String)
    ensures
        r@ == (match rust_log {
            Some(d) if env_filter_accepts(d@) => d@,
            _ => if env_filter_accepts(config.observability.log_level@) {
                config.observability.log_level@
            } else {
                "info"@
            },
        }),
{
    let rust_log_ok = match &rust_log {
        Some(d) => filter_accepts(d.as_str()),
        None => false,
    };
    let level = config.observability.log_level.as_str();
    let level_ok = filter_accepts(level);
    choose_log_filter(rust_log, rust_log_ok, level, level_ok)
}

/// The label values under which a proxy request is counted: method,
/// path and the decimal status code.
pub fn request_labels(method: &str, path: &str, status: u16) -> (r: (String, String, String))
    ensures
        r.0@ == method@,
        r.1@ == path@,
        r.2@ == decimal(status as nat),
{
    (String::from_str(method), String::from_str(path), decimal_string(status as u64))
}

} // verus!
