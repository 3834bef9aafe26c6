//! The error type shared by all SPECTRE services, with the HTTP status,
//! retry and client-error classification of each kind of failure.
use vstd::prelude::*;
use crate::text::{decimal, decimal_string};

verus! {

/// A SPECTRE error. Errors that wrap a foreign error (serialization,
/// I/O, other) carry that error's rendered message.
#[derive(Debug, Clone)]
pub enum SpectreError {
    /// Configuration error
    Config(String),
    /// NATS/Event bus error
    EventBus(String),
    /// Database error
    Database(String),
    /// Authentication/Authorization error
    Auth(String),
    /// Service unavailable
    ServiceUnavailable { service: String, reason: String },
    /// Rate limit exceeded
    RateLimitExceeded { resource: String, details: String },
    /// Invalid request
    InvalidRequest(String),
    /// Not found
    NotFound { resource: String, id: String },
    /// Timeout
    Timeout { operation: String, seconds: u64 },
    /// Serialization error (message of the underlying JSON error)
    Serialization(String),
    /// IO error (message of the underlying I/O error)
    Io(String),
    /// Generic error (fallback)
    Internal(String),
    /// Error from another library, shown as that error's own message
    Other(String),
}

/// The mathematical value of a [`SpectreError`]: its kind and the
/// characters of each text field.
pub enum ErrorValue {
    Config(Seq<char>),
    EventBus(Seq<char>),
    Database(Seq<char>),
    Auth(Seq<char>),
    ServiceUnavailable { service: Seq<char>, reason: Seq<char> },
    RateLimitExceeded { resource: Seq<char>, details: Seq<char> },
    InvalidRequest(Seq<char>),
    NotFound { resource: Seq<char>, id: Seq<char> },
    Timeout { operation: Seq<char>, seconds: u64 },
    Serialization(Seq<char>),
    Io(Seq<char>),
    Internal(Seq<char>),
    Other(Seq<char>),
}

impl View for SpectreError {
    type V = ErrorValue;

    open spec fn view(&self) -> ErrorValue {
        match self {
            SpectreError::Config(m) => ErrorValue::Config(m@),
            SpectreError::EventBus(m) => ErrorValue::EventBus(m@),
            SpectreError::Database(m) => ErrorValue::Database(m@),
            SpectreError::Auth(m) => ErrorValue::Auth(m@),
            SpectreError::ServiceUnavailable { service, reason } => ErrorValue::ServiceUnavailable {
                service: service@,
                reason: reason@,
            },
            SpectreError::RateLimitExceeded { resource, details } => ErrorValue::RateLimitExceeded {
                resource: resource@,
                details: details@,
            },
            SpectreError::InvalidRequest(m) => ErrorValue::InvalidRequest(m@),
            SpectreError::NotFound { resource, id } => ErrorValue::NotFound {
                resource: resource@,
                id: id@,
            },
            SpectreError::Timeout { operation, seconds } => ErrorValue::Timeout {
                operation: operation@,
                seconds: *seconds,
            },
            SpectreError::Serialization(m) => ErrorValue::Serialization(m@),
            SpectreError::Io(m) => ErrorValue::Io(m@),
            SpectreError::Internal(m) => ErrorValue::Internal(m@),
            SpectreError::Other(m) => ErrorValue::Other(m@),
        }
    }
}

impl ErrorValue {
    /// Errors worth retrying: the service may come back.
    pub open spec fn retryable(self) -> bool {
        ||| self is ServiceUnavailable
        ||| self is Timeout
        ||| self is EventBus
    }

    /// Errors caused by the client (4xx equivalent): invalid requests,
    /// failed authentication, missing resources and exceeded rate limits.
    pub open spec fn client_error(self) -> bool {
        ||| self is InvalidRequest
        ||| self is NotFound
        ||| self is Auth
        ||| self is RateLimitExceeded
    }

    /// The HTTP status code equivalent of the error.
    pub open spec fn status(self) -> u16 {
        match self {
            ErrorValue::InvalidRequest(_) => 400,
            ErrorValue::Auth(_) => 401,
            ErrorValue::NotFound { .. } => 404,
            ErrorValue::RateLimitExceeded { .. } => 429,
            ErrorValue::ServiceUnavailable { .. } => 503,
            ErrorValue::Timeout { .. } => 504,
            _ => 500,
        }
    }

    /// The human-readable message of the error.
    pub open spec fn message(self) -> Seq<char> {
        match self {
            ErrorValue::Config(m) => "Configuration error: "@ + m,
            ErrorValue::EventBus(m) => "Event bus error: "@ + m,
            ErrorValue::Database(m) => "Database error: "@ + m,
            ErrorValue::Auth(m) => "Auth error: "@ + m,
            ErrorValue::ServiceUnavailable { service, reason } =>
                "Service '"@ + service + "' unavailable: "@ + reason,
            ErrorValue::RateLimitExceeded { resource, details } =>
                "Rate limit exceeded for '"@ + resource + "': "@ + details,
            ErrorValue::InvalidRequest(m) => "Invalid request: "@ + m,
            ErrorValue::NotFound { resource, id } => resource + " not found: "@ + id,
            ErrorValue::Timeout { operation, seconds } =>
                "Operation timed out after "@ + decimal(seconds as nat) + "s: "@ + operation,
            ErrorValue::Serialization(m) => "Serialization error: "@ + m,
            ErrorValue::Io(m) => "IO error: "@ + m,
            ErrorValue::Internal(m) => "Internal error: "@ + m,
            ErrorValue::Other(m) => m,
        }
    }
}

fn text(s: &str) -> (r: String)
    ensures
        r@ == s@,
{
    String::from_str(s)
}

fn joined(a: &str, b: &str) -> (r: String)
    ensures
        r@ == a@ + b@,
{
    let mut r = String::from_str(a);
    r.append(b);
    r
}

impl SpectreError {
    /// Create a Config error
    pub fn config(msg: &str) -> (r: Self)
        ensures
            r@ == ErrorValue::Config(msg@),
    {
        SpectreError::Config(text(msg))
    }

    /// Create an EventBus error
    pub fn event_bus(msg: &str) -> (r: Self)
        ensures
            r@ == ErrorValue::EventBus(msg@),
    {
        SpectreError::EventBus(text(msg))
    }

    /// Create a Database error
    pub fn database(msg: &str) -> (r: Self)
        ensures
            r@ == ErrorValue::Database(msg@),
    {
        SpectreError::Database(text(msg))
    }

    /// Create an Auth error
    pub fn auth(msg: &str) -> (r: Self)
        ensures
            r@ == ErrorValue::Auth(msg@),
    {
        SpectreError::Auth(text(msg))
    }

    /// Create a ServiceUnavailable error
    pub fn service_unavailable(service: &str, reason: &str) -> (r: Self)
        ensures
            r@ == (ErrorValue::ServiceUnavailable { service: service@, reason: reason@ }),
    {
        SpectreError::ServiceUnavailable { service: text(service), reason: text(reason) }
    }

    /// Create a RateLimitExceeded error
    pub fn rate_limit(resource: &str, details: &str) -> (r: Self)
        ensures
            r@ == (ErrorValue::RateLimitExceeded { resource: resource@, details: details@ }),
    {
        SpectreError::RateLimitExceeded { resource: text(resource), details: text(details) }
    }

    /// Create an InvalidRequest error
    pub fn invalid_request(msg: &str) -> (r: Self)
        ensures
            r@ == ErrorValue::InvalidRequest(msg@),
    {
        SpectreError::InvalidRequest(text(msg))
    }

    /// Create a NotFound error
    pub fn not_found(resource: &str, id: &str) -> (r: Self)
        ensures
            r@ == (ErrorValue::NotFound { resource: resource@, id: id@ }),
    {
        SpectreError::NotFound { resource: text(resource), id: text(id) }
    }

    /// Create a Timeout error
    pub fn timeout(operation: &str, seconds: u64) -> (r: Self)
        ensures
            r@ == (ErrorValue::Timeout { operation: operation@, seconds }),
    {
        SpectreError::Timeout { operation: text(operation), seconds }
    }

    /// Create an Internal error
    pub fn internal(msg: &str) -> (r: Self)
        ensures
            r@ == ErrorValue::Internal(msg@),
    {
        SpectreError::Internal(text(msg))
    }

    /// Create a serialization error, reported as an Internal error whose
    /// message starts with "Serialization error: ".
    pub fn serialization(msg: &str) -> (r: Self)
        ensures
            r@ == ErrorValue::Internal("Serialization error: "@ + msg@),
    {
        SpectreError::Internal(joined("Serialization error: ", msg))
    }

    /// Check if error is retryable
    pub fn is_retryable(&self) -> (r: bool)
        ensures
            r == self@.retryable(),
            r <==> (*self is ServiceUnavailable || *self is Timeout || *self is EventBus),
    {
        match self {
            SpectreError::ServiceUnavailable { .. } | SpectreError::Timeout { .. }
            | SpectreError::EventBus(_) => true,
            _ => false,
        }
    }

    /// Check if error is a client error (4xx equivalent)
    pub fn is_client_error(&self) -> (r: bool)
        ensures
            r == self@.client_error(),
            r <==> 400 <= self@.status() < 500,
    {
        match self {
            SpectreError::InvalidRequest(_) | SpectreError::NotFound { .. }
            | SpectreError::Auth(_) | SpectreError::RateLimitExceeded { .. } => true,
            _ => false,
        }
    }

    /// Get HTTP status code equivalent
    pub fn status_code(&self) -> (r: u16)
        ensures
            r == self@.status(),
    {
        match self {
            SpectreError::InvalidRequest(_) => 400,
            SpectreError::Auth(_) => 401,
            SpectreError::NotFound { .. } => 404,
            SpectreError::RateLimitExceeded { .. } => 429,
            SpectreError::ServiceUnavailable { .. } => 503,
            SpectreError::Timeout { .. } => 504,
            _ => 500,
        }
    }

    /// The error's message, as its `Display` rendering shows it.
    pub fn to_string(&self) -> (r: String)
        ensures
            r@ == self@.message(),
    {
        match self {
            SpectreError::Config(m) => joined("Configuration error: ", m.as_str()),
            SpectreError::EventBus(m) => joined("Event bus error: ", m.as_str()),
            SpectreError::Database(m) => joined("Database error: ", m.as_str()),
            SpectreError::Auth(m) => joined("Auth error: ", m.as_str()),
            SpectreError::ServiceUnavailable { service, reason } => {
                let mut r = joined("Service '", service.as_str());
                r.append("' unavailable: ");
                r.append(reason.as_str());
                r
            },
            SpectreError::RateLimitExceeded { resource, details } => {
                let mut r = joined("Rate limit exceeded for '", resource.as_str());
                r.append("': ");
                r.append(details.as_str());
                r
            },
            SpectreError::InvalidRequest(m) => joined("Invalid request: ", m.as_str()),
            SpectreError::NotFound { resource, id } => {
                let mut r = joined(resource.as_str(), " not found: ");
                r.append(id.as_str());
                r
            },
            SpectreError::Timeout { operation, seconds } => {
                let mut r = text("Operation timed out after ");
                let digits = decimal_string(*seconds);
                r.append(digits.as_str());
                r.append("s: ");
                r.append(operation.as_str());
                r
            },
            SpectreError::Serialization(m) => joined("Serialization error: ", m.as_str()),
            SpectreError::Io(m) => joined("IO error: ", m.as_str()),
            SpectreError::Internal(m) => joined("Internal error: ", m.as_str()),
            SpectreError::Other(m) => text(m.as_str()),
        }
    }
}

/// An error is a client error exactly when its status is a 4xx code.
pub proof fn client_errors_are_4xx(e: ErrorValue)
    ensures
        e.client_error() <==> 400 <= e.status() < 500,
{
}

/// Every retryable error maps to a 5xx status, and no error is both
/// retryable and a client error.
pub proof fn retryable_errors_are_5xx(e: ErrorValue)
    requires
        e.retryable(),
    ensures
        500 <= e.status() < 600,
        !e.client_error(),
{
}

/// Exactly the errors of an unavailable service, a timeout and the event
/// bus are worth retrying: database, configuration, I/O, serialization,
/// internal and other errors are not, and neither is any client error.
pub proof fn retryable_kinds(e: ErrorValue)
    ensures
        e.retryable() <==> (e is ServiceUnavailable || e is Timeout || e is EventBus),
        e is Database ==> !e.retryable(),
        e is Config ==> !e.retryable(),
        e is Io ==> !e.retryable(),
        e is Serialization ==> !e.retryable(),
        e is Internal ==> !e.retryable(),
        e is Other ==> !e.retryable(),
        e.client_error() ==> !e.retryable(),
{
}

} // verus!
