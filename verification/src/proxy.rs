//! Decisions of the proxy's HTTP layer: how an error is answered, and
//! the circuit-breaker protected publication of an event.
use vstd::prelude::*;
use crate::auth::AuthUser;
use crate::circuit::CircuitBreaker;
use crate::error::{ErrorValue, SpectreError};
use crate::events::{Event, EventType, is_v4};
use crate::types::ServiceId;

verus! {

/// An error answered over HTTP.
#[derive(Debug, Clone)]
pub struct AppError(pub SpectreError);

/// The HTTP status sent for an error status code: the code itself when
/// it is a valid status (100 to 999), else 500.
pub open spec fn http_status(code: u16) -> u16 {
    if 100 <= code <= 999 { code } else { 500 }
}

impl AppError {
    /// The HTTP status of the response.
    pub fn status_code(&self) -> (r: u16)
        ensures
            r == http_status(self.0@.status()),
            r == self.0@.status(),
    {
        let code = self.0.status_code();
        if 100 <= code && code <= 999 {
            code
        } else {
            500
        }
    }

    /// The `message` of the response's JSON body.
    pub fn message(&self) -> (r: String)
        ensures
            r@ == self.0@.message(),
    {
        self.0.to_string()
    }
}

/// The error answered when the circuit to the event bus is open.
pub open spec fn circuit_open_error() -> ErrorValue {
    ErrorValue::ServiceUnavailable { service: "NATS Event Bus"@, reason: "Circuit Open"@ }
}

/// Asks the circuit breaker whether a publication may proceed; when it
/// may not, the request is answered with 503 "Circuit Open".
pub fn admit_publication(breaker: &mut CircuitBreaker) -> (r: Result<(), SpectreError>)
    ensures
        exists|elapsed: u128|
            final(breaker)@ == #[trigger] old(breaker)@.after_request(elapsed)
                && (r is Ok <==> old(breaker)@.allows(elapsed)),
        r is Err ==> r->Err_0@ == circuit_open_error(),
{
    if breaker.allow_request() {
        Ok(())
    } else {
        Err(SpectreError::service_unavailable("NATS Event Bus", "Circuit Open"))
    }
}

/// The event published for a request on `topic`: a custom event on that
/// subject, from the authenticated subject, carrying the payload, with
/// fresh event and correlation ids and neither cost tag nor principal.
pub fn publication(topic: String, user: AuthUser, payload: String) -> (r: Event)
    ensures
        r.event_type == EventType::Custom(topic),
        r.source@ == user.0.sub@,
        r.payload == payload,
        is_v4(r.event_id),
        is_v4(r.correlation_id@),
        r.cost_tag is None,
        r.auth is None,
{
    Event::new(EventType::Custom(topic), ServiceId::from_string(user.0.sub), payload)
}

/// Records the outcome of a publication in the circuit breaker and
/// passes it on: a success closes a half-open circuit, a failure counts
/// towards opening it.
pub fn settle_publication(breaker: &mut CircuitBreaker, outcome: Result<(), SpectreError>) -> (r: Result<(), SpectreError>)
    requires
        outcome is Err ==> old(breaker)@.failures < usize::MAX,
    ensures
        r == outcome,
        outcome is Ok ==> final(breaker)@ == old(breaker)@.after_success(),
        outcome is Err ==> exists|now| final(breaker)@ == #[trigger] old(breaker)@.after_failure(now),
{
    if outcome.is_ok() {
        breaker.record_success();
    } else {
        breaker.record_failure();
    }
    outcome
}

} // verus!
