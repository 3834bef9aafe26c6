//! Events of the fleet and their NATS subjects, and the configuration
//! of the event bus connection.
use vstd::prelude::*;
use crate::config::opt_chars;
use crate::types::{random_uuid, CorrelationId, ServiceId};
use vstd::arithmetic::power2::{lemma2_to64, lemma_pow2_pos, lemma_pow2_strictly_increases, lemma_pow2_unfold, pow2};

verus! {

/// Kinds of events, each published on its own subject.
#[derive(Debug, Clone, PartialEq, Eq)]
pub enum EventType {
    LlmRequest,
    LlmResponse,
    InferenceRequest,
    InferenceResponse,
    VramStatus,
    AnalysisRequest,
    AnalysisResponse,
    SystemMetrics,
    CostIncurred,
    /// An event published on a subject of the caller's choosing.
    Custom(String),
}

impl EventType {
    /// The NATS subject of events of this type.
    pub open spec fn subject_text(&self) -> Seq<char> {
        match self {
            EventType::LlmRequest => "llm.request.v1"@,
            EventType::LlmResponse => "llm.response.v1"@,
            EventType::InferenceRequest => "inference.request.v1"@,
            EventType::InferenceResponse => "inference.response.v1"@,
            EventType::VramStatus => "vram.status.v1"@,
            EventType::AnalysisRequest => "analysis.request.v1"@,
            EventType::AnalysisResponse => "analysis.response.v1"@,
            EventType::SystemMetrics => "system.metrics.v1"@,
            EventType::CostIncurred => "cost.incurred.v1"@,
            EventType::Custom(s) => s@,
        }
    }

    /// The NATS subject of events of this type.
    pub fn subject(&self) -> (r: String)
        ensures
            r@ == self.subject_text(),
    {
        match self {
            EventType::LlmRequest => String::from_str("llm.request.v1"),
            EventType::LlmResponse => String::from_str("llm.response.v1"),
            EventType::InferenceRequest => String::from_str("inference.request.v1"),
            EventType::InferenceResponse => String::from_str("inference.response.v1"),
            EventType::VramStatus => String::from_str("vram.status.v1"),
            EventType::AnalysisRequest => String::from_str("analysis.request.v1"),
            EventType::AnalysisResponse => String::from_str("analysis.response.v1"),
            EventType::SystemMetrics => String::from_str("system.metrics.v1"),
            EventType::CostIncurred => String::from_str("cost.incurred.v1"),
            EventType::Custom(s) => s.clone(),
        }
    }
}

/// Every predefined event type has a subject, so no event is published
/// on the empty subject unless a custom one asks for it.
pub proof fn predefined_subjects_are_nonempty(t: EventType)
    requires
        !(t is Custom),
    ensures
        t.subject_text().len() > 0,
{
    reveal_strlit("llm.request.v1");
    reveal_strlit("llm.response.v1");
    reveal_strlit("inference.request.v1");
    reveal_strlit("inference.response.v1");
    reveal_strlit("vram.status.v1");
    reveal_strlit("analysis.request.v1");
    reveal_strlit("analysis.response.v1");
    reveal_strlit("system.metrics.v1");
    reveal_strlit("cost.incurred.v1");
}

/// The value of a version 4 UUID has version nibble 4 and variant `10`.
pub open spec fn is_v4(v: u128) -> bool {
    (v >> 76u128) & 0xf == 4 && (v >> 62u128) & 0x3 == 2
}

/// An event on the bus: its identity, type, origin, correlation, JSON
/// payload text, and optional cost tag and authenticated principal.
#[derive(Debug, Clone)]
pub struct Event {
    /// Unique id of this event (the value of a version 4 UUID).
    pub event_id: u128,
    pub event_type: EventType,
    /// The service that emitted the event.
    pub source: ServiceId,
    /// Shared by all events of one user request.
    pub correlation_id: CorrelationId,
    /// The payload, as JSON text.
    pub payload: String,
    /// FinOps cost attribution tag.
    pub cost_tag: Option<String>,
    /// Principal that authenticated the event.
    pub auth: Option<String>,
}

impl Event {
    /// A new event with a fresh id and a fresh correlation id.
    pub fn new(event_type: EventType, source: ServiceId, payload: String) -> (r: Self)
        ensures
            is_v4(r.event_id),
            is_v4(r.correlation_id@),
            r.event_type == event_type,
            r.source == source,
            r.payload == payload,
            r.cost_tag is None,
            r.auth is None,
    {
        let correlation_id = CorrelationId::generate();
        Event::with_correlation(event_type, source, correlation_id, payload)
    }

    /// A new event with a fresh id that continues the request `correlation_id`.
    pub fn with_correlation(
        event_type: EventType,
        source: ServiceId,
        correlation_id: CorrelationId,
        payload: String,
    ) -> (r: Self)
        ensures
            is_v4(r.event_id),
            r.correlation_id == correlation_id,
            r.event_type == event_type,
            r.source == source,
            r.payload == payload,
            r.cost_tag is None,
            r.auth is None,
    {
        Event {
            event_id: random_uuid(),
            event_type,
            source,
            correlation_id,
            payload,
            cost_tag: None,
            auth: None,
        }
    }

    /// The same event, continuing the request `correlation_id`.
    pub fn with_correlation_id(self, correlation_id: CorrelationId) -> (r: Self)
        ensures
            r == (Event { correlation_id, ..self }),
    {
        Event { correlation_id, ..self }
    }

    /// The same event, tagged for cost attribution.
    pub fn with_cost_tag(self, tag: &str) -> (r: Self)
        ensures
            opt_chars(r.cost_tag) == Some(tag@),
            r.event_id == self.event_id,
            r.event_type == self.event_type,
            r.source == self.source,
            r.correlation_id == self.correlation_id,
            r.payload == self.payload,
            r.auth == self.auth,
    {
        Event { cost_tag: Some(String::from_str(tag)), ..self }
    }

    /// The same event, marked as authenticated by `principal`.
    pub fn with_auth(self, principal: &str) -> (r: Self)
        ensures
            opt_chars(r.auth) == Some(principal@),
            r.event_id == self.event_id,
            r.event_type == self.event_type,
            r.source == self.source,
            r.correlation_id == self.correlation_id,
            r.payload == self.payload,
            r.cost_tag == self.cost_tag,
    {
        Event { auth: Some(String::from_str(principal)), ..self }
    }

    /// The NATS subject the event is published on.
    pub fn subject(&self) -> (r: String)
        ensures
            r@ == self.event_type.subject_text(),
    {
        self.event_type.subject()
    }
}

/// EventBus configuration
#[derive(Debug, Clone)]
pub struct EventBusConfig {
    /// NATS server URLs
    pub urls: Vec<String>,
    /// Max reconnect attempts
    pub max_reconnects: u32,
    /// Reconnect delay, in nanoseconds
    pub reconnect_delay_nanos: u128,
    /// Connection name (for monitoring)
    pub name: String,
}

impl Default for EventBusConfig {
    /// The local server, ten reconnects one second apart.
    fn default() -> (r: Self)
        ensures
            r.urls@.len() == 1,
            r.urls@[0]@ == "nats://localhost:4222"@,
            r.max_reconnects == 10,
            r.reconnect_delay_nanos == 1_000_000_000,
            r.name@ == "spectre-event-bus"@,
    {
        let mut urls: Vec<String> = Vec::new();
        urls.push(String::from_str("nats://localhost:4222"));
        EventBusConfig {
            urls,
            max_reconnects: 10,
            reconnect_delay_nanos: 1_000_000_000,
            name: String::from_str("spectre-event-bus"),
        }
    }
}

impl EventBusConfig {
    /// The default configuration with the single server `url`.
    pub fn for_url(url: String) -> (r: Self)
        ensures
            r.urls@.len() == 1,
            r.urls@[0] == url,
            r.max_reconnects == 10,
            r.reconnect_delay_nanos == 1_000_000_000,
            r.name@ == "spectre-event-bus"@,
    {
        let mut urls: Vec<String> = Vec::new();
        urls.push(url);
        EventBusConfig { urls, ..EventBusConfig::default() }
    }

    /// The delay before reconnect attempt `attempts` (counted from 1):
    /// exponential backoff, the configured delay doubled on every further
    /// attempt; no delay before attempt 0. Only where the delay no longer
    /// fits in a `Duration` is it held at the longest one.
    pub fn reconnect_delay_for(&self, attempts: usize) -> (r: u128)
        ensures
            r == backoff(self.reconnect_delay_nanos as nat, attempts as nat),
    {
        if attempts == 0 {
            return 0;
        }
        let base = self.reconnect_delay_nanos;
        if base == 0 {
            proof {
                let pa = pow2((attempts - 1) as nat);
                assert(base * pa == 0) by (nonlinear_arith)
                    requires
                        base == 0,
                ;
            }
            return 0;
        }
        if base >= DURATION_MAX_NANOS {
            proof {
                let pa = pow2((attempts - 1) as nat);
                lemma_pow2_pos((attempts - 1) as nat);
                assert(base * pa >= base) by (nonlinear_arith)
                    requires
                        pa > 0,
                ;
            }
            return DURATION_MAX_NANOS;
        }
        let mut d = base;
        let mut i: usize = 1;
        proof {
            lemma2_to64();
            assert(pow2((i - 1) as nat) == 1);
        }
        while i < attempts
            invariant
                base == self.reconnect_delay_nanos,
                1 <= i <= attempts,
                d == base * pow2((i - 1) as nat),
                d < DURATION_MAX_NANOS,
            decreases attempts - i,
        {
            let next = d * 2;
            proof {
                lemma_pow2_unfold(i as nat);
                assert(next == base * pow2(i as nat)) by (nonlinear_arith)
                    requires
                        next == d * 2,
                        d == base * pow2((i - 1) as nat),
                        pow2(i as nat) == 2 * pow2((i - 1) as nat),
                ;
            }
            if next >= DURATION_MAX_NANOS {
                proof {
                    let pi = pow2(i as nat);
                    let pa = pow2((attempts - 1) as nat);
                    if i < attempts - 1 {
                        lemma_pow2_strictly_increases(i as nat, (attempts - 1) as nat);
                    }
                    assert(pi <= pa);
                    assert(base * pi <= base * pa) by (nonlinear_arith)
                        requires
                            pi <= pa,
                    ;
                }
                return DURATION_MAX_NANOS;
            }
            d = next;
            i = i + 1;
        }
        d
    }
}

/// The longest `std::time::Duration` (`u64::MAX` seconds and 999 999 999
/// nanoseconds), in nanoseconds.
pub const DURATION_MAX_NANOS: u128 = 18_446_744_073_709_551_615_999_999_999;

/// Exponential backoff: no delay before attempt 0, then `base` doubled on
/// each further attempt, held at [`DURATION_MAX_NANOS`] once it no longer
/// fits in a `Duration`.
pub open spec fn backoff(base: nat, attempts: nat) -> nat {
    if attempts == 0 {
        0
    } else if base * pow2((attempts - 1) as nat) >= DURATION_MAX_NANOS {
        DURATION_MAX_NANOS as nat
    } else {
        base * pow2((attempts - 1) as nat)
    }
}

/// The backoff doubles from one attempt to the next until it no longer
/// fits in a `Duration`, and never decreases.
pub proof fn backoff_doubles(base: nat, attempts: nat)
    requires
        attempts >= 1,
    ensures
        backoff(base, attempts + 1) == if 2 * backoff(base, attempts) >= DURATION_MAX_NANOS {
            DURATION_MAX_NANOS as nat
        } else {
            2 * backoff(base, attempts)
        },
        backoff(base, attempts) <= backoff(base, attempts + 1),
{
    lemma_pow2_unfold(attempts);
    let p = pow2((attempts - 1) as nat);
    assert(base * pow2(attempts) == 2 * (base * p)) by (nonlinear_arith)
        requires
            pow2(attempts) == 2 * p,
    ;
}

} // verus!
