//! Circuit breaker of the proxy: after enough consecutive failures it
//! opens and rejects requests; once the reset timeout has passed since
//! the last failure it lets a probe through (half-open), and a success
//! closes it again.
use vstd::prelude::*;
use std::time::Instant;

verus! {

#[verifier::external_type_specification]
#[verifier::external_body]
pub struct ExInstant(std::time::Instant);

/// Circuit Breaker States
#[derive(Debug, Clone, Copy, PartialEq, Eq, Structural)]
pub enum CircuitState {
    /// Normal operation
    Closed,
    /// Failing, reject requests
    Open,
    /// Testing if service recovered
    HalfOpen,
}

/// Circuit Breaker Configuration
#[derive(Debug, Clone, Copy)]
pub struct CircuitConfig {
    /// Consecutive failures that open the circuit.
    pub failure_threshold: usize,
    /// Time after the last failure before a probe is let through, in nanoseconds.
    pub reset_timeout_nanos: u128,
}

impl Default for CircuitConfig {
    /// Five failures, thirty seconds.
    fn default() -> (r: Self)
        ensures
            r.failure_threshold == 5,
            r.reset_timeout_nanos == 30_000_000_000,
    {
        CircuitConfig { failure_threshold: 5, reset_timeout_nanos: 30_000_000_000 }
    }
}

/// The abstract state of a breaker.
pub struct BreakerView {
    pub state: CircuitState,
    pub failures: usize,
    pub last_failure: Option<Instant>,
    pub threshold: usize,
    pub reset_timeout: u128,
}

impl BreakerView {
    /// What every reachable breaker satisfies: a closed circuit has not
    /// reached its threshold since it was last reset, and an open or
    /// half-open circuit remembers when it last failed.
    pub open spec fn wf(self) -> bool {
        &&& (self.state == CircuitState::Closed ==> self.failures == 0 || self.failures < self.threshold)
        &&& (self.state != CircuitState::Closed ==> self.last_failure is Some)
    }

    /// A new breaker with the given configuration.
    pub open spec fn fresh(config: CircuitConfig) -> BreakerView {
        BreakerView {
            state: CircuitState::Closed,
            failures: 0,
            last_failure: None,
            threshold: config.failure_threshold,
            reset_timeout: config.reset_timeout_nanos,
        }
    }

    /// Whether an open circuit may switch to half-open when `elapsed`
    /// nanoseconds have passed since its last failure.
    pub open spec fn probe_due(self, elapsed: u128) -> bool {
        self.last_failure is Some && elapsed >= self.reset_timeout
    }

    /// The answer to a request when `elapsed` nanoseconds have passed
    /// since the last failure.
    pub open spec fn allows(self, elapsed: u128) -> bool {
        match self.state {
            CircuitState::Closed => true,
            CircuitState::HalfOpen => true,
            CircuitState::Open => self.probe_due(elapsed),
        }
    }

    /// The breaker after answering a request at `elapsed` nanoseconds
    /// since the last failure.
    pub open spec fn after_request(self, elapsed: u128) -> BreakerView {
        if self.state == CircuitState::Open && self.probe_due(elapsed) {
            BreakerView { state: CircuitState::HalfOpen, ..self }
        } else {
            self
        }
    }

    /// The breaker after a successful request.
    pub open spec fn after_success(self) -> BreakerView {
        if self.state == CircuitState::HalfOpen {
            BreakerView { state: CircuitState::Closed, failures: 0, last_failure: None, ..self }
        } else {
            BreakerView { failures: 0, ..self }
        }
    }

    /// The breaker after a failed request observed at instant `now`.
    pub open spec fn after_failure(self, now: Instant) -> BreakerView {
        let failures = (self.failures + 1) as usize;
        BreakerView {
            state: if failures >= self.threshold { CircuitState::Open } else { self.state },
            failures,
            last_failure: Some(now),
            ..self
        }
    }
}

/// Circuit Breaker implementation
#[derive(Debug)]
pub struct CircuitBreaker {
    state: CircuitState,
    failure_count: usize,
    last_failure: Option<Instant>,
    config: CircuitConfig,
}

/// `Instant::now` (monotonic clock). Nothing is claimed of the reading.
#[verifier::external_body]
fn instant_now() -> (r: Instant) {
    Instant::now()
}

/// `Instant::elapsed`, in nanoseconds (`Duration::as_nanos`). Nothing is
/// claimed: the result depends on the clock.
#[verifier::external_body]
fn nanos_since(t: &Instant) -> (r: u128) {
    t.elapsed().as_nanos()
}

impl View for CircuitBreaker {
    type V = BreakerView;

    closed spec fn view(&self) -> BreakerView {
        BreakerView {
            state: self.state,
            failures: self.failure_count,
            last_failure: self.last_failure,
            threshold: self.config.failure_threshold,
            reset_timeout: self.config.reset_timeout_nanos,
        }
    }
}

impl CircuitBreaker {
    #[verifier::type_invariant]
    closed spec fn inv(self) -> bool {
        self@.wf()
    }

    pub fn new(config: CircuitConfig) -> (r: Self)
        ensures
            r@ == BreakerView::fresh(config),
            r@.wf(),
    {
        CircuitBreaker { state: CircuitState::Closed, failure_count: 0, last_failure: None, config }
    }

    /// Current state.
    pub fn state(&self) -> (r: CircuitState)
        ensures
            r == self@.state,
    {
        self.state
    }

    /// Consecutive failures counted since the last success.
    pub fn failure_count(&self) -> (r: usize)
        ensures
            r == self@.failures,
    {
        self.failure_count
    }

    /// Check if request should proceed, given that `elapsed` nanoseconds
    /// have passed since the last recorded failure (ignored when none is
    /// recorded). An open circuit whose reset timeout has passed switches
    /// to half-open and lets this one probe request through.
    pub fn allow_request_after(&mut self, elapsed: u128) -> (r: bool)
        ensures
            r == old(self)@.allows(elapsed),
            final(self)@ == old(self)@.after_request(elapsed),
            final(self)@.wf(),
    {
        proof { use_type_invariant(&*self); }
        match self.state {
            CircuitState::Closed => true,
            CircuitState::Open => {
                if self.last_failure.is_some() && elapsed >= self.config.reset_timeout_nanos {
                    self.state = CircuitState::HalfOpen;
                    true
                } else {
                    false
                }
            },
            CircuitState::HalfOpen => true,
        }
    }

    /// Check if request should proceed, reading the monotonic clock for
    /// the time since the last failure.
    pub fn allow_request(&mut self) -> (r: bool)
        ensures
            exists|elapsed: u128|
                r == old(self)@.allows(elapsed) && final(self)@ == old(self)@.after_request(elapsed),
            old(self)@.state != CircuitState::Open ==> r && final(self)@ == old(self)@,
            old(self)@.state == CircuitState::Open ==> (r <==> final(self)@.state == CircuitState::HalfOpen),
    {
        let elapsed = match (&self.state, &self.last_failure) {
            (CircuitState::Open, Some(t)) => nanos_since(t),
            _ => 0,
        };
        self.allow_request_after(elapsed)
    }

    /// Report a successful request
    pub fn record_success(&mut self)
        ensures
            final(self)@ == old(self)@.after_success(),
            final(self)@.failures == 0,
            final(self)@.state == (if old(self)@.state == CircuitState::HalfOpen {
                CircuitState::Closed
            } else {
                old(self)@.state
            }),
            final(self)@.wf(),
    {
        proof { use_type_invariant(&*self); }
        if self.state == CircuitState::HalfOpen {
            *self = CircuitBreaker {
                state: CircuitState::Closed,
                failure_count: 0,
                last_failure: None,
                config: self.config,
            };
        } else {
            self.failure_count = 0;
        }
    }

    /// Report a failed request observed at instant `now`.
    pub fn record_failure_at(&mut self, now: Instant)
        requires
            old(self)@.failures < usize::MAX,
        ensures
            final(self)@ == old(self)@.after_failure(now),
            final(self)@.wf(),
    {
        proof { use_type_invariant(&*self); }
        let failures = self.failure_count + 1;
        let state = if failures >= self.config.failure_threshold {
            CircuitState::Open
        } else {
            self.state
        };
        *self = CircuitBreaker {
            state,
            failure_count: failures,
            last_failure: Some(now),
            config: self.config,
        };
    }

    /// Report a failed request, stamped with the current instant.
    pub fn record_failure(&mut self)
        requires
            old(self)@.failures < usize::MAX,
        ensures
            exists|now: Instant| final(self)@ == old(self)@.after_failure(now),
    {
        let now = instant_now();
        self.record_failure_at(now);
    }
}

/// Every operation of the breaker keeps [`BreakerView::wf`].
pub proof fn operations_keep_wf(b: BreakerView, elapsed: u128, now: Instant)
    requires
        b.wf(),
        b.failures < usize::MAX,
    ensures
        b.after_request(elapsed).wf(),
        b.after_success().wf(),
        b.after_failure(now).wf(),
{
}

/// A new breaker is closed, has counted no failure, and is well formed.
pub proof fn fresh_is_closed(config: CircuitConfig)
    ensures
        BreakerView::fresh(config).state == CircuitState::Closed,
        BreakerView::fresh(config).wf(),
{
}

/// The breaker after `n` consecutive failures, all observed at `now`.
pub open spec fn after_failures(b: BreakerView, n: nat, now: Instant) -> BreakerView
    decreases n,
{
    if n == 0 {
        b
    } else {
        after_failures(b, (n - 1) as nat, now).after_failure(now)
    }
}

/// Starting from a new breaker, `n` consecutive failures (at most
/// `usize::MAX`) leave it open exactly when `n` is at least one and has
/// reached the failure threshold; until then it stays closed.
pub proof fn failures_trip_the_breaker(config: CircuitConfig, n: nat, now: Instant)
    requires
        n <= usize::MAX,
    ensures
        after_failures(BreakerView::fresh(config), n, now).failures == n,
        after_failures(BreakerView::fresh(config), n, now).threshold == config.failure_threshold,
        after_failures(BreakerView::fresh(config), n, now).reset_timeout == config.reset_timeout_nanos,
        after_failures(BreakerView::fresh(config), n, now).last_failure == (if n >= 1 {
            Some(now)
        } else {
            None
        }),
        after_failures(BreakerView::fresh(config), n, now).state == (if n >= 1 && n
            >= config.failure_threshold {
            CircuitState::Open
        } else {
            CircuitState::Closed
        }),
    decreases n,
{
    if n > 0 {
        failures_trip_the_breaker(config, (n - 1) as nat, now);
        let prev = after_failures(BreakerView::fresh(config), (n - 1) as nat, now);
        assert(after_failures(BreakerView::fresh(config), n, now) == prev.after_failure(now));
        assert(prev.threshold == config.failure_threshold);
    }
}

/// An open circuit rejects every request until the reset timeout has
/// passed since its last failure, and stays open meanwhile.
pub proof fn open_rejects_until_timeout(b: BreakerView, elapsed: u128)
    requires
        b.state == CircuitState::Open,
        elapsed < b.reset_timeout,
    ensures
        !b.allows(elapsed),
        b.after_request(elapsed) == b,
{
}

/// Once the reset timeout has passed since the last failure, a well
/// formed open circuit lets one probe through and becomes half-open.
pub proof fn open_probes_after_timeout(b: BreakerView, elapsed: u128)
    requires
        b.wf(),
        b.state == CircuitState::Open,
        elapsed >= b.reset_timeout,
    ensures
        b.allows(elapsed),
        b.after_request(elapsed).state == CircuitState::HalfOpen,
{
}

/// A success in the half-open state closes the circuit and forgets
/// the failures.
pub proof fn success_closes_half_open(b: BreakerView)
    requires
        b.state == CircuitState::HalfOpen,
    ensures
        b.after_success().state == CircuitState::Closed,
        b.after_success().failures == 0,
        b.after_success().last_failure is None,
{
}

/// The whole cycle of a breaker. Starting from a new breaker whose
/// threshold `k` is at least one, `k` consecutive failures open it; until
/// the reset timeout has passed since the last of them every request is
/// rejected and the circuit stays open; once it has passed, a request is
/// let through and the circuit is half-open; a success then closes it,
/// with no failure counted or remembered, and every request is allowed.
pub proof fn breaker_lifecycle(config: CircuitConfig, now: Instant, early: u128, late: u128, later: u128)
    requires
        config.failure_threshold >= 1,
        early < config.reset_timeout_nanos,
        late >= config.reset_timeout_nanos,
    ensures
        ({
            let opened = after_failures(BreakerView::fresh(config), config.failure_threshold as nat, now);
            let probing = opened.after_request(late);
            let closed = probing.after_success();
            &&& opened.state == CircuitState::Open
            &&& opened.failures == config.failure_threshold
            &&& !opened.allows(early)
            &&& opened.after_request(early) == opened
            &&& opened.allows(late)
            &&& probing.state == CircuitState::HalfOpen
            &&& closed.state == CircuitState::Closed
            &&& closed.failures == 0
            &&& closed.last_failure is None
            &&& closed.allows(later)
        }),
{
    failures_trip_the_breaker(config, config.failure_threshold as nat, now);
}

/// A success resets the failure count in every state, so only
/// consecutive failures count: it closes a half-open circuit and leaves
/// the state of a closed or open one as it was, with its configuration.
pub proof fn success_resets_failures(b: BreakerView)
    ensures
        b.after_success().failures == 0,
        b.after_success().state == (if b.state == CircuitState::HalfOpen {
            CircuitState::Closed
        } else {
            b.state
        }),
        b.after_success().threshold == b.threshold,
        b.after_success().reset_timeout == b.reset_timeout,
{
}

/// Failures separated by a success do not add up: after a success, a
/// closed breaker stays closed through any run of fewer failures than
/// its threshold, however many failures came before the success.
pub proof fn success_separates_failure_runs(b: BreakerView, n: nat, now: Instant)
    requires
        b.state == CircuitState::Closed,
        n < b.threshold,
    ensures
        after_failures(b.after_success(), n, now).state == CircuitState::Closed,
        after_failures(b.after_success(), n, now).failures == n,
        after_failures(b.after_success(), n, now).threshold == b.threshold,
    decreases n,
{
    if n > 0 {
        success_separates_failure_runs(b, (n - 1) as nat, now);
    }
}

} // verus!
