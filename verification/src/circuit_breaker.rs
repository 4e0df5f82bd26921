//! Circuit breaker for resilient browser applications.
//!
//! Tracks consecutive failures and temporarily rejects operations so that a
//! failing server can recover. Time is given to every operation as a number
//! of milliseconds on a monotonic clock; the browser bindings read it from
//! `performance.now()`.
//!
//! Transitions:
//!   Closed   -> Open      when `failure_threshold` consecutive failures occur
//!   Open     -> HalfOpen  when `open_timeout_ms` has elapsed since the last failure
//!   HalfOpen -> Closed    when `success_threshold` consecutive successes occur
//!   HalfOpen -> Open      on any failure while probing
use vstd::prelude::*;

verus! {

/// Circuit breaker states.
#[derive(Debug, Clone, Copy, PartialEq, Eq, Structural)]
pub enum CircuitState {
    /// Normal operation: requests flow through.
    Closed,
    /// Too many failures: requests are rejected immediately.
    Open,
    /// Recovery probe: a limited number of requests are allowed through.
    HalfOpen,
}

/// Default number of consecutive failures that opens the circuit.
pub const DEFAULT_FAILURE_THRESHOLD: u32 = 5;
/// Default number of consecutive half-open successes that close the circuit.
pub const DEFAULT_SUCCESS_THRESHOLD: u32 = 2;
/// Default time the circuit stays open before probing, in milliseconds.
pub const DEFAULT_OPEN_TIMEOUT_MS: u64 = 30_000;
/// Number of probe requests admitted while half-open.
pub const HALF_OPEN_MAX_REQUESTS: u32 = 3;

/// Circuit breaker that protects an application from cascading failures.
pub struct CircuitBreaker {
    state: CircuitState,
    failure_threshold: u32,
    success_threshold: u32,
    open_timeout_ms: u64,
    half_open_max_requests: u32,
    failure_count: u32,
    success_count: u32,
    half_open_count: u32,
    last_failure_at: u64,
    last_state_change: u64,
}

/// The abstract state of a circuit breaker.
pub struct BreakerView {
    pub state: CircuitState,
    pub failure_threshold: nat,
    pub success_threshold: nat,
    pub open_timeout_ms: nat,
    pub half_open_max_requests: nat,
    pub failure_count: nat,
    pub success_count: nat,
    pub half_open_count: nat,
    pub last_failure_at: nat,
    pub last_state_change: nat,
}

impl View for CircuitBreaker {
    type V = BreakerView;

    closed spec fn view(&self) -> BreakerView {
        BreakerView {
            state: self.state,
            failure_threshold: self.failure_threshold as nat,
            success_threshold: self.success_threshold as nat,
            open_timeout_ms: self.open_timeout_ms as nat,
            half_open_max_requests: self.half_open_max_requests as nat,
            failure_count: self.failure_count as nat,
            success_count: self.success_count as nat,
            half_open_count: self.half_open_count as nat,
            last_failure_at: self.last_failure_at as nat,
            last_state_change: self.last_state_change as nat,
        }
    }
}

/// What holds of every breaker: positive thresholds, counters below them,
/// and counters that belong to another state at zero.
pub open spec fn breaker_inv(v: BreakerView) -> bool {
    &&& v.failure_threshold >= 1
    &&& v.success_threshold >= 1
    &&& v.open_timeout_ms >= 1
    &&& v.half_open_max_requests == HALF_OPEN_MAX_REQUESTS
    &&& v.failure_count < v.failure_threshold
    &&& v.success_count < v.success_threshold
    &&& v.half_open_count <= v.half_open_max_requests
    &&& v.state != CircuitState::Closed ==> v.failure_count == 0
    &&& v.state != CircuitState::HalfOpen ==> v.success_count == 0 && v.half_open_count == 0
}

/// The breaker that `new` builds at time `now`; a zero threshold or timeout
/// stands for its default.
pub open spec fn spec_new(failure_threshold: nat, success_threshold: nat, open_timeout_ms: nat, now: nat) -> BreakerView {
    BreakerView {
        state: CircuitState::Closed,
        failure_threshold: if failure_threshold == 0 { DEFAULT_FAILURE_THRESHOLD as nat } else { failure_threshold },
        success_threshold: if success_threshold == 0 { DEFAULT_SUCCESS_THRESHOLD as nat } else { success_threshold },
        open_timeout_ms: if open_timeout_ms == 0 { DEFAULT_OPEN_TIMEOUT_MS as nat } else { open_timeout_ms },
        half_open_max_requests: HALF_OPEN_MAX_REQUESTS as nat,
        failure_count: 0,
        success_count: 0,
        half_open_count: 0,
        last_failure_at: 0,
        last_state_change: now,
    }
}

/// Moving to state `to` at time `now`: a move to another state resets all
/// counters and stamps the time of the change; a move to the same state
/// changes nothing.
pub open spec fn after_transition(v: BreakerView, to: CircuitState, now: nat) -> BreakerView {
    if v.state == to {
        v
    } else {
        BreakerView {
            state: to,
            last_state_change: now,
            failure_count: 0,
            success_count: 0,
            half_open_count: 0,
            ..v
        }
    }
}

/// The open timeout has elapsed at time `now`.
pub open spec fn timeout_elapsed(v: BreakerView, now: nat) -> bool {
    now - v.last_failure_at >= v.open_timeout_ms
}

/// `allow` at time `now`: the next state and whether the request may pass.
pub open spec fn allow_step(v: BreakerView, now: nat) -> (BreakerView, bool) {
    match v.state {
        CircuitState::Closed => (v, true),
        CircuitState::Open => if timeout_elapsed(v, now) {
            (BreakerView { half_open_count: 1, ..after_transition(v, CircuitState::HalfOpen, now) }, true)
        } else {
            (v, false)
        },
        CircuitState::HalfOpen => if v.half_open_count < v.half_open_max_requests {
            (BreakerView { half_open_count: v.half_open_count + 1, ..v }, true)
        } else {
            (v, false)
        },
    }
}

/// `record_success` at time `now`.
pub open spec fn success_step(v: BreakerView, now: nat) -> BreakerView {
    match v.state {
        CircuitState::Closed => BreakerView { failure_count: 0, ..v },
        CircuitState::HalfOpen => {
            let counted = BreakerView { success_count: v.success_count + 1, ..v };
            if counted.success_count >= v.success_threshold {
                after_transition(counted, CircuitState::Closed, now)
            } else {
                counted
            }
        },
        CircuitState::Open => v,
    }
}

/// `record_failure` at time `now`.
pub open spec fn failure_step(v: BreakerView, now: nat) -> BreakerView {
    let stamped = BreakerView { last_failure_at: now, ..v };
    match v.state {
        CircuitState::Closed => {
            let counted = BreakerView { failure_count: v.failure_count + 1, ..stamped };
            if counted.failure_count >= v.failure_threshold {
                after_transition(counted, CircuitState::Open, now)
            } else {
                counted
            }
        },
        CircuitState::HalfOpen => after_transition(stamped, CircuitState::Open, now),
        CircuitState::Open => stamped,
    }
}

/// Reading the state at time `now`: an open breaker whose timeout has
/// elapsed moves to half-open.
pub open spec fn state_step(v: BreakerView, now: nat) -> BreakerView {
    if v.state == CircuitState::Open && timeout_elapsed(v, now) {
        after_transition(v, CircuitState::HalfOpen, now)
    } else {
        v
    }
}

/// `k` consecutive failures recorded at time `now`.
pub open spec fn failures(v: BreakerView, k: nat, now: nat) -> BreakerView
    decreases k,
{
    if k == 0 {
        v
    } else {
        failure_step(failures(v, (k - 1) as nat, now), now)
    }
}

/// `k` consecutive successes recorded at time `now`.
pub open spec fn successes(v: BreakerView, k: nat, now: nat) -> BreakerView
    decreases k,
{
    if k == 0 {
        v
    } else {
        success_step(successes(v, (k - 1) as nat, now), now)
    }
}

/// The answers of `k` consecutive `allow` calls at time `now`.
pub open spec fn allow_answers(v: BreakerView, k: nat, now: nat) -> Seq<bool>
    decreases k,
{
    if k == 0 {
        seq![]
    } else {
        let (next, answer) = allow_step(v, now);
        seq![answer] + allow_answers(next, (k - 1) as nat, now)
    }
}

/// Every operation keeps the breaker's invariant, and a new breaker has it.
pub proof fn lemma_operations_keep_invariant(v: BreakerView, now: nat)
    requires
        breaker_inv(v),
    ensures
        breaker_inv(allow_step(v, now).0),
        breaker_inv(success_step(v, now)),
        breaker_inv(failure_step(v, now)),
        breaker_inv(state_step(v, now)),
        breaker_inv(after_transition(v, CircuitState::Closed, now)),
{
}

/// A new breaker is closed, with no failure counted, and has the invariant.
pub proof fn lemma_new_breaker(failure_threshold: nat, success_threshold: nat, open_timeout_ms: nat, now: nat)
    ensures
        breaker_inv(spec_new(failure_threshold, success_threshold, open_timeout_ms, now)),
        spec_new(failure_threshold, success_threshold, open_timeout_ms, now).state == CircuitState::Closed,
        spec_new(failure_threshold, success_threshold, open_timeout_ms, now).failure_count == 0,
{
}

/// Closed to open: starting closed with `c` failures counted, `k` further
/// consecutive failures leave the breaker closed with `c + k` failures while
/// `c + k` is below the failure threshold, and open it once `c + k` reaches it.
pub proof fn lemma_consecutive_failures_open(v: BreakerView, k: nat, now: nat)
    requires
        breaker_inv(v),
        v.state == CircuitState::Closed,
        v.failure_count + k <= v.failure_threshold,
    ensures
        breaker_inv(failures(v, k, now)),
        failures(v, k, now).failure_threshold == v.failure_threshold,
        v.failure_count + k < v.failure_threshold ==> failures(v, k, now).state == CircuitState::Closed
            && failures(v, k, now).failure_count == v.failure_count + k,
        v.failure_count + k == v.failure_threshold ==> failures(v, k, now).state == CircuitState::Open,
    decreases k,
{
    if k > 0 {
        lemma_consecutive_failures_open(v, (k - 1) as nat, now);
        lemma_operations_keep_invariant(failures(v, (k - 1) as nat, now), now);
    }
}

/// Half-open to closed: starting half-open with `c` successes counted, `k`
/// further consecutive successes keep it half-open while `c + k` is below the
/// success threshold and close it once `c + k` reaches it.
pub proof fn lemma_consecutive_successes_close(v: BreakerView, k: nat, now: nat)
    requires
        breaker_inv(v),
        v.state == CircuitState::HalfOpen,
        v.success_count + k <= v.success_threshold,
    ensures
        breaker_inv(successes(v, k, now)),
        successes(v, k, now).success_threshold == v.success_threshold,
        v.success_count + k < v.success_threshold ==> successes(v, k, now).state == CircuitState::HalfOpen
            && successes(v, k, now).success_count == v.success_count + k,
        v.success_count + k == v.success_threshold ==> successes(v, k, now).state == CircuitState::Closed,
    decreases k,
{
    if k > 0 {
        lemma_consecutive_successes_close(v, (k - 1) as nat, now);
        lemma_operations_keep_invariant(successes(v, (k - 1) as nat, now), now);
    }
}

/// Every recorded failure, in any state, is stamped with the time it was
/// recorded, and it never closes a breaker that was not closed.
pub proof fn lemma_failure_is_stamped(v: BreakerView, now: nat)
    requires
        breaker_inv(v),
    ensures
        failure_step(v, now).last_failure_at == now,
        v.state != CircuitState::Closed ==> failure_step(v, now).state == CircuitState::Open,
        failure_step(v, now).open_timeout_ms == v.open_timeout_ms,
{
}

/// A failure restarts the open timeout: once a failure at time `now` finds
/// the breaker open or half-open, every request before `now` plus the open
/// timeout is rejected and the breaker stays open, however long it had
/// already been open; the first request at or after that time passes as a
/// probe.
pub proof fn lemma_failure_restarts_open_timeout(v: BreakerView, now: nat, later: nat)
    requires
        breaker_inv(v),
        v.state != CircuitState::Closed,
        now <= later,
    ensures
        later < now + v.open_timeout_ms ==> allow_step(failure_step(v, now), later) == (failure_step(v, now), false)
            && state_step(failure_step(v, now), later).state == CircuitState::Open,
        later >= now + v.open_timeout_ms ==> allow_step(failure_step(v, now), later).1
            && allow_step(failure_step(v, now), later).0.state == CircuitState::HalfOpen,
{
}

/// A success never changes the time of the last failure, never opens the
/// breaker, and leaves an open breaker exactly as it was.
pub proof fn lemma_success_keeps_failure_time(v: BreakerView, now: nat)
    requires
        breaker_inv(v),
    ensures
        success_step(v, now).last_failure_at == v.last_failure_at,
        v.state != CircuitState::Open ==> success_step(v, now).state != CircuitState::Open,
        v.state == CircuitState::Open ==> success_step(v, now) == v,
        v.state == CircuitState::Closed ==> success_step(v, now).state == CircuitState::Closed
            && success_step(v, now).failure_count == 0,
{
}

/// Reading the state of an open breaker moves it to half-open exactly when
/// the open timeout has elapsed since the last failure; any other breaker is
/// left as it is.
pub proof fn lemma_state_read(v: BreakerView, now: nat)
    requires
        breaker_inv(v),
    ensures
        v.state == CircuitState::Open && now >= v.last_failure_at + v.open_timeout_ms ==> state_step(v, now).state
            == CircuitState::HalfOpen,
        v.state == CircuitState::Open && now < v.last_failure_at + v.open_timeout_ms ==> state_step(v, now) == v,
        v.state != CircuitState::Open ==> state_step(v, now) == v,
{
}

/// A zero threshold or timeout given to `new` stands for the default (5
/// failures, 2 successes, 30000 ms); any other value is kept.
pub proof fn lemma_new_defaults(failure_threshold: nat, success_threshold: nat, open_timeout_ms: nat, now: nat)
    ensures
        spec_new(failure_threshold, success_threshold, open_timeout_ms, now).failure_threshold == if failure_threshold
            == 0 {
            5
        } else {
            failure_threshold
        },
        spec_new(failure_threshold, success_threshold, open_timeout_ms, now).success_threshold == if success_threshold
            == 0 {
            2
        } else {
            success_threshold
        },
        spec_new(failure_threshold, success_threshold, open_timeout_ms, now).open_timeout_ms == if open_timeout_ms
            == 0 {
            30000
        } else {
            open_timeout_ms
        },
        spec_new(failure_threshold, success_threshold, open_timeout_ms, now).half_open_max_requests == 3,
{
}

/// Half-open to open: any failure while probing opens the circuit again and
/// restarts the open timeout from the time of that failure.
pub proof fn lemma_half_open_failure_reopens(v: BreakerView, now: nat)
    requires
        breaker_inv(v),
        v.state == CircuitState::HalfOpen,
    ensures
        failure_step(v, now).state == CircuitState::Open,
        failure_step(v, now).last_failure_at == now,
        !timeout_elapsed(failure_step(v, now), now),
{
}

/// Open to half-open: an open breaker rejects every request until the open
/// timeout has elapsed since the last failure, and the first request after
/// that passes as the first probe of the half-open state.
pub proof fn lemma_open_waits_for_timeout(v: BreakerView, now: nat)
    requires
        breaker_inv(v),
        v.state == CircuitState::Open,
    ensures
        allow_step(v, now).1 == timeout_elapsed(v, now),
        !timeout_elapsed(v, now) ==> allow_step(v, now).0 == v,
        timeout_elapsed(v, now) ==> allow_step(v, now).0.state == CircuitState::HalfOpen
            && allow_step(v, now).0.half_open_count == 1,
{
}

/// A closed breaker lets every request through and does not change.
pub proof fn lemma_closed_allows(v: BreakerView, now: nat)
    requires
        v.state == CircuitState::Closed,
    ensures
        allow_step(v, now) == (v, true),
{
}

/// A half-open breaker admits at most `half_open_max_requests` probes: with
/// `c` probes admitted so far, the `i`-th of `k` further requests passes
/// exactly when `c + i` is below the limit.
pub proof fn lemma_half_open_probe_limit(v: BreakerView, k: nat, now: nat)
    requires
        breaker_inv(v),
        v.state == CircuitState::HalfOpen,
    ensures
        allow_answers(v, k, now).len() == k,
        forall|i: int| 0 <= i < k ==> #[trigger] allow_answers(v, k, now)[i]
            == (v.half_open_count + i < v.half_open_max_requests),
    decreases k,
{
    if k > 0 {
        let (next, answer) = allow_step(v, now);
        lemma_operations_keep_invariant(v, now);
        lemma_half_open_probe_limit(next, (k - 1) as nat, now);
        assert forall|i: int| 0 <= i < k implies #[trigger] allow_answers(v, k, now)[i]
            == (v.half_open_count + i < v.half_open_max_requests) by {
            if i > 0 {
                assert(allow_answers(v, k, now)[i] == allow_answers(next, (k - 1) as nat, now)[i - 1]);
            }
        }
    }
}

/// A reset always leaves the breaker closed; resetting a breaker that was not
/// closed clears every counter.
pub proof fn lemma_reset_closes(v: BreakerView, now: nat)
    requires
        breaker_inv(v),
    ensures
        after_transition(v, CircuitState::Closed, now).state == CircuitState::Closed,
        v.state != CircuitState::Closed ==> after_transition(v, CircuitState::Closed, now).failure_count == 0
            && after_transition(v, CircuitState::Closed, now).success_count == 0
            && after_transition(v, CircuitState::Closed, now).half_open_count == 0,
{
}

impl CircuitBreaker {
    /// The breaker's invariant holds.
    pub open spec fn wf(&self) -> bool {
        breaker_inv(self@)
    }

    /// Create a circuit breaker at time `now_ms`.
    ///
    /// - `failure_threshold`: consecutive failures before opening (0 means 5)
    /// - `success_threshold`: consecutive half-open successes to close (0 means 2)
    /// - `open_timeout_ms`: milliseconds to wait before probing (0 means 30000)
    pub fn new(failure_threshold: u32, success_threshold: u32, open_timeout_ms: u64, now_ms: u64) -> (cb: Self)
        ensures
            cb.wf(),
            cb@ == spec_new(failure_threshold as nat, success_threshold as nat, open_timeout_ms as nat, now_ms as nat),
    {
        CircuitBreaker {
            state: CircuitState::Closed,
            failure_threshold: if failure_threshold == 0 { DEFAULT_FAILURE_THRESHOLD } else { failure_threshold },
            success_threshold: if success_threshold == 0 { DEFAULT_SUCCESS_THRESHOLD } else { success_threshold },
            open_timeout_ms: if open_timeout_ms == 0 { DEFAULT_OPEN_TIMEOUT_MS } else { open_timeout_ms },
            half_open_max_requests: HALF_OPEN_MAX_REQUESTS,
            failure_count: 0,
            success_count: 0,
            half_open_count: 0,
            last_failure_at: 0,
            last_state_change: now_ms,
        }
    }

    fn transition(&mut self, to: CircuitState, now_ms: u64)
        ensures
            final(self)@ == after_transition(old(self)@, to, now_ms as nat),
    {
        if self.state == to {
            return;
        }
        self.state = to;
        self.last_state_change = now_ms;
        self.failure_count = 0;
        self.success_count = 0;
        self.half_open_count = 0;
    }

    fn timeout_elapsed(&self, now_ms: u64) -> (b: bool)
        requires
            self.wf(),
        ensures
            b == timeout_elapsed(self@, now_ms as nat),
    {
        now_ms >= self.last_failure_at && now_ms - self.last_failure_at >= self.open_timeout_ms
    }

    /// Check at time `now_ms` whether a request should be allowed through.
    pub fn allow(&mut self, now_ms: u64) -> (allowed: bool)
        requires
            old(self).wf(),
        ensures
            final(self).wf(),
            (final(self)@, allowed) == allow_step(old(self)@, now_ms as nat),
    {
        match self.state {
            CircuitState::Closed => true,
            CircuitState::Open => {
                if self.timeout_elapsed(now_ms) {
                    self.transition(CircuitState::HalfOpen, now_ms);
                    self.half_open_count = 1;
                    true
                } else {
                    false
                }
            },
            CircuitState::HalfOpen => {
                if self.half_open_count < self.half_open_max_requests {
                    self.half_open_count = self.half_open_count + 1;
                    true
                } else {
                    false
                }
            },
        }
    }

    /// Record a successful operation at time `now_ms`.
    pub fn record_success(&mut self, now_ms: u64)
        requires
            old(self).wf(),
        ensures
            final(self).wf(),
            final(self)@ == success_step(old(self)@, now_ms as nat),
    {
        match self.state {
            CircuitState::Closed => {
                self.failure_count = 0;
            },
            CircuitState::HalfOpen => {
                self.success_count = self.success_count + 1;
                if self.success_count >= self.success_threshold {
                    self.transition(CircuitState::Closed, now_ms);
                }
            },
            CircuitState::Open => {},
        }
    }

    /// Record a failed operation at time `now_ms`. Only retryable errors
    /// should be recorded: non-retryable errors (auth, not found) should not
    /// trip the breaker.
    pub fn record_failure(&mut self, now_ms: u64)
        requires
            old(self).wf(),
        ensures
            final(self).wf(),
            final(self)@ == failure_step(old(self)@, now_ms as nat),
    {
        self.last_failure_at = now_ms;
        match self.state {
            CircuitState::Closed => {
                self.failure_count = self.failure_count + 1;
                if self.failure_count >= self.failure_threshold {
                    self.transition(CircuitState::Open, now_ms);
                }
            },
            CircuitState::HalfOpen => {
                self.transition(CircuitState::Open, now_ms);
            },
            CircuitState::Open => {},
        }
    }

    /// The current state at time `now_ms`; an open breaker whose timeout has
    /// elapsed moves to half-open first.
    pub fn state(&mut self, now_ms: u64) -> (s: CircuitState)
        requires
            old(self).wf(),
        ensures
            final(self).wf(),
            final(self)@ == state_step(old(self)@, now_ms as nat),
            s == final(self)@.state,
    {
        if self.state == CircuitState::Open && self.timeout_elapsed(now_ms) {
            self.transition(CircuitState::HalfOpen, now_ms);
        }
        self.state
    }

    /// The current failure count.
    pub fn failure_count(&self) -> (n: u32)
        ensures
            n == self@.failure_count,
    {
        self.failure_count
    }

    /// The current success count.
    pub fn success_count(&self) -> (n: u32)
        ensures
            n == self@.success_count,
    {
        self.success_count
    }

    /// Consecutive failures that open the breaker.
    pub fn failure_threshold(&self) -> (n: u32)
        ensures
            n == self@.failure_threshold,
    {
        self.failure_threshold
    }

    /// Consecutive half-open successes that close the breaker.
    pub fn success_threshold(&self) -> (n: u32)
        ensures
            n == self@.success_threshold,
    {
        self.success_threshold
    }

    /// Milliseconds an open breaker waits before probing.
    pub fn open_timeout_ms(&self) -> (n: u64)
        ensures
            n == self@.open_timeout_ms,
    {
        self.open_timeout_ms
    }

    /// Manually reset the circuit breaker to the closed state at time `now_ms`.
    pub fn reset(&mut self, now_ms: u64)
        requires
            old(self).wf(),
        ensures
            final(self).wf(),
            final(self)@ == after_transition(old(self)@, CircuitState::Closed, now_ms as nat),
    {
        self.transition(CircuitState::Closed, now_ms);
    }
}

} // verus!
