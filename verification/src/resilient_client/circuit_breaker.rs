//! Circuit breaker.
//!
//! ## State machine
//!
//! ```text
//!                failures / window >= threshold
//!  ┌─────────┐  AND requests >= min_requests   ┌──────┐
//!  │  Closed │ ──────────────────────────────► │ Open │
//!  └─────────┘                                 └──────┘
//!       ▲                                          │
//!       │  probe succeeds                          │ half_open_timeout elapsed
//!       │                                          ▼
//!       │                                    ┌──────────┐
//!       └──────────────────────────────────── │ HalfOpen │
//!         probe fails → back to Open          └──────────┘
//! ```
//!
//! Every transition is a pure function of the breaker's state and the current
//! wall-clock time in milliseconds: the `*_at` methods take that time as an
//! argument, the plain methods read the clock and delegate to them. The failure
//! threshold is held as parts per million (`500_000` is a ratio of one half).
use vstd::prelude::*;

verus! {

/// The three states of a circuit breaker.
#[derive(Debug, Clone, Copy, PartialEq, Eq, Structural)]
pub enum CbState {
    /// Normal operation — all requests are allowed through.
    Closed,
    /// Circuit is open — requests are rejected until `half_open_timeout` elapses.
    Open,
    /// One probe request is allowed; success closes, failure re-opens.
    HalfOpen,
}

impl CbState {
    /// The numeric code of a state: 0 = Closed, 1 = Open, 2 = HalfOpen.
    pub open spec fn code(self) -> u8 {
        match self {
            CbState::Closed => 0,
            CbState::Open => 1,
            CbState::HalfOpen => 2,
        }
    }

    /// The state a numeric code stands for; every code above 1 is `HalfOpen`.
    pub open spec fn of_code(v: u8) -> CbState {
        if v == 0 {
            CbState::Closed
        } else if v == 1 {
            CbState::Open
        } else {
            CbState::HalfOpen
        }
    }

    /// The numeric code of this state (the value exported as a gauge).
    pub fn as_u8(&self) -> (r: u8)
        ensures
            r == self.code(),
    {
        match self {
            CbState::Closed => 0,
            CbState::Open => 1,
            CbState::HalfOpen => 2,
        }
    }

    /// Decode a numeric state code.
    pub fn from_u8(v: u8) -> (r: CbState)
        ensures
            r == CbState::of_code(v),
    {
        if v == 0 {
            CbState::Closed
        } else if v == 1 {
            CbState::Open
        } else {
            CbState::HalfOpen
        }
    }
}

/// Decoding a state's code gives the state back.
pub proof fn lemma_state_code_round_trip(s: CbState)
    ensures
        CbState::of_code(s.code()) == s,
{
}

/// The abstract value of a [`CircuitBreaker`].
pub struct CbView {
    pub state: CbState,
    pub requests: u32,
    pub failures: u32,
    pub window_start: u64,
    pub opened_at: u64,
    pub threshold_ppm: u32,
    pub min_requests: u32,
    pub window_ms: u64,
    pub half_open_ms: u64,
}

/// `a - b`, or 0 when `b > a`.
pub open spec fn sat_sub(a: u64, b: u64) -> u64 {
    if a >= b {
        (a - b) as u64
    } else {
        0
    }
}

/// `x + 1`, wrapping to 0 past `u32::MAX`.
pub open spec fn wrap_inc(x: u32) -> u32 {
    if x == u32::MAX {
        0
    } else {
        (x + 1) as u32
    }
}

/// Whether `failures / requests >= threshold_ppm / 1_000_000`. Over zero
/// requests (a count that wrapped), any failure is an unbounded ratio and none
/// is no ratio at all.
pub open spec fn ratio_reaches(failures: u32, requests: u32, threshold_ppm: u32) -> bool {
    if requests == 0 {
        failures > 0
    } else {
        failures * 1_000_000 >= threshold_ppm * requests
    }
}

impl CbView {
    /// A fresh breaker: Closed, with an empty window starting at `now`.
    pub open spec fn initial(
        threshold_ppm: u32,
        min_requests: u32,
        window_ms: u64,
        half_open_ms: u64,
        now: u64,
    ) -> CbView {
        CbView {
            state: CbState::Closed,
            requests: 0,
            failures: 0,
            window_start: now,
            opened_at: 0,
            threshold_ppm,
            min_requests,
            window_ms,
            half_open_ms,
        }
    }

    /// Start a new measurement window when the current one has run its course.
    pub open spec fn rotate(self, now: u64) -> CbView {
        if sat_sub(now, self.window_start) >= self.window_ms {
            CbView { window_start: now, requests: 0, failures: 0, ..self }
        } else {
            self
        }
    }

    /// Whether an Open breaker has waited long enough to let a probe through.
    pub open spec fn probe_due(self, now: u64) -> bool {
        self.opened_at > 0 && sat_sub(now, self.opened_at) >= self.half_open_ms
    }

    /// The answer to "may a request proceed at `now`?".
    pub open spec fn allows(self, now: u64) -> bool {
        match self.state {
            CbState::Closed => true,
            CbState::HalfOpen => false,
            CbState::Open => self.probe_due(now),
        }
    }

    /// The state after asking whether a request may proceed at `now`.
    pub open spec fn after_allow(self, now: u64) -> CbView {
        match self.state {
            CbState::Open => if self.probe_due(now) {
                CbView { state: CbState::HalfOpen, ..self }
            } else {
                self
            },
            _ => self,
        }
    }

    /// Trip the breaker at `now`.
    pub open spec fn open_at(self, now: u64) -> CbView {
        CbView { state: CbState::Open, opened_at: now, ..self }
    }

    /// The state after a success is recorded at `now`.
    pub open spec fn after_success(self, now: u64) -> CbView {
        match self.state {
            CbState::HalfOpen => CbView {
                state: CbState::Closed,
                window_start: now,
                requests: 0,
                failures: 0,
                ..self
            },
            CbState::Closed => {
                let r = self.rotate(now);
                CbView { requests: wrap_inc(r.requests), ..r }
            },
            CbState::Open => self,
        }
    }

    /// The state after a failure is recorded at `now`.
    pub open spec fn after_failure(self, now: u64) -> CbView {
        match self.state {
            CbState::HalfOpen => self.open_at(now),
            CbState::Closed => {
                let r = self.rotate(now);
                let counted = CbView {
                    requests: wrap_inc(r.requests),
                    failures: wrap_inc(r.failures),
                    ..r
                };
                if counted.requests >= counted.min_requests && ratio_reaches(
                    counted.failures,
                    counted.requests,
                    counted.threshold_ppm,
                ) {
                    counted.open_at(now)
                } else {
                    counted
                }
            },
            CbState::Open => self,
        }
    }

    /// The state after `n` failures recorded at the same instant.
    pub open spec fn after_failures(self, n: nat, now: u64) -> CbView
        decreases n,
    {
        if n == 0 {
            self
        } else {
            self.after_failures((n - 1) as nat, now).after_failure(now)
        }
    }
}

/// A fresh breaker is Closed and admits every request.
pub proof fn lemma_fresh_breaker_is_closed_and_admits(
    threshold_ppm: u32,
    min_requests: u32,
    window_ms: u64,
    half_open_ms: u64,
    created: u64,
    now: u64,
)
    ensures
        CbView::initial(threshold_ppm, min_requests, window_ms, half_open_ms, created).state
            == CbState::Closed,
        CbView::initial(threshold_ppm, min_requests, window_ms, half_open_ms, created).allows(
            now,
        ),
{
}

/// A Closed breaker admits every request and asking does not change it.
pub proof fn lemma_closed_admits(s: CbView, now: u64)
    requires
        s.state == CbState::Closed,
    ensures
        s.allows(now),
        s.after_allow(now) == s,
{
}

/// One probe only: while HalfOpen (the probe is out) every further request
/// is rejected, and asking does not change the breaker, until the probe's
/// outcome is recorded.
pub proof fn lemma_half_open_rejects_until_outcome(s: CbView, now: u64)
    requires
        s.state == CbState::HalfOpen,
    ensures
        !s.allows(now),
        s.after_allow(now) == s,
{
}

/// The probe is admitted once: right after the request that moves an Open
/// breaker to HalfOpen, the next request at any time is rejected.
pub proof fn lemma_single_probe(s: CbView, now: u64, later: u64)
    requires
        s.state == CbState::Open,
        s.allows(now),
    ensures
        s.after_allow(now).state == CbState::HalfOpen,
        !s.after_allow(now).allows(later),
{
}

/// An Open breaker rejects until the half-open timeout has elapsed since it
/// opened; the first request after that is admitted as the probe and moves the
/// breaker to HalfOpen, and while it rejects it stays as it was.
pub proof fn lemma_open_rejects_until_timeout(s: CbView, now: u64)
    requires
        s.state == CbState::Open,
    ensures
        s.allows(now) <==> (s.opened_at > 0 && sat_sub(now, s.opened_at) >= s.half_open_ms),
        !s.allows(now) ==> s.after_allow(now) == s,
        s.allows(now) ==> s.after_allow(now).state == CbState::HalfOpen,
{
}

/// An Open breaker ignores recorded outcomes.
pub proof fn lemma_open_ignores_outcomes(s: CbView, now: u64)
    requires
        s.state == CbState::Open,
    ensures
        s.after_success(now) == s,
        s.after_failure(now) == s,
{
}

/// A successful probe closes the circuit with an empty window starting at the
/// time of the success.
pub proof fn lemma_probe_success_closes(s: CbView, now: u64)
    requires
        s.state == CbState::HalfOpen,
    ensures
        s.after_success(now).state == CbState::Closed,
        s.after_success(now).requests == 0,
        s.after_success(now).failures == 0,
        s.after_success(now).window_start == now,
{
}

/// A failed probe re-opens the circuit, restarting the half-open timeout.
pub proof fn lemma_probe_failure_reopens(s: CbView, now: u64)
    requires
        s.state == CbState::HalfOpen,
    ensures
        s.after_failure(now).state == CbState::Open,
        s.after_failure(now).opened_at == now,
{
}

/// Open → (timeout) → HalfOpen → (success) → Closed: a breaker that opened at
/// `opened` admits a probe at any `now` at least `half_open_ms` later, and a
/// success recorded then closes it.
pub proof fn lemma_recovery_cycle(s: CbView, now: u64)
    requires
        s.state == CbState::Open,
        s.opened_at > 0,
        now >= s.opened_at + s.half_open_ms,
    ensures
        s.allows(now),
        s.after_allow(now).after_success(now).state == CbState::Closed,
{
}

/// Failures never open a Closed breaker while the window holds fewer than
/// `min_requests` requests, however many arrive.
pub proof fn lemma_no_trip_below_min_requests(s: CbView, n: nat, now: u64)
    requires
        s.state == CbState::Closed,
        s.requests + n < s.min_requests,
    ensures
        s.after_failures(n, now).state == CbState::Closed,
        s.after_failures(n, now).requests <= s.requests + n,
        s.after_failures(n, now).min_requests == s.min_requests,
    decreases n,
{
    if n > 0 {
        lemma_no_trip_below_min_requests(s, (n - 1) as nat, now);
    }
}

/// A failure opens a Closed breaker when, counting it, the current window
/// holds at least `min_requests` requests and the failure ratio reaches the
/// threshold.
pub proof fn lemma_trips_at_threshold(s: CbView, now: u64)
    requires
        s.state == CbState::Closed,
        sat_sub(now, s.window_start) < s.window_ms,
        s.requests < u32::MAX,
        s.failures < u32::MAX,
        s.requests + 1 >= s.min_requests,
        ratio_reaches((s.failures + 1) as u32, (s.requests + 1) as u32, s.threshold_ppm),
    ensures
        s.after_failure(now).state == CbState::Open,
        s.after_failure(now).opened_at == now,
{
}

/// The ratio test compares the failure ratio with the threshold: over a
/// nonzero number of requests, `ratio_reaches(f, r, t)` holds exactly when
/// `f / r >= t / 1_000_000`, that is when `f × 1_000_000 >= t × r`.
pub proof fn lemma_ratio_reaches_is_failure_ratio(f: u32, r: u32, t: u32)
    requires
        r > 0,
    ensures
        ratio_reaches(f, r, t) <==> f * 1_000_000 >= t * r,
{
}

/// The trip rule, for every threshold: a failure recorded on a Closed breaker
/// within its window opens it exactly when, counting that failure, the
/// window holds at least `min_requests` requests and the failures make up at
/// least `threshold_ppm / 1_000_000` of them; otherwise the breaker stays
/// Closed with the failure counted.
pub proof fn lemma_failure_trips_exactly_at_failure_ratio(s: CbView, now: u64)
    requires
        s.state == CbState::Closed,
        sat_sub(now, s.window_start) < s.window_ms,
        s.requests < u32::MAX,
        s.failures < u32::MAX,
    ensures
        s.after_failure(now).state == CbState::Open <==> (s.requests + 1 >= s.min_requests && (
        s.failures + 1) * 1_000_000 >= s.threshold_ppm * (s.requests + 1)),
        s.after_failure(now).state != CbState::Open ==> s.after_failure(now).state
            == CbState::Closed && s.after_failure(now).requests == s.requests + 1
            && s.after_failure(now).failures == s.failures + 1,
{
    lemma_ratio_reaches_is_failure_ratio((s.failures + 1) as u32, (s.requests + 1) as u32, s.threshold_ppm);
}

/// A success recorded on a Closed breaker never opens it.
pub proof fn lemma_success_never_trips(s: CbView, now: u64)
    requires
        s.state == CbState::Closed,
    ensures
        s.after_success(now).state == CbState::Closed,
{
}

/// A failure leaves a Closed breaker Closed while, counting it, the failure
/// ratio stays below the threshold.
pub proof fn lemma_stays_closed_below_threshold(s: CbView, now: u64)
    requires
        s.state == CbState::Closed,
        sat_sub(now, s.window_start) < s.window_ms,
        s.requests < u32::MAX,
        s.failures < u32::MAX,
        !ratio_reaches((s.failures + 1) as u32, (s.requests + 1) as u32, s.threshold_ppm),
    ensures
        s.after_failure(now).state == CbState::Closed,
        s.after_failure(now).requests == s.requests + 1,
        s.after_failure(now).failures == s.failures + 1,
{
}

/// Once the window has run its course, the next outcome is counted in a fresh
/// window that starts at its time.
pub proof fn lemma_window_rotates(s: CbView, now: u64)
    requires
        s.state == CbState::Closed,
        sat_sub(now, s.window_start) >= s.window_ms,
    ensures
        s.after_success(now).requests == 1,
        s.after_success(now).failures == 0,
        s.after_success(now).window_start == now,
        s.after_failure(now).requests == 1,
        s.after_failure(now).failures == 1,
{
}

/// The breaker after a history of recorded outcomes, in order: each entry is
/// whether the response succeeded and the time it was recorded.
pub open spec fn after_outcomes(s: CbView, h: Seq<(bool, u64)>) -> CbView
    decreases h.len(),
{
    if h.len() == 0 {
        s
    } else {
        let p = after_outcomes(s, h.drop_last());
        if h.last().0 {
            p.after_success(h.last().1)
        } else {
            p.after_failure(h.last().1)
        }
    }
}

/// The number of failures in a history.
pub open spec fn failures_in(h: Seq<(bool, u64)>) -> nat
    decreases h.len(),
{
    if h.len() == 0 {
        0
    } else {
        failures_in(h.drop_last()) + if h.last().0 {
            0nat
        } else {
            1nat
        }
    }
}

proof fn lemma_history_counts(s: CbView, h: Seq<(bool, u64)>)
    requires
        s.state == CbState::Closed,
        s.requests == 0,
        s.failures == 0,
        forall|i: int| 0 <= i < h.len() ==> sat_sub(#[trigger] h[i].1, s.window_start) < s.window_ms,
        h.len() < u32::MAX,
        after_outcomes(s, h).state == CbState::Closed,
    ensures
        after_outcomes(s, h).requests == h.len(),
        after_outcomes(s, h).failures == failures_in(h),
        failures_in(h) <= h.len(),
        after_outcomes(s, h).window_start == s.window_start,
        after_outcomes(s, h).window_ms == s.window_ms,
        after_outcomes(s, h).min_requests == s.min_requests,
        after_outcomes(s, h).threshold_ppm == s.threshold_ppm,
    decreases h.len(),
{
    if h.len() > 0 {
        let prev = h.drop_last();
        let p = after_outcomes(s, prev);
        assert forall|i: int| 0 <= i < prev.len() implies sat_sub(#[trigger] prev[i].1, s.window_start)
            < s.window_ms by {
            assert(prev[i] == h[i]);
        }
        if p.state != CbState::Closed {
            assert(p.state == CbState::Open || p.state == CbState::HalfOpen);
            lemma_history_not_closed_stays(s, prev);
            assert(false);
        }
        lemma_history_counts(s, prev);
        assert(h.last() == h[h.len() - 1]);
    }
}

proof fn lemma_history_not_closed_stays(s: CbView, h: Seq<(bool, u64)>)
    requires
        s.state == CbState::Closed,
        after_outcomes(s, h).state != CbState::Closed,
    ensures
        after_outcomes(s, h).state == CbState::Open,
    decreases h.len(),
{
    if h.len() > 0 {
        let p = after_outcomes(s, h.drop_last());
        if p.state != CbState::Closed {
            lemma_history_not_closed_stays(s, h.drop_last());
        }
    }
}

/// A failure trips a Closed breaker exactly when, counting it, its window
/// holds enough requests and the failure ratio reaches the threshold: for a
/// breaker whose window started empty, after any history of outcomes within
/// the window that left it Closed, one more failure within the window opens it
/// iff `requests + 1 >= min_requests` and `(failures + 1) / (requests + 1)`
/// reaches the threshold, where the counts are those of the history; otherwise
/// it stays Closed.
pub proof fn lemma_failure_trips_by_window_history(s: CbView, h: Seq<(bool, u64)>, now: u64)
    requires
        s.state == CbState::Closed,
        s.requests == 0,
        s.failures == 0,
        forall|i: int| 0 <= i < h.len() ==> sat_sub(#[trigger] h[i].1, s.window_start) < s.window_ms,
        sat_sub(now, s.window_start) < s.window_ms,
        h.len() + 1 < u32::MAX,
        after_outcomes(s, h).state == CbState::Closed,
    ensures
        after_outcomes(s, h.push((false, now))).state == CbState::Open <==> (h.len() + 1
            >= s.min_requests && ratio_reaches(
            (failures_in(h) + 1) as u32,
            (h.len() + 1) as u32,
            s.threshold_ppm,
        )),
        after_outcomes(s, h.push((false, now))).state != CbState::Open ==> after_outcomes(
            s,
            h.push((false, now)),
        ).state == CbState::Closed,
{
    lemma_history_counts(s, h);
    let hp = h.push((false, now));
    assert(hp.drop_last() =~= h);
    assert(hp.last() == (false, now));
}

/// Tracks recent outcomes for one upstream and decides whether to let requests
/// through.
pub struct CircuitBreaker {
    state: CbState,
    window_requests: u32,
    window_failures: u32,
    window_start_ms: u64,
    opened_at_ms: u64,
    failure_threshold_ppm: u32,
    min_requests: u32,
    window_duration_ms: u64,
    half_open_timeout_ms: u64,
}

/// Milliseconds since the Unix epoch on the system clock (0 if the clock reads
/// before the epoch). Nothing is promised of the value: it is the time.
#[verifier::external_body]
fn now_ms() -> u64 {
    std::time::SystemTime::now()
        .duration_since(std::time::UNIX_EPOCH)
        .unwrap_or_default()
        .as_millis() as u64
}

impl CircuitBreaker {
    /// The abstract value of this breaker.
    pub closed spec fn view(&self) -> CbView {
        CbView {
            state: self.state,
            requests: self.window_requests,
            failures: self.window_failures,
            window_start: self.window_start_ms,
            opened_at: self.opened_at_ms,
            threshold_ppm: self.failure_threshold_ppm,
            min_requests: self.min_requests,
            window_ms: self.window_duration_ms,
            half_open_ms: self.half_open_timeout_ms,
        }
    }

    /// A Closed breaker whose measurement window starts at `now`.
    pub fn new_at(
        failure_threshold_ppm: u32,
        min_requests: u32,
        window_duration_ms: u64,
        half_open_timeout_ms: u64,
        now: u64,
    ) -> (cb: CircuitBreaker)
        ensures
            cb.view() == CbView::initial(
                failure_threshold_ppm,
                min_requests,
                window_duration_ms,
                half_open_timeout_ms,
                now,
            ),
    {
        CircuitBreaker {
            state: CbState::Closed,
            window_requests: 0,
            window_failures: 0,
            window_start_ms: now,
            opened_at_ms: 0,
            failure_threshold_ppm,
            min_requests,
            window_duration_ms,
            half_open_timeout_ms,
        }
    }

    /// A Closed breaker whose measurement window starts now (system clock).
    pub fn new(
        failure_threshold_ppm: u32,
        min_requests: u32,
        window_duration_ms: u64,
        half_open_timeout_ms: u64,
    ) -> (cb: CircuitBreaker)
        ensures
            exists|now: u64|
                cb.view() == CbView::initial(
                    failure_threshold_ppm,
                    min_requests,
                    window_duration_ms,
                    half_open_timeout_ms,
                    now,
                ),
    {
        let now = now_ms();
        Self::new_at(
            failure_threshold_ppm,
            min_requests,
            window_duration_ms,
            half_open_timeout_ms,
            now,
        )
    }

    /// Current circuit state.
    pub fn state(&self) -> (s: CbState)
        ensures
            s == self.view().state,
    {
        self.state
    }

    /// Whether a request may proceed at time `now`. Closed always admits;
    /// Open admits the single probe once the half-open timeout has elapsed
    /// since it opened, moving to HalfOpen; HalfOpen rejects until the probe's
    /// outcome is recorded.
    pub fn allow_request_at(&mut self, now: u64) -> (r: bool)
        ensures
            r == old(self).view().allows(now),
            final(self).view() == old(self).view().after_allow(now),
    {
        match self.state {
            CbState::Closed => true,
            CbState::HalfOpen => false,
            CbState::Open => {
                let opened_at = self.opened_at_ms;
                if opened_at > 0 && now.saturating_sub(opened_at) >= self.half_open_timeout_ms {
                    self.state = CbState::HalfOpen;
                    true
                } else {
                    false
                }
            },
        }
    }

    /// Whether a request may proceed now (system clock).
    pub fn allow_request(&mut self) -> (r: bool)
        ensures
            exists|now: u64|
                r == old(self).view().allows(now) && final(self).view()
                    == old(self).view().after_allow(now),
    {
        let now = now_ms();
        self.allow_request_at(now)
    }

    /// Record a successful response at time `now`. HalfOpen → Closed with a
    /// fresh window; Closed counts one more request; Open ignores it.
    pub fn record_success_at(&mut self, now: u64)
        ensures
            final(self).view() == old(self).view().after_success(now),
    {
        match self.state {
            CbState::HalfOpen => {
                self.state = CbState::Closed;
                self.reset_window(now);
            },
            CbState::Closed => {
                self.maybe_rotate_window(now);
                self.window_requests = inc_wrapping(self.window_requests);
            },
            CbState::Open => {},
        }
    }

    /// Record a successful response now (system clock).
    pub fn record_success(&mut self)
        ensures
            exists|now: u64| final(self).view() == old(self).view().after_success(now),
    {
        let now = now_ms();
        self.record_success_at(now);
    }

    /// Record a failed response at time `now`. HalfOpen → Open; in Closed the
    /// failure is counted, and the breaker opens once the window holds at
    /// least `min_requests` requests and the failure ratio reaches the
    /// threshold; Open ignores it.
    pub fn record_failure_at(&mut self, now: u64)
        ensures
            final(self).view() == old(self).view().after_failure(now),
    {
        match self.state {
            CbState::HalfOpen => self.open_circuit(now),
            CbState::Closed => {
                self.maybe_rotate_window(now);
                let requests = inc_wrapping(self.window_requests);
                let failures = inc_wrapping(self.window_failures);
                self.window_requests = requests;
                self.window_failures = failures;
                if requests >= self.min_requests {
                    if ratio_at_least(failures, requests, self.failure_threshold_ppm) {
                        self.open_circuit(now);
                    }
                }
            },
            CbState::Open => {},
        }
    }

    /// Record a failed response now (system clock).
    pub fn record_failure(&mut self)
        ensures
            exists|now: u64| final(self).view() == old(self).view().after_failure(now),
    {
        let now = now_ms();
        self.record_failure_at(now);
    }

    fn open_circuit(&mut self, now: u64)
        ensures
            final(self).view() == old(self).view().open_at(now),
    {
        self.state = CbState::Open;
        self.opened_at_ms = now;
    }

    fn reset_window(&mut self, now: u64)
        ensures
            final(self).view() == (CbView {
                window_start: now,
                requests: 0,
                failures: 0,
                ..old(self).view()
            }),
    {
        self.window_start_ms = now;
        self.window_requests = 0;
        self.window_failures = 0;
    }

    fn maybe_rotate_window(&mut self, now: u64)
        ensures
            final(self).view() == old(self).view().rotate(now),
    {
        let start = self.window_start_ms;
        if now.saturating_sub(start) >= self.window_duration_ms {
            self.window_start_ms = now;
            self.window_requests = 0;
            self.window_failures = 0;
        }
    }
}

fn inc_wrapping(x: u32) -> (r: u32)
    ensures
        r == wrap_inc(x),
{
    if x == u32::MAX {
        0
    } else {
        x + 1
    }
}

fn ratio_at_least(failures: u32, requests: u32, threshold_ppm: u32) -> (r: bool)
    ensures
        r == ratio_reaches(failures, requests, threshold_ppm),
{
    if requests == 0 {
        return failures > 0;
    }
    proof {
        assert(failures * 1_000_000 <= 0xffff_ffff * 1_000_000) by (nonlinear_arith)
            requires failures <= 0xffff_ffff;
        assert(threshold_ppm * requests <= 0xffff_ffff * 0xffff_ffff) by (nonlinear_arith)
            requires threshold_ppm <= 0xffff_ffff, requests <= 0xffff_ffff;
    }
    let lhs: u64 = failures as u64 * 1_000_000;
    let rhs: u64 = threshold_ppm as u64 * requests as u64;
    lhs >= rhs
}

} // verus!
