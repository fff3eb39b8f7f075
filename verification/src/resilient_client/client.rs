//! The decisions of the resilient client: which target a request belongs to,
//! whether it may be sent (shutdown, circuit breaker, local rate limit), how
//! its outcome is classified and fed back to the breaker, and whether a
//! failure is retried. Sending itself is the caller's I/O.
use vstd::prelude::*;
use crate::resilient_client::circuit_breaker::{CircuitBreaker, CbView};
use crate::resilient_client::config::OutboundTargetConfig;
use crate::resilient_client::error::{OutboundError, ShutdownError};
use crate::text::{join2, join3, to_decimal, decimal};
use crate::strmap::StrMap;

verus! {

/// Identifies the outbound target of a request. The name matches an
/// `outbound_targets[].name` of the client configuration; unknown names get
/// the default policy.
#[derive(Debug, Clone, PartialEq, Eq, Hash)]
pub struct ResourceGroup(String);

impl ResourceGroup {
    /// The target called `name`.
    pub fn new(name: &str) -> (g: ResourceGroup)
        ensures
            g.key() == name@,
    {
        ResourceGroup(String::from_str(name))
    }

    /// The target's name.
    pub closed spec fn key(&self) -> Seq<char> {
        self.0@
    }

    /// The name used to look up the target's policy.
    pub fn as_key(&self) -> (k: &str)
        ensures
            k@ == self.key(),
    {
        self.0.as_str()
    }
}

/// What sending a request came to, before classification.
pub enum ExecOutcome {
    /// The upstream answered with this HTTP status code.
    Response(u16),
    /// No answer within the timeout.
    Timeout,
    /// The connection could not be made; the message says why.
    Connect(String),
    /// Any other transient transport failure; the message says what.
    Other(String),
    /// A transport failure that retrying cannot mend (an unparseable URL, a
    /// request that could not be built, a TLS or certificate failure); the
    /// message says what.
    Permanent(String),
}

/// A request turned away before it was sent, and the `error_type` label it is
/// counted under (none when it is not counted).
pub struct Rejected {
    pub error: OutboundError,
    pub counted_as: Option<String>,
}

/// A classified outcome: the result for the caller, and the `status` and
/// `error_type` labels it is counted under.
pub struct Classified {
    pub result: Result<(), OutboundError>,
    pub status: String,
    pub error_type: String,
}

/// Whether a status code is a success (2xx) or a redirection (3xx).
pub open spec fn is_ok_status(code: u16) -> bool {
    200 <= code <= 399
}

/// Whether a status code is a server error (5xx).
pub open spec fn is_server_error(code: u16) -> bool {
    500 <= code <= 599
}

/// The status classes, stated on the codes: 2xx and 3xx are successes,
/// every 5xx is a server error, and every code is exactly one of a success,
/// the upstream rate limit (429), a server error, or another (client) error.
pub proof fn lemma_status_classes(code: u16)
    ensures
        is_ok_status(code) <==> 200 <= code <= 399,
        is_server_error(code) <==> 500 <= code <= 599,
        !(is_ok_status(code) && is_server_error(code)),
        code == 429 ==> !is_ok_status(code) && !is_server_error(code),
{
}

/// How a request's timeout reads in a message: `Duration`'s `Debug` text of
/// that many milliseconds.
pub uninterp spec fn duration_debug_of(ms: u64) -> Seq<char>;

/// `format!("{:?}", std::time::Duration::from_millis(ms))`: the `Debug` text of
/// a duration, such as `50ms` or `5s`; named by `duration_debug_of`.
#[verifier::external_body]
fn duration_debug(ms: u64) -> (r: String)
    ensures
        r@ == duration_debug_of(ms),
{
    format!("{:?}", std::time::Duration::from_millis(ms))
}

/// The rejection of a request that exceeds the target's local rate limit.
pub fn rate_limited(key: &str) -> (r: Rejected)
    ensures
        r.error matches OutboundError::Transient(m) && m@ == "rate limited (local) for "@ + key@,
        r.counted_as matches Some(l) && l@ == "rate_limited"@,
{
    proof {
        reveal_strlit("rate_limited");
    }
    Rejected {
        error: OutboundError::Transient(join2("rate limited (local) for ", key)),
        counted_as: Some(String::from_str("rate_limited")),
    }
}

/// Decide whether a request for target `key` may be sent at time `now`, in
/// this order: a client that is shutting down rejects it (uncounted); then
/// the target's local rate limit, where `cell_free` is whether its limiter had
/// a cell for this request, rejects it (counted as `rate_limited`); then the
/// breaker is asked, and a breaker that does not admit it rejects it (counted
/// as `circuit_breaker_open`). The breaker is consulted only for requests that
/// passed the rate limit, so a probe it admits is always sent.
pub fn gate_request(
    shutting_down: bool,
    cell_free: bool,
    breaker: &mut CircuitBreaker,
    now: u64,
    key: &str,
) -> (r: Result<(), Rejected>)
    ensures
        shutting_down ==> final(breaker).view() == old(breaker).view() && r is Err
            && r->Err_0.error is Transient && r->Err_0.error->Transient_0@ == "client is shutting down"@
            && r->Err_0.counted_as is None,
        !shutting_down && !cell_free ==> final(breaker).view() == old(breaker).view() && r is Err
            && r->Err_0.error is Transient
            && r->Err_0.error->Transient_0@ == "rate limited (local) for "@ + key@
            && r->Err_0.counted_as is Some && r->Err_0.counted_as->0@ == "rate_limited"@,
        !shutting_down && cell_free ==> final(breaker).view() == old(breaker).view().after_allow(now),
        !shutting_down && cell_free && old(breaker).view().allows(now) ==> r is Ok,
        !shutting_down && cell_free && !old(breaker).view().allows(now) ==> r is Err
            && r->Err_0.error is Transient
            && r->Err_0.error->Transient_0@ == "circuit breaker open for "@ + key@
            && r->Err_0.counted_as is Some && r->Err_0.counted_as->0@ == "circuit_breaker_open"@,
{
    proof {
        reveal_strlit("client is shutting down");
        reveal_strlit("circuit_breaker_open");
    }
    if shutting_down {
        return Err(
            Rejected {
                error: OutboundError::Transient(String::from_str("client is shutting down")),
                counted_as: None,
            },
        );
    }
    if !cell_free {
        return Err(rate_limited(key));
    }
    if !breaker.allow_request_at(now) {
        return Err(
            Rejected {
                error: OutboundError::Transient(join2("circuit breaker open for ", key)),
                counted_as: Some(String::from_str("circuit_breaker_open")),
            },
        );
    }
    Ok(())
}

/// Classify what sending a request to target `key` came to, and record it on
/// the target's breaker at time `now`:
///
/// * 2xx/3xx — success: `Ok`, label `ok`;
/// * 429 — upstream rate limit: transient `429 from {key}`, a breaker failure;
/// * 5xx — transient `{code} server error from {key}`, a breaker failure;
/// * any other status (4xx) — the server is healthy, the request is bad: a
///   breaker success, fatal `{code} client error from {key}`;
/// * timeout — transient `request to {key} timed out after {timeout}`;
/// * connect or other transport failure — transient, with its message;
/// * permanent transport failure (unparseable URL, TLS/certificate failure) —
///   fatal, with its message, label `error`.
///
/// Every transport failure, permanent ones included, is a breaker failure
/// and counts with status `0`.
pub fn classify(
    breaker: &mut CircuitBreaker,
    now: u64,
    key: &str,
    timeout_ms: u64,
    outcome: ExecOutcome,
) -> (c: Classified)
    ensures
        outcome matches ExecOutcome::Response(code) && 500 <= code <= 599
            ==> (c.result matches Err(OutboundError::Transient(_))
            && final(breaker).view() == old(breaker).view().after_failure(now)),
        outcome matches ExecOutcome::Response(code) && 200 <= code <= 399
            ==> (c.result is Ok && final(breaker).view() == old(breaker).view().after_success(now)),
        outcome matches ExecOutcome::Response(code) && 400 <= code <= 499 && code != 429
            ==> (c.result matches Err(OutboundError::Fatal(_))
            && final(breaker).view() == old(breaker).view().after_success(now)),
        match outcome {
            ExecOutcome::Response(code) => {
                &&& c.status@ == decimal(code as nat)
                &&& if is_ok_status(code) {
                    &&& c.result is Ok
                    &&& c.error_type@ == "ok"@
                    &&& final(breaker).view() == old(breaker).view().after_success(now)
                } else if code == 429 {
                    &&& c.result matches Err(OutboundError::Transient(m)) && m@ == "429 from "@ + key@
                    &&& c.error_type@ == "rate_limited_upstream"@
                    &&& final(breaker).view() == old(breaker).view().after_failure(now)
                } else if is_server_error(code) {
                    &&& c.result matches Err(OutboundError::Transient(m)) && m@ == decimal(code as nat)
                        + " server error from "@ + key@
                    &&& c.error_type@ == "server_error"@
                    &&& final(breaker).view() == old(breaker).view().after_failure(now)
                } else {
                    &&& c.result matches Err(OutboundError::Fatal(m)) && m@ == decimal(code as nat)
                        + " client error from "@ + key@
                    &&& c.error_type@ == "client_error"@
                    &&& final(breaker).view() == old(breaker).view().after_success(now)
                }
            },
            ExecOutcome::Timeout => {
                &&& c.result matches Err(OutboundError::Transient(m)) && m@ == "request to "@ + key@
                    + " timed out after "@ + duration_debug_of(timeout_ms)
                &&& c.status@ == "0"@
                &&& c.error_type@ == "timeout"@
                &&& final(breaker).view() == old(breaker).view().after_failure(now)
            },
            ExecOutcome::Connect(msg) => {
                &&& c.result matches Err(OutboundError::Transient(m)) && m@ == msg@
                &&& c.status@ == "0"@
                &&& c.error_type@ == "connect_error"@
                &&& final(breaker).view() == old(breaker).view().after_failure(now)
            },
            ExecOutcome::Other(msg) => {
                &&& c.result matches Err(OutboundError::Transient(m)) && m@ == msg@
                &&& c.status@ == "0"@
                &&& c.error_type@ == "error"@
                &&& final(breaker).view() == old(breaker).view().after_failure(now)
            },
            ExecOutcome::Permanent(msg) => {
                &&& c.result matches Err(OutboundError::Fatal(m)) && m@ == msg@
                &&& c.status@ == "0"@
                &&& c.error_type@ == "error"@
                &&& final(breaker).view() == old(breaker).view().after_failure(now)
            },
        },
{
    proof {
        reveal_strlit("ok");
        reveal_strlit("0");
        reveal_strlit("rate_limited_upstream");
        reveal_strlit("server_error");
        reveal_strlit("client_error");
        reveal_strlit("timeout");
        reveal_strlit("connect_error");
        reveal_strlit("error");
    }
    match outcome {
        ExecOutcome::Response(code) => {
            let status = to_decimal(code as u64);
            if 200 <= code && code <= 399 {
                breaker.record_success_at(now);
                Classified { result: Ok(()), status, error_type: String::from_str("ok") }
            } else if code == 429 {
                breaker.record_failure_at(now);
                Classified {
                    result: Err(OutboundError::Transient(join2("429 from ", key))),
                    status,
                    error_type: String::from_str("rate_limited_upstream"),
                }
            } else if 500 <= code && code <= 599 {
                breaker.record_failure_at(now);
                let msg = join3(status.as_str(), " server error from ", key);
                Classified {
                    result: Err(OutboundError::Transient(msg)),
                    status,
                    error_type: String::from_str("server_error"),
                }
            } else {
                breaker.record_success_at(now);
                let msg = join3(status.as_str(), " client error from ", key);
                Classified {
                    result: Err(OutboundError::Fatal(msg)),
                    status,
                    error_type: String::from_str("client_error"),
                }
            }
        },
        ExecOutcome::Timeout => {
            breaker.record_failure_at(now);
            let head = join3("request to ", key, " timed out after ");
            let after = duration_debug(timeout_ms);
            Classified {
                result: Err(OutboundError::Transient(join2(head.as_str(), after.as_str()))),
                status: String::from_str("0"),
                error_type: String::from_str("timeout"),
            }
        },
        ExecOutcome::Connect(msg) => {
            breaker.record_failure_at(now);
            Classified {
                result: Err(OutboundError::Transient(msg)),
                status: String::from_str("0"),
                error_type: String::from_str("connect_error"),
            }
        },
        ExecOutcome::Other(msg) => {
            breaker.record_failure_at(now);
            Classified {
                result: Err(OutboundError::Transient(msg)),
                status: String::from_str("0"),
                error_type: String::from_str("error"),
            }
        },
        ExecOutcome::Permanent(msg) => {
            breaker.record_failure_at(now);
            Classified {
                result: Err(OutboundError::Fatal(msg)),
                status: String::from_str("0"),
                error_type: String::from_str("error"),
            }
        },
    }
}

/// After a failed attempt number `attempt` (0 for the first send), the number
/// of the next attempt, or `None` when the error is returned instead: fatal
/// errors are never retried, and transient ones at most `max_retries` times.
pub open spec fn next_attempt_of(fatal: bool, attempt: u32, max_retries: u32) -> Option<u32> {
    if fatal || attempt >= max_retries {
        None
    } else {
        Some((attempt + 1) as u32)
    }
}

/// The attempt numbers a request goes through from attempt `a` on when every
/// send fails with a transient error.
pub open spec fn transient_attempts(a: u32, max_retries: u32) -> Seq<u32>
    decreases max_retries - a,
{
    match next_attempt_of(false, a, max_retries) {
        Some(b) => seq![a] + transient_attempts(b, max_retries),
        None => seq![a],
    }
}

/// After a failed attempt number `attempt`, the number of the next attempt,
/// or `None` when the error is returned instead.
pub fn next_attempt(err: &OutboundError, attempt: u32, max_retries: u32) -> (r: Option<u32>)
    ensures
        r == next_attempt_of(err is Fatal, attempt, max_retries),
{
    if err.is_fatal() || attempt >= max_retries {
        None
    } else {
        Some(attempt + 1)
    }
}

/// The retry loop's count: when every send of a request fails transiently,
/// it is sent exactly `max_retries + 1` times, as attempts `0, 1, …,
/// max_retries` (so there are `max_retries` retries, the `k`-th one after a
/// backoff for attempt `k`), and the last error is returned; a fatal error
/// ends the loop at once.
pub proof fn lemma_transient_failures_are_retried_max_times(max_retries: u32)
    ensures
        transient_attempts(0, max_retries) == Seq::new(
            (max_retries + 1) as nat,
            |i: int| i as u32,
        ),
        forall|a: u32| next_attempt_of(true, a, max_retries) is None,
{
    lemma_transient_attempts_from(0, max_retries);
    assert(transient_attempts(0, max_retries) =~= Seq::new((max_retries + 1) as nat, |i: int| i as u32));
}

proof fn lemma_transient_attempts_from(a: u32, max_retries: u32)
    requires
        a <= max_retries,
    ensures
        transient_attempts(a, max_retries).len() == max_retries - a + 1,
        forall|i: int|
            0 <= i < transient_attempts(a, max_retries).len() ==> #[trigger] transient_attempts(
                a,
                max_retries,
            )[i] == a + i,
    decreases max_retries - a,
{
    if a < max_retries {
        lemma_transient_attempts_from((a + 1) as u32, max_retries);
        let rest = transient_attempts((a + 1) as u32, max_retries);
        assert(transient_attempts(a, max_retries) == seq![a] + rest);
        assert forall|i: int| 0 <= i < transient_attempts(a, max_retries).len() implies #[trigger] transient_attempts(
            a,
            max_retries,
        )[i] == a + i by {
            if i > 0 {
                assert(transient_attempts(a, max_retries)[i] == rest[i - 1]);
            }
        }
    }
}

/// The rate a target's limiter is built with: its `rate_limit`, at least 1.
pub fn rate_per_second(cfg: &OutboundTargetConfig) -> (r: u32)
    ensures
        r == if cfg.rate_limit >= 1 { cfg.rate_limit } else { 1 },
        r >= 1,
{
    if cfg.rate_limit >= 1 {
        cfg.rate_limit
    } else {
        1
    }
}

/// `secs` seconds in milliseconds, wrapping past `u64::MAX` as a conversion of
/// a `Duration`'s milliseconds to `u64` does.
pub open spec fn secs_to_ms(secs: u64) -> u64 {
    ((secs * 1000) % 0x1_0000_0000_0000_0000) as u64
}

fn millis(secs: u64) -> (r: u64)
    ensures
        r == secs_to_ms(secs),
{
    secs.wrapping_mul(1000)
}

/// A Closed breaker for a target's policy: its threshold and minimum requests,
/// its window and half-open timeout in milliseconds, with a window starting at
/// `now`.
pub fn breaker_for(cfg: &OutboundTargetConfig, now: u64) -> (b: CircuitBreaker)
    ensures
        b.view() == CbView::initial(
            cfg.cb_threshold_ppm,
            cfg.cb_min_requests,
            secs_to_ms(cfg.cb_window_secs),
            secs_to_ms(cfg.cb_half_open_timeout_secs),
            now,
        ),
{
    CircuitBreaker::new_at(
        cfg.cb_threshold_ppm,
        cfg.cb_min_requests,
        millis(cfg.cb_window_secs),
        millis(cfg.cb_half_open_timeout_secs),
        now,
    )
}

/// The configured policies by target name: each target's settings under its
/// name, a later target replacing an earlier one of the same name.
pub open spec fn configured_policies(targets: Seq<OutboundTargetConfig>) -> Map<
    Seq<char>,
    OutboundTargetConfig,
>
    decreases targets.len(),
{
    if targets.len() == 0 {
        Map::empty()
    } else {
        configured_policies(targets.drop_last()).insert(targets.last().name@, targets.last())
    }
}

/// A copy of a target's settings.
fn copy_policy(c: &OutboundTargetConfig) -> (r: OutboundTargetConfig)
    ensures
        r == *c,
{
    OutboundTargetConfig {
        name: c.name.clone(),
        selector: c.selector.clone(),
        rate_limit: c.rate_limit,
        timeout_ms: c.timeout_ms,
        cb_threshold_ppm: c.cb_threshold_ppm,
        cb_min_requests: c.cb_min_requests,
        cb_window_secs: c.cb_window_secs,
        cb_half_open_timeout_secs: c.cb_half_open_timeout_secs,
        retry_max_attempts: c.retry_max_attempts,
        retry_base_ms: c.retry_base_ms,
        retry_cap_ms: c.retry_cap_ms,
    }
}

/// The policy settings of every configured target, looked up by name; a
/// target that is not configured gets the default policy under its own name.
pub struct PolicyTable {
    targets: StrMap<OutboundTargetConfig>,
}

impl PolicyTable {
    #[verifier::type_invariant]
    spec fn inv(&self) -> bool {
        &&& self.targets.wf()
        &&& forall|k: Seq<char>| #[trigger] self.targets@.contains_key(k) ==> self.targets@[k].name@ == k
    }

    /// The configured targets, by name.
    pub closed spec fn configured(&self) -> Map<Seq<char>, OutboundTargetConfig> {
        self.targets@
    }

    /// The table of the configured `targets`; of several with one name, the
    /// last one counts.
    pub fn new(targets: Vec<OutboundTargetConfig>) -> (t: PolicyTable)
        ensures
            t.configured() == configured_policies(targets@),
    {
        let ghost all = targets@;
        let mut rest = targets;
        let mut map: StrMap<OutboundTargetConfig> = StrMap::new();
        let n = rest.len();
        let mut i: usize = 0;
        proof {
            assert(all.take(0) =~= Seq::<OutboundTargetConfig>::empty());
            assert(all.skip(0) =~= all);
            assert(map@ =~= configured_policies(all.take(0)));
        }
        while i < n
            invariant
                n == all.len(),
                i <= n,
                rest@ == all.skip(i as int),
                map.wf(),
                map@ == configured_policies(all.take(i as int)),
                forall|k: Seq<char>| #[trigger] map@.contains_key(k) ==> map@[k].name@ == k,
            decreases n - i,
        {
            let t = rest.remove(0);
            proof {
                assert(t == all[i as int]);
                assert(rest@ =~= all.skip(i + 1));
                assert(all.take(i + 1).drop_last() =~= all.take(i as int));
                assert(all.take(i + 1).last() == t);
            }
            let name = t.name.clone();
            map.insert(name, t);
            i = i + 1;
        }
        proof {
            assert(all.take(n as int) =~= all);
        }
        PolicyTable { targets: map }
    }

    /// The settings configured for target `key`, if it is configured.
    pub fn lookup(&self, key: &str) -> (r: Option<&OutboundTargetConfig>)
        ensures
            r is Some <==> self.configured().contains_key(key@),
            r is Some ==> *r->0 == self.configured()[key@],
    {
        proof {
            use_type_invariant(self);
        }
        self.targets.get(key)
    }

    /// The policy settings for target `key`: the configured ones, else the
    /// default policy under the name `key`.
    pub fn config_for(&self, key: &str) -> (c: OutboundTargetConfig)
        ensures
            self.configured().contains_key(key@) ==> c == self.configured()[key@],
            !self.configured().contains_key(key@) ==> c.name@ == key@ && c.has_default_policy(),
            c.name@ == key@,
    {
        proof {
            use_type_invariant(self);
        }
        match self.targets.get(key) {
            Some(cfg) => copy_policy(cfg),
            None => OutboundTargetConfig::fallback(key),
        }
    }
}

/// What a graceful shutdown does next.
#[derive(Debug)]
pub enum ShutdownAction {
    /// Every in-flight request has finished: shutdown is complete.
    Done,
    /// Requests are still in flight and the deadline has not come: wait for
    /// them to finish (or for the deadline).
    Wait,
    /// The deadline has come with requests still in flight: give up with the
    /// timeout error.
    GiveUp(ShutdownError),
}

/// One step of a graceful shutdown at time `now` (ms), with `in_flight`
/// requests still running and the drain deadline at `deadline` (ms): done
/// once nothing is in flight; otherwise wait until the deadline, and at the
/// deadline fail with the number still in flight.
pub fn shutdown_step(in_flight: usize, now: u64, deadline: u64) -> (a: ShutdownAction)
    ensures
        in_flight == 0 ==> a is Done,
        in_flight > 0 && now < deadline ==> a is Wait,
        in_flight > 0 && now >= deadline ==> (a matches ShutdownAction::GiveUp(
            ShutdownError::Timeout { in_flight: n },
        ) && n == in_flight),
{
    if in_flight == 0 {
        ShutdownAction::Done
    } else if now < deadline {
        ShutdownAction::Wait
    } else {
        ShutdownAction::GiveUp(ShutdownError::Timeout { in_flight })
    }
}

} // verus!
