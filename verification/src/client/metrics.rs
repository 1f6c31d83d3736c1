//! Request metrics and connection health of an SFTP session: request
//! counts, a window of recent latencies with percentiles, error counts by
//! type and the connection state derived from the error rate.

use vstd::prelude::*;
use vstd::relations::{sorted_by, total_ordering};

use crate::text::str_equals;

verus! {

#[verifier::external_type_specification]
#[verifier::external_body]
pub struct ExInstant(std::time::Instant);

/// Connection health state
#[derive(Debug, Clone, Copy, PartialEq, Eq, Structural)]
pub enum ConnectionState {
    /// Connection is being established
    Connecting,
    /// Connection is healthy and responsive
    Healthy,
    /// Connection is experiencing issues (high latency or errors)
    Degraded,
    /// Connection has been lost
    Disconnected,
}

/// Number of most recent latencies kept for the percentiles.
pub const MAX_LATENCY_SAMPLES: usize = 1000;

/// Latency above which a request counts as slow (5 seconds).
pub const SLOW_REQUEST_MS: u64 = 5000;

/// Fewest requests before the error rate decides the connection state.
pub const MIN_REQUESTS_FOR_HEALTH: u64 = 10;

/// The abstract state of a metrics tracker.
pub struct MetricsState {
    pub total_requests: u64,
    pub successful_requests: u64,
    pub failed_requests: u64,
    pub retried_requests: u64,
    pub active_requests: u32,
    /// Recent latencies in milliseconds, oldest first.
    pub latency_samples: Seq<u64>,
    pub connection_state: ConnectionState,
    pub last_successful_request: Option<std::time::Instant>,
    /// When the last error was recorded, and its message.
    pub last_error: Option<(std::time::Instant, Seq<char>)>,
    pub timeout_errors: u64,
    pub io_errors: u64,
    pub protocol_errors: u64,
}

/// Request metrics tracker
pub struct Metrics {
    total_requests: u64,
    successful_requests: u64,
    failed_requests: u64,
    retried_requests: u64,
    active_requests: u32,
    latency_samples: Vec<u64>,
    connection_state: ConnectionState,
    last_successful_request: Option<std::time::Instant>,
    last_error: Option<(std::time::Instant, String)>,
    timeout_errors: u64,
    io_errors: u64,
    protocol_errors: u64,
}

impl View for Metrics {
    type V = MetricsState;

    closed spec fn view(&self) -> MetricsState {
        MetricsState {
            total_requests: self.total_requests,
            successful_requests: self.successful_requests,
            failed_requests: self.failed_requests,
            retried_requests: self.retried_requests,
            active_requests: self.active_requests,
            latency_samples: self.latency_samples@,
            connection_state: self.connection_state,
            last_successful_request: self.last_successful_request,
            last_error: match self.last_error {
                Some((t, m)) => Some((t, m@)),
                None => None,
            },
            timeout_errors: self.timeout_errors,
            io_errors: self.io_errors,
            protocol_errors: self.protocol_errors,
        }
    }
}

/// A tracker holds at most `MAX_LATENCY_SAMPLES` latencies.
pub open spec fn metrics_wf(m: MetricsState) -> bool {
    m.latency_samples.len() <= MAX_LATENCY_SAMPLES
}

/// The state of a fresh (or reset) tracker.
pub open spec fn initial_metrics(m: MetricsState) -> bool {
    &&& m.total_requests == 0
    &&& m.successful_requests == 0
    &&& m.failed_requests == 0
    &&& m.retried_requests == 0
    &&& m.active_requests == 0
    &&& m.latency_samples == Seq::<u64>::empty()
    &&& m.connection_state == ConnectionState::Connecting
    &&& m.last_successful_request is None
    &&& m.last_error is None
    &&& m.timeout_errors == 0
    &&& m.io_errors == 0
    &&& m.protocol_errors == 0
}

/// More than a tenth of the requests failed.
pub open spec fn error_rate_high(total: u64, failed: u64) -> bool {
    failed * 10 > total
}

/// The connection state after the error counts changed: a disconnected
/// connection stays so; from `MIN_REQUESTS_FOR_HEALTH` requests on, an
/// error rate above 10% makes it degraded and anything else healthy;
/// with fewer requests it is left as it was.
pub open spec fn state_after_error(state: ConnectionState, total: u64, failed: u64) -> ConnectionState {
    if state == ConnectionState::Disconnected {
        state
    } else if total >= MIN_REQUESTS_FOR_HEALTH {
        if error_rate_high(total, failed) {
            ConnectionState::Degraded
        } else {
            ConnectionState::Healthy
        }
    } else {
        state
    }
}

/// The latency window after one more sample: the sample is appended and,
/// when the window is over capacity, the oldest one dropped.
pub open spec fn latency_window_after(samples: Seq<u64>, ms: u64) -> Seq<u64> {
    if samples.len() + 1 > MAX_LATENCY_SAMPLES {
        samples.push(ms).drop_first()
    } else {
        samples.push(ms)
    }
}

/// Ascending order of latencies.
pub open spec fn latency_leq(a: u64, b: u64) -> bool {
    a <= b
}

/// The samples in ascending order.
pub open spec fn sorted_latencies(samples: Seq<u64>) -> Seq<u64> {
    samples.sort_by(|a: u64, b: u64| latency_leq(a, b))
}

/// The latency at the given percent: the element at index
/// `len * percent / 100` of the sorted samples, none when there are none.
pub open spec fn percentile(samples: Seq<u64>, percent: nat) -> Option<u64> {
    if samples.len() == 0 {
        None
    } else {
        Some(sorted_latencies(samples)[(samples.len() * percent / 100) as int])
    }
}

/// The counters of `m` other than those listed are those of `o`.
pub open spec fn same_except_counters(m: MetricsState, o: MetricsState) -> bool {
    &&& m.latency_samples == o.latency_samples
    &&& m.connection_state == o.connection_state
    &&& m.last_successful_request == o.last_successful_request
    &&& m.last_error == o.last_error
}

/// Wrapper of `Instant::now`.  Nothing is stated of the value: it is the
/// clock's.
#[verifier::external_body]
fn instant_now() -> std::time::Instant {
    std::time::Instant::now()
}

/// Wrapper of `Instant::elapsed`.  Nothing is stated of the value: it
/// depends on the clock.
#[verifier::external_body]
fn instant_elapsed(start: &std::time::Instant) -> std::time::Duration {
    start.elapsed()
}

/// The whole milliseconds a `Duration` spans.
pub uninterp spec fn duration_as_millis(d: std::time::Duration) -> int;

/// Wrapper of `Duration::as_millis`: the whole milliseconds of `d`.
#[verifier::external_body]
fn duration_millis(d: &std::time::Duration) -> (r: u128)
    ensures
        r == duration_as_millis(*d),
{
    d.as_millis()
}

/// Wrapper of `<[u64]>::sort_unstable`: the same values in ascending order.
#[verifier::external_body]
fn sort_latencies(v: &mut Vec<u64>)
    ensures
        final(v)@.to_multiset() == old(v)@.to_multiset(),
        sorted_by(final(v)@, |a: u64, b: u64| latency_leq(a, b)),
{
    v.sort_unstable()
}

proof fn lemma_latency_leq_total()
    ensures
        total_ordering(|a: u64, b: u64| latency_leq(a, b)),
{
}

proof fn lemma_sorted_is_sorted_latencies(v: Seq<u64>, s: Seq<u64>)
    requires
        v.to_multiset() == s.to_multiset(),
        sorted_by(v, |a: u64, b: u64| latency_leq(a, b)),
    ensures
        v == sorted_latencies(s),
{
    let leq = |a: u64, b: u64| latency_leq(a, b);
    lemma_latency_leq_total();
    s.lemma_sort_by_ensures(leq);
    vstd::seq_lib::lemma_sorted_unique(v, s.sort_by(leq), leq);
}

/// Snapshot of current metrics
#[derive(Debug, Clone)]
pub struct MetricsSnapshot {
    pub total_requests: u64,
    pub successful_requests: u64,
    pub failed_requests: u64,
    pub retried_requests: u64,
    pub active_requests: u32,
    pub timeout_errors: u64,
    pub io_errors: u64,
    pub protocol_errors: u64,
    pub latency_p50_ms: Option<u64>,
    pub latency_p95_ms: Option<u64>,
    pub latency_p99_ms: Option<u64>,
    pub connection_state: ConnectionState,
}

/// Handle for tracking a single request's lifecycle
pub struct RequestHandle {
    start_time: std::time::Instant,
}

impl Metrics {
    /// Create a new metrics tracker
    pub fn new() -> (r: Self)
        ensures
            initial_metrics(r@),
            metrics_wf(r@),
    {
        Metrics {
            total_requests: 0,
            successful_requests: 0,
            failed_requests: 0,
            retried_requests: 0,
            active_requests: 0,
            latency_samples: Vec::new(),
            connection_state: ConnectionState::Connecting,
            last_successful_request: None,
            last_error: None,
            timeout_errors: 0,
            io_errors: 0,
            protocol_errors: 0,
        }
    }

    /// Record the start of a request: one more request in total and one
    /// more active (both counters wrap around).
    pub fn record_request_start(&mut self) -> (h: RequestHandle)
        ensures
            final(self)@.total_requests == old(self)@.total_requests.wrapping_add(1),
            final(self)@.active_requests == old(self)@.active_requests.wrapping_add(1),
            final(self)@.successful_requests == old(self)@.successful_requests,
            final(self)@.failed_requests == old(self)@.failed_requests,
            final(self)@.retried_requests == old(self)@.retried_requests,
            final(self)@.timeout_errors == old(self)@.timeout_errors,
            final(self)@.io_errors == old(self)@.io_errors,
            final(self)@.protocol_errors == old(self)@.protocol_errors,
            same_except_counters(final(self)@, old(self)@),
    {
        self.total_requests = self.total_requests.wrapping_add(1);
        self.active_requests = self.active_requests.wrapping_add(1);
        RequestHandle { start_time: instant_now() }
    }

    /// Record a retry attempt
    pub fn record_retry(&mut self)
        ensures
            final(self)@ == (MetricsState {
                retried_requests: old(self)@.retried_requests.wrapping_add(1),
                ..old(self)@
            }),
    {
        self.retried_requests = self.retried_requests.wrapping_add(1);
    }

    /// Record an error by type ("timeout", "io" or "protocol"; any other
    /// type is counted only as a failure), remember it as the last error
    /// and re-derive the connection state from the error rate.
    pub fn record_error(&mut self, error_type: &str, error_message: String)
        ensures
            ({
                let o = old(self)@;
                let n = final(self)@;
                &&& n.failed_requests == o.failed_requests.wrapping_add(1)
                &&& n.timeout_errors == (if error_type@ == "timeout"@ {
                    o.timeout_errors.wrapping_add(1)
                } else {
                    o.timeout_errors
                })
                &&& n.io_errors == (if error_type@ == "io"@ {
                    o.io_errors.wrapping_add(1)
                } else {
                    o.io_errors
                })
                &&& n.protocol_errors == (if error_type@ == "protocol"@ {
                    o.protocol_errors.wrapping_add(1)
                } else {
                    o.protocol_errors
                })
                &&& n.last_error matches Some((_, m)) && m == error_message@
                &&& n.connection_state == state_after_error(
                    o.connection_state,
                    n.total_requests,
                    n.failed_requests,
                )
                &&& n.total_requests == o.total_requests
                &&& n.successful_requests == o.successful_requests
                &&& n.retried_requests == o.retried_requests
                &&& n.active_requests == o.active_requests
                &&& n.latency_samples == o.latency_samples
                &&& n.last_successful_request == o.last_successful_request
            }),
    {
        self.failed_requests = self.failed_requests.wrapping_add(1);
        if str_equals(error_type, "timeout") {
            self.timeout_errors = self.timeout_errors.wrapping_add(1);
        } else if str_equals(error_type, "io") {
            self.io_errors = self.io_errors.wrapping_add(1);
        } else if str_equals(error_type, "protocol") {
            self.protocol_errors = self.protocol_errors.wrapping_add(1);
        }
        proof {
            reveal_strlit("timeout");
            reveal_strlit("io");
            reveal_strlit("protocol");
            assert("timeout"@.len() == 7);
            assert("io"@.len() == 2);
            assert("protocol"@.len() == 8);
        }
        self.last_error = Some((instant_now(), error_message));
        self.update_connection_state();
    }

    /// Record the latency of a completed request, keeping only the most
    /// recent `MAX_LATENCY_SAMPLES`.
    fn record_latency(&mut self, ms: u64)
        ensures
            final(self)@ == (MetricsState {
                latency_samples: latency_window_after(old(self)@.latency_samples, ms),
                ..old(self)@
            }),
            metrics_wf(old(self)@) ==> metrics_wf(final(self)@),
    {
        self.latency_samples.push(ms);
        if self.latency_samples.len() > MAX_LATENCY_SAMPLES {
            self.latency_samples.remove(0);
        }
    }

    /// Get current connection state
    pub fn connection_state(&self) -> (s: ConnectionState)
        ensures
            s == self@.connection_state,
    {
        self.connection_state
    }

    /// Set connection state
    pub fn set_connection_state(&mut self, state: ConnectionState)
        ensures
            final(self)@ == (MetricsState { connection_state: state, ..old(self)@ }),
    {
        self.connection_state = state;
    }

    /// Re-derive the connection state from the error rate.
    fn update_connection_state(&mut self)
        ensures
            final(self)@ == (MetricsState {
                connection_state: state_after_error(
                    old(self)@.connection_state,
                    old(self)@.total_requests,
                    old(self)@.failed_requests,
                ),
                ..old(self)@
            }),
    {
        let current_state = self.connection_state;
        if current_state == ConnectionState::Disconnected {
            return ;
        }
        let total = self.total_requests;
        let failed = self.failed_requests;
        if total >= MIN_REQUESTS_FOR_HEALTH {
            let new_state = if (failed as u128) * 10 > total as u128 {
                ConnectionState::Degraded
            } else {
                ConnectionState::Healthy
            };
            if new_state != current_state {
                self.connection_state = new_state;
            }
        }
    }

    /// Get current statistics: the counters, the connection state and the
    /// 50th, 95th and 99th latency percentiles.
    pub fn snapshot(&self) -> (s: MetricsSnapshot)
        ensures
            s.total_requests == self@.total_requests,
            s.successful_requests == self@.successful_requests,
            s.failed_requests == self@.failed_requests,
            s.retried_requests == self@.retried_requests,
            s.active_requests == self@.active_requests,
            s.timeout_errors == self@.timeout_errors,
            s.io_errors == self@.io_errors,
            s.protocol_errors == self@.protocol_errors,
            s.latency_p50_ms == percentile(self@.latency_samples, 50),
            s.latency_p95_ms == percentile(self@.latency_samples, 95),
            s.latency_p99_ms == percentile(self@.latency_samples, 99),
            s.connection_state == self@.connection_state,
    {
        let mut sorted = self.latency_samples.clone();
        assert(sorted@ =~= self.latency_samples@);
        sort_latencies(&mut sorted);
        proof {
            lemma_sorted_is_sorted_latencies(sorted@, self.latency_samples@);
        }
        let n = sorted.len();
        assert(n == self.latency_samples@.len()) by {
            broadcast use vstd::seq_lib::group_to_multiset_ensures;

            assert(sorted@.to_multiset().len() == self.latency_samples@.to_multiset().len());
        }
        let (p50, p95, p99) = if n > 0 {
            let i50 = ((n as u128) * 50 / 100) as usize;
            let i95 = ((n as u128) * 95 / 100) as usize;
            let i99 = ((n as u128) * 99 / 100) as usize;
            assert(i50 == n * 50 / 100 && i95 == n * 95 / 100 && i99 == n * 99 / 100 && i99 < n)
                by (nonlinear_arith)
                requires
                    n > 0,
                    i50 == (n as u128) * 50 / 100,
                    i95 == (n as u128) * 95 / 100,
                    i99 == (n as u128) * 99 / 100,
            ;
            (Some(sorted[i50]), Some(sorted[i95]), Some(sorted[i99]))
        } else {
            (None, None, None)
        };
        MetricsSnapshot {
            total_requests: self.total_requests,
            successful_requests: self.successful_requests,
            failed_requests: self.failed_requests,
            retried_requests: self.retried_requests,
            active_requests: self.active_requests,
            timeout_errors: self.timeout_errors,
            io_errors: self.io_errors,
            protocol_errors: self.protocol_errors,
            latency_p50_ms: p50,
            latency_p95_ms: p95,
            latency_p99_ms: p99,
            connection_state: self.connection_state,
        }
    }

    /// Reset all metrics
    pub fn reset(&mut self)
        ensures
            initial_metrics(final(self)@),
            metrics_wf(final(self)@),
    {
        self.total_requests = 0;
        self.successful_requests = 0;
        self.failed_requests = 0;
        self.retried_requests = 0;
        self.active_requests = 0;
        self.timeout_errors = 0;
        self.io_errors = 0;
        self.protocol_errors = 0;
        self.latency_samples.clear();
        self.connection_state = ConnectionState::Connecting;
        self.last_successful_request = None;
        self.last_error = None;
    }
}

impl Default for Metrics {
    fn default() -> (r: Self)
        ensures
            initial_metrics(r@),
            metrics_wf(r@),
    {
        Self::new()
    }
}

impl RequestHandle {
    /// Record successful completion: one more success, one fewer active
    /// request (both wrap around), the request's latency (returned, in
    /// milliseconds) added to the window, the time remembered, and a
    /// connecting session becomes healthy.
    pub fn record_success(self, metrics: &mut Metrics) -> (ms: u64)
        ensures
            ({
                let o = old(metrics)@;
                let n = final(metrics)@;
                &&& n.successful_requests == o.successful_requests.wrapping_add(1)
                &&& n.active_requests == o.active_requests.wrapping_sub(1)
                &&& n.latency_samples == latency_window_after(o.latency_samples, ms)
                &&& n.last_successful_request is Some
                &&& n.connection_state == (if o.connection_state == ConnectionState::Connecting {
                    ConnectionState::Healthy
                } else {
                    o.connection_state
                })
                &&& n.total_requests == o.total_requests
                &&& n.failed_requests == o.failed_requests
                &&& n.retried_requests == o.retried_requests
                &&& n.timeout_errors == o.timeout_errors
                &&& n.io_errors == o.io_errors
                &&& n.protocol_errors == o.protocol_errors
                &&& n.last_error == o.last_error
            }),
            metrics_wf(old(metrics)@) ==> metrics_wf(final(metrics)@),
    {
        let elapsed = instant_elapsed(&self.start_time);
        let ms = duration_millis(&elapsed) as u64;
        metrics.successful_requests = metrics.successful_requests.wrapping_add(1);
        metrics.active_requests = metrics.active_requests.wrapping_sub(1);
        metrics.record_latency(ms);
        metrics.last_successful_request = Some(instant_now());
        if metrics.connection_state == ConnectionState::Connecting {
            metrics.connection_state = ConnectionState::Healthy;
        }
        ms
    }

    /// Record failure: one fewer active request (wrapping around).
    pub fn record_failure(self, metrics: &mut Metrics)
        ensures
            final(metrics)@ == (MetricsState {
                active_requests: old(metrics)@.active_requests.wrapping_sub(1),
                ..old(metrics)@
            }),
    {
        metrics.active_requests = metrics.active_requests.wrapping_sub(1);
    }
}

/// The latency window never exceeds `MAX_LATENCY_SAMPLES`, always ends
/// with the newest latency, and holds the most recent latencies in the
/// order they were recorded.
pub proof fn latency_window_keeps_recent(samples: Seq<u64>, ms: u64)
    requires
        samples.len() <= MAX_LATENCY_SAMPLES,
    ensures
        latency_window_after(samples, ms).len() <= MAX_LATENCY_SAMPLES,
        latency_window_after(samples, ms).last() == ms,
        latency_window_after(samples, ms) == samples.push(ms).skip(
            samples.push(ms).len() - latency_window_after(samples, ms).len(),
        ),
        latency_window_after(samples, ms).len() == (if samples.len() < MAX_LATENCY_SAMPLES {
            samples.len() + 1
        } else {
            MAX_LATENCY_SAMPLES as nat
        }),
{
    let w = latency_window_after(samples, ms);
    if samples.len() + 1 > MAX_LATENCY_SAMPLES {
        assert(w =~= samples.push(ms).skip(1));
    } else {
        assert(w =~= samples.push(ms).skip(0));
    }
}

/// The reported percentiles are latencies that were recorded, and they
/// are ordered: P50 <= P95 <= P99.
pub proof fn percentiles_are_ordered_samples(samples: Seq<u64>)
    requires
        samples.len() > 0,
    ensures
        percentile(samples, 50) matches Some(p) && samples.contains(p),
        percentile(samples, 95) matches Some(p) && samples.contains(p),
        percentile(samples, 99) matches Some(p) && samples.contains(p),
        percentile(samples, 50)->Some_0 <= percentile(samples, 95)->Some_0,
        percentile(samples, 95)->Some_0 <= percentile(samples, 99)->Some_0,
{
    broadcast use vstd::seq_lib::group_to_multiset_ensures;

    let leq = |a: u64, b: u64| latency_leq(a, b);
    lemma_latency_leq_total();
    samples.lemma_sort_by_ensures(leq);
    let t = sorted_latencies(samples);
    let n = samples.len();
    assert(t.to_multiset().len() == n);
    let i50 = (n * 50 / 100) as int;
    let i95 = (n * 95 / 100) as int;
    let i99 = (n * 99 / 100) as int;
    assert(0 <= i50 <= i95 <= i99 < n) by (nonlinear_arith)
        requires
            n > 0,
            i50 == n * 50 / 100,
            i95 == n * 95 / 100,
            i99 == n * 99 / 100,
    ;
    assert(t.contains(t[i50]));
    assert(t.contains(t[i95]));
    assert(t.contains(t[i99]));
    if i50 < i95 {
        assert(leq(t[i50], t[i95]));
    }
    if i95 < i99 {
        assert(leq(t[i95], t[i99]));
    }
}

/// Starting a request and then recording its success or its failure
/// leaves the number of active requests as it was.
pub proof fn request_lifecycle_balances(active: u32)
    ensures
        active.wrapping_add(1).wrapping_sub(1) == active,
{
}

/// Once disconnected, recorded errors never change the connection state.
pub proof fn disconnected_is_final(total: u64, failed: u64)
    ensures
        state_after_error(ConnectionState::Disconnected, total, failed)
            == ConnectionState::Disconnected,
{
}

/// From `MIN_REQUESTS_FOR_HEALTH` requests on, a connection that was not
/// disconnected is healthy below a 10% error rate, degraded above it.
pub proof fn health_follows_error_rate(state: ConnectionState, total: u64, failed: u64)
    requires
        state != ConnectionState::Disconnected,
        total >= MIN_REQUESTS_FOR_HEALTH,
    ensures
        failed * 10 > total ==> state_after_error(state, total, failed)
            == ConnectionState::Degraded,
        failed * 10 <= total ==> state_after_error(state, total, failed)
            == ConnectionState::Healthy,
{
}

} // verus!
