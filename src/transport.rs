//! Per-call bookkeeping of the instrumented transport: which failed attempts are
//! retried and after what delay, and which metric updates each step owes.
use vstd::prelude::*;
use crate::classify::{classify, verdict_of, ErrorLabel, Failure, FailureClass, Verdict};

verus! {

/// Delay before the first retry, in milliseconds.
pub const INITIAL_BACKOFF_MS: u64 = 500;

/// Retries allowed for rate-limit-class failures within one call.
pub const RATE_LIMIT_RETRIES: u32 = 10;

/// Retries allowed for timeouts within one call.
pub const TIMEOUT_RETRIES: u32 = 3;

/// One update of the metrics registry.
#[derive(Clone, Copy, Debug, PartialEq, Eq, Structural)]
pub enum MetricOp {
    /// Increment the error counter under this label.
    CountError(ErrorLabel),
    /// Record the call's elapsed time in the latency histogram.
    ObserveLatency,
    /// Increment the total-request counter.
    CountRequest,
}

/// What the caller does after a failed attempt.
#[derive(Clone, Copy, Debug, PartialEq, Eq, Structural)]
pub enum NextStep {
    /// Send the request again after this many milliseconds.
    RetryAfter(u64),
    /// The call has failed for good, with this classification.
    GiveUp(Verdict),
    /// The call was already over; nothing is owed.
    Finished,
}

/// Abstract state of one call.
pub struct CallState {
    pub rate_limited: nat,
    pub timeouts: nat,
    pub finished: bool,
}

impl CallState {
    pub open spec fn wf(self) -> bool {
        self.rate_limited <= RATE_LIMIT_RETRIES && self.timeouts <= TIMEOUT_RETRIES
    }
}

pub open spec fn initial_call() -> CallState {
    CallState { rate_limited: 0, timeouts: 0, finished: false }
}

pub open spec fn pow2(n: nat) -> nat
    decreases n,
{
    if n == 0 {
        1
    } else {
        2 * pow2((n - 1) as nat)
    }
}

/// Delay before the `n`-th retry (counted from 1): doubles from the initial delay.
pub open spec fn backoff_delay(n: nat) -> nat {
    (INITIAL_BACKOFF_MS * pow2((n - 1) as nat)) as nat
}

/// The updates owed when a call ends, whether it succeeded or failed for good.
pub open spec fn completion_ops() -> Seq<MetricOp> {
    seq![MetricOp::ObserveLatency, MetricOp::CountRequest]
}

/// A failed attempt: the new state, the metric updates, and what comes next.
pub open spec fn failure_step(s: CallState, f: Failure) -> (CallState, Seq<MetricOp>, NextStep) {
    if s.finished {
        (s, seq![], NextStep::Finished)
    } else {
        let v = verdict_of(f);
        let counted = seq![MetricOp::CountError(v.label)];
        if v.retry && v.class == FailureClass::RateLimited && s.rate_limited < RATE_LIMIT_RETRIES {
            let n = s.rate_limited + 1;
            (
                CallState { rate_limited: n, ..s },
                counted,
                NextStep::RetryAfter(backoff_delay(n) as u64),
            )
        } else if v.retry && v.class == FailureClass::Timeout && s.timeouts < TIMEOUT_RETRIES {
            let n = s.timeouts + 1;
            (
                CallState { timeouts: n, ..s },
                counted,
                NextStep::RetryAfter(backoff_delay(n) as u64),
            )
        } else {
            (CallState { finished: true, ..s }, counted + completion_ops(), NextStep::GiveUp(v))
        }
    }
}

/// A successful attempt: the new state and the metric updates.
pub open spec fn success_step(s: CallState) -> (CallState, Seq<MetricOp>) {
    if s.finished {
        (s, seq![])
    } else {
        (CallState { finished: true, ..s }, completion_ops())
    }
}

/// Feeds a run of failed attempts to a call, in order.
pub open spec fn run_failures(s: CallState, fs: Seq<Failure>) -> (CallState, Seq<MetricOp>)
    decreases fs.len(),
{
    if fs.len() == 0 {
        (s, seq![])
    } else {
        let (s1, ops1, _next) = failure_step(s, fs[0]);
        let (s2, ops2) = run_failures(s1, fs.drop_first());
        (s2, ops1 + ops2)
    }
}

/// A call that fails on each of `fs` and, if still open afterwards, then succeeds.
pub open spec fn call_ops(fs: Seq<Failure>) -> Seq<MetricOp> {
    let (s, ops) = run_failures(initial_call(), fs);
    ops + success_step(s).1
}

/// The labels counted in a run of metric updates, in order.
pub open spec fn error_labels(ops: Seq<MetricOp>) -> Seq<ErrorLabel>
    decreases ops.len(),
{
    if ops.len() == 0 {
        seq![]
    } else {
        let rest = error_labels(ops.drop_first());
        match ops[0] {
            MetricOp::CountError(l) => seq![l] + rest,
            _ => rest,
        }
    }
}

/// How many times `op` occurs in `ops`.
pub open spec fn occurrences(ops: Seq<MetricOp>, op: MetricOp) -> nat
    decreases ops.len(),
{
    if ops.len() == 0 {
        0
    } else {
        (if ops[0] == op { 1nat } else { 0nat }) + occurrences(ops.drop_first(), op)
    }
}

proof fn lemma_pow2_monotone(a: nat, b: nat)
    requires
        a <= b,
    ensures
        pow2(a) <= pow2(b),
    decreases b,
{
    if a < b {
        lemma_pow2_monotone(a, (b - 1) as nat);
    }
}

proof fn lemma_error_labels_concat(a: Seq<MetricOp>, b: Seq<MetricOp>)
    ensures
        error_labels(a + b) == error_labels(a) + error_labels(b),
    decreases a.len(),
{
    if a.len() == 0 {
        assert(a + b =~= b);
        assert(error_labels(a) + error_labels(b) =~= error_labels(b));
    } else {
        lemma_error_labels_concat(a.drop_first(), b);
        assert((a + b).drop_first() =~= a.drop_first() + b);
        assert((a + b)[0] == a[0]);
        match a[0] {
            MetricOp::CountError(l) => {
                assert(seq![l] + (error_labels(a.drop_first()) + error_labels(b)) =~= (seq![l]
                    + error_labels(a.drop_first())) + error_labels(b));
            },
            _ => {},
        }
    }
}

proof fn lemma_occurrences_concat(a: Seq<MetricOp>, b: Seq<MetricOp>, op: MetricOp)
    ensures
        occurrences(a + b, op) == occurrences(a, op) + occurrences(b, op),
    decreases a.len(),
{
    if a.len() == 0 {
        assert(a + b =~= b);
    } else {
        lemma_occurrences_concat(a.drop_first(), b, op);
        assert((a + b).drop_first() =~= a.drop_first() + b);
        assert((a + b)[0] == a[0]);
    }
}

proof fn lemma_single_ops(l: ErrorLabel)
    ensures
        error_labels(seq![MetricOp::CountError(l)]) == seq![l],
        occurrences(seq![MetricOp::CountError(l)], MetricOp::ObserveLatency) == 0,
        occurrences(seq![MetricOp::CountError(l)], MetricOp::CountRequest) == 0,
        error_labels(completion_ops()) == Seq::<ErrorLabel>::empty(),
        occurrences(completion_ops(), MetricOp::ObserveLatency) == 1,
        occurrences(completion_ops(), MetricOp::CountRequest) == 1,
{
    let e = Seq::<MetricOp>::empty();
    assert(error_labels(e) == Seq::<ErrorLabel>::empty());
    assert(occurrences(e, MetricOp::ObserveLatency) == 0);
    assert(occurrences(e, MetricOp::CountRequest) == 0);
    let one = seq![MetricOp::CountError(l)];
    assert(one.drop_first() =~= e);
    assert(one[0] == MetricOp::CountError(l));
    assert(error_labels(one) == seq![l] + error_labels(e));
    assert(seq![l] + Seq::<ErrorLabel>::empty() =~= seq![l]);
    assert(occurrences(one, MetricOp::ObserveLatency) == occurrences(e, MetricOp::ObserveLatency));
    assert(occurrences(one, MetricOp::CountRequest) == occurrences(e, MetricOp::CountRequest));
    let c = completion_ops();
    let c1 = seq![MetricOp::CountRequest];
    assert(c.drop_first() =~= c1);
    assert(c1.drop_first() =~= e);
    assert(c[0] == MetricOp::ObserveLatency);
    assert(c1[0] == MetricOp::CountRequest);
    assert(error_labels(c1) == error_labels(e));
    assert(error_labels(c) == error_labels(c1));
    assert(occurrences(c1, MetricOp::ObserveLatency) == 0);
    assert(occurrences(c1, MetricOp::CountRequest) == 1);
}

/// Every failed attempt of a call that is still open is counted exactly once in the
/// error counter, under the label that the classification table gives it, whether or
/// not a retry follows.
pub proof fn lemma_one_error_count_per_failure(s: CallState, f: Failure)
    requires
        !s.finished,
    ensures
        error_labels(failure_step(s, f).1) == seq![verdict_of(f).label],
{
    let v = verdict_of(f);
    lemma_single_ops(v.label);
    lemma_error_labels_concat(seq![MetricOp::CountError(v.label)], completion_ops());
    assert(seq![v.label] + Seq::<ErrorLabel>::empty() =~= seq![v.label]);
}

/// Over a whole call, the error counter receives one increment per failed attempt,
/// in order, each under the label of that attempt's classification, provided every
/// attempt was made while the call was still open.
pub proof fn lemma_error_counts_follow_attempts(s: CallState, fs: Seq<Failure>)
    requires
        forall|i: int| 0 <= i < fs.len() ==> !(#[trigger] run_failures(s, fs.take(i))).0.finished,
    ensures
        error_labels(run_failures(s, fs).1) == Seq::new(
            fs.len(),
            |i: int| verdict_of(fs[i]).label,
        ),
    decreases fs.len(),
{
    if fs.len() == 0 {
        assert(error_labels(run_failures(s, fs).1) =~= Seq::new(
            fs.len(),
            |i: int| verdict_of(fs[i]).label,
        ));
    } else {
        assert(fs.take(0) =~= Seq::<Failure>::empty());
        assert(!run_failures(s, fs.take(0)).0.finished);
        let (s1, ops1, _next) = failure_step(s, fs[0]);
        let rest = fs.drop_first();
        assert forall|i: int| 0 <= i < rest.len() implies !(#[trigger] run_failures(
            s1,
            rest.take(i),
        )).0.finished by {
            let pre = fs.take(i + 1);
            assert(!run_failures(s, pre).0.finished);
            assert(pre[0] == fs[0]);
            assert(pre.drop_first() =~= rest.take(i));
        }
        lemma_error_counts_follow_attempts(s1, rest);
        lemma_one_error_count_per_failure(s, fs[0]);
        lemma_error_labels_concat(ops1, run_failures(s1, rest).1);
        assert(error_labels(run_failures(s, fs).1) =~= Seq::new(
            fs.len(),
            |i: int| verdict_of(fs[i]).label,
        ));
    }
}

proof fn lemma_run_completes_once(s: CallState, fs: Seq<Failure>, op: MetricOp)
    requires
        op == MetricOp::ObserveLatency || op == MetricOp::CountRequest,
    ensures
        occurrences(
            run_failures(s, fs).1 + success_step(run_failures(s, fs).0).1,
            op,
        ) == if s.finished { 0nat } else { 1nat },
    decreases fs.len(),
{
    lemma_single_ops(ErrorLabel::Unknown);
    if fs.len() == 0 {
        assert(run_failures(s, fs).1 + success_step(s).1 =~= success_step(s).1);
    } else {
        let (s1, ops1, _next) = failure_step(s, fs[0]);
        let (t, ops2) = run_failures(s1, fs.drop_first());
        let tail = success_step(t).1;
        lemma_run_completes_once(s1, fs.drop_first(), op);
        assert((ops1 + ops2) + tail =~= ops1 + (ops2 + tail));
        lemma_occurrences_concat(ops1, ops2 + tail, op);
        if !s.finished {
            let v = verdict_of(fs[0]);
            lemma_single_ops(v.label);
            lemma_occurrences_concat(seq![MetricOp::CountError(v.label)], completion_ops(), op);
        }
    }
}

/// However many attempts a call makes, and whether it ends in success or in a
/// failure for good, the latency histogram receives exactly one observation and the
/// request counter exactly one increment.
pub proof fn lemma_one_completion_per_call(fs: Seq<Failure>)
    ensures
        occurrences(call_ops(fs), MetricOp::ObserveLatency) == 1,
        occurrences(call_ops(fs), MetricOp::CountRequest) == 1,
{
    lemma_run_completes_once(initial_call(), fs, MetricOp::ObserveLatency);
    lemma_run_completes_once(initial_call(), fs, MetricOp::CountRequest);
}

proof fn lemma_rate_limited_run(s: CallState, fs: Seq<Failure>)
    requires
        !s.finished,
        s.rate_limited + fs.len() <= RATE_LIMIT_RETRIES,
        forall|i: int| 0 <= i < fs.len() ==> (#[trigger] verdict_of(fs[i])).class
            == FailureClass::RateLimited,
    ensures
        run_failures(s, fs).0 == (CallState { rate_limited: s.rate_limited + fs.len(), ..s }),
    decreases fs.len(),
{
    if fs.len() > 0 {
        let v = verdict_of(fs[0]);
        assert(v.class == FailureClass::RateLimited);
        let s1 = failure_step(s, fs[0]).0;
        let rest = fs.drop_first();
        assert forall|i: int| 0 <= i < rest.len() implies (#[trigger] verdict_of(rest[i])).class
            == FailureClass::RateLimited by {
            assert(rest[i] == fs[i + 1]);
        }
        lemma_rate_limited_run(s1, rest);
    }
}

/// Rate-limit-class failures are retried ten times within one call: when every
/// attempt fails so, the call is still open after ten failures, the eleventh ends it
/// for good with its classification, and that eleventh failure is still counted
/// under its label.
pub proof fn lemma_rate_limit_budget(fs: Seq<Failure>)
    requires
        fs.len() == RATE_LIMIT_RETRIES + 1,
        forall|i: int| 0 <= i < fs.len() ==> (#[trigger] verdict_of(fs[i])).class
            == FailureClass::RateLimited,
    ensures
        !run_failures(initial_call(), fs.take(10)).0.finished,
        failure_step(run_failures(initial_call(), fs.take(10)).0, fs[10]).2 == NextStep::GiveUp(
            verdict_of(fs[10]),
        ),
        error_labels(failure_step(run_failures(initial_call(), fs.take(10)).0, fs[10]).1)
            == seq![verdict_of(fs[10]).label],
{
    let head = fs.take(10);
    assert forall|i: int| 0 <= i < head.len() implies (#[trigger] verdict_of(head[i])).class
        == FailureClass::RateLimited by {
        assert(head[i] == fs[i]);
    }
    lemma_rate_limited_run(initial_call(), head);
    let s10 = run_failures(initial_call(), head).0;
    assert(verdict_of(fs[10]).class == FailureClass::RateLimited);
    lemma_one_error_count_per_failure(s10, fs[10]);
}

/// The delay before retry `n` (counted from 1), in milliseconds.
pub fn backoff_ms(n: u32) -> (r: u64)
    requires
        1 <= n <= RATE_LIMIT_RETRIES,
    ensures
        r == backoff_delay(n as nat),
{
    let mut d: u64 = INITIAL_BACKOFF_MS;
    let mut k: u32 = 1;
    proof {
        reveal_with_fuel(pow2, 10);
    }
    while k < n
        invariant
            1 <= k <= n <= RATE_LIMIT_RETRIES,
            d == INITIAL_BACKOFF_MS * pow2((k - 1) as nat),
        decreases n - k,
    {
        proof {
            lemma_pow2_monotone((k - 1) as nat, 8);
            reveal_with_fuel(pow2, 9);
            assert(pow2(8) == 256);
        }
        d = d * 2;
        k = k + 1;
    }
    d
}

/// The retry and metric bookkeeping of one call.
pub struct CallTracker {
    rate_limited: u32,
    timeouts: u32,
    finished: bool,
}

impl View for CallTracker {
    type V = CallState;

    closed spec fn view(&self) -> CallState {
        CallState {
            rate_limited: self.rate_limited as nat,
            timeouts: self.timeouts as nat,
            finished: self.finished,
        }
    }
}

impl CallTracker {
    /// A call that has not made an attempt yet.
    pub fn new() -> (r: CallTracker)
        ensures
            r@ == initial_call(),
            r@.wf(),
    {
        CallTracker { rate_limited: 0, timeouts: 0, finished: false }
    }

    /// Whether the call has ended, by success or for good by failure.
    pub fn is_finished(&self) -> (r: bool)
        ensures
            r == self@.finished,
    {
        self.finished
    }

    /// Retries spent on rate-limit-class failures so far.
    pub fn rate_limit_retries(&self) -> (r: u32)
        ensures
            r == self@.rate_limited,
    {
        self.rate_limited
    }

    /// Retries spent on timeouts so far.
    pub fn timeout_retries(&self) -> (r: u32)
        ensures
            r == self@.timeouts,
    {
        self.timeouts
    }

    /// Records a failed attempt: returns the metric updates it owes and what comes next.
    pub fn on_failure(&mut self, f: &Failure) -> (r: (Vec<MetricOp>, NextStep))
        requires
            old(self)@.wf(),
        ensures
            final(self)@ == failure_step(old(self)@, *f).0,
            r.0@ == failure_step(old(self)@, *f).1,
            r.1 == failure_step(old(self)@, *f).2,
            final(self)@.wf(),
    {
        if self.finished {
            return (Vec::new(), NextStep::Finished);
        }
        let v = classify(f);
        let mut ops: Vec<MetricOp> = Vec::new();
        ops.push(MetricOp::CountError(v.label));
        if v.retry && v.class == FailureClass::RateLimited && self.rate_limited < RATE_LIMIT_RETRIES {
            self.rate_limited = self.rate_limited + 1;
            let d = backoff_ms(self.rate_limited);
            proof {
                assert(ops@ =~= seq![MetricOp::CountError(v.label)]);
            }
            (ops, NextStep::RetryAfter(d))
        } else if v.retry && v.class == FailureClass::Timeout && self.timeouts < TIMEOUT_RETRIES {
            self.timeouts = self.timeouts + 1;
            let d = backoff_ms(self.timeouts);
            proof {
                assert(ops@ =~= seq![MetricOp::CountError(v.label)]);
            }
            (ops, NextStep::RetryAfter(d))
        } else {
            self.finished = true;
            ops.push(MetricOp::ObserveLatency);
            ops.push(MetricOp::CountRequest);
            proof {
                assert(ops@ =~= seq![MetricOp::CountError(v.label)] + completion_ops());
            }
            (ops, NextStep::GiveUp(v))
        }
    }

    /// Records a successful attempt: returns the metric updates it owes.
    pub fn on_success(&mut self) -> (r: Vec<MetricOp>)
        requires
            old(self)@.wf(),
        ensures
            final(self)@ == success_step(old(self)@).0,
            r@ == success_step(old(self)@).1,
            final(self)@.wf(),
    {
        let mut ops: Vec<MetricOp> = Vec::new();
        if !self.finished {
            self.finished = true;
            ops.push(MetricOp::ObserveLatency);
            ops.push(MetricOp::CountRequest);
            proof {
                assert(ops@ =~= completion_ops());
            }
        } else {
            proof {
                assert(ops@ =~= seq![]);
            }
        }
        ops
    }
}

} // verus!
