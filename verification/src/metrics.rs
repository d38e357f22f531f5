//! Runtime observability counters. Every counter wraps around on overflow.
use vstd::prelude::*;
use vstd::wrapping::i64_specs;
use vstd::wrapping::u64_specs;

verus! {

/// The latency bucket of a duration: below 100µs, 1ms, 10ms, 100ms, 1s,
/// and at least 1s.
pub open spec fn bucket_of(duration_us: u64) -> int {
    if duration_us < 100 {
        0
    } else if duration_us < 1_000 {
        1
    } else if duration_us < 10_000 {
        2
    } else if duration_us < 100_000 {
        3
    } else if duration_us < 1_000_000 {
        4
    } else {
        5
    }
}

/// A fixed-bucket latency histogram.
#[derive(Debug)]
pub struct Histogram {
    buckets: [u64; 6],
    sum_us: u64,
    count: u64,
}

/// The mathematical value of a histogram: bucket counts, sum, count.
pub struct HistogramView {
    pub buckets: Seq<u64>,
    pub sum_us: u64,
    pub count: u64,
}

impl View for Histogram {
    type V = HistogramView;

    closed spec fn view(&self) -> HistogramView {
        HistogramView { buckets: self.buckets@, sum_us: self.sum_us, count: self.count }
    }
}

/// A histogram after recording `duration_us`.
pub open spec fn recorded(h: HistogramView, duration_us: u64) -> HistogramView {
    let b = bucket_of(duration_us);
    HistogramView {
        buckets: h.buckets.update(b, u64_specs::wrapping_add(h.buckets[b], 1)),
        sum_us: u64_specs::wrapping_add(h.sum_us, duration_us),
        count: u64_specs::wrapping_add(h.count, 1),
    }
}

impl Histogram {
    /// An empty histogram.
    pub fn new() -> (h: Self)
        ensures
            h@.buckets == seq![0u64, 0u64, 0u64, 0u64, 0u64, 0u64],
            h@.sum_us == 0,
            h@.count == 0,
    {
        let h = Histogram { buckets: [0u64; 6], sum_us: 0, count: 0 };
        assert(h@.buckets =~= seq![0u64, 0u64, 0u64, 0u64, 0u64, 0u64]);
        h
    }

    /// Records one duration (see [`recorded`]).
    pub fn record(&mut self, duration_us: u64)
        requires
            old(self)@.buckets.len() == 6,
        ensures
            final(self)@ == recorded(old(self)@, duration_us),
            final(self)@.buckets.len() == 6,
    {
        self.sum_us = self.sum_us.wrapping_add(duration_us);
        self.count = self.count.wrapping_add(1);
        let bucket: usize = if duration_us < 100 {
            0
        } else if duration_us < 1_000 {
            1
        } else if duration_us < 10_000 {
            2
        } else if duration_us < 100_000 {
            3
        } else if duration_us < 1_000_000 {
            4
        } else {
            5
        };
        let v = self.buckets[bucket].wrapping_add(1);
        self.buckets[bucket] = v;
    }

    /// The number of recorded durations.
    pub fn count(&self) -> (n: u64)
        ensures
            n == self@.count,
    {
        self.count
    }

    /// The sum of recorded durations, in microseconds.
    pub fn sum_us(&self) -> (n: u64)
        ensures
            n == self@.sum_us,
    {
        self.sum_us
    }

    /// The bucket counts: below 100µs, 1ms, 10ms, 100ms, 1s, and at least 1s.
    pub fn bucket_counts(&self) -> (b: [u64; 6])
        ensures
            b@ == self@.buckets,
    {
        self.buckets
    }
}

/// The counters of the runtime.
#[derive(Debug)]
pub struct RuntimeMetrics {
    pub agents_started: u64,
    pub agents_completed: u64,
    pub agents_failed: u64,
    pub agents_timed_out: u64,
    pub agents_active: i64,
    pub tool_calls_total: u64,
    pub tool_calls_failed: u64,
    pub tool_latency: Histogram,
    pub promises_created: u64,
    pub promises_resolved: u64,
    pub promises_rejected: u64,
    pub promises_pending: i64,
    pub modules_loaded: u64,
    pub modules_cache_hits: u64,
    pub modules_transpiled: u64,
    pub module_load_latency: Histogram,
    pub snapshots_written: u64,
    pub snapshots_loaded: u64,
    pub snapshot_bytes: u64,
    pub eval_calls: u64,
    pub eval_latency: Histogram,
    pub microtask_drains: u64,
    pub permission_checks_allowed: u64,
    pub permission_checks_denied: u64,
}

/// `x + 1`, wrapping.
pub open spec fn inc(x: u64) -> u64 {
    u64_specs::wrapping_add(x, 1)
}

/// Whether every histogram of `m` has its six buckets.
pub open spec fn metrics_wf(m: &RuntimeMetrics) -> bool {
    &&& m.tool_latency@.buckets.len() == 6
    &&& m.module_load_latency@.buckets.len() == 6
    &&& m.eval_latency@.buckets.len() == 6
}

impl RuntimeMetrics {
    /// All counters at zero.
    pub fn new() -> (m: Self)
        ensures
            metrics_wf(&m),
            agents_balanced(m),
            m.agents_started == 0 && m.agents_completed == 0 && m.agents_failed == 0,
            m.agents_timed_out == 0 && m.agents_active == 0,
            m.tool_calls_total == 0 && m.tool_calls_failed == 0 && m.tool_latency@.count == 0,
            m.promises_created == 0 && m.promises_resolved == 0 && m.promises_rejected == 0,
            m.promises_pending == 0,
            m.modules_loaded == 0 && m.modules_cache_hits == 0 && m.modules_transpiled == 0,
            m.module_load_latency@.count == 0,
            m.snapshots_written == 0 && m.snapshots_loaded == 0 && m.snapshot_bytes == 0,
            m.eval_calls == 0 && m.eval_latency@.count == 0 && m.microtask_drains == 0,
            m.permission_checks_allowed == 0 && m.permission_checks_denied == 0,
    {
        RuntimeMetrics {
            agents_started: 0,
            agents_completed: 0,
            agents_failed: 0,
            agents_timed_out: 0,
            agents_active: 0,
            tool_calls_total: 0,
            tool_calls_failed: 0,
            tool_latency: Histogram::new(),
            promises_created: 0,
            promises_resolved: 0,
            promises_rejected: 0,
            promises_pending: 0,
            modules_loaded: 0,
            modules_cache_hits: 0,
            modules_transpiled: 0,
            module_load_latency: Histogram::new(),
            snapshots_written: 0,
            snapshots_loaded: 0,
            snapshot_bytes: 0,
            eval_calls: 0,
            eval_latency: Histogram::new(),
            microtask_drains: 0,
            permission_checks_allowed: 0,
            permission_checks_denied: 0,
        }
    }

    /// An agent started: one more started and one more active.
    pub fn agent_started(&mut self)
        ensures
            *final(self) == agent_event(*old(self), AgentEvent::Started),
            final(self).agents_started == inc(old(self).agents_started),
            final(self).agents_active == i64_specs::wrapping_add(old(self).agents_active, 1),
            final(self).agents_completed == old(self).agents_completed,
            final(self).agents_failed == old(self).agents_failed,
            final(self).agents_timed_out == old(self).agents_timed_out,
            *final(self) == (RuntimeMetrics {
                agents_started: final(self).agents_started,
                agents_active: final(self).agents_active,
                ..*old(self)
            }),
    {
        self.agents_started = self.agents_started.wrapping_add(1);
        self.agents_active = self.agents_active.wrapping_add(1);
    }

    /// An agent completed: one more completed and one less active.
    pub fn agent_completed(&mut self)
        ensures
            *final(self) == agent_event(*old(self), AgentEvent::Completed),
            final(self).agents_completed == inc(old(self).agents_completed),
            final(self).agents_active == i64_specs::wrapping_sub(old(self).agents_active, 1),
            final(self).agents_started == old(self).agents_started,
            final(self).agents_failed == old(self).agents_failed,
            final(self).agents_timed_out == old(self).agents_timed_out,
            *final(self) == (RuntimeMetrics {
                agents_completed: final(self).agents_completed,
                agents_active: final(self).agents_active,
                ..*old(self)
            }),
    {
        self.agents_completed = self.agents_completed.wrapping_add(1);
        self.agents_active = self.agents_active.wrapping_sub(1);
    }

    /// An agent failed: one more failed and one less active.
    pub fn agent_failed(&mut self)
        ensures
            *final(self) == agent_event(*old(self), AgentEvent::Failed),
            final(self).agents_failed == inc(old(self).agents_failed),
            final(self).agents_active == i64_specs::wrapping_sub(old(self).agents_active, 1),
            final(self).agents_started == old(self).agents_started,
            final(self).agents_completed == old(self).agents_completed,
            final(self).agents_timed_out == old(self).agents_timed_out,
            *final(self) == (RuntimeMetrics {
                agents_failed: final(self).agents_failed,
                agents_active: final(self).agents_active,
                ..*old(self)
            }),
    {
        self.agents_failed = self.agents_failed.wrapping_add(1);
        self.agents_active = self.agents_active.wrapping_sub(1);
    }

    /// An agent timed out: one more timed out and one less active.
    pub fn agent_timed_out(&mut self)
        ensures
            *final(self) == agent_event(*old(self), AgentEvent::TimedOut),
            final(self).agents_timed_out == inc(old(self).agents_timed_out),
            final(self).agents_active == i64_specs::wrapping_sub(old(self).agents_active, 1),
            final(self).agents_started == old(self).agents_started,
            final(self).agents_completed == old(self).agents_completed,
            final(self).agents_failed == old(self).agents_failed,
            *final(self) == (RuntimeMetrics {
                agents_timed_out: final(self).agents_timed_out,
                agents_active: final(self).agents_active,
                ..*old(self)
            }),
    {
        self.agents_timed_out = self.agents_timed_out.wrapping_add(1);
        self.agents_active = self.agents_active.wrapping_sub(1);
    }

    /// A tool call completed after `duration_us`.
    pub fn tool_call_completed(&mut self, duration_us: u64)
        requires
            metrics_wf(old(self)),
        ensures
            metrics_wf(final(self)),
            final(self).tool_calls_total == inc(old(self).tool_calls_total),
            final(self).tool_latency@ == recorded(old(self).tool_latency@, duration_us),
            final(self).tool_calls_failed == old(self).tool_calls_failed,
            *final(self) == (RuntimeMetrics {
                tool_calls_total: final(self).tool_calls_total,
                tool_latency: final(self).tool_latency,
                ..*old(self)
            }),
    {
        self.tool_calls_total = self.tool_calls_total.wrapping_add(1);
        self.tool_latency.record(duration_us);
    }

    /// A tool call failed.
    pub fn tool_call_failed(&mut self)
        ensures
            final(self).tool_calls_failed == inc(old(self).tool_calls_failed),
            final(self).tool_calls_total == old(self).tool_calls_total,
            *final(self) == (RuntimeMetrics {
                tool_calls_failed: final(self).tool_calls_failed,
                ..*old(self)
            }),
    {
        self.tool_calls_failed = self.tool_calls_failed.wrapping_add(1);
    }

    /// A promise was created: one more created and one more pending.
    pub fn promise_created(&mut self)
        ensures
            final(self).promises_created == inc(old(self).promises_created),
            final(self).promises_pending == i64_specs::wrapping_add(old(self).promises_pending, 1),
            final(self).promises_resolved == old(self).promises_resolved,
            final(self).promises_rejected == old(self).promises_rejected,
            *final(self) == (RuntimeMetrics {
                promises_created: final(self).promises_created,
                promises_pending: final(self).promises_pending,
                ..*old(self)
            }),
    {
        self.promises_created = self.promises_created.wrapping_add(1);
        self.promises_pending = self.promises_pending.wrapping_add(1);
    }

    /// A promise resolved: one more resolved and one less pending.
    pub fn promise_resolved(&mut self)
        ensures
            final(self).promises_resolved == inc(old(self).promises_resolved),
            final(self).promises_pending == i64_specs::wrapping_sub(old(self).promises_pending, 1),
            final(self).promises_created == old(self).promises_created,
            final(self).promises_rejected == old(self).promises_rejected,
            *final(self) == (RuntimeMetrics {
                promises_resolved: final(self).promises_resolved,
                promises_pending: final(self).promises_pending,
                ..*old(self)
            }),
    {
        self.promises_resolved = self.promises_resolved.wrapping_add(1);
        self.promises_pending = self.promises_pending.wrapping_sub(1);
    }

    /// A promise was rejected: one more rejected and one less pending.
    pub fn promise_rejected(&mut self)
        ensures
            final(self).promises_rejected == inc(old(self).promises_rejected),
            final(self).promises_pending == i64_specs::wrapping_sub(old(self).promises_pending, 1),
            final(self).promises_created == old(self).promises_created,
            final(self).promises_resolved == old(self).promises_resolved,
            *final(self) == (RuntimeMetrics {
                promises_rejected: final(self).promises_rejected,
                promises_pending: final(self).promises_pending,
                ..*old(self)
            }),
    {
        self.promises_rejected = self.promises_rejected.wrapping_add(1);
        self.promises_pending = self.promises_pending.wrapping_sub(1);
    }

    /// A module was loaded after `duration_us`, from the cache or not,
    /// transpiled or not.
    pub fn module_loaded(&mut self, was_cache_hit: bool, was_transpiled: bool, duration_us: u64)
        requires
            metrics_wf(old(self)),
        ensures
            metrics_wf(final(self)),
            final(self).modules_loaded == inc(old(self).modules_loaded),
            final(self).modules_cache_hits == if was_cache_hit {
                inc(old(self).modules_cache_hits)
            } else {
                old(self).modules_cache_hits
            },
            final(self).modules_transpiled == if was_transpiled {
                inc(old(self).modules_transpiled)
            } else {
                old(self).modules_transpiled
            },
            final(self).module_load_latency@ == recorded(old(self).module_load_latency@, duration_us),
            *final(self) == (RuntimeMetrics {
                modules_loaded: final(self).modules_loaded,
                modules_cache_hits: final(self).modules_cache_hits,
                modules_transpiled: final(self).modules_transpiled,
                module_load_latency: final(self).module_load_latency,
                ..*old(self)
            }),
    {
        self.modules_loaded = self.modules_loaded.wrapping_add(1);
        if was_cache_hit {
            self.modules_cache_hits = self.modules_cache_hits.wrapping_add(1);
        }
        if was_transpiled {
            self.modules_transpiled = self.modules_transpiled.wrapping_add(1);
        }
        self.module_load_latency.record(duration_us);
    }

    /// An evaluation completed after `duration_us`.
    pub fn eval_completed(&mut self, duration_us: u64)
        requires
            metrics_wf(old(self)),
        ensures
            metrics_wf(final(self)),
            final(self).eval_calls == inc(old(self).eval_calls),
            final(self).eval_latency@ == recorded(old(self).eval_latency@, duration_us),
            *final(self) == (RuntimeMetrics {
                eval_calls: final(self).eval_calls,
                eval_latency: final(self).eval_latency,
                ..*old(self)
            }),
    {
        self.eval_calls = self.eval_calls.wrapping_add(1);
        self.eval_latency.record(duration_us);
    }

    /// A permission check allowed the operation.
    pub fn permission_allowed(&mut self)
        ensures
            final(self).permission_checks_allowed == inc(old(self).permission_checks_allowed),
            final(self).permission_checks_denied == old(self).permission_checks_denied,
            *final(self) == (RuntimeMetrics {
                permission_checks_allowed: final(self).permission_checks_allowed,
                ..*old(self)
            }),
    {
        self.permission_checks_allowed = self.permission_checks_allowed.wrapping_add(1);
    }

    /// A permission check denied the operation.
    pub fn permission_denied(&mut self)
        ensures
            final(self).permission_checks_denied == inc(old(self).permission_checks_denied),
            final(self).permission_checks_allowed == old(self).permission_checks_allowed,
            *final(self) == (RuntimeMetrics {
                permission_checks_denied: final(self).permission_checks_denied,
                ..*old(self)
            }),
    {
        self.permission_checks_denied = self.permission_checks_denied.wrapping_add(1);
    }
}

/// An event in an agent's life, as the metrics count it.
pub enum AgentEvent {
    Started,
    Completed,
    Failed,
    TimedOut,
}

/// The metrics after `e`, as `agent_started`, `agent_completed`,
/// `agent_failed` and `agent_timed_out` leave them.
pub open spec fn agent_event(m: RuntimeMetrics, e: AgentEvent) -> RuntimeMetrics {
    match e {
        AgentEvent::Started => RuntimeMetrics {
            agents_started: inc(m.agents_started),
            agents_active: i64_specs::wrapping_add(m.agents_active, 1),
            ..m
        },
        AgentEvent::Completed => RuntimeMetrics {
            agents_completed: inc(m.agents_completed),
            agents_active: i64_specs::wrapping_sub(m.agents_active, 1),
            ..m
        },
        AgentEvent::Failed => RuntimeMetrics {
            agents_failed: inc(m.agents_failed),
            agents_active: i64_specs::wrapping_sub(m.agents_active, 1),
            ..m
        },
        AgentEvent::TimedOut => RuntimeMetrics {
            agents_timed_out: inc(m.agents_timed_out),
            agents_active: i64_specs::wrapping_sub(m.agents_active, 1),
            ..m
        },
    }
}

/// The metrics after `es`, in order.
pub open spec fn agent_events(m: RuntimeMetrics, es: Seq<AgentEvent>) -> RuntimeMetrics
    decreases es.len(),
{
    if es.len() == 0 {
        m
    } else {
        agent_event(agent_events(m, es.drop_last()), es.last())
    }
}

/// Whether the active count is the started count less the completed,
/// failed and timed-out counts, in the 64-bit arithmetic the counters wrap
/// in (so `agents_active` is that difference taken as an `i64`).
pub open spec fn agents_balanced(m: RuntimeMetrics) -> bool {
    (m.agents_active - m.agents_started + m.agents_completed + m.agents_failed + m.agents_timed_out)
        % 0x1_0000_0000_0000_0000int == 0
}

/// The active count balances: metrics that start balanced (new metrics do,
/// all counters being zero) stay balanced through any run of agent starts
/// and ends; so whenever started minus completed, failed and timed out fits
/// the active counter, the active count is exactly that.
pub proof fn law_agent_lifecycle_balances(m: RuntimeMetrics, es: Seq<AgentEvent>)
    requires
        agents_balanced(m),
    ensures
        agents_balanced(agent_events(m, es)),
        ({
            let q = agent_events(m, es);
            let d = q.agents_started - q.agents_completed - q.agents_failed - q.agents_timed_out;
            i64::MIN <= d <= i64::MAX ==> q.agents_active == d
        }),
    decreases es.len(),
{
    if es.len() > 0 {
        law_agent_lifecycle_balances(m, es.drop_last());
        lemma_event_keeps_balance(agent_events(m, es.drop_last()), es.last());
    }
    lemma_balanced_exact(agent_events(m, es));
}

/// Balanced metrics whose started-minus-ended count fits the active counter
/// hold exactly that count.
proof fn lemma_balanced_exact(q: RuntimeMetrics)
    requires
        agents_balanced(q),
    ensures
        ({
            let d = q.agents_started - q.agents_completed - q.agents_failed - q.agents_timed_out;
            i64::MIN <= d <= i64::MAX ==> q.agents_active == d
        }),
{
    let n: int = 0x1_0000_0000_0000_0000int;
    let g = agent_gap(q);
    let d = q.agents_started - q.agents_completed - q.agents_failed - q.agents_timed_out;
    if i64::MIN <= d <= i64::MAX {
        assert(-n < g < n);
        vstd::arithmetic::div_mod::lemma_fundamental_div_mod(g, n);
        assert(g % n == 0);
        assert(g == n * (g / n));
        assert(-1 < g / n < 1) by (nonlinear_arith)
            requires
                g == n * (g / n),
                -n < g < n,
                n > 0,
        ;
    }
}

/// The difference the balance speaks of.
spec fn agent_gap(m: RuntimeMetrics) -> int {
    m.agents_active - m.agents_started + m.agents_completed + m.agents_failed + m.agents_timed_out
}

proof fn lemma_event_keeps_balance(p: RuntimeMetrics, e: AgentEvent)
    requires
        agents_balanced(p),
    ensures
        agents_balanced(agent_event(p, e)),
{
    let n: int = 0x1_0000_0000_0000_0000int;
    let q = agent_event(p, e);
    assert(agents_balanced(p) == (agent_gap(p) % n == 0));
    let k: int = (agent_gap(q) - agent_gap(p)) / n;
    assert(agent_gap(q) == n * k + agent_gap(p) && -2 <= k <= 2) by {
        let d = agent_gap(q) - agent_gap(p);
        assert(d == 0 || d == n || d == -n || d == 2 * n || d == -2 * n);
    }
    vstd::arithmetic::div_mod::lemma_mod_multiples_vanish(k, agent_gap(p), n);
}

/// Recording a duration counts it once, in exactly one bucket.
pub proof fn law_record_counts_one_bucket(h: HistogramView, duration_us: u64, i: int)
    requires
        h.buckets.len() == 6,
        0 <= i < 6,
    ensures
        recorded(h, duration_us).count == u64_specs::wrapping_add(h.count, 1),
        recorded(h, duration_us).buckets[i] == if i == bucket_of(duration_us) {
            u64_specs::wrapping_add(h.buckets[i], 1)
        } else {
            h.buckets[i]
        },
{
}

} // verus!
