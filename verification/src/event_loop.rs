//! The decisions of the event loop: timers (one-shot and interval), which
//! of them are due, and what each task of the loop does. Waiting, sending
//! and the engine calls are the caller's part; times are microseconds on
//! the caller's monotonic clock.
use vstd::prelude::*;

verus! {

/// A task queued on the event loop.
#[derive(Debug)]
pub enum LoopTask {
    /// Engine microtasks to drain.
    Microtask,
    /// Timer callback ready to fire.
    Timer { id: u64 },
    /// I/O event ready for its engine callback.
    IoReady { handle: u64, data: Vec<u8> },
    /// Shut down the event loop.
    Shutdown,
}

/// Handle to a registered timer.
#[derive(Clone, Copy, PartialEq, Eq, Structural, Debug, Hash)]
pub struct TimerId(pub u64);

/// A timer: when it is due, its period if it repeats, and whether it is
/// still armed.
#[derive(Clone, Copy, PartialEq, Eq, Structural, Debug)]
pub struct TimerEntry {
    pub deadline_us: u64,
    pub interval_us: Option<u64>,
    pub active: bool,
}

/// The timers of a loop, by increasing identifier, and the next identifier.
#[derive(Debug)]
pub struct TimerTable {
    timers: Vec<(u64, TimerEntry)>,
    next_id: u64,
}

/// The mathematical value of a timer table.
pub struct TimerTableView {
    pub timers: Seq<(u64, TimerEntry)>,
    pub next_id: u64,
}

impl View for TimerTable {
    type V = TimerTableView;

    closed spec fn view(&self) -> TimerTableView {
        TimerTableView { timers: self.timers@, next_id: self.next_id }
    }
}

/// Identifiers increase along the table, and stay below the next one.
pub open spec fn table_wf(t: TimerTableView) -> bool {
    &&& forall|i: int, j: int| 0 <= i < j < t.timers.len() ==> t.timers[i].0 < t.timers[j].0
    &&& forall|i: int| 0 <= i < t.timers.len() ==> #[trigger] t.timers[i].0 < t.next_id
    &&& t.next_id >= 1
}

/// Whether a timer is due at `now`.
pub open spec fn is_due(e: TimerEntry, now: u64) -> bool {
    e.active && now >= e.deadline_us
}

/// A timer after it fires at `now`: an interval timer is due again one
/// period later; a one-shot timer is disarmed. A timer not due is unchanged.
pub open spec fn after_fire(e: TimerEntry, now: u64) -> TimerEntry {
    if is_due(e, now) {
        match e.interval_us {
            Some(p) => TimerEntry { deadline_us: (now + p) as u64, ..e },
            None => TimerEntry { active: false, ..e },
        }
    } else {
        e
    }
}

/// The table after every timer due at `now` fires (see [`after_fire`]).
pub open spec fn fired_table(t: TimerTableView, now: u64) -> TimerTableView {
    TimerTableView {
        timers: Seq::new(t.timers.len(), |i: int| (t.timers[i].0, after_fire(t.timers[i].1, now))),
        next_id: t.next_id,
    }
}

/// A timer when its timer task arrives at `now`: armed, an interval timer
/// is due again one period later and a one-shot timer is disarmed; a
/// disarmed timer is unchanged.
pub open spec fn on_timer_entry(e: TimerEntry, now: u64) -> TimerEntry {
    if e.active {
        match e.interval_us {
            Some(p) => TimerEntry { deadline_us: (now + p) as u64, ..e },
            None => TimerEntry { active: false, ..e },
        }
    } else {
        e
    }
}

/// The table after the timer task of timer `id` arrives at `now`.
pub open spec fn timer_task_table(t: TimerTableView, id: u64, now: u64) -> TimerTableView {
    TimerTableView {
        timers: Seq::new(
            t.timers.len(),
            |i: int|
                if t.timers[i].0 == id {
                    (t.timers[i].0, on_timer_entry(t.timers[i].1, now))
                } else {
                    t.timers[i]
                },
        ),
        next_id: t.next_id,
    }
}

/// The identifiers of the timers due at `now`, in table order.
pub open spec fn due_ids(ts: Seq<(u64, TimerEntry)>, now: u64) -> Seq<u64>
    decreases ts.len(),
{
    if ts.len() == 0 {
        Seq::empty()
    } else {
        due_ids(ts.drop_last(), now) + if is_due(ts.last().1, now) {
            seq![ts.last().0]
        } else {
            Seq::empty()
        }
    }
}

/// The earliest deadline of an armed timer among `ts`.
pub open spec fn earliest(ts: Seq<(u64, TimerEntry)>) -> Option<u64>
    decreases ts.len(),
{
    if ts.len() == 0 {
        None
    } else {
        let rest = earliest(ts.drop_last());
        let e = ts.last().1;
        if !e.active {
            rest
        } else {
            match rest {
                Some(d) => Some(if e.deadline_us < d { e.deadline_us } else { d }),
                None => Some(e.deadline_us),
            }
        }
    }
}

/// Whether every interval timer due at `now` can be rescheduled without
/// overflowing the clock.
pub open spec fn can_fire(ts: Seq<(u64, TimerEntry)>, now: u64) -> bool {
    forall|i: int|
        0 <= i < ts.len() && #[trigger] is_due(ts[i].1, now) ==> (ts[i].1.interval_us matches Some(
            p,
        ) ==> now + p <= u64::MAX)
}

/// What the loop does next, given the earliest armed deadline.
#[derive(Debug)]
pub enum LoopWait {
    /// A timer is already due: drain now.
    DrainNow,
    /// Wait for a message, or until this deadline.
    Until(u64),
    /// Wait for a message.
    Message,
}

/// What a task makes the loop do.
#[derive(Debug)]
pub enum LoopAction {
    /// Shut down.
    Stop,
    /// Send a timer task for each of these timers (they fired).
    SendTimers(Vec<u64>),
    /// The loop goes on.
    Continue,
}

impl TimerTable {
    /// No timers; identifiers start at 1.
    pub fn new() -> (t: Self)
        ensures
            t@.timers.len() == 0,
            t@.next_id == 1,
            table_wf(t@),
    {
        TimerTable { timers: Vec::new(), next_id: 1 }
    }

    /// No timers; identifiers start at `first_id`, so that tables can share
    /// one numbering.
    pub fn starting_at(first_id: u64) -> (t: Self)
        requires
            first_id >= 1,
        ensures
            t@.timers.len() == 0,
            t@.next_id == first_id,
            table_wf(t@),
    {
        TimerTable { timers: Vec::new(), next_id: first_id }
    }

    /// The identifier the next timer gets.
    pub fn next_id(&self) -> (n: u64)
        ensures
            n == self@.next_id,
    {
        self.next_id
    }

    /// Moves the numbering on to `id`: the next timer gets `id`.
    pub fn advance_ids_to(&mut self, id: u64)
        requires
            table_wf(old(self)@),
            old(self)@.next_id <= id,
        ensures
            table_wf(final(self)@),
            final(self)@.timers == old(self)@.timers,
            final(self)@.next_id == id,
    {
        let ghost t0 = self@;
        self.next_id = id;
        assert forall|i: int| 0 <= i < self@.timers.len() implies #[trigger] self@.timers[i].0 < self@.next_id by {
            assert(t0.timers[i].0 < t0.next_id);
        }
    }

    fn add(&mut self, entry: TimerEntry) -> (id: TimerId)
        requires
            table_wf(old(self)@),
            old(self)@.next_id < u64::MAX,
        ensures
            table_wf(final(self)@),
            id.0 == old(self)@.next_id,
            final(self)@.timers == old(self)@.timers.push((id.0, entry)),
            final(self)@.next_id == old(self)@.next_id + 1,
    {
        let ghost t0 = self@.timers;
        let id = self.next_id;
        self.next_id = self.next_id + 1;
        self.timers.push((id, entry));
        proof {
            let t = self@.timers;
            assert forall|i: int, j: int| 0 <= i < j < t.len() implies t[i].0 < t[j].0 by {
                assert(t[i] == t0[i]);
                if j < t0.len() {
                    assert(t[j] == t0[j]);
                }
            }
            assert forall|i: int| 0 <= i < t.len() implies #[trigger] t[i].0 < self@.next_id by {
                if i < t0.len() {
                    assert(t[i] == t0[i]);
                }
            }
        }
        TimerId(id)
    }

    /// Registers a one-shot timer due `delay_us` after `now_us`.
    pub fn set_timeout(&mut self, now_us: u64, delay_us: u64) -> (id: TimerId)
        requires
            table_wf(old(self)@),
            old(self)@.next_id < u64::MAX,
            now_us + delay_us <= u64::MAX,
        ensures
            table_wf(final(self)@),
            id.0 == old(self)@.next_id,
            final(self)@.timers == old(self)@.timers.push(
                (id.0, TimerEntry { deadline_us: (now_us + delay_us) as u64, interval_us: None, active: true }),
            ),
            final(self)@.next_id == old(self)@.next_id + 1,
    {
        self.add(TimerEntry { deadline_us: now_us + delay_us, interval_us: None, active: true })
    }

    /// Registers an interval timer, first due `period_us` after `now_us`.
    pub fn set_interval(&mut self, now_us: u64, period_us: u64) -> (id: TimerId)
        requires
            table_wf(old(self)@),
            old(self)@.next_id < u64::MAX,
            now_us + period_us <= u64::MAX,
        ensures
            table_wf(final(self)@),
            id.0 == old(self)@.next_id,
            final(self)@.timers == old(self)@.timers.push(
                (
                    id.0,
                    TimerEntry {
                        deadline_us: (now_us + period_us) as u64,
                        interval_us: Some(period_us),
                        active: true,
                    },
                ),
            ),
            final(self)@.next_id == old(self)@.next_id + 1,
    {
        self.add(
            TimerEntry { deadline_us: now_us + period_us, interval_us: Some(period_us), active: true },
        )
    }

    /// Disarms timer `id` (no change when there is none).
    pub fn clear_timer(&mut self, id: TimerId)
        requires
            table_wf(old(self)@),
        ensures
            table_wf(final(self)@),
            final(self)@.next_id == old(self)@.next_id,
            final(self)@.timers.len() == old(self)@.timers.len(),
            forall|i: int|
                0 <= i < old(self)@.timers.len() ==> #[trigger] final(self)@.timers[i] == if old(
                    self,
                )@.timers[i].0 == id.0 {
                    (id.0, TimerEntry { active: false, ..old(self)@.timers[i].1 })
                } else {
                    old(self)@.timers[i]
                },
    {
        let ghost t0 = self@.timers;
        let mut i: usize = 0;
        while i < self.timers.len()
            invariant
                i <= self.timers@.len(),
                self.timers@.len() == t0.len(),
                self.next_id == old(self)@.next_id,
                table_wf(old(self)@),
                t0 == old(self)@.timers,
                forall|j: int|
                    0 <= j < t0.len() ==> #[trigger] self.timers@[j] == if j < i && t0[j].0 == id.0 {
                        (id.0, TimerEntry { active: false, ..t0[j].1 })
                    } else {
                        t0[j]
                    },
            decreases self.timers.len() - i,
        {
            let (tid, e) = self.timers[i];
            if tid == id.0 {
                self.timers.set(i, (tid, TimerEntry { active: false, ..e }));
            }
            i = i + 1;
        }
    }

    /// The earliest deadline of an armed timer.
    pub fn next_deadline(&self) -> (d: Option<u64>)
        ensures
            d == earliest(self@.timers),
    {
        let mut best: Option<u64> = None;
        let mut i: usize = 0;
        while i < self.timers.len()
            invariant
                i <= self.timers@.len(),
                best == earliest(self.timers@.take(i as int)),
            decreases self.timers.len() - i,
        {
            let e = self.timers[i].1;
            assert(self.timers@.take(i + 1).drop_last() =~= self.timers@.take(i as int));
            if e.active {
                best = match best {
                    Some(d) => Some(if e.deadline_us < d { e.deadline_us } else { d }),
                    None => Some(e.deadline_us),
                };
            }
            i = i + 1;
        }
        assert(self.timers@.take(self.timers@.len() as int) =~= self.timers@);
        best
    }

    /// Fires every timer due at `now_us` (see [`after_fire`]) and returns
    /// their identifiers in table order.
    pub fn fire_expired(&mut self, now_us: u64) -> (ids: Vec<u64>)
        requires
            table_wf(old(self)@),
            can_fire(old(self)@.timers, now_us),
        ensures
            table_wf(final(self)@),
            ids@ == due_ids(old(self)@.timers, now_us),
            final(self)@.next_id == old(self)@.next_id,
            final(self)@.timers.len() == old(self)@.timers.len(),
            forall|i: int|
                0 <= i < old(self)@.timers.len() ==> #[trigger] final(self)@.timers[i] == (
                old(self)@.timers[i].0,
                after_fire(old(self)@.timers[i].1, now_us),
            ),
    {
        let ghost t0 = self@.timers;
        let mut ids: Vec<u64> = Vec::new();
        let mut i: usize = 0;
        while i < self.timers.len()
            invariant
                i <= self.timers@.len(),
                self.timers@.len() == t0.len(),
                self.next_id == old(self)@.next_id,
                t0 == old(self)@.timers,
                table_wf(old(self)@),
                can_fire(t0, now_us),
                ids@ == due_ids(t0.take(i as int), now_us),
                forall|j: int|
                    0 <= j < t0.len() ==> #[trigger] self.timers@[j] == if j < i {
                        (t0[j].0, after_fire(t0[j].1, now_us))
                    } else {
                        t0[j]
                    },
            decreases self.timers.len() - i,
        {
            let (tid, e) = self.timers[i];
            assert(t0.take(i + 1).drop_last() =~= t0.take(i as int));
            assert(t0[i as int] == (tid, e));
            if e.active && now_us >= e.deadline_us {
                ids.push(tid);
                let updated = match e.interval_us {
                    Some(p) => {
                        assert(is_due(t0[i as int].1, now_us));
                        TimerEntry { deadline_us: now_us + p, ..e }
                    },
                    None => TimerEntry { active: false, ..e },
                };
                self.timers.set(i, (tid, updated));
            }
            i = i + 1;
        }
        assert(t0.take(t0.len() as int) =~= t0);
        ids
    }

    /// A timer task for timer `id` at `now_us`: an armed interval timer is
    /// due again one period later, an armed one-shot timer is disarmed.
    pub fn on_timer(&mut self, id: u64, now_us: u64)
        requires
            table_wf(old(self)@),
            forall|i: int|
                0 <= i < old(self)@.timers.len() && old(self)@.timers[i].0 == id && old(
                    self,
                )@.timers[i].1.active ==> (#[trigger] old(self)@.timers[i].1.interval_us matches Some(p)
                    ==> now_us + p <= u64::MAX),
        ensures
            table_wf(final(self)@),
            final(self)@.next_id == old(self)@.next_id,
            final(self)@.timers.len() == old(self)@.timers.len(),
            forall|i: int|
                0 <= i < old(self)@.timers.len() ==> #[trigger] final(self)@.timers[i] == if old(
                    self,
                )@.timers[i].0 == id && old(self)@.timers[i].1.active {
                    (
                        id,
                        match old(self)@.timers[i].1.interval_us {
                            Some(p) => TimerEntry {
                                deadline_us: (now_us + p) as u64,
                                ..old(self)@.timers[i].1
                            },
                            None => TimerEntry { active: false, ..old(self)@.timers[i].1 },
                        },
                    )
                } else {
                    old(self)@.timers[i]
                },
    {
        let ghost t0 = self@.timers;
        let mut i: usize = 0;
        while i < self.timers.len()
            invariant
                i <= self.timers@.len(),
                self.timers@.len() == t0.len(),
                self.next_id == old(self)@.next_id,
                t0 == old(self)@.timers,
                table_wf(old(self)@),
                forall|k: int|
                    0 <= k < t0.len() && t0[k].0 == id && t0[k].1.active ==> (
                    #[trigger] t0[k].1.interval_us matches Some(p) ==> now_us + p <= u64::MAX),
                forall|j: int|
                    0 <= j < t0.len() ==> #[trigger] self.timers@[j] == if j < i && t0[j].0 == id
                        && t0[j].1.active {
                        (
                            id,
                            match t0[j].1.interval_us {
                                Some(p) => TimerEntry { deadline_us: (now_us + p) as u64, ..t0[j].1 },
                                None => TimerEntry { active: false, ..t0[j].1 },
                            },
                        )
                    } else {
                        t0[j]
                    },
            decreases self.timers.len() - i,
        {
            let (tid, e) = self.timers[i];
            assert(t0[i as int] == (tid, e));
            if tid == id && e.active {
                let updated = match e.interval_us {
                    Some(p) => {
                        assert(t0[i as int].1.interval_us matches Some(p));
                        TimerEntry { deadline_us: now_us + p, ..e }
                    },
                    None => TimerEntry { active: false, ..e },
                };
                self.timers.set(i, (tid, updated));
            }
            i = i + 1;
        }
    }
}

/// How the loop waits, given the earliest armed deadline and the time.
pub fn next_wait(next_deadline: Option<u64>, now_us: u64) -> (w: LoopWait)
    ensures
        match next_deadline {
            Some(d) => if now_us >= d {
                w is DrainNow
            } else {
                w matches LoopWait::Until(x) && x == d
            },
            None => w is Message,
        },
{
    match next_deadline {
        Some(d) => if now_us >= d {
            LoopWait::DrainNow
        } else {
            LoopWait::Until(d)
        },
        None => LoopWait::Message,
    }
}

/// What one task makes the loop do at `now_us`: shutdown (or a closed
/// channel, `None`) stops it; a microtask drain fires the due timers; a
/// timer task re-arms or disarms its timer; an I/O event needs nothing more.
pub fn handle_task(table: &mut TimerTable, task: Option<LoopTask>, now_us: u64) -> (a: LoopAction)
    requires
        table_wf(old(table)@),
        can_fire(old(table)@.timers, now_us),
        forall|i: int|
            0 <= i < old(table)@.timers.len() && old(table)@.timers[i].1.active ==> (
            #[trigger] old(table)@.timers[i].1.interval_us matches Some(p) ==> now_us + p
                <= u64::MAX),
    ensures
        table_wf(final(table)@),
        match task {
            None => a is Stop && final(table)@ == old(table)@,
            Some(LoopTask::Shutdown) => a is Stop && final(table)@ == old(table)@,
            Some(LoopTask::Microtask) => a matches LoopAction::SendTimers(ids) && ids@ == due_ids(
                old(table)@.timers,
                now_us,
            ) && final(table)@ == fired_table(old(table)@, now_us),
            Some(LoopTask::Timer { id }) => a is Continue && final(table)@ == timer_task_table(
                old(table)@,
                id,
                now_us,
            ),
            Some(LoopTask::IoReady { .. }) => a is Continue && final(table)@ == old(table)@,
        },
{
    match task {
        None => LoopAction::Stop,
        Some(LoopTask::Shutdown) => LoopAction::Stop,
        Some(LoopTask::Microtask) => {
            let ids = table.fire_expired(now_us);
            assert(table@.timers =~= fired_table(old(table)@, now_us).timers);
            LoopAction::SendTimers(ids)
        },
        Some(LoopTask::Timer { id }) => {
            table.on_timer(id, now_us);
            assert(table@.timers =~= timer_task_table(old(table)@, id, now_us).timers);
            LoopAction::Continue
        },
        Some(LoopTask::IoReady { .. }) => LoopAction::Continue,
    }
}

/// A one-shot timer fires once: after firing it is disarmed, so it is not
/// due again.
pub proof fn law_timeout_fires_once(e: TimerEntry, now: u64, later: u64)
    requires
        e.interval_us is None,
        is_due(e, now),
    ensures
        !is_due(after_fire(e, now), later),
{
}

/// An interval timer that fires is due again exactly one period later.
pub proof fn law_interval_rearms(e: TimerEntry, now: u64, p: u64)
    requires
        e.interval_us == Some(p),
        is_due(e, now),
        now + p <= u64::MAX,
    ensures
        after_fire(e, now).active,
        after_fire(e, now).deadline_us == now + p,
{
}

} // verus!
