//! A deterministic clock that can be live, frozen, or stepping.
//!
//! Live: real wall time. Frozen: a fixed virtual time. Stepping: the virtual
//! time, which then advances by a fixed step on each reading.
use vstd::prelude::*;

verus! {

/// The current wall-clock time in microseconds since the UNIX epoch
/// (`std::time::SystemTime::now`, measured from `UNIX_EPOCH`, zero before
/// it). Nothing is stated of the value: it is the machine's time.
#[verifier::external_body]
pub(crate) fn wall_clock_micros() -> u64 {
    std::time::SystemTime::now().duration_since(std::time::UNIX_EPOCH).unwrap_or_default().as_micros() as u64
}

/// `std::time::Instant`, a reading of the monotonic clock.
#[verifier::external_type_specification]
#[verifier::external_body]
pub struct ExInstant(std::time::Instant);

/// A reading of the monotonic clock (`std::time::Instant::now`). Nothing is
/// stated of it: it is the machine's time.
#[verifier::external_body]
pub(crate) fn monotonic_now() -> std::time::Instant {
    std::time::Instant::now()
}

/// Whole microseconds elapsed since `start` (`Instant::elapsed`, as
/// microseconds, truncated to 64 bits). Nothing is stated of the value: it
/// is the machine's time.
#[verifier::external_body]
pub(crate) fn micros_since(start: &std::time::Instant) -> u64 {
    start.elapsed().as_micros() as u64
}

/// How a clock answers.
#[derive(Clone, Copy, PartialEq, Eq, Structural, Debug)]
pub enum ClockMode {
    /// Real wall-clock time.
    Live,
    /// A fixed timestamp that does not advance.
    Frozen,
    /// Advances by `step_us` microseconds on each reading.
    Stepping { step_us: u64 },
}

/// An injectable, deterministic time source.
#[derive(Debug)]
pub struct DeterministicClock {
    mode: ClockMode,
    /// Current virtual time in microseconds since the UNIX epoch (unused
    /// while live).
    virtual_us: u64,
    /// Number of readings so far.
    call_count: u64,
}

/// The mathematical value of a clock.
pub struct ClockView {
    pub mode: ClockMode,
    pub virtual_us: u64,
    pub call_count: u64,
}

impl View for DeterministicClock {
    type V = ClockView;

    closed spec fn view(&self) -> ClockView {
        ClockView { mode: self.mode, virtual_us: self.virtual_us, call_count: self.call_count }
    }
}

/// Whether a clock can be read without overflowing its counters.
pub open spec fn can_read(c: ClockView) -> bool {
    &&& c.call_count < u64::MAX
    &&& c.mode matches ClockMode::Stepping { step_us } ==> c.virtual_us + step_us <= u64::MAX
}

/// A reading of a deterministic clock: the clock after it, and the time it
/// gives (`None` for a live clock, whose time is the machine's).
pub open spec fn read(c: ClockView) -> (ClockView, Option<u64>) {
    let counted = ClockView { call_count: (c.call_count + 1) as u64, ..c };
    match c.mode {
        ClockMode::Live => (counted, None),
        ClockMode::Frozen => (counted, Some(c.virtual_us)),
        ClockMode::Stepping { step_us } => (
            ClockView { virtual_us: (c.virtual_us + step_us) as u64, ..counted },
            Some(c.virtual_us),
        ),
    }
}

impl DeterministicClock {
    /// A live clock: real wall time.
    pub fn live() -> (c: Self)
        ensures
            c@ == (ClockView { mode: ClockMode::Live, virtual_us: 0, call_count: 0 }),
    {
        DeterministicClock { mode: ClockMode::Live, virtual_us: 0, call_count: 0 }
    }

    /// A frozen clock: always `frozen_at_us`.
    pub fn frozen(frozen_at_us: u64) -> (c: Self)
        ensures
            c@ == (ClockView { mode: ClockMode::Frozen, virtual_us: frozen_at_us, call_count: 0 }),
    {
        DeterministicClock { mode: ClockMode::Frozen, virtual_us: frozen_at_us, call_count: 0 }
    }

    /// A stepping clock: starts at `start_us`, advances by `step_us` on each
    /// reading.
    pub fn stepping(start_us: u64, step_us: u64) -> (c: Self)
        ensures
            c@ == (ClockView {
                mode: ClockMode::Stepping { step_us },
                virtual_us: start_us,
                call_count: 0,
            }),
    {
        DeterministicClock { mode: ClockMode::Stepping { step_us }, virtual_us: start_us, call_count: 0 }
    }

    /// A clock frozen at the current real time.
    pub fn freeze_now() -> (c: Self)
        ensures
            c@.mode == ClockMode::Frozen,
            c@.call_count == 0,
    {
        let now = wall_clock_micros();
        Self::frozen(now)
    }

    /// The current time in microseconds since the UNIX epoch (see [`read`]).
    pub fn now_us(&mut self) -> (t: u64)
        requires
            can_read(old(self)@),
        ensures
            final(self)@ == read(old(self)@).0,
            read(old(self)@).1 matches Some(v) ==> t == v,
    {
        self.call_count = self.call_count + 1;
        match self.mode {
            ClockMode::Live => wall_clock_micros(),
            ClockMode::Frozen => self.virtual_us,
            ClockMode::Stepping { step_us } => {
                let t = self.virtual_us;
                self.virtual_us = self.virtual_us + step_us;
                t
            },
        }
    }

    /// Advances the virtual clock by `delta_us` microseconds; no change while
    /// live.
    pub fn advance(&mut self, delta_us: u64)
        requires
            !(old(self)@.mode is Live) ==> old(self)@.virtual_us + delta_us <= u64::MAX,
        ensures
            final(self)@.mode == old(self)@.mode,
            final(self)@.call_count == old(self)@.call_count,
            final(self)@.virtual_us == if old(self)@.mode is Live {
                old(self)@.virtual_us as int
            } else {
                old(self)@.virtual_us + delta_us
            },
    {
        match self.mode {
            ClockMode::Live => {},
            _ => {
                self.virtual_us = self.virtual_us + delta_us;
            },
        }
    }

    /// Sets the virtual clock to an absolute time.
    pub fn set_time(&mut self, timestamp_us: u64)
        ensures
            final(self)@ == (ClockView { virtual_us: timestamp_us, ..old(self)@ }),
    {
        self.virtual_us = timestamp_us;
    }

    /// Switches to frozen mode at the current virtual time (at the real
    /// time, for a live clock).
    pub fn freeze(&mut self)
        ensures
            final(self)@.mode == ClockMode::Frozen,
            final(self)@.call_count == old(self)@.call_count,
            !(old(self)@.mode is Live) ==> final(self)@.virtual_us == old(self)@.virtual_us,
    {
        let current = match self.mode {
            ClockMode::Live => wall_clock_micros(),
            _ => self.virtual_us,
        };
        self.mode = ClockMode::Frozen;
        self.virtual_us = current;
    }

    /// The mode.
    pub fn mode(&self) -> (m: ClockMode)
        ensures
            m == self@.mode,
    {
        self.mode
    }

    /// Whether the clock is not live.
    pub fn is_deterministic(&self) -> (r: bool)
        ensures
            r == !(self@.mode is Live),
    {
        match self.mode {
            ClockMode::Live => false,
            _ => true,
        }
    }

    /// The number of readings so far.
    pub fn call_count(&self) -> (n: u64)
        ensures
            n == self@.call_count,
    {
        self.call_count
    }

    /// The virtual time.
    pub fn current_us(&self) -> (t: u64)
        ensures
            t == self@.virtual_us,
    {
        self.virtual_us
    }
}

/// A frozen clock never advances: two readings in a row give the same time.
pub proof fn law_frozen_clock_constant(c: ClockView)
    requires
        c.mode == ClockMode::Frozen,
    ensures
        read(read(c).0).1 == read(c).1,
        read(c).1 == Some(c.virtual_us),
{
}

/// A stepping clock gives its virtual time and then advances by its step:
/// the next reading is exactly one step later.
pub proof fn law_stepping_clock_advances(c: ClockView, step_us: u64)
    requires
        c.mode == (ClockMode::Stepping { step_us }),
        c.virtual_us + step_us <= u64::MAX,
    ensures
        read(c).1 == Some(c.virtual_us),
        read(read(c).0).1 == Some((c.virtual_us + step_us) as u64),
{
}

/// Every reading counts: the call count grows by one per reading, whatever
/// the mode.
pub proof fn law_reading_counts(c: ClockView)
    requires
        c.call_count < u64::MAX,
    ensures
        read(c).0.call_count == c.call_count + 1,
        read(c).0.mode == c.mode,
{
}

} // verus!
