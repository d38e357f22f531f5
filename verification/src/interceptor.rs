//! Routes the tool calls of a deterministic execution: reads and network
//! calls are served from the recording, writes are suppressed, time queries
//! read the deterministic clock, and pure computations pass through.
use vstd::prelude::*;

use crate::clock::{can_read, read, ClockView, DeterministicClock};
use crate::error::BuaError;
use crate::json::{spec_json_text, JsonValue};
use crate::replay::{
    call_matches, divergence, divergence_message, recorded_result, replay_step, DivergenceError, ReplayEngine,
    ReplayView,
};
use crate::text::{push_text, text_eq};

verus! {

/// Classification of a tool call's I/O characteristics.
#[derive(Clone, Copy, PartialEq, Eq, Structural, Debug)]
pub enum IoClass {
    /// Pure read — safe to replay from recording.
    Read,
    /// Write — must be suppressed in replay mode.
    Write,
    /// Network — replay from recording.
    Network,
    /// Pure computation — always allowed.
    Pure,
    /// Time query — redirected to the deterministic clock.
    TimeQuery,
}

/// The class of the tool named `name`.
pub open spec fn tool_class(name: Seq<char>) -> IoClass {
    if name == "bua_read_file"@ {
        IoClass::Read
    } else if name == "bua_write_file"@ || name == "bua_delete_file"@ || name == "bua_mkdir"@ {
        IoClass::Write
    } else if name == "bua_http_get"@ || name == "bua_http_post"@ || name == "bua_fetch"@ {
        IoClass::Network
    } else if name == "bua_time_now"@ {
        IoClass::TimeQuery
    } else {
        IoClass::Pure
    }
}

/// Classifies a tool call by its I/O behaviour (the arguments play no part).
pub fn classify_tool(name: &str, _args: &JsonValue) -> (c: IoClass)
    ensures
        c == tool_class(name@),
{
    if text_eq(name, "bua_read_file") {
        IoClass::Read
    } else if text_eq(name, "bua_write_file") || text_eq(name, "bua_delete_file") || text_eq(
        name,
        "bua_mkdir",
    ) {
        IoClass::Write
    } else if text_eq(name, "bua_http_get") || text_eq(name, "bua_http_post") || text_eq(
        name,
        "bua_fetch",
    ) {
        IoClass::Network
    } else if text_eq(name, "bua_time_now") {
        IoClass::TimeQuery
    } else {
        IoClass::Pure
    }
}

/// How an intercepted tool call is answered.
#[derive(Debug)]
pub enum InterceptResult {
    /// Return this recorded value to the caller.
    Replay(JsonValue),
    /// Write suppressed in deterministic mode.
    WriteSuppressed,
    /// The clock's time, in microseconds since the UNIX epoch.
    ClockInjected(u64),
    /// Pass through to live execution.
    Passthrough,
}

/// Intercepts tool calls during deterministic execution.
#[derive(Debug)]
pub struct IoInterceptor {
    replay: ReplayEngine,
    clock: DeterministicClock,
    /// True: writes are silently dropped; false: writes are errors.
    silent_writes: bool,
    /// Whether the interceptor is active.
    active: bool,
}

/// The mathematical value of an interceptor.
pub struct InterceptorView {
    pub replay: ReplayView,
    pub clock: ClockView,
    pub silent_writes: bool,
    pub active: bool,
}

impl View for IoInterceptor {
    type V = InterceptorView;

    closed spec fn view(&self) -> InterceptorView {
        InterceptorView {
            replay: self.replay@,
            clock: self.clock@,
            silent_writes: self.silent_writes,
            active: self.active,
        }
    }
}

/// The message of the error that refuses a write.
pub open spec fn write_refused_message(name: Seq<char>) -> Seq<char> {
    "write operation '"@ + name + "' not allowed in deterministic mode"@
}

impl IoInterceptor {
    /// An active interceptor over `replay` and `clock` that drops writes
    /// silently.
    pub fn new(replay: ReplayEngine, clock: DeterministicClock) -> (i: Self)
        ensures
            i@ == (InterceptorView {
                replay: replay@,
                clock: clock@,
                silent_writes: true,
                active: true,
            }),
    {
        IoInterceptor { replay, clock, silent_writes: true, active: true }
    }

    /// The same interceptor, dropping writes silently or refusing them.
    pub fn with_silent_writes(self, silent: bool) -> (i: Self)
        ensures
            i@ == (InterceptorView { silent_writes: silent, ..self@ }),
    {
        let mut s = self;
        s.silent_writes = silent;
        s
    }

    /// Intercepts a call of `tool_name` with `args` and says how to answer
    /// it.
    ///
    /// Inactive: pass through. Otherwise by the tool's class: pure calls pass
    /// through; time queries read the clock; writes are suppressed, or
    /// refused when writes are not silent; reads and network calls are
    /// served by the replay engine, and a divergence becomes an internal
    /// error carrying its message.
    pub fn intercept(&mut self, tool_name: &str, args: &JsonValue) -> (r: Result<
        InterceptResult,
        BuaError,
    >)
        requires
            old(self)@.active && tool_class(tool_name@) == IoClass::TimeQuery ==> can_read(
                old(self)@.clock,
            ),
        ensures
            final(self)@.active == old(self)@.active,
            final(self)@.silent_writes == old(self)@.silent_writes,
            !old(self)@.active ==> (r matches Ok(InterceptResult::Passthrough) && final(self)@
                == old(self)@),
            old(self)@.active ==> match tool_class(tool_name@) {
                IoClass::Pure => (r matches Ok(InterceptResult::Passthrough) && final(self)@
                    == old(self)@),
                IoClass::TimeQuery => {
                    &&& final(self)@.replay == old(self)@.replay
                    &&& final(self)@.clock == read(old(self)@.clock).0
                    &&& r matches Ok(InterceptResult::ClockInjected(t))
                    &&& (read(old(self)@.clock).1 matches Some(v) ==> r == Ok::<
                        InterceptResult,
                        BuaError,
                    >(InterceptResult::ClockInjected(v)))
                },
                IoClass::Write => {
                    &&& final(self)@ == old(self)@
                    &&& if old(self)@.silent_writes {
                        r matches Ok(InterceptResult::WriteSuppressed)
                    } else {
                        (r matches Err(BuaError::Internal(m)) && m@ == write_refused_message(
                            tool_name@,
                        ))
                    }
                },
                _ => {
                    let rep = old(self)@.replay;
                    &&& final(self)@.clock == old(self)@.clock
                    &&& final(self)@.replay == replay_step(rep, tool_name@, *args)
                    &&& if rep.remaining.len() == 0 {
                        r matches Err(BuaError::Internal(m)) && m@ == divergence_message(
                            divergence(
                                rep.sequence,
                                "<end of recording>"@,
                                tool_name@,
                                Seq::empty(),
                                spec_json_text(*args),
                            ),
                        )
                    } else if call_matches(rep.remaining[0], tool_name@, *args) || !rep.strict {
                        r == Ok::<InterceptResult, BuaError>(
                            InterceptResult::Replay(recorded_result(rep.remaining[0])),
                        )
                    } else {
                        r matches Err(BuaError::Internal(m)) && m@ == divergence_message(
                            divergence(
                                rep.sequence,
                                rep.remaining[0].name@,
                                tool_name@,
                                rep.remaining[0].args_json@,
                                spec_json_text(*args),
                            ),
                        )
                    }
                },
            },
    {
        if !self.active {
            return Ok(InterceptResult::Passthrough);
        }
        match classify_tool(tool_name, args) {
            IoClass::Pure => Ok(InterceptResult::Passthrough),
            IoClass::TimeQuery => {
                let t = self.clock.now_us();
                Ok(InterceptResult::ClockInjected(t))
            },
            IoClass::Write => {
                if self.silent_writes {
                    Ok(InterceptResult::WriteSuppressed)
                } else {
                    let mut m = String::new();
                    push_text(&mut m, "write operation '");
                    push_text(&mut m, tool_name);
                    push_text(&mut m, "' not allowed in deterministic mode");
                    Err(BuaError::internal(m))
                }
            },
            _ => match self.replay.intercept_tool_call(tool_name, args) {
                Ok(result) => Ok(InterceptResult::Replay(result)),
                Err(div) => Err(BuaError::internal(div.message())),
            },
        }
    }

    /// Switches back to live I/O: every later call passes through.
    pub fn deactivate(&mut self)
        ensures
            final(self)@ == (InterceptorView { active: false, ..old(self)@ }),
    {
        self.active = false;
    }

    /// Whether the interceptor is active.
    pub fn is_active(&self) -> (r: bool)
        ensures
            r == self@.active,
    {
        self.active
    }

    /// The number of divergences found by the replay engine.
    pub fn divergence_count(&self) -> (n: usize)
        ensures
            n == self@.replay.divergences.len(),
    {
        self.replay.divergence_count()
    }

    /// The number of calls replayed.
    pub fn calls_replayed(&self) -> (n: u64)
        ensures
            n == self@.replay.sequence,
    {
        self.replay.calls_replayed()
    }
}

/// The I/O classes by tool name: reads are `bua_read_file`; network calls
/// are `bua_http_get`, `bua_http_post` and `bua_fetch`; writes are
/// `bua_write_file`, `bua_delete_file` and `bua_mkdir`; time queries are
/// `bua_time_now`; every other tool is pure. So every read and network tool,
/// and no other, is served from the recording.
pub proof fn law_tool_classes(name: Seq<char>)
    ensures
        tool_class(name) == IoClass::Read <==> name == "bua_read_file"@,
        tool_class(name) == IoClass::Network <==> (name == "bua_http_get"@ || name == "bua_http_post"@
            || name == "bua_fetch"@),
        tool_class(name) == IoClass::Write <==> (name == "bua_write_file"@ || name == "bua_delete_file"@
            || name == "bua_mkdir"@),
        tool_class(name) == IoClass::TimeQuery <==> name == "bua_time_now"@,
{
    reveal_strlit("bua_read_file");
    reveal_strlit("bua_write_file");
    reveal_strlit("bua_delete_file");
    reveal_strlit("bua_mkdir");
    reveal_strlit("bua_http_get");
    reveal_strlit("bua_http_post");
    reveal_strlit("bua_fetch");
    reveal_strlit("bua_time_now");
    assert("bua_read_file"@[4] != "bua_write_file"@[4]);
    assert("bua_read_file"@[4] != "bua_delete_file"@[4]);
    assert("bua_read_file"@[4] != "bua_mkdir"@[4]);
    assert("bua_read_file"@[4] != "bua_http_get"@[4]);
    assert("bua_read_file"@[4] != "bua_http_post"@[4]);
    assert("bua_read_file"@[4] != "bua_fetch"@[4]);
    assert("bua_read_file"@[4] != "bua_time_now"@[4]);
    assert("bua_write_file"@[4] != "bua_delete_file"@[4]);
    assert("bua_write_file"@[4] != "bua_mkdir"@[4]);
    assert("bua_write_file"@[4] != "bua_http_get"@[4]);
    assert("bua_write_file"@[4] != "bua_http_post"@[4]);
    assert("bua_write_file"@[4] != "bua_fetch"@[4]);
    assert("bua_write_file"@[4] != "bua_time_now"@[4]);
    assert("bua_delete_file"@[4] != "bua_mkdir"@[4]);
    assert("bua_delete_file"@[4] != "bua_http_get"@[4]);
    assert("bua_delete_file"@[4] != "bua_http_post"@[4]);
    assert("bua_delete_file"@[4] != "bua_fetch"@[4]);
    assert("bua_delete_file"@[4] != "bua_time_now"@[4]);
    assert("bua_mkdir"@[4] != "bua_http_get"@[4]);
    assert("bua_mkdir"@[4] != "bua_http_post"@[4]);
    assert("bua_mkdir"@[4] != "bua_fetch"@[4]);
    assert("bua_mkdir"@[4] != "bua_time_now"@[4]);
    assert("bua_http_get"@[9] != "bua_http_post"@[9]);
    assert("bua_http_get"@[4] != "bua_fetch"@[4]);
    assert("bua_http_get"@[4] != "bua_time_now"@[4]);
    assert("bua_http_post"@[4] != "bua_fetch"@[4]);
    assert("bua_http_post"@[4] != "bua_time_now"@[4]);
    assert("bua_fetch"@[4] != "bua_time_now"@[4]);
}

} // verus!
