//! Execution traces: append-only, numbered, immutable events.
use vstd::prelude::*;

use crate::clock::wall_clock_micros;
use crate::text::text_eq;
use crate::types::{AgentId, ExecutionId, TaskId};

verus! {

/// What happened.
#[derive(Debug)]
pub enum TraceEventKind {
    ExecutionStart { entrypoint: String },
    ExecutionEnd { exit_code: i32, duration_us: u64 },
    AgentSpawn { agent_id: AgentId, parent_id: Option<AgentId>, entrypoint: String },
    AgentComplete { agent_id: AgentId, task_id: TaskId, success: bool },
    ToolCall { name: String, args_json: String },
    ToolResult { name: String, result_json: String, duration_us: u64 },
    PermissionCheck { operation: String, granted: bool },
    JsException { message: String, stack: Option<String> },
    Log { level: LogLevel, message: String },
}

/// The level of a log event.
#[derive(Clone, Copy, PartialEq, Eq, Structural, Debug)]
pub enum LogLevel {
    Trace,
    Debug,
    Info,
    Warn,
    Error,
}

/// The level a script names: `error`, `warn`, `debug` and `trace` name
/// their levels, and every other name means `info`.
pub open spec fn level_named(name: Seq<char>) -> LogLevel {
    if name == "error"@ {
        LogLevel::Error
    } else if name == "warn"@ {
        LogLevel::Warn
    } else if name == "debug"@ {
        LogLevel::Debug
    } else if name == "trace"@ {
        LogLevel::Trace
    } else {
        LogLevel::Info
    }
}

/// The level a script names (see [`level_named`]).
pub fn log_level_named(name: &str) -> (l: LogLevel)
    ensures
        l == level_named(name@),
{
    if text_eq(name, "error") {
        LogLevel::Error
    } else if text_eq(name, "warn") {
        LogLevel::Warn
    } else if text_eq(name, "debug") {
        LogLevel::Debug
    } else if text_eq(name, "trace") {
        LogLevel::Trace
    } else {
        LogLevel::Info
    }
}

/// A single immutable event in an execution trace.
#[derive(Debug)]
pub struct TraceEvent {
    pub id: u64,
    pub timestamp_us: u64,
    pub execution_id: ExecutionId,
    pub kind: TraceEventKind,
}

/// An append-only trace buffer for one execution.
#[derive(Debug)]
pub struct ExecutionTrace {
    events: Vec<TraceEvent>,
    next_id: u64,
    execution_id: Option<ExecutionId>,
}

/// The mathematical value of a trace.
pub struct TraceView {
    pub events: Seq<TraceEvent>,
    pub next_id: u64,
    pub execution_id: Option<ExecutionId>,
}

impl View for ExecutionTrace {
    type V = TraceView;

    closed spec fn view(&self) -> TraceView {
        TraceView { events: self.events@, next_id: self.next_id, execution_id: self.execution_id }
    }
}

/// The execution an event of the trace is filed under: the trace's, or the
/// nil identifier when it has none.
pub open spec fn filed_under(t: TraceView) -> ExecutionId {
    match t.execution_id {
        Some(id) => id,
        None => ExecutionId(0),
    }
}

/// Whether `t2` is `t` with one event of `kind` appended, numbered with
/// `t`'s next number.
pub open spec fn appended(t: TraceView, t2: TraceView, kind: TraceEventKind) -> bool {
    &&& t2.events.len() == t.events.len() + 1
    &&& t2.events.take(t.events.len() as int) == t.events
    &&& t2.events.last().id == t.next_id
    &&& t2.events.last().execution_id == filed_under(t)
    &&& t2.events.last().kind == kind
    &&& t2.next_id == t.next_id + 1
    &&& t2.execution_id == t.execution_id
}

/// Whether the events of `t` are numbered 0, 1, 2, ... in order, and the
/// next number is their count.
pub open spec fn numbered(t: TraceView) -> bool {
    &&& t.next_id == t.events.len()
    &&& forall|i: int| 0 <= i < t.events.len() ==> #[trigger] t.events[i].id == i
}

/// Appending keeps the numbering: the new event gets the number that is the
/// count of the events before it, and the earlier events are untouched.
pub proof fn law_append_keeps_numbering(t: TraceView, t2: TraceView, kind: TraceEventKind)
    requires
        numbered(t),
        appended(t, t2, kind),
    ensures
        numbered(t2),
        t2.events.last().id == t.events.len(),
        t2.events.len() == t.events.len() + 1,
{
    assert forall|i: int| 0 <= i < t2.events.len() implies #[trigger] t2.events[i].id == i by {
        if i < t.events.len() {
            assert(t2.events[i] == t2.events.take(t.events.len() as int)[i]);
        }
    }
}

impl ExecutionTrace {
    /// An empty trace for `execution_id`.
    pub fn new(execution_id: ExecutionId) -> (t: Self)
        ensures
            t@.events.len() == 0,
            t@.next_id == 0,
            t@.execution_id == Some(execution_id),
            numbered(t@),
    {
        ExecutionTrace { events: Vec::new(), next_id: 0, execution_id: Some(execution_id) }
    }

    /// An empty trace for no particular execution.
    pub fn empty() -> (t: Self)
        ensures
            t@.events.len() == 0,
            t@.next_id == 0,
            t@.execution_id is None,
    {
        ExecutionTrace { events: Vec::new(), next_id: 0, execution_id: None }
    }

    /// Appends an event of `kind`, stamped now; returns its number.
    pub fn append(&mut self, kind: TraceEventKind) -> (id: u64)
        requires
            old(self)@.next_id < u64::MAX,
        ensures
            id == old(self)@.next_id,
            appended(old(self)@, final(self)@, kind),
            numbered(old(self)@) ==> numbered(final(self)@) && id == old(self)@.events.len(),
    {
        let id = self.next_id;
        self.next_id = self.next_id + 1;
        let execution_id = match self.execution_id {
            Some(e) => e,
            None => ExecutionId::from_u128(0),
        };
        let ghost before = self.events@;
        self.events.push(TraceEvent { id, timestamp_us: wall_clock_micros(), execution_id, kind });
        assert(self.events@.take(before.len() as int) =~= before);
        proof {
            if numbered(old(self)@) {
                law_append_keeps_numbering(old(self)@, self@, kind);
            }
        }
        id
    }

    /// The events, in order.
    pub fn events(&self) -> (r: &[TraceEvent])
        ensures
            r@ == self@.events,
    {
        self.events.as_slice()
    }

    /// The number of events.
    pub fn len(&self) -> (n: usize)
        ensures
            n == self@.events.len(),
    {
        self.events.len()
    }

    /// Whether the trace has no event.
    pub fn is_empty(&self) -> (r: bool)
        ensures
            r == (self@.events.len() == 0),
    {
        self.events.len() == 0
    }
}

/// The trace of one agent execution, which can be switched off.
#[derive(Debug)]
pub struct TraceContext {
    trace: ExecutionTrace,
    event_count: u64,
    enabled: bool,
}

/// The mathematical value of a trace context.
pub struct TraceContextView {
    pub trace: TraceView,
    pub event_count: u64,
    pub enabled: bool,
}

impl View for TraceContext {
    type V = TraceContextView;

    closed spec fn view(&self) -> TraceContextView {
        TraceContextView {
            trace: self.trace@,
            event_count: self.event_count,
            enabled: self.enabled,
        }
    }
}

/// Whether `c2` is `c` after emitting an event of `kind`: appended and
/// counted when enabled, unchanged when disabled.
pub open spec fn emitted(c: TraceContextView, c2: TraceContextView, kind: TraceEventKind) -> bool {
    if c.enabled {
        &&& appended(c.trace, c2.trace, kind)
        &&& c2.event_count == vstd::wrapping::u64_specs::wrapping_add(c.event_count, 1)
        &&& c2.enabled
    } else {
        c2 == c
    }
}

/// Whether an event can be emitted without running out of event numbers.
pub open spec fn can_emit(c: TraceContextView) -> bool {
    c.enabled ==> c.trace.next_id < u64::MAX
}

/// Whether `n` more events can be emitted without running out of event
/// numbers.
pub open spec fn has_room(c: TraceContextView, n: nat) -> bool {
    c.enabled ==> c.trace.next_id + n <= u64::MAX
}

impl TraceContext {
    /// An enabled, empty trace for `execution_id`.
    pub fn new(execution_id: ExecutionId) -> (c: Self)
        ensures
            c@.enabled,
            c@.event_count == 0,
            c@.trace.events.len() == 0,
            c@.trace.next_id == 0,
            c@.trace.execution_id == Some(execution_id),
            numbered(c@.trace),
    {
        TraceContext { trace: ExecutionTrace::new(execution_id), event_count: 0, enabled: true }
    }

    /// A disabled trace: it records nothing.
    pub fn disabled() -> (c: Self)
        ensures
            !c@.enabled,
            c@.event_count == 0,
            c@.trace.events.len() == 0,
            c@.trace.next_id == 0,
            c@.trace.execution_id is Some,
            numbered(c@.trace),
    {
        let id = ExecutionId::new();
        let mut s = Self::new(id);
        s.enabled = false;
        s
    }

    fn emit(&mut self, kind: TraceEventKind)
        requires
            can_emit(old(self)@),
        ensures
            emitted(old(self)@, final(self)@, kind),
    {
        if !self.enabled {
            return;
        }
        self.trace.append(kind);
        self.event_count = self.event_count.wrapping_add(1);
    }

    /// Records the start of the execution of `entrypoint`.
    pub fn execution_start(&mut self, entrypoint: &str)
        requires
            can_emit(old(self)@),
        ensures
            exists|k: TraceEventKind|
                #[trigger] emitted(old(self)@, final(self)@, k) && (k matches TraceEventKind::ExecutionStart { entrypoint: e } && e@ == entrypoint@),
    {
        let k = TraceEventKind::ExecutionStart { entrypoint: entrypoint.to_owned() };
        let ghost kk = k;
        self.emit(k);
        assert(emitted(old(self)@, final(self)@, kk));
    }

    /// Records the end of the execution.
    pub fn execution_end(&mut self, exit_code: i32, duration_us: u64)
        requires
            can_emit(old(self)@),
        ensures
            emitted(old(self)@, final(self)@, TraceEventKind::ExecutionEnd { exit_code, duration_us }),
    {
        self.emit(TraceEventKind::ExecutionEnd { exit_code, duration_us });
    }

    /// Records the spawn of an agent.
    pub fn agent_spawn(&mut self, agent_id: AgentId, parent_id: Option<AgentId>, entrypoint: &str)
        requires
            can_emit(old(self)@),
        ensures
            exists|k: TraceEventKind|
                #[trigger] emitted(old(self)@, final(self)@, k) && (k matches TraceEventKind::AgentSpawn {
                    agent_id: a,
                    parent_id: p,
                    entrypoint: e,
                } && a == agent_id && p == parent_id && e@ == entrypoint@),
    {
        let k = TraceEventKind::AgentSpawn {
            agent_id,
            parent_id,
            entrypoint: entrypoint.to_owned(),
        };
        let ghost kk = k;
        self.emit(k);
        assert(emitted(old(self)@, final(self)@, kk));
    }

    /// Records a tool call with its arguments as JSON text.
    pub fn tool_call(&mut self, name: &str, args_json: &str)
        requires
            can_emit(old(self)@),
        ensures
            exists|k: TraceEventKind|
                #[trigger] emitted(old(self)@, final(self)@, k) && (k matches TraceEventKind::ToolCall {
                    name: n,
                    args_json: a,
                } && n@ == name@ && a@ == args_json@),
    {
        let k = TraceEventKind::ToolCall { name: name.to_owned(), args_json: args_json.to_owned() };
        let ghost kk = k;
        self.emit(k);
        assert(emitted(old(self)@, final(self)@, kk));
    }

    /// Records a tool result, as JSON text, and its duration.
    pub fn tool_result(&mut self, name: &str, result_json: &str, duration_us: u64)
        requires
            can_emit(old(self)@),
        ensures
            exists|k: TraceEventKind|
                #[trigger] emitted(old(self)@, final(self)@, k) && (k matches TraceEventKind::ToolResult {
                    name: n,
                    result_json: r,
                    duration_us: d,
                } && n@ == name@ && r@ == result_json@ && d == duration_us),
    {
        let k = TraceEventKind::ToolResult {
            name: name.to_owned(),
            result_json: result_json.to_owned(),
            duration_us,
        };
        let ghost kk = k;
        self.emit(k);
        assert(emitted(old(self)@, final(self)@, kk));
    }

    /// Records a permission check and its outcome.
    pub fn permission_check(&mut self, operation: &str, granted: bool)
        requires
            can_emit(old(self)@),
        ensures
            exists|k: TraceEventKind|
                #[trigger] emitted(old(self)@, final(self)@, k) && (k matches TraceEventKind::PermissionCheck {
                    operation: o,
                    granted: g,
                } && o@ == operation@ && g == granted),
    {
        let k = TraceEventKind::PermissionCheck { operation: operation.to_owned(), granted };
        let ghost kk = k;
        self.emit(k);
        assert(emitted(old(self)@, final(self)@, kk));
    }

    /// Records a JS exception.
    pub fn js_exception(&mut self, message: &str, stack: Option<&str>)
        requires
            can_emit(old(self)@),
        ensures
            exists|k: TraceEventKind|
                #[trigger] emitted(old(self)@, final(self)@, k) && (k matches TraceEventKind::JsException {
                    message: m,
                    stack: s,
                } && m@ == message@ && (match stack {
                    Some(x) => s matches Some(y) && y@ == x@,
                    None => s is None,
                })),
    {
        let st = match stack {
            Some(x) => Some(x.to_owned()),
            None => None,
        };
        let k = TraceEventKind::JsException { message: message.to_owned(), stack: st };
        let ghost kk = k;
        self.emit(k);
        assert(emitted(old(self)@, final(self)@, kk));
    }

    /// Records a log message.
    pub fn log(&mut self, level: LogLevel, message: &str)
        requires
            can_emit(old(self)@),
        ensures
            exists|k: TraceEventKind|
                #[trigger] emitted(old(self)@, final(self)@, k) && (k matches TraceEventKind::Log {
                    level: l,
                    message: m,
                } && l == level && m@ == message@),
    {
        let k = TraceEventKind::Log { level, message: message.to_owned() };
        let ghost kk = k;
        self.emit(k);
        assert(emitted(old(self)@, final(self)@, kk));
    }

    /// Whether `n` more events can be recorded (see [`has_room`]).
    pub fn has_room_for(&self, n: u64) -> (r: bool)
        ensures
            r == has_room(self@, n as nat),
    {
        !self.enabled || self.trace.next_id <= u64::MAX - n
    }

    /// The number of events recorded.
    pub fn event_count(&self) -> (n: u64)
        ensures
            n == self@.event_count,
    {
        self.event_count
    }

    /// The underlying trace.
    pub fn trace(&self) -> (t: &ExecutionTrace)
        ensures
            t@ == self@.trace,
    {
        &self.trace
    }
}

/// A disabled trace records nothing, whatever is emitted; an enabled one
/// records each emitted event once, in order.
pub proof fn law_emit_records_once(c: TraceContextView, c2: TraceContextView, kind: TraceEventKind)
    requires
        emitted(c, c2, kind),
    ensures
        !c.enabled ==> c2.trace.events == c.trace.events && c2.event_count == c.event_count,
        c.enabled ==> c2.trace.events == c.trace.events.push(c2.trace.events.last())
            && c2.trace.events.last().kind == kind,
{
    if c.enabled {
        assert(c2.trace.events =~= c.trace.events.push(c2.trace.events.last()));
    }
}

} // verus!
