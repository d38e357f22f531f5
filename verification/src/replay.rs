//! Deterministic replay: tool calls of a re-execution are served from a
//! recording, and every call that differs from the recording is a divergence.
use vstd::prelude::*;
use std::collections::VecDeque;

use crate::json::{json_equiv, json_equivalent, json_or_null, json_text, parse_json_or_null, spec_json_text, JsonValue};
use crate::strata::{same_record, LayeredSnapshot, ToolCallRecord};
use crate::text::{decimal, push_decimal, push_text};

verus! {

broadcast use vstd::std_specs::vecdeque::group_vec_dequeue_axioms;

/// A replayed call that differs from the recording.
#[derive(Debug)]
pub struct DivergenceError {
    /// Which tool call sequence number diverged.
    pub at_sequence: u64,
    pub expected_tool: String,
    pub actual_tool: String,
    pub expected_args: String,
    pub actual_args: String,
}

/// The mathematical value of a divergence.
pub struct DivergenceView {
    pub at_sequence: u64,
    pub expected_tool: Seq<char>,
    pub actual_tool: Seq<char>,
    pub expected_args: Seq<char>,
    pub actual_args: Seq<char>,
}

impl View for DivergenceError {
    type V = DivergenceView;

    open spec fn view(&self) -> DivergenceView {
        DivergenceView {
            at_sequence: self.at_sequence,
            expected_tool: self.expected_tool@,
            actual_tool: self.actual_tool@,
            expected_args: self.expected_args@,
            actual_args: self.actual_args@,
        }
    }
}

/// The message of a divergence.
pub open spec fn divergence_message(d: DivergenceView) -> Seq<char> {
    "replay diverged at call #"@ + decimal(d.at_sequence as nat) + ": expected "@
        + d.expected_tool + "("@ + d.expected_args + ") got "@ + d.actual_tool + "("@
        + d.actual_args + ")"@
}

impl DivergenceError {
    /// A copy of this divergence.
    pub fn duplicate(&self) -> (r: DivergenceError)
        ensures
            r@ == self@,
    {
        DivergenceError {
            at_sequence: self.at_sequence,
            expected_tool: self.expected_tool.clone(),
            actual_tool: self.actual_tool.clone(),
            expected_args: self.expected_args.clone(),
            actual_args: self.actual_args.clone(),
        }
    }

    /// The message of this divergence (see [`divergence_message`]).
    pub fn message(&self) -> (s: String)
        ensures
            s@ == divergence_message(self@),
    {
        let mut s = String::new();
        push_text(&mut s, "replay diverged at call #");
        push_decimal(&mut s, self.at_sequence);
        push_text(&mut s, ": expected ");
        push_text(&mut s, self.expected_tool.as_str());
        push_text(&mut s, "(");
        push_text(&mut s, self.expected_args.as_str());
        push_text(&mut s, ") got ");
        push_text(&mut s, self.actual_tool.as_str());
        push_text(&mut s, "(");
        push_text(&mut s, self.actual_args.as_str());
        push_text(&mut s, ")");
        s
    }
}

/// Result of a completed replay run.
#[derive(Debug)]
pub struct ReplayResult {
    pub calls_replayed: u64,
    pub divergences: Vec<DivergenceError>,
    pub trace_events_matched: u64,
    pub deterministic: bool,
}

impl ReplayResult {
    /// Clean: no divergence, and the run was deterministic.
    pub fn is_clean(&self) -> (r: bool)
        ensures
            r == (self.divergences@.len() == 0 && self.deterministic),
    {
        self.divergences.len() == 0 && self.deterministic
    }
}

/// The divergence with the given fields.
pub open spec fn divergence(
    at_sequence: u64,
    expected_tool: Seq<char>,
    actual_tool: Seq<char>,
    expected_args: Seq<char>,
    actual_args: Seq<char>,
) -> DivergenceView {
    DivergenceView { at_sequence, expected_tool, actual_tool, expected_args, actual_args }
}

/// The sequence number after `n` (wrapping at the top of `u64`).
pub open spec fn next_sequence(n: u64) -> u64 {
    if n == u64::MAX {
        0
    } else {
        (n + 1) as u64
    }
}

/// Drives deterministic replay of a recorded execution.
#[derive(Debug)]
pub struct ReplayEngine {
    recorded_calls: VecDeque<ToolCallRecord>,
    divergences: Vec<DivergenceError>,
    sequence: u64,
    strict: bool,
}

/// The mathematical value of a replay engine: the recorded calls not yet
/// served, the divergences found so far, the number of calls replayed, and
/// whether a divergence is a hard error.
pub struct ReplayView {
    pub remaining: Seq<ToolCallRecord>,
    pub divergences: Seq<DivergenceView>,
    pub sequence: u64,
    pub strict: bool,
}

impl View for ReplayEngine {
    type V = ReplayView;

    closed spec fn view(&self) -> ReplayView {
        ReplayView {
            remaining: self.recorded_calls@,
            divergences: self.divergences@.map_values(|d: DivergenceError| d@),
            sequence: self.sequence,
            strict: self.strict,
        }
    }
}

/// The recorded arguments of `rec`: its argument text read as JSON, `Null`
/// where that text is not JSON.
pub open spec fn recorded_args(rec: ToolCallRecord) -> JsonValue {
    json_or_null(rec.args_json@)
}

/// The recorded result of `rec`: its result text read as JSON, `Null` where
/// that text is not JSON.
pub open spec fn recorded_result(rec: ToolCallRecord) -> JsonValue {
    json_or_null(rec.result_json@)
}

/// Whether a call of `tool` with `args` is the recorded call `rec`: the same
/// tool, and arguments equivalent to the recorded ones (after JSON
/// normalisation: object member order does not matter).
pub open spec fn call_matches(rec: ToolCallRecord, tool: Seq<char>, args: JsonValue) -> bool {
    rec.name@ == tool && json_equiv(recorded_args(rec), args)
}

/// The engine after it serves one call of `tool` with `args`: the next
/// recorded call is consumed, and a divergence is recorded past the end of
/// the recording or when the call differs from it (the divergence carries
/// the JSON text of `args`).
pub open spec fn replay_step(v: ReplayView, tool: Seq<char>, args: JsonValue) -> ReplayView {
    let args_text = spec_json_text(args);
    if v.remaining.len() == 0 {
        ReplayView {
            remaining: v.remaining,
            divergences: v.divergences.push(
                divergence(v.sequence, "<end of recording>"@, tool, Seq::empty(), args_text),
            ),
            sequence: next_sequence(v.sequence),
            strict: v.strict,
        }
    } else {
        let rec = v.remaining[0];
        ReplayView {
            remaining: v.remaining.drop_first(),
            divergences: if call_matches(rec, tool, args) {
                v.divergences
            } else {
                v.divergences.push(divergence(v.sequence, rec.name@, tool, rec.args_json@, args_text))
            },
            sequence: next_sequence(v.sequence),
            strict: v.strict,
        }
    }
}

/// The engine after it serves `calls` (tool and arguments) in order.
pub open spec fn replay_all(v: ReplayView, calls: Seq<(Seq<char>, JsonValue)>) -> ReplayView
    decreases calls.len(),
{
    if calls.len() == 0 {
        v
    } else {
        replay_all(replay_step(v, calls[0].0, calls[0].1), calls.drop_first())
    }
}

/// The recorded calls of `snap`: its tool log, none without a tool stratum.
pub open spec fn snapshot_calls(snap: LayeredSnapshot) -> Seq<ToolCallRecord> {
    match snap.tool {
        Some(t) => t.call_log@,
        None => Seq::empty(),
    }
}

/// The engine a replay of `recorded` starts from.
pub open spec fn replay_start(recorded: Seq<ToolCallRecord>, strict: bool) -> ReplayView {
    ReplayView { remaining: recorded, divergences: Seq::empty(), sequence: 0, strict }
}

proof fn lemma_matching_calls(v: ReplayView, calls: Seq<(Seq<char>, JsonValue)>)
    requires
        calls.len() == v.remaining.len(),
        v.sequence + calls.len() <= u64::MAX,
        forall|i: int|
            0 <= i < calls.len() ==> call_matches(#[trigger] v.remaining[i], calls[i].0, calls[i].1),
    ensures
        replay_all(v, calls) == (ReplayView {
            remaining: Seq::empty(),
            divergences: v.divergences,
            sequence: (v.sequence + calls.len()) as u64,
            strict: v.strict,
        }),
    decreases calls.len(),
{
    if calls.len() == 0 {
        assert(v.remaining =~= Seq::<ToolCallRecord>::empty());
    } else {
        let w = replay_step(v, calls[0].0, calls[0].1);
        assert(call_matches(v.remaining[0], calls[0].0, calls[0].1));
        assert forall|i: int| 0 <= i < calls.drop_first().len() implies call_matches(
            #[trigger] w.remaining[i],
            calls.drop_first()[i].0,
            calls.drop_first()[i].1,
        ) by {
            assert(w.remaining[i] == v.remaining[i + 1]);
            assert(call_matches(v.remaining[i + 1], calls[i + 1].0, calls[i + 1].1));
        }
        lemma_matching_calls(w, calls.drop_first());
    }
}

/// Deterministic replay: a run that makes exactly the recorded calls (the
/// same tools, with equivalent arguments, in order) consumes the whole
/// recording, finds no divergence and counts every call, so its result is
/// clean.
pub proof fn law_faithful_replay_is_clean(
    recorded: Seq<ToolCallRecord>,
    calls: Seq<(Seq<char>, JsonValue)>,
    strict: bool,
)
    requires
        calls.len() == recorded.len(),
        recorded.len() <= u64::MAX,
        forall|i: int| 0 <= i < calls.len() ==> call_matches(#[trigger] recorded[i], calls[i].0, calls[i].1),
    ensures
        replay_all(replay_start(recorded, strict), calls).remaining.len() == 0,
        replay_all(replay_start(recorded, strict), calls).divergences.len() == 0,
        replay_all(replay_start(recorded, strict), calls).sequence == recorded.len(),
{
    lemma_matching_calls(replay_start(recorded, strict), calls);
}

/// A replay run of `k` calls, whatever their outcome, counts `k` calls and
/// consumes the first `k` recorded calls in order (all of them when fewer
/// were recorded); the replay's result then reports `k` calls replayed.
pub proof fn law_run_counts_calls(v: ReplayView, calls: Seq<(Seq<char>, JsonValue)>)
    requires
        v.sequence + calls.len() <= u64::MAX,
    ensures
        replay_all(v, calls).sequence == v.sequence + calls.len(),
        replay_all(v, calls).remaining == if calls.len() <= v.remaining.len() {
            v.remaining.skip(calls.len() as int)
        } else {
            Seq::<ToolCallRecord>::empty()
        },
        replay_all(v, calls).strict == v.strict,
    decreases calls.len(),
{
    if calls.len() == 0 {
        assert(v.remaining.skip(0) =~= v.remaining);
    } else {
        let w = replay_step(v, calls[0].0, calls[0].1);
        law_run_counts_calls(w, calls.drop_first());
        if v.remaining.len() > 0 {
            if calls.len() <= v.remaining.len() {
                assert(v.remaining.drop_first().skip(calls.len() - 1) =~= v.remaining.skip(calls.len() as int));
            }
        }
    }
}

/// Copies of the divergences in `v`.
fn duplicate_all(v: &Vec<DivergenceError>) -> (r: Vec<DivergenceError>)
    ensures
        r@.map_values(|d: DivergenceError| d@) == v@.map_values(|d: DivergenceError| d@),
{
    let mut r: Vec<DivergenceError> = Vec::new();
    let mut i: usize = 0;
    while i < v.len()
        invariant
            i <= v@.len(),
            r@.len() == i,
            forall|j: int| 0 <= j < i ==> r@[j]@ == v@[j]@,
        decreases v.len() - i,
    {
        r.push(v[i].duplicate());
        i = i + 1;
    }
    assert(r@.map_values(|d: DivergenceError| d@) =~= v@.map_values(|d: DivergenceError| d@));
    r
}

impl ReplayEngine {
    /// A replay engine serving the calls of `snap`'s tool log in order (none
    /// when the snapshot has no tool stratum), with no divergences yet.
    pub fn from_snapshot(snap: &LayeredSnapshot, strict: bool) -> (e: Self)
        ensures
            e@.remaining.len() == snapshot_calls(*snap).len(),
            forall|i: int|
                0 <= i < e@.remaining.len() ==> same_record(#[trigger] e@.remaining[i], snapshot_calls(*snap)[i]),
            e@.divergences.len() == 0,
            e@.sequence == 0,
            e@.strict == strict,
    {
        let mut q: VecDeque<ToolCallRecord> = VecDeque::new();
        match &snap.tool {
            Some(t) => {
                let log = &t.call_log;
                let mut i: usize = 0;
                while i < log.len()
                    invariant
                        i <= log@.len(),
                        snapshot_calls(*snap) == log@,
                        q@.len() == i,
                        forall|j: int| 0 <= j < i ==> same_record(#[trigger] q@[j], log@[j]),
                    decreases log.len() - i,
                {
                    q.push_back(log[i].duplicate());
                    i = i + 1;
                }
            },
            None => {},
        }
        let e = ReplayEngine { recorded_calls: q, divergences: Vec::new(), sequence: 0, strict };
        assert(e@.divergences =~= Seq::<DivergenceView>::empty());
        e
    }

    /// Intercepts a tool call during replay: `tool_name` called with `args`.
    ///
    /// Past the end of the recording, the call is a divergence and an error.
    /// Otherwise the next recorded call is consumed; when the call differs
    /// from it (another tool, or arguments that are not equivalent), a
    /// divergence is recorded, and in strict mode returned as the error. In
    /// every other case the recorded result is returned.
    pub fn intercept_tool_call(&mut self, tool_name: &str, args: &JsonValue) -> (r: Result<
        JsonValue,
        DivergenceError,
    >)
        ensures
            final(self)@ == replay_step(old(self)@, tool_name@, *args),
            final(self)@.sequence == next_sequence(old(self)@.sequence),
            final(self)@.strict == old(self)@.strict,
            old(self)@.remaining.len() == 0 ==> {
                let d = divergence(
                    old(self)@.sequence,
                    "<end of recording>"@,
                    tool_name@,
                    Seq::empty(),
                    spec_json_text(*args),
                );
                &&& final(self)@.remaining.len() == 0
                &&& final(self)@.divergences == old(self)@.divergences.push(d)
                &&& (r matches Err(e) && e@ == d)
            },
            old(self)@.remaining.len() > 0 ==> {
                let rec = old(self)@.remaining[0];
                let d = divergence(
                    old(self)@.sequence,
                    rec.name@,
                    tool_name@,
                    rec.args_json@,
                    spec_json_text(*args),
                );
                &&& final(self)@.remaining == old(self)@.remaining.drop_first()
                &&& if call_matches(rec, tool_name@, *args) {
                    &&& final(self)@.divergences == old(self)@.divergences
                    &&& r == Ok::<JsonValue, DivergenceError>(recorded_result(rec))
                } else {
                    &&& final(self)@.divergences == old(self)@.divergences.push(d)
                    &&& if old(self)@.strict {
                        (r matches Err(e) && e@ == d)
                    } else {
                        r == Ok::<JsonValue, DivergenceError>(recorded_result(rec))
                    }
                }
            },
    {
        let seq = self.sequence;
        self.sequence = self.sequence.wrapping_add(1);
        let args_text = json_text(args);
        let ghost old_divs = self@.divergences;
        let recorded = self.recorded_calls.pop_front();
        match recorded {
            None => {
                let div = DivergenceError {
                    at_sequence: seq,
                    expected_tool: "<end of recording>".to_owned(),
                    actual_tool: tool_name.to_owned(),
                    expected_args: String::new(),
                    actual_args: args_text,
                };
                self.divergences.push(div.duplicate());
                assert(self@.divergences =~= old_divs.push(div@));
                Err(div)
            },
            Some(record) => {
                let actual = tool_name.to_owned();
                let name_match = record.name == actual;
                let recorded = parse_json_or_null(record.args_json.as_str());
                let args_match = json_equivalent(&recorded, args);
                if !name_match || !args_match {
                    let div = DivergenceError {
                        at_sequence: seq,
                        expected_tool: record.name.clone(),
                        actual_tool: actual,
                        expected_args: record.args_json.clone(),
                        actual_args: args_text,
                    };
                    self.divergences.push(div.duplicate());
                    assert(self@.divergences =~= old_divs.push(div@));
                    if self.strict {
                        return Err(div);
                    }
                }
                Ok(parse_json_or_null(record.result_json.as_str()))
            },
        }
    }

    /// Whether every recorded call was consumed: `None` when so, else a
    /// divergence that says how many calls the recording still expects.
    pub fn verify_complete(&self) -> (r: Option<DivergenceError>)
        ensures
            self@.remaining.len() == 0 ==> r is None,
            self@.remaining.len() > 0 ==> (r matches Some(d) && d@ == divergence(
                self@.sequence,
                decimal(self@.remaining.len()) + " more calls expected"@,
                "<end of execution>"@,
                Seq::empty(),
                Seq::empty(),
            )),
    {
        let remaining = self.recorded_calls.len();
        if remaining > 0 {
            let mut expected = String::new();
            push_decimal(&mut expected, remaining as u64);
            push_text(&mut expected, " more calls expected");
            Some(
                DivergenceError {
                    at_sequence: self.sequence,
                    expected_tool: expected,
                    actual_tool: "<end of execution>".to_owned(),
                    expected_args: String::new(),
                    actual_args: String::new(),
                },
            )
        } else {
            None
        }
    }

    /// The result of the replay so far.
    pub fn result(&self) -> (r: ReplayResult)
        ensures
            r.calls_replayed == self@.sequence,
            r.trace_events_matched == self@.sequence,
            r.divergences@.map_values(|d: DivergenceError| d@) == self@.divergences,
            r.deterministic == (self@.divergences.len() == 0),
    {
        let divergences = duplicate_all(&self.divergences);
        let calls = self.sequence;
        ReplayResult {
            calls_replayed: calls,
            deterministic: self.divergences.len() == 0,
            trace_events_matched: calls,
            divergences,
        }
    }

    /// The number of divergences found so far.
    pub fn divergence_count(&self) -> (n: usize)
        ensures
            n == self@.divergences.len(),
    {
        self.divergences.len()
    }

    /// The number of calls replayed so far.
    pub fn calls_replayed(&self) -> (n: u64)
        ensures
            n == self@.sequence,
    {
        self.sequence
    }
}

} // verus!
