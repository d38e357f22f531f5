//! The strata of a layered snapshot, and how they map to the frames of the
//! snapshot format: tag 0 is the header, tags 1 to 6 the strata; on reading,
//! the last frame of each tag counts and unknown tags are skipped.
use vstd::prelude::*;

use crate::capabilities::CapabilitySet;
use crate::clock::wall_clock_micros;
use crate::error::BuaError;
use crate::json::JsonValue;
use crate::snapshot::{
    decode_frames, encode_frames, frames_view, lengths_fit, push_all, spec_decode, spec_encode,
    DecodeError, DecodedFrames, Frame, FORMAT_VERSION,
};
use crate::text::{decimal, hex_digits, push_decimal, push_hex, push_text};
use crate::types::ExecutionId;

verus! {

/// The tag of a stratum.
#[derive(Clone, Copy, PartialEq, Eq, Structural, Debug)]
pub enum StratumTag {
    Vm,
    Capability,
    Trace,
    Tool,
    Scheduler,
    Memory,
}

/// The numeric tag of a stratum.
pub open spec fn tag_code(t: StratumTag) -> u16 {
    match t {
        StratumTag::Vm => 1,
        StratumTag::Capability => 2,
        StratumTag::Trace => 3,
        StratumTag::Tool => 4,
        StratumTag::Scheduler => 5,
        StratumTag::Memory => 6,
    }
}

/// The stratum with numeric tag `v`, if any.
pub open spec fn tag_of(v: u16) -> Option<StratumTag> {
    if v == 1 {
        Some(StratumTag::Vm)
    } else if v == 2 {
        Some(StratumTag::Capability)
    } else if v == 3 {
        Some(StratumTag::Trace)
    } else if v == 4 {
        Some(StratumTag::Tool)
    } else if v == 5 {
        Some(StratumTag::Scheduler)
    } else if v == 6 {
        Some(StratumTag::Memory)
    } else {
        None
    }
}

impl StratumTag {
    /// The numeric tag.
    pub fn to_u16(self) -> (v: u16)
        ensures
            v == tag_code(self),
    {
        match self {
            StratumTag::Vm => 1,
            StratumTag::Capability => 2,
            StratumTag::Trace => 3,
            StratumTag::Tool => 4,
            StratumTag::Scheduler => 5,
            StratumTag::Memory => 6,
        }
    }

    /// The stratum with numeric tag `v`, if any.
    pub fn from_u16(v: u16) -> (r: Option<Self>)
        ensures
            r == tag_of(v),
    {
        if v == 1 {
            Some(StratumTag::Vm)
        } else if v == 2 {
            Some(StratumTag::Capability)
        } else if v == 3 {
            Some(StratumTag::Trace)
        } else if v == 4 {
            Some(StratumTag::Tool)
        } else if v == 5 {
            Some(StratumTag::Scheduler)
        } else if v == 6 {
            Some(StratumTag::Memory)
        } else {
            None
        }
    }
}

/// Decoding a tag and encoding it again gives it back, and every stratum's
/// tag decodes to that stratum.
pub proof fn law_tag_roundtrip(t: StratumTag, v: u16)
    ensures
        tag_of(tag_code(t)) == Some(t),
        tag_of(v) matches Some(s) ==> tag_code(s) == v,
{
}

/// The engine heap.
#[derive(Debug)]
pub struct VmStratum {
    pub heap_bytes: Vec<u8>,
    pub jsc_version: String,
}

/// The capabilities and their revocation generation.
#[derive(Debug)]
pub struct CapabilityStratum {
    pub capabilities: CapabilitySet,
    pub generation: u64,
}

/// The execution trace as NDJSON.
#[derive(Debug)]
pub struct TraceStratum {
    pub ndjson: String,
    pub event_count: u64,
}

/// One recorded tool call.
#[derive(Debug)]
pub struct ToolCallRecord {
    pub sequence: u64,
    pub name: String,
    pub args_json: String,
    pub result_json: String,
    pub duration_us: u64,
    pub was_error: bool,
}

/// Whether `a` and `b` record the same call: every field equal.
pub open spec fn same_record(a: ToolCallRecord, b: ToolCallRecord) -> bool {
    &&& a.sequence == b.sequence
    &&& a.name@ == b.name@
    &&& a.args_json@ == b.args_json@
    &&& a.result_json@ == b.result_json@
    &&& a.duration_us == b.duration_us
    &&& a.was_error == b.was_error
}

impl ToolCallRecord {
    /// A copy of this record.
    pub fn duplicate(&self) -> (r: ToolCallRecord)
        ensures
            same_record(r, *self),
    {
        ToolCallRecord {
            sequence: self.sequence,
            name: self.name.clone(),
            args_json: self.args_json.clone(),
            result_json: self.result_json.clone(),
            duration_us: self.duration_us,
            was_error: self.was_error,
        }
    }
}

/// The log of tool calls.
#[derive(Debug)]
pub struct ToolStratum {
    pub call_log: Vec<ToolCallRecord>,
}

/// Child agents and pending tasks.
#[derive(Debug)]
pub struct SchedulerStratum {
    pub child_agent_ids: Vec<String>,
    pub pending_task_count: u64,
}

/// Agent memory: JSON values by key, in a namespace.
#[derive(Debug)]
pub struct MemoryStratum {
    pub entries: Vec<(String, JsonValue)>,
    pub namespace: String,
}

/// The snapshot header.
#[derive(Debug)]
pub struct SnapshotHeader {
    pub execution_id: ExecutionId,
    pub timestamp_us: u64,
    pub format_version: u16,
    pub label: Option<String>,
}

/// A snapshot as layers: a header and six optional strata.
#[derive(Debug)]
pub struct LayeredSnapshot {
    pub header: Option<SnapshotHeader>,
    pub vm: Option<VmStratum>,
    pub capability: Option<CapabilityStratum>,
    pub trace: Option<TraceStratum>,
    pub tool: Option<ToolStratum>,
    pub scheduler: Option<SchedulerStratum>,
    pub memory: Option<MemoryStratum>,
}

/// The number of present strata (the header not counted).
pub open spec fn spec_strata_count(s: LayeredSnapshot) -> nat {
    (if s.vm is Some { 1nat } else { 0nat }) + (if s.capability is Some { 1nat } else { 0nat })
        + (if s.trace is Some { 1nat } else { 0nat }) + (if s.tool is Some { 1nat } else { 0nat })
        + (if s.scheduler is Some { 1nat } else { 0nat }) + (if s.memory is Some {
        1nat
    } else {
        0nat
    })
}

/// The engine version recorded with a heap.
pub open spec fn jsc_version_text() -> Seq<char> {
    "JSC/stub-0.1"@
}

impl LayeredSnapshot {
    /// A snapshot with a header for `execution_id` at `timestamp_us`, under
    /// the current format version, and no strata.
    pub fn new_at(execution_id: ExecutionId, timestamp_us: u64) -> (s: Self)
        ensures
            s.header matches Some(h) && h.execution_id == execution_id && h.timestamp_us
                == timestamp_us && h.format_version == FORMAT_VERSION && h.label is None,
            s.vm is None && s.capability is None && s.trace is None,
            s.tool is None && s.scheduler is None && s.memory is None,
    {
        LayeredSnapshot {
            header: Some(
                SnapshotHeader {
                    execution_id,
                    timestamp_us,
                    format_version: FORMAT_VERSION,
                    label: None,
                },
            ),
            vm: None,
            capability: None,
            trace: None,
            tool: None,
            scheduler: None,
            memory: None,
        }
    }

    /// A snapshot taken now (see [`LayeredSnapshot::new_at`]).
    pub fn new(execution_id: ExecutionId) -> (s: Self)
        ensures
            s.header matches Some(h) && h.execution_id == execution_id && h.format_version
                == FORMAT_VERSION && h.label is None,
            s.vm is None && s.capability is None && s.trace is None,
            s.tool is None && s.scheduler is None && s.memory is None,
    {
        let now = wall_clock_micros();
        Self::new_at(execution_id, now)
    }

    /// The same snapshot with its header labelled `label` (no change without
    /// a header).
    pub fn with_label(self, label: String) -> (s: Self)
        ensures
            s.vm == self.vm && s.capability == self.capability && s.trace == self.trace,
            s.tool == self.tool && s.scheduler == self.scheduler && s.memory == self.memory,
            match self.header {
                Some(h) => (s.header matches Some(h2) && h2.execution_id == h.execution_id
                    && h2.timestamp_us == h.timestamp_us && h2.format_version == h.format_version
                    && (h2.label matches Some(l) && l@ == label@)),
                None => s.header is None,
            },
    {
        let mut s = self;
        match s.header {
            Some(h) => {
                s.header = Some(SnapshotHeader { label: Some(label), ..h });
            },
            None => {},
        }
        s
    }

    /// The same snapshot with an engine heap stratum.
    pub fn with_vm(self, heap_bytes: Vec<u8>) -> (s: Self)
        ensures
            s.vm matches Some(v) && v.heap_bytes@ == heap_bytes@ && v.jsc_version@
                == jsc_version_text(),
            s.header == self.header && s.capability == self.capability && s.trace == self.trace,
            s.tool == self.tool && s.scheduler == self.scheduler && s.memory == self.memory,
    {
        let mut s = self;
        s.vm = Some(VmStratum { heap_bytes, jsc_version: "JSC/stub-0.1".to_owned() });
        s
    }

    /// The same snapshot with a capability stratum.
    pub fn with_capability(self, capabilities: CapabilitySet, generation: u64) -> (s: Self)
        ensures
            s.capability matches Some(c) && c.capabilities@ == capabilities@ && c.generation
                == generation,
            s.header == self.header && s.vm == self.vm && s.trace == self.trace,
            s.tool == self.tool && s.scheduler == self.scheduler && s.memory == self.memory,
    {
        let mut s = self;
        s.capability = Some(CapabilityStratum { capabilities, generation });
        s
    }

    /// The same snapshot with a trace stratum.
    pub fn with_trace(self, ndjson: String, event_count: u64) -> (s: Self)
        ensures
            s.trace matches Some(t) && t.ndjson@ == ndjson@ && t.event_count == event_count,
            s.header == self.header && s.vm == self.vm && s.capability == self.capability,
            s.tool == self.tool && s.scheduler == self.scheduler && s.memory == self.memory,
    {
        let mut s = self;
        s.trace = Some(TraceStratum { ndjson, event_count });
        s
    }

    /// The same snapshot with a tool-call stratum.
    pub fn with_tool_log(self, call_log: Vec<ToolCallRecord>) -> (s: Self)
        ensures
            s.tool matches Some(t) && t.call_log@ == call_log@,
            s.header == self.header && s.vm == self.vm && s.capability == self.capability,
            s.trace == self.trace && s.scheduler == self.scheduler && s.memory == self.memory,
    {
        let mut s = self;
        s.tool = Some(ToolStratum { call_log });
        s
    }

    /// The same snapshot with a scheduler stratum.
    pub fn with_scheduler(self, child_agent_ids: Vec<String>, pending_task_count: u64) -> (s: Self)
        ensures
            s.scheduler matches Some(t) && t.child_agent_ids@ == child_agent_ids@
                && t.pending_task_count == pending_task_count,
            s.header == self.header && s.vm == self.vm && s.capability == self.capability,
            s.trace == self.trace && s.tool == self.tool && s.memory == self.memory,
    {
        let mut s = self;
        s.scheduler = Some(SchedulerStratum { child_agent_ids, pending_task_count });
        s
    }

    /// The same snapshot with a memory stratum.
    pub fn with_memory(self, entries: Vec<(String, JsonValue)>, namespace: String) -> (s: Self)
        ensures
            s.memory matches Some(m) && m.entries@ == entries@ && m.namespace@ == namespace@,
            s.header == self.header && s.vm == self.vm && s.capability == self.capability,
            s.trace == self.trace && s.tool == self.tool && s.scheduler == self.scheduler,
    {
        let mut s = self;
        s.memory = Some(MemoryStratum { entries, namespace });
        s
    }

    /// Whether the engine heap stratum is present.
    pub fn has_vm(&self) -> (r: bool)
        ensures
            r == self.vm is Some,
    {
        self.vm.is_some()
    }

    /// Whether the trace stratum is present.
    pub fn has_trace(&self) -> (r: bool)
        ensures
            r == self.trace is Some,
    {
        self.trace.is_some()
    }

    /// Whether the capability stratum is present.
    pub fn has_capability(&self) -> (r: bool)
        ensures
            r == self.capability is Some,
    {
        self.capability.is_some()
    }

    /// Whether the memory stratum is present.
    pub fn has_memory(&self) -> (r: bool)
        ensures
            r == self.memory is Some,
    {
        self.memory.is_some()
    }

    /// The number of present strata (the header not counted).
    pub fn strata_count(&self) -> (n: usize)
        ensures
            n == spec_strata_count(*self),
    {
        let mut n: usize = 0;
        if self.vm.is_some() {
            n = n + 1;
        }
        if self.capability.is_some() {
            n = n + 1;
        }
        if self.trace.is_some() {
            n = n + 1;
        }
        if self.tool.is_some() {
            n = n + 1;
        }
        if self.scheduler.is_some() {
            n = n + 1;
        }
        if self.memory.is_some() {
            n = n + 1;
        }
        n
    }
}

// ---------------------------------------------------------------------------
// Payloads
// ---------------------------------------------------------------------------

/// The serialized payloads of a snapshot, by stratum.
#[derive(Debug)]
pub struct StrataPayloads {
    pub header: Option<Vec<u8>>,
    pub vm: Option<Vec<u8>>,
    pub capability: Option<Vec<u8>>,
    pub trace: Option<Vec<u8>>,
    pub tool: Option<Vec<u8>>,
    pub scheduler: Option<Vec<u8>>,
    pub memory: Option<Vec<u8>>,
}

/// The view of an optional payload.
pub open spec fn opt_bytes(p: Option<Vec<u8>>) -> Option<Seq<u8>> {
    match p {
        Some(v) => Some(v@),
        None => None,
    }
}

/// The frame of an optional payload, as a run of zero or one frame.
pub open spec fn frame_if(tag: u16, p: Option<Vec<u8>>) -> Seq<(u16, Seq<u8>)> {
    match p {
        Some(v) => seq![(tag, v@)],
        None => Seq::empty(),
    }
}

/// The frames written for a set of payloads: the header (tag 0), then the
/// present strata in tag order.
pub open spec fn payload_frames(p: StrataPayloads) -> Seq<(u16, Seq<u8>)> {
    frame_if(0, p.header) + frame_if(1, p.vm) + frame_if(2, p.capability) + frame_if(3, p.trace)
        + frame_if(4, p.tool) + frame_if(5, p.scheduler) + frame_if(6, p.memory)
}

/// The payload of the last frame tagged `tag`.
pub open spec fn last_payload(fs: Seq<(u16, Seq<u8>)>, tag: u16) -> Option<Seq<u8>>
    decreases fs.len(),
{
    if fs.len() == 0 {
        None
    } else if fs.last().0 == tag {
        Some(fs.last().1)
    } else {
        last_payload(fs.drop_last(), tag)
    }
}

/// Whether `p` holds, for each tag, the payload of the last frame of `fs`
/// with that tag.
pub open spec fn payloads_of(p: StrataPayloads, fs: Seq<(u16, Seq<u8>)>) -> bool {
    &&& opt_bytes(p.header) == last_payload(fs, 0)
    &&& opt_bytes(p.vm) == last_payload(fs, 1)
    &&& opt_bytes(p.capability) == last_payload(fs, 2)
    &&& opt_bytes(p.trace) == last_payload(fs, 3)
    &&& opt_bytes(p.tool) == last_payload(fs, 4)
    &&& opt_bytes(p.scheduler) == last_payload(fs, 5)
    &&& opt_bytes(p.memory) == last_payload(fs, 6)
}

/// The message of a decoding error.
pub open spec fn decode_error_message(e: DecodeError) -> Seq<char> {
    match e {
        DecodeError::TooShort => "too short"@,
        DecodeError::BadMagic => "invalid magic"@,
        DecodeError::CrcMismatch { stored, computed } => "CRC mismatch: stored=0x"@ + hex_digits(
            stored as nat,
            8,
        ) + " computed=0x"@ + hex_digits(computed as nat, 8),
        DecodeError::UnsupportedVersion(v) => "unsupported version "@ + decimal(v as nat),
        DecodeError::StratumOverflow => "stratum overflow"@,
    }
}

/// The message of a decoding error (see [`decode_error_message`]).
pub fn decode_error_text(e: DecodeError) -> (s: String)
    ensures
        s@ == decode_error_message(e),
{
    let mut s = String::new();
    match e {
        DecodeError::TooShort => push_text(&mut s, "too short"),
        DecodeError::BadMagic => push_text(&mut s, "invalid magic"),
        DecodeError::CrcMismatch { stored, computed } => {
            push_text(&mut s, "CRC mismatch: stored=0x");
            push_hex(&mut s, stored as u64, 8);
            push_text(&mut s, " computed=0x");
            push_hex(&mut s, computed as u64, 8);
        },
        DecodeError::UnsupportedVersion(v) => {
            push_text(&mut s, "unsupported version ");
            push_decimal(&mut s, v as u64);
        },
        DecodeError::StratumOverflow => push_text(&mut s, "stratum overflow"),
    }
    s
}

fn copy_bytes(v: &Vec<u8>) -> (r: Vec<u8>)
    ensures
        r@ == v@,
{
    let mut r: Vec<u8> = Vec::new();
    push_all(&mut r, v.as_slice());
    r
}

fn push_opt(frames: &mut Vec<Frame>, tag: u16, p: &Option<Vec<u8>>)
    ensures
        frames_view(final(frames)@) == frames_view(old(frames)@) + frame_if(tag, *p),
{
    match p {
        Some(v) => {
            frames.push(Frame { tag, payload: copy_bytes(v) });
            assert(frames_view(final(frames)@) =~= frames_view(old(frames)@) + frame_if(tag, *p));
        },
        None => {
            assert(frames_view(final(frames)@) =~= frames_view(old(frames)@) + frame_if(tag, *p));
        },
    }
}

impl StrataPayloads {
    /// Writes the payloads as a snapshot: the header frame, then each present
    /// stratum in tag order, framed and checksummed.
    pub fn serialize(&self) -> (out: Vec<u8>)
        requires
            lengths_fit(payload_frames(*self)),
        ensures
            out@ == spec_encode(payload_frames(*self)),
    {
        let mut frames: Vec<Frame> = Vec::new();
        push_opt(&mut frames, 0, &self.header);
        push_opt(&mut frames, 1, &self.vm);
        push_opt(&mut frames, 2, &self.capability);
        push_opt(&mut frames, 3, &self.trace);
        push_opt(&mut frames, 4, &self.tool);
        push_opt(&mut frames, 5, &self.scheduler);
        push_opt(&mut frames, 6, &self.memory);
        assert(frames_view(frames@) =~= payload_frames(*self));
        encode_frames(&frames)
    }

    /// Reads a snapshot: checks its length, magic, checksum, version and
    /// frame bounds, then keeps for each tag the payload of its last frame.
    /// A failed check is a restore error with the check's message.
    pub fn deserialize(data: &[u8]) -> (r: Result<StrataPayloads, BuaError>)
        ensures
            match spec_decode(data@) {
                Ok((_, fs)) => r matches Ok(p) && payloads_of(p, fs),
                Err(e) => r matches Err(BuaError::SnapshotRestore(m)) && m@ == decode_error_message(
                    e,
                ),
            },
    {
        match decode_frames(data) {
            Err(e) => Err(BuaError::SnapshotRestore(decode_error_text(e))),
            Ok(decoded) => {
                let DecodedFrames { version: _, frames } = decoded;
                let ghost fs = frames_view(frames@);
                let mut p = StrataPayloads {
                    header: None,
                    vm: None,
                    capability: None,
                    trace: None,
                    tool: None,
                    scheduler: None,
                    memory: None,
                };
                let mut i: usize = 0;
                while i < frames.len()
                    invariant
                        i <= frames@.len(),
                        fs == frames_view(frames@),
                        payloads_of(p, fs.take(i as int)),
                    decreases frames.len() - i,
                {
                    let f = &frames[i];
                    let bytes = copy_bytes(&f.payload);
                    proof {
                        assert(fs.take(i + 1).drop_last() =~= fs.take(i as int));
                        assert(fs.take(i + 1).last() == f@);
                    }
                    if f.tag == 0 {
                        p.header = Some(bytes);
                    } else if f.tag == 1 {
                        p.vm = Some(bytes);
                    } else if f.tag == 2 {
                        p.capability = Some(bytes);
                    } else if f.tag == 3 {
                        p.trace = Some(bytes);
                    } else if f.tag == 4 {
                        p.tool = Some(bytes);
                    } else if f.tag == 5 {
                        p.scheduler = Some(bytes);
                    } else if f.tag == 6 {
                        p.memory = Some(bytes);
                    }
                    i = i + 1;
                }
                assert(fs.take(frames@.len() as int) =~= fs);
                Ok(p)
            },
        }
    }
}

proof fn lemma_last_payload_append(a: Seq<(u16, Seq<u8>)>, tag2: u16, x: Option<Vec<u8>>, tag: u16)
    ensures
        last_payload(a + frame_if(tag2, x), tag) == (if tag2 == tag && x is Some {
            opt_bytes(x)
        } else {
            last_payload(a, tag)
        }),
{
    match x {
        Some(v) => {
            assert((a + frame_if(tag2, x)).drop_last() =~= a);
        },
        None => {
            assert(a + frame_if(tag2, x) =~= a);
        },
    }
}

/// Reading back what was written: a snapshot serialized from a set of
/// payloads decodes, and deserializing it gives each payload back.
pub proof fn law_payloads_roundtrip(p: StrataPayloads)
    requires
        lengths_fit(payload_frames(p)),
    ensures
        spec_decode(spec_encode(payload_frames(p))) matches Ok((v, fs)) && v == FORMAT_VERSION
            && payloads_of(p, fs),
{
    crate::snapshot::law_snapshot_roundtrip(payload_frames(p));
    let e = Seq::<(u16, Seq<u8>)>::empty();
    let f0 = e + frame_if(0, p.header);
    let f1 = f0 + frame_if(1, p.vm);
    let f2 = f1 + frame_if(2, p.capability);
    let f3 = f2 + frame_if(3, p.trace);
    let f4 = f3 + frame_if(4, p.tool);
    let f5 = f4 + frame_if(5, p.scheduler);
    let f6 = f5 + frame_if(6, p.memory);
    assert(f6 =~= payload_frames(p));
    assert forall|t: u16| 0 <= t <= 6 implies last_payload(f6, t) == (if t == 0 {
        opt_bytes(p.header)
    } else if t == 1 {
        opt_bytes(p.vm)
    } else if t == 2 {
        opt_bytes(p.capability)
    } else if t == 3 {
        opt_bytes(p.trace)
    } else if t == 4 {
        opt_bytes(p.tool)
    } else if t == 5 {
        opt_bytes(p.scheduler)
    } else {
        opt_bytes(p.memory)
    }) by {
        lemma_last_payload_append(e, 0, p.header, t);
        lemma_last_payload_append(f0, 1, p.vm, t);
        lemma_last_payload_append(f1, 2, p.capability, t);
        lemma_last_payload_append(f2, 3, p.trace, t);
        lemma_last_payload_append(f3, 4, p.tool, t);
        lemma_last_payload_append(f4, 5, p.scheduler, t);
        lemma_last_payload_append(f5, 6, p.memory, t);
    }
    assert(last_payload(f6, 0) == opt_bytes(p.header));
    assert(last_payload(f6, 1) == opt_bytes(p.vm));
    assert(last_payload(f6, 2) == opt_bytes(p.capability));
    assert(last_payload(f6, 3) == opt_bytes(p.trace));
    assert(last_payload(f6, 4) == opt_bytes(p.tool));
    assert(last_payload(f6, 5) == opt_bytes(p.scheduler));
    assert(last_payload(f6, 6) == opt_bytes(p.memory));
}

/// The snapshot format of earlier versions, kept for the command line.
#[derive(Debug)]
pub struct Snapshot {
    pub version: u32,
    pub execution_id: ExecutionId,
    pub timestamp_us: u64,
    pub capabilities: CapabilitySet,
    pub trace_ndjson: String,
    pub heap_bytes: Vec<u8>,
    pub pending_tool_calls: Vec<JsonValue>,
}

impl Snapshot {
    /// A version 1 snapshot taken now, with no pending tool calls.
    pub fn new(
        execution_id: ExecutionId,
        capabilities: CapabilitySet,
        trace_ndjson: String,
        heap_bytes: Vec<u8>,
    ) -> (s: Self)
        ensures
            s.version == 1,
            s.execution_id == execution_id,
            s.capabilities@ == capabilities@,
            s.trace_ndjson@ == trace_ndjson@,
            s.heap_bytes@ == heap_bytes@,
            s.pending_tool_calls@.len() == 0,
    {
        Snapshot {
            version: 1,
            execution_id,
            timestamp_us: wall_clock_micros(),
            capabilities,
            trace_ndjson,
            heap_bytes,
            pending_tool_calls: Vec::new(),
        }
    }

    /// The layered form: a new header for the same execution, the heap, the
    /// capabilities at generation 0, and the trace with an event count of 0.
    pub fn upgrade(self) -> (l: LayeredSnapshot)
        ensures
            l.header matches Some(h) && h.execution_id == self.execution_id,
            l.vm matches Some(v) && v.heap_bytes@ == self.heap_bytes@,
            l.capability matches Some(c) && c.capabilities@ == self.capabilities@ && c.generation
                == 0,
            l.trace matches Some(t) && t.ndjson@ == self.trace_ndjson@ && t.event_count == 0,
            l.tool is None && l.scheduler is None && l.memory is None,
    {
        let Snapshot { version: _, execution_id, timestamp_us: _, capabilities, trace_ndjson, heap_bytes, pending_tool_calls: _ } = self;
        LayeredSnapshot::new(execution_id).with_vm(heap_bytes).with_capability(capabilities, 0).with_trace(
            trace_ndjson,
            0,
        )
    }
}

} // verus!
