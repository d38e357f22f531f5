//! Checkpoints of one agent execution: when to take them, what to call
//! them, which files are this execution's, and how many to evict.
use vstd::prelude::*;

use crate::resolver::{path_join, spec_path_join};
use crate::text::{chars_of, decimal, has_prefix, push_char, push_decimal, push_text, starts_with};
use crate::types::{uuid_simple, ExecutionId};

verus! {

/// Configuration of snapshots.
#[derive(Debug)]
pub struct SnapshotConfig {
    /// Directory to write snapshots to.
    pub dir: String,
    /// Maximum number of snapshots to retain.
    pub max_snapshots: usize,
    /// Snapshot automatically every N tool calls.
    pub auto_snapshot_every: Option<u64>,
}

impl Default for SnapshotConfig {
    fn default() -> (c: Self)
        ensures
            c.dir@ == ".bua/snapshots"@,
            c.max_snapshots == 10,
            c.auto_snapshot_every is None,
    {
        SnapshotConfig { dir: ".bua/snapshots".to_owned(), max_snapshots: 10, auto_snapshot_every: None }
    }
}

/// A reference to a written snapshot file.
#[derive(Debug)]
pub struct SnapshotRef {
    pub path: String,
    pub execution_id: ExecutionId,
    pub sequence: u64,
}

/// The snapshots of one agent execution.
#[derive(Debug)]
pub struct SnapshotContext {
    execution_id: ExecutionId,
    config: SnapshotConfig,
    snapshot_count: u64,
}

/// `n` in decimal, padded with zeros to at least four digits.
pub open spec fn padded4(n: u64) -> Seq<char> {
    let d = decimal(n as nat);
    if d.len() < 4 {
        Seq::new((4 - d.len()) as nat, |i: int| '0') + d
    } else {
        d
    }
}

/// The file name of checkpoint `count` of an execution.
pub open spec fn checkpoint_file_name(execution: u128, count: u64) -> Seq<char> {
    uuid_simple(execution) + "-snap-"@ + padded4(count) + ".bsnap"@
}

/// Whether a file name is one of an execution's snapshots: it starts with
/// the execution's simple identifier and ends with `.bsnap`.
pub open spec fn is_own_snapshot_name(execution: u128, name: Seq<char>) -> bool {
    has_prefix(name, uuid_simple(execution)) && name.len() >= 6 && name.skip(name.len() - 6)
        == ".bsnap"@
}

impl SnapshotContext {
    /// The execution.
    pub closed spec fn execution(&self) -> ExecutionId {
        self.execution_id
    }

    /// The number of checkpoints taken.
    pub closed spec fn count(&self) -> u64 {
        self.snapshot_count
    }

    /// The snapshot directory.
    pub closed spec fn dir(&self) -> Seq<char> {
        self.config.dir@
    }

    /// The retention limit.
    pub closed spec fn max_snapshots(&self) -> usize {
        self.config.max_snapshots
    }

    /// The automatic checkpoint period.
    pub closed spec fn every(&self) -> Option<u64> {
        self.config.auto_snapshot_every
    }

    /// The snapshots of `execution_id`, configured by `config`.
    pub fn new(execution_id: ExecutionId, config: SnapshotConfig) -> (c: Self)
        ensures
            c.execution() == execution_id,
            c.count() == 0,
            c.dir() == config.dir@,
            c.max_snapshots() == config.max_snapshots,
            c.every() == config.auto_snapshot_every,
    {
        SnapshotContext { execution_id, config, snapshot_count: 0 }
    }

    /// Takes the next checkpoint number and gives its file path: in the
    /// snapshot directory, named after the execution and the number.
    pub fn next_checkpoint(&mut self) -> (r: (u64, String))
        ensures
            r.0 == old(self).count(),
            r.1@ == spec_path_join(old(self).dir(), checkpoint_file_name(old(self).execution().0, r.0)),
            final(self).count() == vstd::wrapping::u64_specs::wrapping_add(old(self).count(), 1),
            final(self).execution() == old(self).execution(),
            final(self).dir() == old(self).dir(),
            final(self).max_snapshots() == old(self).max_snapshots(),
            final(self).every() == old(self).every(),
    {
        let count = self.snapshot_count;
        self.snapshot_count = self.snapshot_count.wrapping_add(1);
        let mut name = self.execution_id.simple();
        push_text(&mut name, "-snap-");
        let mut digits = String::new();
        push_decimal(&mut digits, count);
        let dc = chars_of(digits.as_str());
        let ghost before = name@;
        if dc.len() < 4 {
            let pad = 4 - dc.len();
            let mut k: usize = 0;
            while k < pad
                invariant
                    k <= pad,
                    name@ == before + Seq::new(k as nat, |i: int| '0'),
                decreases pad - k,
            {
                push_char(&mut name, '0');
                k = k + 1;
                assert(name@ =~= before + Seq::new(k as nat, |i: int| '0'));
            }
        }
        push_text(&mut name, digits.as_str());
        push_text(&mut name, ".bsnap");
        assert(name@ =~= checkpoint_file_name(self.execution_id.0, count));
        let path = path_join(self.config.dir.as_str(), name.as_str());
        (count, path)
    }

    /// Whether a file name is one of this execution's snapshots.
    pub fn is_own_snapshot(&self, name: &str) -> (r: bool)
        ensures
            r == is_own_snapshot_name(self.execution().0, name@),
    {
        let prefix = self.execution_id.simple();
        let cs = chars_of(name);
        if !starts_with(cs.as_slice(), prefix.as_str()) {
            return false;
        }
        if cs.len() < 6 {
            return false;
        }
        let tail = crate::text::slice_chars(cs.as_slice(), cs.len() - 6, cs.len());
        let t = crate::text::string_of(tail.as_slice());
        assert(tail@ =~= name@.skip(name@.len() - 6));
        crate::text::text_eq(t.as_str(), ".bsnap")
    }

    /// How many of `matching` snapshot files to evict: those beyond the
    /// retention limit.
    pub fn eviction_count(&self, matching: usize) -> (n: usize)
        ensures
            n == if matching > self.max_snapshots() {
                matching - self.max_snapshots()
            } else {
                0
            },
    {
        matching.saturating_sub(self.config.max_snapshots)
    }

    /// Whether to checkpoint after `tool_call_count` tool calls: when a
    /// positive period is set and divides the count.
    pub fn should_auto_checkpoint(&self, tool_call_count: u64) -> (r: bool)
        ensures
            r == match self.every() {
                Some(n) => n > 0 && tool_call_count % n == 0,
                None => false,
            },
    {
        match self.config.auto_snapshot_every {
            Some(n) => n > 0 && tool_call_count % n == 0,
            None => false,
        }
    }

    /// The reference to checkpoint `sequence`, written at `path`.
    pub fn snapshot_ref(&self, path: String, sequence: u64) -> (r: SnapshotRef)
        ensures
            r.path@ == path@,
            r.execution_id == self.execution(),
            r.sequence == sequence,
    {
        SnapshotRef { path, execution_id: self.execution_id, sequence }
    }
}

} // verus!
