//! The promises a bridge keeps pending between the engine and async work,
//! and how runtime errors are named on the engine side.
use vstd::prelude::*;

use crate::error::BuaError;
use crate::text::push_text;
use crate::types::{is_uuid_v4, uuid_simple, ExecutionId};
use dashmap::DashMap;

verus! {

/// Identifies one tracked promise (a UUID value).
#[derive(Clone, Copy, PartialEq, Eq, Structural, Debug, Hash)]
pub struct PromiseId(pub u128);

impl PromiseId {
    /// A fresh random identifier: a version 4 UUID.
    pub fn new() -> (id: Self)
        ensures
            is_uuid_v4(id.0),
    {
        PromiseId(ExecutionId::new().as_u128())
    }

    /// The text of the identifier: `prom-` and its simple UUID digits.
    pub fn to_text(&self) -> (s: String)
        ensures
            s@ == "prom-"@ + uuid_simple(self.0),
    {
        let mut s = String::new();
        push_text(&mut s, "prom-");
        let d = ExecutionId::from_u128(self.0).simple();
        push_text(&mut s, d.as_str());
        s
    }
}

/// `dashmap::DashMap`, the concurrent map that holds the pending promises
/// here and the module cache of the loader.
#[verifier::external_type_specification]
#[verifier::external_body]
#[verifier::reject_recursive_types(K)]
#[verifier::reject_recursive_types(V)]
#[verifier::reject_recursive_types(S)]
pub struct ExDashMap<K, V, S>(DashMap<K, V, S>);

/// What a table of pending promises holds: each promise's UUID value mapped
/// to the time it was created.
pub uninterp spec fn pending_times(m: DashMap<u128, u64>) -> Map<u128, u64>;

/// `DashMap::new`: an empty table.
#[verifier::external_body]
fn new_table() -> (table: DashMap<u128, u64>)
    ensures
        pending_times(table).dom() == Set::<u128>::empty(),
{
    DashMap::new()
}

/// `DashMap::insert`: afterwards `key` maps to `value` and every other key
/// is as before; the previous value of `key`, if it had one, is returned.
#[verifier::external_body]
fn table_insert(m: &mut DashMap<u128, u64>, key: u128, value: u64) -> (prev: Option<u64>)
    ensures
        pending_times(*final(m)) == pending_times(*old(m)).insert(key, value),
        prev == (if pending_times(*old(m)).dom().contains(key) {
            Some(pending_times(*old(m))[key])
        } else {
            None
        }),
{
    m.insert(key, value)
}

/// `DashMap::remove`: afterwards `key` is absent and every other key is as
/// before; the removed entry, if there was one, is returned.
#[verifier::external_body]
fn table_remove(m: &mut DashMap<u128, u64>, key: u128) -> (r: Option<(u128, u64)>)
    ensures
        pending_times(*final(m)) == pending_times(*old(m)).remove(key),
        r == (if pending_times(*old(m)).dom().contains(key) {
            Some((key, pending_times(*old(m))[key]))
        } else {
            None
        }),
{
    m.remove(&key)
}

/// `DashMap::len`: the number of entries.
#[verifier::external_body]
fn table_len(m: &DashMap<u128, u64>) -> (n: usize)
    ensures
        n == pending_times(*m).len(),
{
    m.len()
}

/// `DashMap::iter`, each entry copied out: every entry exactly once, in an
/// order that the table's hashing decides (so nothing is said of the order).
#[verifier::external_body]
fn table_entries(m: &DashMap<u128, u64>) -> (es: Vec<(u128, u64)>)
    ensures
        forall|i: int| #![trigger es@[i]]
            0 <= i < es@.len() ==> pending_times(*m).dom().contains(es@[i].0) && pending_times(*m)[es@[i].0]
                == es@[i].1,
        forall|k: u128| #[trigger] pending_times(*m).dom().contains(k) ==> exists|i: int|
            0 <= i < es@.len() && es@[i].0 == k,
        forall|i: int, j: int| 0 <= i < j < es@.len() ==> es@[i].0 != es@[j].0,
{
    m.iter().map(|e| (*e.key(), *e.value())).collect()
}

/// The promises awaiting resolution, each with the time it was created, and
/// the number of promises ever created.
#[derive(Debug)]
pub struct PendingPromises {
    table: DashMap<u128, u64>,
    created: u64,
}

/// The mathematical value of the pending promises.
pub struct PendingView {
    pub pending: Map<u128, u64>,
    pub created: u64,
}

impl View for PendingPromises {
    type V = PendingView;

    closed spec fn view(&self) -> PendingView {
        PendingView { pending: pending_times(self.table), created: self.created }
    }
}

impl PendingView {
    /// A table of pending promises holds finitely many.
    pub open spec fn wf(self) -> bool {
        self.pending.dom().finite()
    }
}

/// Whether a promise created at `created_us` is stale at `now_us`: pending
/// for longer than `threshold_us`.
pub open spec fn is_stale(created_us: u64, now_us: u64, threshold_us: u64) -> bool {
    (if now_us >= created_us {
        now_us - created_us
    } else {
        0
    }) > threshold_us
}

/// Whether `id` is among the pending promises of `pending` and stale.
pub open spec fn stale_in(pending: Map<u128, u64>, id: PromiseId, now_us: u64, threshold_us: u64) -> bool {
    pending.dom().contains(id.0) && is_stale(pending[id.0], now_us, threshold_us)
}

/// Pushing `x` onto `s` adds exactly `x`, and keeps `s` free of duplicates
/// when `x` was not in it.
proof fn lemma_push_contains(s: Seq<PromiseId>, x: PromiseId)
    ensures
        forall|p: PromiseId| #[trigger] s.push(x).contains(p) <==> s.contains(p) || p == x,
        s.no_duplicates() && !s.contains(x) ==> s.push(x).no_duplicates(),
{
    assert forall|p: PromiseId| #[trigger] s.push(x).contains(p) <==> s.contains(p) || p == x by {
        if s.push(x).contains(p) {
            let k = choose|k: int| 0 <= k < s.push(x).len() && s.push(x)[k] == p;
            if k < s.len() {
                assert(s[k] == p);
            }
        }
        if s.contains(p) {
            let k = choose|k: int| 0 <= k < s.len() && s[k] == p;
            assert(s.push(x)[k] == p);
        }
        if p == x {
            assert(s.push(x)[s.len() as int] == x);
        }
    }
    if s.no_duplicates() && !s.contains(x) {
        assert forall|a: int, b: int| 0 <= a < s.push(x).len() && 0 <= b < s.push(x).len() && a != b implies s.push(x)[a]
            != s.push(x)[b] by {
            if a == s.len() {
                assert(s[b] == s.push(x)[b]);
            } else if b == s.len() {
                assert(s[a] == s.push(x)[a]);
            }
        }
    }
}

impl PendingPromises {
    /// No pending promises.
    pub fn new() -> (p: Self)
        ensures
            p@.wf(),
            p@.pending == Map::<u128, u64>::empty(),
            p@.created == 0,
    {
        PendingPromises { table: new_table(), created: 0 }
    }

    /// Tracks a new promise created at `created_us`.
    pub fn register(&mut self, id: PromiseId, created_us: u64)
        ensures
            old(self)@.wf() ==> final(self)@.wf(),
            final(self)@.pending == old(self)@.pending.insert(id.0, created_us),
            final(self)@.created == vstd::wrapping::u64_specs::wrapping_add(old(self)@.created, 1),
    {
        self.created = self.created.wrapping_add(1);
        let _ = table_insert(&mut self.table, id.0, created_us);
    }

    /// Stops tracking promise `id` (it settled).
    pub fn settle(&mut self, id: PromiseId)
        ensures
            old(self)@.wf() ==> final(self)@.wf(),
            final(self)@.pending == old(self)@.pending.remove(id.0),
            final(self)@.created == old(self)@.created,
    {
        let _ = table_remove(&mut self.table, id.0);
    }

    /// The number of pending promises.
    pub fn pending_count(&self) -> (n: usize)
        ensures
            n == self@.pending.len(),
    {
        table_len(&self.table)
    }

    /// The number of promises ever created (wrapping).
    pub fn total_created(&self) -> (n: u64)
        ensures
            n == self@.created,
    {
        self.created
    }

    /// The promises pending for longer than `threshold_us` at `now_us`, each
    /// once, in no particular order.
    pub fn stale_promises(&self, now_us: u64, threshold_us: u64) -> (r: Vec<PromiseId>)
        ensures
            r@.no_duplicates(),
            forall|p: PromiseId| r@.contains(p) <==> stale_in(self@.pending, p, now_us, threshold_us),
    {
        let es = table_entries(&self.table);
        let ghost pending = self@.pending;
        let mut out: Vec<PromiseId> = Vec::new();
        let mut i: usize = 0;
        while i < es.len()
            invariant
                i <= es@.len(),
                pending == pending_times(self.table),
                forall|a: int, b: int| 0 <= a < b < es@.len() ==> es@[a].0 != es@[b].0,
                out@.no_duplicates(),
                forall|p: PromiseId| out@.contains(p) <==> exists|j: int|
                    0 <= j < i && #[trigger] es@[j].0 == p.0 && is_stale(es@[j].1, now_us, threshold_us),
            decreases es.len() - i,
        {
            let (key, created) = es[i];
            let ghost before = out@;
            if now_us.saturating_sub(created) > threshold_us {
                proof {
                    assert forall|p: PromiseId| before.contains(p) implies p.0 != key by {
                        let j = choose|j: int|
                            0 <= j < i && #[trigger] es@[j].0 == p.0 && is_stale(es@[j].1, now_us, threshold_us);
                        assert(es@[j].0 != es@[i as int].0);
                    }
                    lemma_push_contains(before, PromiseId(key));
                }
                out.push(PromiseId(key));
            }
            proof {
                assert forall|p: PromiseId| out@.contains(p) <==> exists|j: int|
                    0 <= j < i + 1 && #[trigger] es@[j].0 == p.0 && is_stale(es@[j].1, now_us, threshold_us) by {
                    if exists|j: int| 0 <= j < i + 1 && #[trigger] es@[j].0 == p.0 && is_stale(es@[j].1, now_us, threshold_us) {
                        let j = choose|j: int|
                            0 <= j < i + 1 && #[trigger] es@[j].0 == p.0 && is_stale(es@[j].1, now_us, threshold_us);
                        if j == i {
                            assert(p == PromiseId(key));
                        }
                    }
                    if out@.contains(p) && !before.contains(p) {
                        assert(es@[i as int].0 == p.0);
                    }
                }
            }
            i = i + 1;
        }
        proof {
            assert forall|p: PromiseId| out@.contains(p) <==> stale_in(pending, p, now_us, threshold_us) by {
                if stale_in(pending, p, now_us, threshold_us) {
                    let j = choose|j: int| 0 <= j < es@.len() && es@[j].0 == p.0;
                    assert(es@[j].0 == p.0);
                }
                if out@.contains(p) {
                    let j = choose|j: int|
                        0 <= j < es@.len() && #[trigger] es@[j].0 == p.0 && is_stale(es@[j].1, now_us, threshold_us);
                    assert(es@[j] == es@[j]);
                }
            }
        }
        out
    }
}

/// The engine-side error name of a runtime error.
pub open spec fn error_name(e: BuaError) -> Seq<char> {
    match e {
        BuaError::PermissionDenied { .. } => "PermissionError"@,
        BuaError::ModuleNotFound { .. } => "ModuleNotFoundError"@,
        BuaError::ToolNotFound { .. } => "ToolNotFoundError"@,
        BuaError::AgentTimeout { .. } => "TimeoutError"@,
        BuaError::Io(_) => "IOError"@,
        _ => "BuaError"@,
    }
}

/// The engine-side error name of a runtime error (see [`error_name`]).
pub fn classify_error_name(e: &BuaError) -> (s: &'static str)
    ensures
        s@ == error_name(*e),
{
    match e {
        BuaError::PermissionDenied { .. } => "PermissionError",
        BuaError::ModuleNotFound { .. } => "ModuleNotFoundError",
        BuaError::ToolNotFound { .. } => "ToolNotFoundError",
        BuaError::AgentTimeout { .. } => "TimeoutError",
        BuaError::Io(_) => "IOError",
        _ => "BuaError",
    }
}

} // verus!
