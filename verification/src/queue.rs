//! The queue of promise resolutions between async work and the engine:
//! async tasks push, the engine thread drains at safe points.
use vstd::prelude::*;
use std::collections::VecDeque;

verus! {

broadcast use vstd::std_specs::vecdeque::group_vec_dequeue_axioms;

/// A first-in first-out queue of resolutions, with counts of everything
/// pushed and drained.
#[derive(Debug)]
pub struct ResolutionQueue<T> {
    queue: VecDeque<T>,
    total_enqueued: u64,
    total_drained: u64,
}

/// The mathematical value of a queue.
pub struct QueueView<T> {
    pub pending: Seq<T>,
    pub total_enqueued: u64,
    pub total_drained: u64,
}

impl<T> View for ResolutionQueue<T> {
    type V = QueueView<T>;

    closed spec fn view(&self) -> QueueView<T> {
        QueueView {
            pending: self.queue@,
            total_enqueued: self.total_enqueued,
            total_drained: self.total_drained,
        }
    }
}

impl<T> ResolutionQueue<T> {
    /// An empty queue.
    pub fn new() -> (q: Self)
        ensures
            q@.pending.len() == 0,
            q@.total_enqueued == 0,
            q@.total_drained == 0,
    {
        ResolutionQueue { queue: VecDeque::new(), total_enqueued: 0, total_drained: 0 }
    }

    /// Pushes a resolution at the back.
    pub fn push(&mut self, resolution: T)
        ensures
            final(self)@.pending == old(self)@.pending.push(resolution),
            final(self)@.total_enqueued == vstd::wrapping::u64_specs::wrapping_add(
                old(self)@.total_enqueued,
                1,
            ),
            final(self)@.total_drained == old(self)@.total_drained,
    {
        self.queue.push_back(resolution);
        self.total_enqueued = self.total_enqueued.wrapping_add(1);
    }

    /// Takes every pending resolution, in the order they were pushed.
    pub fn drain(&mut self) -> (r: Vec<T>)
        ensures
            r@ == old(self)@.pending,
            final(self)@.pending.len() == 0,
            final(self)@.total_enqueued == old(self)@.total_enqueued,
            final(self)@.total_drained == vstd::wrapping::u64_specs::wrapping_add(
                old(self)@.total_drained,
                old(self)@.pending.len() as u64,
            ),
    {
        let count = self.queue.len();
        let ghost all = self.queue@;
        let mut out: Vec<T> = Vec::new();
        if count == 0 {
            assert(out@ =~= all);
            assert(vstd::wrapping::u64_specs::wrapping_add(self.total_drained, 0) == self.total_drained);
            return out;
        }
        while self.queue.len() > 0
            invariant
                all == out@ + self.queue@,
                all == old(self)@.pending,
                count == all.len(),
                self.total_enqueued == old(self)@.total_enqueued,
                self.total_drained == old(self)@.total_drained,
            decreases self.queue@.len(),
        {
            let x = self.queue.pop_front().unwrap();
            out.push(x);
            assert(all =~= out@ + self.queue@);
        }
        assert(out@ =~= all);
        self.total_drained = self.total_drained.wrapping_add(count as u64);
        out
    }

    /// The number of pending resolutions.
    pub fn pending_count(&self) -> (n: usize)
        ensures
            n == self@.pending.len(),
    {
        self.queue.len()
    }

    /// The number of resolutions ever pushed (wrapping).
    pub fn total_enqueued(&self) -> (n: u64)
        ensures
            n == self@.total_enqueued,
    {
        self.total_enqueued
    }

    /// The number of resolutions ever drained (wrapping).
    pub fn total_drained(&self) -> (n: u64)
        ensures
            n == self@.total_drained,
    {
        self.total_drained
    }

    /// Whether a resolution is waiting.
    pub fn has_pending(&self) -> (r: bool)
        ensures
            r == (self@.pending.len() > 0),
    {
        self.queue.len() > 0
    }
}

/// Draining gives back what was pushed, in order: pushing `a` then `b` onto
/// an empty queue and draining yields exactly `[a, b]`.
pub proof fn law_fifo<T>(p: Seq<T>, a: T, b: T)
    requires
        p.len() == 0,
    ensures
        p.push(a).push(b) == seq![a, b],
{
    assert(p.push(a).push(b) =~= seq![a, b]);
}

} // verus!
