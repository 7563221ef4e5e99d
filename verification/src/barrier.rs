//! Convergence barrier.
//!
//! Given launched nodes and each node's expected connection count, the
//! barrier resolves once every node's live connection count has reached its
//! expectation. The wait is level-triggered: whenever a node's wait wakes,
//! the authoritative count is re-read and compared against the expectation,
//! so a missed lifecycle event never causes a stall. The barrier has no
//! deadline of its own; driving the per-node waits (awaiting lifecycle
//! events concurrently) is the caller's loop, which feeds every re-read
//! count back through [`BarrierState::observe_count`].

use vstd::prelude::*;
use vstd::pervasive::VecAdditionalExecFns;

verus! {

/// What a per-node wait does next after a count was re-read.
#[derive(Clone, Copy, PartialEq, Eq, Structural, Debug)]
pub enum WaitDecision {
    /// The node reached its expectation: stop watching it.
    Resolve,
    /// Not there yet: suspend until the next lifecycle event, then re-read.
    AwaitEvent,
}

/// The barrier over all nodes: per node, its expected connection count,
/// whether its wait has resolved, and whether its wait subscribed to the
/// node's lifecycle events.
pub struct BarrierState {
    pub expected: Vec<usize>,
    pub resolved: Vec<bool>,
    pub subscribed: Vec<bool>,
}

impl BarrierState {
    /// The three per-node columns line up.
    pub open spec fn wf(self) -> bool {
        &&& self.resolved@.len() == self.expected@.len()
        &&& self.subscribed@.len() == self.expected@.len()
    }

    /// How many nodes the barrier watches.
    pub open spec fn node_count(self) -> nat {
        self.expected@.len()
    }

    /// Whether node i's wait has resolved.
    pub open spec fn is_resolved(self, i: int) -> bool {
        self.resolved@[i]
    }

    /// The barrier as a whole is the conjunction of all per-node waits.
    pub open spec fn all_resolved(self) -> bool {
        forall|i: int| 0 <= i < self.node_count() ==> self.is_resolved(i)
    }

    /// Sets the barrier up: a node expecting zero connections resolves
    /// immediately and never subscribes to lifecycle events; every other
    /// node subscribes before any count is read, closing the race between
    /// a connection completing and the subscription.
    pub fn init(expected: Vec<usize>) -> (b: BarrierState)
        ensures
            b.wf(),
            b.expected == expected,
            forall|i: int| 0 <= i < expected@.len() ==> b.is_resolved(i) == (expected@[i] == 0),
            forall|i: int| 0 <= i < expected@.len() ==> b.subscribed@[i] == (expected@[i] != 0),
    {
        let n = expected.len();
        let mut resolved: Vec<bool> = Vec::new();
        let mut subscribed: Vec<bool> = Vec::new();
        let mut k: usize = 0;
        while k < n
            invariant
                k <= n,
                n == expected@.len(),
                resolved@.len() == k,
                subscribed@.len() == k,
                forall|i: int| 0 <= i < k ==> resolved@[i] == (expected@[i] == 0),
                forall|i: int| 0 <= i < k ==> subscribed@[i] == (expected@[i] != 0),
            decreases n - k,
        {
            let zero = expected[k] == 0;
            resolved.push(zero);
            subscribed.push(!zero);
            k = k + 1;
        }
        BarrierState { expected, resolved, subscribed }
    }

    /// Feeds one re-read of node i's authoritative connection count into
    /// the barrier. Resolution is level-triggered and monotone: the node
    /// resolves exactly when it was already resolved or the count read now
    /// reaches its expectation, and nothing else changes.
    pub fn observe_count(&mut self, i: usize, count: usize) -> (d: WaitDecision)
        requires
            old(self).wf(),
            i < old(self).node_count(),
        ensures
            final(self).wf(),
            final(self).expected == old(self).expected,
            final(self).subscribed == old(self).subscribed,
            final(self).resolved@ == old(self).resolved@.update(
                i as int,
                old(self).is_resolved(i as int) || count >= old(self).expected@[i as int],
            ),
            d == WaitDecision::Resolve <==> final(self).is_resolved(i as int),
    {
        let now_resolved = self.resolved[i] || count >= self.expected[i];
        self.resolved.set(i, now_resolved);
        if now_resolved {
            WaitDecision::Resolve
        } else {
            WaitDecision::AwaitEvent
        }
    }

    /// Feeds one re-read of every node's count into the barrier, first
    /// node first: one sweep of the concurrent per-node waits. A sweep in
    /// which every count reaches its expectation resolves the barrier.
    pub fn observe_all(&mut self, counts: &Vec<usize>)
        requires
            old(self).wf(),
            counts@.len() == old(self).node_count(),
        ensures
            final(self).wf(),
            final(self).expected == old(self).expected,
            final(self).subscribed == old(self).subscribed,
            final(self).resolved@.len() == old(self).resolved@.len(),
            forall|i: int|
                0 <= i < old(self).node_count() ==> (#[trigger] final(self).resolved@[i]) == (old(
                    self,
                ).resolved@[i] || counts@[i] >= old(self).expected@[i]),
    {
        let n = counts.len();
        let mut k: usize = 0;
        while k < n
            invariant
                k <= n,
                self.wf(),
                n == counts@.len(),
                n == self.node_count(),
                self.expected == old(self).expected,
                self.subscribed == old(self).subscribed,
                self.resolved@.len() == old(self).resolved@.len(),
                forall|i: int|
                    0 <= i < k ==> (#[trigger] self.resolved@[i]) == (old(self).resolved@[i]
                        || counts@[i] >= old(self).expected@[i]),
                forall|i: int| k <= i < n ==> (#[trigger] self.resolved@[i]) == old(
                    self,
                ).resolved@[i],
            decreases n - k,
        {
            let c = counts[k];
            self.observe_count(k, c);
            k = k + 1;
        }
    }

    /// Whether every node's wait has resolved.
    pub fn is_done(&self) -> (r: bool)
        requires
            self.wf(),
        ensures
            r == self.all_resolved(),
    {
        let n = self.resolved.len();
        let mut k: usize = 0;
        while k < n
            invariant
                k <= n,
                n == self.resolved@.len(),
                self.wf(),
                forall|i: int| 0 <= i < k ==> self.is_resolved(i),
            decreases n - k,
        {
            if !self.resolved[k] {
                proof {
                    assert(!self.is_resolved(k as int));
                }
                return false;
            }
            k = k + 1;
        }
        true
    }
}

/// A resolved wait stays resolved, whatever counts are observed later: one
/// observation never un-resolves any node.
pub proof fn lemma_resolution_is_stable(b_old: BarrierState, b_new: BarrierState, i: int, j: int, count: usize)
    requires
        b_old.wf(),
        0 <= i < b_old.node_count(),
        0 <= j < b_old.node_count(),
        b_new.resolved@ == b_old.resolved@.update(
            i,
            b_old.is_resolved(i) || count >= b_old.expected@[i],
        ),
        b_old.is_resolved(j),
    ensures
        b_new.is_resolved(j),
{
}

/// A freshly set-up barrier is already done exactly when every node
/// expects zero connections: only those nodes resolve without any
/// observation.
pub proof fn lemma_init_done_iff_all_zero(expected: Seq<usize>, b: BarrierState)
    requires
        b.wf(),
        b.expected@ == expected,
        forall|i: int| 0 <= i < expected.len() ==> b.is_resolved(i) == (expected[i] == 0),
    ensures
        b.all_resolved() <==> (forall|i: int| 0 <= i < expected.len() ==> expected[i] == 0),
{
}

} // verus!
