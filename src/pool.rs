use vstd::prelude::*;

verus! {

/// Admission control for one pipeline stage: at most `capacity` of the
/// stage's `total` work items are in flight at any time. Items are launched
/// in order and may complete in any order; each completion frees a slot for
/// the next item.
pub struct WorkerPool {
    capacity: usize,
    total: usize,
    launched: usize,
    completed: usize,
}

/// What the driver of a pool should do next.
#[derive(Debug, Clone, Copy, PartialEq, Eq, Structural)]
pub enum PoolAction {
    /// Start the work item with this index.
    Launch(usize),
    /// Every slot is busy, or every item is launched: wait for a completion.
    Wait,
    /// Every item has completed.
    Finished,
}

impl WorkerPool {
    pub closed spec fn capacity_spec(&self) -> nat {
        self.capacity as nat
    }

    pub closed spec fn total_spec(&self) -> nat {
        self.total as nat
    }

    pub closed spec fn launched_spec(&self) -> nat {
        self.launched as nat
    }

    pub closed spec fn completed_spec(&self) -> nat {
        self.completed as nat
    }

    /// The number of items in flight.
    pub open spec fn in_flight_spec(&self) -> int {
        self.launched_spec() - self.completed_spec()
    }

    /// Counts are consistent and the bound on work in flight holds.
    pub open spec fn wf(&self) -> bool {
        &&& self.capacity_spec() > 0
        &&& self.completed_spec() <= self.launched_spec() <= self.total_spec()
        &&& self.in_flight_spec() <= self.capacity_spec()
    }

    /// The action `next_action` gives.
    pub open spec fn next_action_spec(&self) -> PoolAction {
        if self.completed_spec() == self.total_spec() {
            PoolAction::Finished
        } else if self.launched_spec() < self.total_spec() && self.in_flight_spec()
            < self.capacity_spec() {
            PoolAction::Launch(self.launched_spec() as usize)
        } else {
            PoolAction::Wait
        }
    }

    /// A pool of `capacity` slots for `total` items, none launched yet.
    pub fn new(capacity: usize, total: usize) -> (p: WorkerPool)
        requires
            capacity > 0,
        ensures
            p.wf(),
            p.capacity_spec() == capacity,
            p.total_spec() == total,
            p.launched_spec() == 0,
            p.completed_spec() == 0,
    {
        WorkerPool { capacity, total, launched: 0, completed: 0 }
    }

    /// The number of items in flight.
    pub fn in_flight(&self) -> (n: usize)
        requires
            self.wf(),
        ensures
            n == self.in_flight_spec(),
    {
        self.launched - self.completed
    }

    /// Launch the next item while a slot is free, else wait, or stop when
    /// everything has completed.
    pub fn next_action(&self) -> (a: PoolAction)
        requires
            self.wf(),
        ensures
            a == self.next_action_spec(),
    {
        if self.completed == self.total {
            PoolAction::Finished
        } else if self.launched < self.total && self.launched - self.completed < self.capacity {
            PoolAction::Launch(self.launched)
        } else {
            PoolAction::Wait
        }
    }

    /// Records that the item `next_action` named was launched.
    pub fn launched(&mut self)
        requires
            old(self).wf(),
            old(self).next_action_spec() is Launch,
        ensures
            final(self).wf(),
            final(self).capacity_spec() == old(self).capacity_spec(),
            final(self).total_spec() == old(self).total_spec(),
            final(self).launched_spec() == old(self).launched_spec() + 1,
            final(self).completed_spec() == old(self).completed_spec(),
    {
        self.launched = self.launched + 1;
    }

    /// Records that an item in flight completed, successfully or not.
    pub fn completed(&mut self)
        requires
            old(self).wf(),
            old(self).in_flight_spec() > 0,
        ensures
            final(self).wf(),
            final(self).capacity_spec() == old(self).capacity_spec(),
            final(self).total_spec() == old(self).total_spec(),
            final(self).launched_spec() == old(self).launched_spec(),
            final(self).completed_spec() == old(self).completed_spec() + 1,
    {
        self.completed = self.completed + 1;
    }
}

/// While items remain, a well-formed pool either launches one or has work in
/// flight to wait for, so a driver that follows it never stalls.
pub proof fn lemma_pool_progress(p: WorkerPool)
    requires
        p.wf(),
    ensures
        p.next_action_spec() is Wait ==> p.in_flight_spec() > 0,
        p.next_action_spec() is Finished <==> p.completed_spec() == p.total_spec(),
        p.next_action_spec() matches PoolAction::Launch(i) ==> i == p.launched_spec()
            && p.in_flight_spec() < p.capacity_spec(),
{
}

/// The width of each stage's worker pool.
#[derive(Debug, Clone, Copy, PartialEq, Eq, Structural)]
pub struct StageWidths {
    /// Hashing, the existence check and decoding: I/O bound.
    pub io: usize,
    /// Embedding: compute bound.
    pub compute: usize,
    /// Uploading and indexing: network bound.
    pub network: usize,
}

/// The stage widths for a machine with `parallelism` hardware threads (taken
/// as at least 1): twice that for I/O, that for compute and network.
pub open spec fn stage_widths_spec(parallelism: nat) -> (nat, nat, nat) {
    let p = if parallelism == 0 { 1 } else { parallelism };
    (2 * p, p, p)
}

/// Sizes the stage pools from the available parallelism; the I/O width
/// saturates at `usize::MAX`.
pub fn stage_widths(parallelism: usize) -> (w: StageWidths)
    ensures
        w.io >= 1 && w.compute >= 1 && w.network >= 1,
        2 * parallelism <= usize::MAX ==> (w.io as nat, w.compute as nat, w.network as nat)
            == stage_widths_spec(parallelism as nat),
        2 * parallelism > usize::MAX ==> w.io == usize::MAX && w.compute == parallelism
            && w.network == parallelism,
{
    let p: usize = if parallelism == 0 { 1 } else { parallelism };
    let io: usize = if p > usize::MAX / 2 { usize::MAX } else { 2 * p };
    StageWidths { io, compute: p, network: p }
}

/// How many downloads of query results run at once.
pub const DOWNLOAD_WIDTH: usize = 4;

/// How many points go in one upsert request.
pub const UPSERT_CHUNK_WIDTH: usize = 32;

} // verus!
