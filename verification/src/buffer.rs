//! The bounded event buffer with a single in-progress readout slot.

use vstd::prelude::*;

verus! {

/// Number of ticks a readout of one event takes.
pub const READOUT_TICKS: u64 = 424;

/// A bounded queue of pending events awaiting readout.
///
/// States are implicit in `(queue, wait_time)`: `wait_time > 0` means a
/// readout of the event at the head of the queue is in progress.
pub struct Buffer {
    /// Events currently held, at most `limit`.
    pub queue: u64,
    /// Fixed capacity, set at construction and immutable afterward.
    pub limit: u64,
    /// Ticks left in the current readout; 0 means idle.
    pub wait_time: u64,
}

impl Buffer {
    /// Well-formedness: occupancy never exceeds capacity, and a readout can
    /// only be in progress while the buffer holds at least one event.
    pub open spec fn wf(self) -> bool {
        &&& self.queue <= self.limit
        &&& self.wait_time > 0 ==> self.queue > 0
    }

    /// What `read` does: start a new readout countdown if the buffer holds
    /// events and none is in progress; otherwise leave the buffer unchanged.
    pub open spec fn read_spec(self) -> Buffer {
        if self.queue > 0 && self.wait_time == 0 {
            Buffer { wait_time: READOUT_TICKS, ..self }
        } else {
            self
        }
    }

    /// What `step` does: advance an in-progress readout by one tick; when the
    /// countdown reaches 0 the event has been fully read out and leaves the
    /// queue.
    pub open spec fn step_spec(self) -> Buffer {
        if self.queue > 0 && self.wait_time > 0 {
            if self.wait_time == 1 {
                Buffer { queue: (self.queue - 1) as u64, wait_time: 0, ..self }
            } else {
                Buffer { wait_time: (self.wait_time - 1) as u64, ..self }
            }
        } else {
            self
        }
    }

    /// An empty buffer with the given capacity and no readout in progress.
    pub fn new(limit: u64) -> (b: Buffer)
        ensures
            b.queue == 0,
            b.limit == limit,
            b.wait_time == 0,
            b.wf(),
    {
        Buffer { queue: 0, limit, wait_time: 0 }
    }

    /// Add one event. Bounds enforcement is the caller's responsibility: the
    /// caller must have already checked `free()`, so the queue is below
    /// capacity on entry.
    pub fn add(&mut self)
        requires
            old(self).queue < old(self).limit,
        ensures
            final(self).queue == old(self).queue + 1,
            final(self).limit == old(self).limit,
            final(self).wait_time == old(self).wait_time,
            old(self).wf() ==> final(self).wf(),
    {
        self.queue = self.queue + 1;
    }

    /// Does the buffer contain events?
    pub fn is_filled(&self) -> (r: bool)
        ensures
            r == (self.queue > 0),
    {
        self.queue > 0
    }

    /// Does the buffer have capacity to accept a new event?
    pub fn free(&self) -> (r: bool)
        ensures
            r == (self.queue < self.limit),
    {
        self.queue < self.limit
    }

    /// If the buffer contains events and no readout is in progress, begin a
    /// new readout countdown; no-op otherwise.
    pub fn read(&mut self)
        ensures
            *final(self) == old(self).read_spec(),
            old(self).wf() ==> final(self).wf(),
    {
        if self.is_filled() && self.wait_time == 0 {
            self.wait_time = READOUT_TICKS;
        }
    }

    /// Advance an in-progress readout by one tick; when it completes, the
    /// event leaves the buffer.
    pub fn step(&mut self)
        ensures
            *final(self) == old(self).step_spec(),
            old(self).wf() ==> final(self).wf(),
    {
        if self.is_filled() && self.wait_time > 0 {
            self.wait_time = self.wait_time - 1;
            if self.wait_time == 0 {
                self.queue = self.queue - 1;
            }
        }
    }
}

/// Applying `step_spec` `n` times.
pub open spec fn step_n(b: Buffer, n: nat) -> Buffer
    decreases n,
{
    if n == 0 {
        b
    } else {
        step_n(b, (n - 1) as nat).step_spec()
    }
}

/// `read` is idempotent while a readout is in progress: once a countdown has
/// started, asking to read again neither resets nor extends it.
pub proof fn lemma_read_idempotent(b: Buffer)
    ensures
        b.read_spec().read_spec() == b.read_spec(),
{
}

/// While a readout is in progress, stepping `k` ticks (for any `k` up to the
/// remaining countdown) leaves the queue untouched and only counts the
/// countdown down, until the final tick removes exactly one event.
proof fn lemma_countdown_runs_out(b: Buffer, k: nat)
    requires
        b.queue > 0,
        b.wait_time > 0,
        k <= b.wait_time,
    ensures
        k < b.wait_time ==> step_n(b, k) == (Buffer {
            wait_time: (b.wait_time - k) as u64,
            ..b
        }),
        k == b.wait_time ==> step_n(b, k) == (Buffer {
            queue: (b.queue - 1) as u64,
            wait_time: 0,
            ..b
        }),
    decreases k,
{
    if k > 0 {
        lemma_countdown_runs_out(b, (k - 1) as nat);
    }
}

/// A full readout cycle removes exactly one event: from one queued event and
/// an idle readout slot, one `read` followed by exactly `READOUT_TICKS` steps
/// empties the buffer.
pub proof fn lemma_readout_cycle(b: Buffer)
    requires
        b.queue == 1,
        b.wait_time == 0,
    ensures
        step_n(b.read_spec(), READOUT_TICKS as nat).queue == 0,
        step_n(b.read_spec(), READOUT_TICKS as nat).wait_time == 0,
{
    lemma_countdown_runs_out(b.read_spec(), READOUT_TICKS as nat);
}

} // verus!
