//! One simulation run: the per-tick protocol that drives a `Buffer` through a
//! Bernoulli trigger process and accounts for lost triggers.

use vstd::prelude::*;
use crate::buffer::Buffer;
use crate::rng::{draw_below, rng_new};

verus! {

/// Ticks the trigger logic stays blocked after accepting a trigger; the same
/// countdown doubles as the arrival latency of the triggered event.
pub const BLOCK_TICKS: u64 = 5;

/// Average trigger (L1A) rate in kHz.
pub const TRIGGER_RATE_KHZ: u64 = 75;

/// Tick rate in kHz (40 MHz): together with `TRIGGER_RATE_KHZ` this gives the
/// per-tick trigger probability 75 / 40000.
pub const TICK_RATE_KHZ: u64 = 40000;

/// Default number of ticks simulated per run.
pub const DEFAULT_MAX_EVENT: u64 = 1_000_000_000;

/// The state owned by one simulation run.
pub struct SimState {
    /// The run's private event buffer.
    pub buffer: Buffer,
    /// Ticks until the trigger logic is free again and the in-flight
    /// triggered event (if any) reaches the buffer; 0 means free.
    pub block: u64,
    /// Triggers (L1As) that occurred so far.
    pub n_l1a: u64,
    /// Triggers that were lost, to a full buffer or to the trigger block.
    pub not_recorded: u64,
    /// Ticks simulated so far.
    pub events: u64,
}

/// 1 when a triggered event is still on its way to the buffer, 0 otherwise.
pub open spec fn in_flight(block: u64) -> int {
    if block > 0 {
        1
    } else {
        0
    }
}

/// What one tick does, in the exact order of the per-tick protocol:
/// advance the readout, deliver (or lose) an arriving event, opportunistically
/// start a readout, and finally process this tick's trigger draw.
pub open spec fn tick_spec(s: SimState, fired: bool) -> SimState {
    let b1 = s.buffer.step_spec();
    let (b2, block1, lost1): (Buffer, u64, u64) = if s.block > 0 {
        let nb = (s.block - 1) as u64;
        if nb == 0 {
            if b1.queue < b1.limit {
                (Buffer { queue: (b1.queue + 1) as u64, ..b1 }, nb, s.not_recorded)
            } else {
                (b1, nb, (s.not_recorded + 1) as u64)
            }
        } else {
            (b1, nb, s.not_recorded)
        }
    } else {
        (b1, s.block, s.not_recorded)
    };
    let b3 = b2.read_spec();
    let events1 = (s.events + 1) as u64;
    if fired {
        let n1 = (s.n_l1a + 1) as u64;
        if block1 == 0 {
            SimState {
                buffer: b3,
                block: BLOCK_TICKS,
                n_l1a: n1,
                not_recorded: lost1,
                events: events1,
            }
        } else {
            SimState {
                buffer: b3,
                block: block1,
                n_l1a: n1,
                not_recorded: (lost1 + 1) as u64,
                events: events1,
            }
        }
    } else {
        SimState { buffer: b3, block: block1, n_l1a: s.n_l1a, not_recorded: lost1, events: events1 }
    }
}

/// The state a run starts from: an empty buffer of the given capacity, a free
/// trigger, and all counters at zero.
pub open spec fn init_spec(limit: u64) -> SimState {
    SimState {
        buffer: Buffer { queue: 0, limit, wait_time: 0 },
        block: 0,
        n_l1a: 0,
        not_recorded: 0,
        events: 0,
    }
}

/// The state after driving a fresh run through one tick per entry of `fired`,
/// in order.
pub open spec fn run_spec(limit: u64, fired: Seq<bool>) -> SimState
    decreases fired.len(),
{
    if fired.len() == 0 {
        init_spec(limit)
    } else {
        tick_spec(run_spec(limit, fired.drop_last()), fired.last())
    }
}

impl SimState {
    /// Well-formedness: the buffer is well-formed, the block countdown never
    /// exceeds the block duration, every lost trigger, in-flight event and
    /// queued event is matched by a distinct past trigger, and at most one
    /// trigger occurs per tick.
    pub open spec fn wf(self) -> bool {
        &&& self.buffer.wf()
        &&& self.block <= BLOCK_TICKS
        &&& self.not_recorded + in_flight(self.block) + self.buffer.queue <= self.n_l1a
        &&& self.n_l1a <= self.events
    }

    /// A fresh run state with an empty buffer of the given capacity.
    pub fn new(limit: u64) -> (s: SimState)
        ensures
            s == init_spec(limit),
            s.wf(),
    {
        SimState { buffer: Buffer::new(limit), block: 0, n_l1a: 0, not_recorded: 0, events: 0 }
    }

    /// Advance the run by one tick, `fired` telling whether this tick's
    /// random draw produced a trigger.
    pub fn tick(&mut self, fired: bool)
        requires
            old(self).wf(),
            old(self).events < u64::MAX,
        ensures
            *final(self) == tick_spec(*old(self), fired),
            final(self).wf(),
            final(self).events == old(self).events + 1,
    {
        self.buffer.step();
        if self.block > 0 {
            self.block = self.block - 1;
            if self.block == 0 {
                // the previously triggered event arrives at the buffer now
                if self.buffer.free() {
                    self.buffer.add();
                } else {
                    self.not_recorded = self.not_recorded + 1;
                }
            }
        }
        self.buffer.read();
        self.events = self.events + 1;
        if fired {
            self.n_l1a = self.n_l1a + 1;
            if self.block == 0 {
                self.block = BLOCK_TICKS;
            } else {
                self.not_recorded = self.not_recorded + 1;
            }
        }
    }
}

/// A tick preserves well-formedness: in particular the buffer never exceeds
/// its capacity and lost triggers never exceed total triggers.
pub proof fn lemma_tick_preserves_wf(s: SimState, fired: bool)
    requires
        s.wf(),
        s.events < u64::MAX,
    ensures
        tick_spec(s, fired).wf(),
{
}

/// No tick loses more than one trigger: an event arrives exactly when the
/// block countdown reaches zero, and a trigger is rejected outright only while
/// the countdown is still positive, so the two loss causes — buffer-full and
/// trigger-blocked — can never both strike in the same tick, and no single
/// trigger event is counted lost twice.
pub proof fn lemma_at_most_one_loss_per_tick(s: SimState, fired: bool)
    requires
        s.wf(),
        s.events < u64::MAX,
    ensures
        tick_spec(s, fired).not_recorded <= s.not_recorded + 1,
{
}

/// Lost triggers never exceed total triggers, in every well-formed state.
pub proof fn lemma_lost_le_total(s: SimState)
    requires
        s.wf(),
    ensures
        s.not_recorded <= s.n_l1a,
{
}

/// The counts one run delivers to the sweep coordinator.
#[derive(Clone, Copy, PartialEq, Eq, Structural, Debug)]
pub struct DeadTimeCounts {
    /// Triggers that occurred during the run.
    pub triggers_total: u64,
    /// Triggers lost to a full buffer or to the trigger block.
    pub triggers_lost: u64,
}

/// Drive a fresh run, one tick per entry of `fired`, and return the final
/// state. Deterministic: the result is a pure function of the capacity and
/// the draw sequence.
pub fn run_ticks(limit: u64, fired: &Vec<bool>) -> (s: SimState)
    ensures
        s == run_spec(limit, fired@),
        s.wf(),
        s.events == fired@.len(),
{
    let mut s = SimState::new(limit);
    let mut i: usize = 0;
    assert(fired@.take(0) =~= Seq::<bool>::empty());
    while i < fired.len()
        invariant
            i <= fired.len(),
            s == run_spec(limit, fired@.take(i as int)),
            s.wf(),
            s.events == i,
        decreases fired.len() - i,
    {
        let f = fired[i];
        proof {
            assert(fired@.take(i + 1).drop_last() =~= fired@.take(i as int));
            assert(fired@.take(i + 1).last() == fired@[i as int]);
        }
        s.tick(f);
        i = i + 1;
    }
    proof {
        assert(fired@.take(fired@.len() as int) =~= fired@);
    }
    s
}

/// One full simulation run over a fresh random stream: `max_event` ticks, one
/// Bernoulli draw per tick at probability `TRIGGER_RATE_KHZ / TICK_RATE_KHZ`.
/// The draws are random, so only the accounting bounds hold of every outcome;
/// `SimState::tick` carries the exact per-tick contract for any draw.
pub fn calc_dead_time(buffer_limit: u64, max_event: u64) -> (r: DeadTimeCounts)
    ensures
        r.triggers_lost <= r.triggers_total,
        r.triggers_total <= max_event,
{
    let mut rng = rng_new();
    let mut s = SimState::new(buffer_limit);
    let mut i: u64 = 0;
    while i < max_event
        invariant
            i <= max_event,
            s.wf(),
            s.events == i,
        decreases max_event - i,
    {
        let draw = draw_below(&mut rng, TICK_RATE_KHZ);
        let fired = draw < TRIGGER_RATE_KHZ;
        s.tick(fired);
        i = i + 1;
    }
    DeadTimeCounts { triggers_total: s.n_l1a, triggers_lost: s.not_recorded }
}

} // verus!
