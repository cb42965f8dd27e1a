//! One driver for both sequencers: a gate that is either counted in frames
//! or measured in elapsed time, ticked once per frame.

use crate::circle::Circle;
use crate::frame_gate::{counter_step, draw_frame, frame_draws, reference_circle};
use crate::time_gate::{draw_once_after, latch_step, tick_draws};
use vstd::prelude::*;

verus! {

/// The state of a driver, tagged by the strategy that gates its draws.
#[derive(Clone, Copy, Debug, PartialEq, Eq, Structural)]
pub enum Gate {
    /// The probe circle on each of the first `frames` ticks, the reference
    /// circle on every tick after them. `counter` is the number of probes
    /// drawn so far.
    FrameCount { counter: u64, frames: u64 },
    /// Two circles on the first tick that finds the run older than
    /// `after_nanos`, nothing on any other tick. `drawn` is the latch.
    ElapsedTime { drawn: bool, after_nanos: u64 },
}

impl Gate {
    /// Whether this gate has nothing left to release: the counter has reached
    /// its frame count, or the latch is set.
    pub open spec fn spent(self) -> bool {
        match self {
            Gate::FrameCount { counter, frames } => counter >= frames,
            Gate::ElapsedTime { drawn, .. } => drawn,
        }
    }

    /// This gate after a tick that reads `elapsed_nanos` from the clock.
    pub open spec fn next(self, elapsed_nanos: u64) -> Gate {
        match self {
            Gate::FrameCount { counter, frames } => Gate::FrameCount {
                counter: counter_step(counter as int, frames as int) as u64,
                frames,
            },
            Gate::ElapsedTime { drawn, after_nanos } => Gate::ElapsedTime {
                drawn: latch_step(drawn, elapsed_nanos as int, after_nanos as int),
                after_nanos,
            },
        }
    }

    /// Everything drawn on that tick, in the order of submission.
    pub open spec fn draws(self, elapsed_nanos: u64) -> Seq<Circle> {
        match self {
            Gate::FrameCount { counter, frames } => frame_draws(counter as int, frames as int),
            Gate::ElapsedTime { drawn, after_nanos } => tick_draws(
                drawn,
                elapsed_nanos as int,
                after_nanos as int,
            ),
        }
    }

    /// What a spent gate draws on every tick: the reference circle where the
    /// gate counts frames, nothing where it measures time.
    pub open spec fn idle_draws(self) -> Seq<Circle> {
        match self {
            Gate::FrameCount { .. } => seq![reference_circle()],
            Gate::ElapsedTime { .. } => Seq::empty(),
        }
    }

    /// A gate that opens after `frames` frames, at the start of a run.
    pub fn frame_count(frames: u64) -> (gate: Gate)
        ensures
            gate == (Gate::FrameCount { counter: 0, frames }),
    {
        Gate::FrameCount { counter: 0, frames }
    }

    /// A gate that opens once the run is older than `after_nanos`, at the
    /// start of a run.
    pub fn elapsed_time(after_nanos: u64) -> (gate: Gate)
        ensures
            gate == (Gate::ElapsedTime { drawn: false, after_nanos }),
    {
        Gate::ElapsedTime { drawn: false, after_nanos }
    }

    /// Whether this gate has nothing left to release.
    pub fn is_spent(&self) -> (spent: bool)
        ensures
            spent == self.spent(),
    {
        match self {
            Gate::FrameCount { counter, frames } => *counter >= *frames,
            Gate::ElapsedTime { drawn, .. } => *drawn,
        }
    }

    /// One tick. `elapsed_nanos` is the age of the run as the clock reads it
    /// on this tick; a gate that counts frames does not look at it. Returns
    /// the circles to draw on this tick in the order of submission.
    pub fn tick(&mut self, elapsed_nanos: u64) -> (draws: Vec<Circle>)
        ensures
            *final(self) == old(self).next(elapsed_nanos),
            draws@ == old(self).draws(elapsed_nanos),
            old(self).spent() ==> *final(self) == *old(self) && draws@ == old(self).idle_draws(),
    {
        match self {
            Gate::FrameCount { counter, frames } => draw_frame(counter, *frames),
            Gate::ElapsedTime { drawn, after_nanos } => draw_once_after(
                drawn,
                elapsed_nanos,
                *after_nanos,
            ),
        }
    }
}

/// A spent gate is idle: a tick leaves it as it is, whatever the clock
/// reads, and draws only what a spent gate always draws. It stays spent, so
/// no later tick releases anything either.
pub proof fn law_spent_gate_is_idle(gate: Gate, elapsed_nanos: u64)
    requires
        gate.spent(),
    ensures
        gate.next(elapsed_nanos) == gate,
        gate.next(elapsed_nanos).spent(),
        gate.draws(elapsed_nanos) == gate.idle_draws(),
{
}

} // verus!
