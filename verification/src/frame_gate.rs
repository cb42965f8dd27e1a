//! The frame-gated sequencer: a probe circle for the first frames of the
//! run, then a reference circle on every frame after them.
//!
//! It is a pipeline of two stages. The first stage owns a frame counter; while
//! the counter is below the threshold it draws the probe and counts the
//! frame. It tells the second stage whether the threshold has been reached,
//! and the second stage draws the reference circle whenever it has.

use crate::circle::{Circle, Tint};
use vstd::prelude::*;

verus! {

/// Default number of frames on which the probe is drawn. The glitch shows
/// only when this is tuned to the machine, so it is a starting value and
/// every function here takes the frame count as an argument.
pub const DRAW_FOR_N_FRAMES: u64 = 4;

/// Radius of the probe circle.
pub const PROBE_RADIUS: u32 = 100;

/// Radius of the reference circle.
pub const REFERENCE_RADIUS: u32 = 200;

/// The circle whose first frames are under observation.
pub open spec fn probe_circle() -> Circle {
    Circle::centered(PROBE_RADIUS, Tint::Blue)
}

/// The circle that shows what a correct outline looks like.
pub open spec fn reference_circle() -> Circle {
    Circle::centered(REFERENCE_RADIUS, Tint::Green)
}

/// The counter after one more tick of the first stage.
pub open spec fn counter_step(counter: int, frames: int) -> int {
    if counter < frames {
        counter + 1
    } else {
        counter
    }
}

/// The signal that the first stage hands to the second on a tick that it
/// enters with `counter`: whether the threshold has been reached.
pub open spec fn first_stage_done(counter: int, frames: int) -> bool {
    counter >= frames
}

/// What the first stage draws on a tick that it enters with `counter`.
pub open spec fn first_stage_draw(counter: int, frames: int) -> Option<Circle> {
    if counter < frames {
        Some(probe_circle())
    } else {
        None
    }
}

/// What the second stage draws when the first stage hands it `done`.
pub open spec fn second_stage_draw(done: bool) -> Option<Circle> {
    if done {
        Some(reference_circle())
    } else {
        None
    }
}

/// Everything drawn on a tick that the pipeline enters with `counter`, in
/// the order of submission.
pub open spec fn frame_draws(counter: int, frames: int) -> Seq<Circle> {
    if counter < frames {
        seq![probe_circle()]
    } else {
        seq![reference_circle()]
    }
}

/// What one tick of the first stage yields.
#[derive(Clone, Copy, Debug, PartialEq, Eq, Structural)]
pub struct FirstStage {
    /// The circle to draw on this tick, if any.
    pub circle: Option<Circle>,
    /// Whether the threshold has been reached: the signal for the second stage.
    pub done: bool,
}

/// First stage. Below the threshold it asks for the probe circle and counts
/// the frame; at the threshold it leaves the counter alone and signals the
/// second stage.
pub fn draw_first_gizmo(counter: &mut u64, frames: u64) -> (stage: FirstStage)
    ensures
        *final(counter) == counter_step(*old(counter) as int, frames as int),
        stage.circle == first_stage_draw(*old(counter) as int, frames as int),
        stage.done == first_stage_done(*old(counter) as int, frames as int),
        *old(counter) >= frames ==> stage.circle is None && *final(counter) == *old(counter),
{
    if *counter < frames {
        *counter += 1;
        FirstStage { circle: Some(Circle::at_origin(PROBE_RADIUS, Tint::Blue)), done: false }
    } else {
        FirstStage { circle: None, done: true }
    }
}

/// Second stage. Asks for the reference circle exactly when the first stage
/// reports that the threshold has been reached.
pub fn draw_second_gizmo(first_draw_done: bool) -> (circle: Option<Circle>)
    ensures
        circle == second_stage_draw(first_draw_done),
{
    if first_draw_done {
        Some(Circle::at_origin(REFERENCE_RADIUS, Tint::Green))
    } else {
        None
    }
}

/// One tick of the whole pipeline: the first stage, then the second stage
/// on the first stage's signal. Returns the circles to draw on this tick in
/// the order of submission.
pub fn draw_frame(counter: &mut u64, frames: u64) -> (draws: Vec<Circle>)
    ensures
        *final(counter) == counter_step(*old(counter) as int, frames as int),
        draws@ == frame_draws(*old(counter) as int, frames as int),
        *old(counter) >= frames ==> !draws@.contains(probe_circle()),
        *old(counter) >= frames ==> *final(counter) == *old(counter),
{
    let mut draws: Vec<Circle> = Vec::new();
    let stage = draw_first_gizmo(counter, frames);
    if let Some(circle) = stage.circle {
        draws.push(circle);
    }
    if let Some(circle) = draw_second_gizmo(stage.done) {
        draws.push(circle);
    }
    draws
}

/// The counter after `ticks` ticks of a first stage that started at zero.
pub open spec fn counter_after(frames: int, ticks: nat) -> int
    decreases ticks,
{
    if ticks == 0 {
        0
    } else {
        counter_step(counter_after(frames, (ticks - 1) as nat), frames)
    }
}

/// The signal that the first stage hands on at tick number `tick`, the
/// first tick of the run being number zero.
pub open spec fn signal_at(frames: int, tick: nat) -> bool {
    first_stage_done(counter_after(frames, tick), frames)
}

/// How many probe circles the first stage draws over the first `ticks` ticks
/// of a run.
pub open spec fn probes_drawn(frames: int, ticks: nat) -> nat
    decreases ticks,
{
    if ticks == 0 {
        0
    } else {
        let before = probes_drawn(frames, (ticks - 1) as nat);
        if first_stage_draw(counter_after(frames, (ticks - 1) as nat), frames) is Some {
            before + 1
        } else {
            before
        }
    }
}

/// Everything drawn over the first `ticks` ticks of a run, in the order of
/// submission.
pub open spec fn run_draws(frames: int, ticks: nat) -> Seq<Circle>
    decreases ticks,
{
    if ticks == 0 {
        Seq::empty()
    } else {
        run_draws(frames, (ticks - 1) as nat) + frame_draws(
            counter_after(frames, (ticks - 1) as nat),
            frames,
        )
    }
}

/// The counter follows the ticks up to the threshold and stays there: after
/// `ticks` ticks it is the smaller of `ticks` and `frames`.
pub proof fn law_counter_follows_ticks(frames: nat, ticks: nat)
    ensures
        counter_after(frames as int, ticks) == if ticks <= frames {
            ticks
        } else {
            frames
        },
    decreases ticks,
{
    if ticks > 0 {
        law_counter_follows_ticks(frames, (ticks - 1) as nat);
    }
}

/// After exactly `frames` ticks the counter equals `frames`; the signal to
/// the second stage is false on each of the ticks `0 .. frames` and true on
/// every tick from `frames` on.
pub proof fn law_threshold_reached_after_frames(frames: nat)
    ensures
        counter_after(frames as int, frames) == frames,
        forall|tick: nat| tick < frames ==> !#[trigger] signal_at(frames as int, tick),
        forall|tick: nat| tick >= frames ==> #[trigger] signal_at(frames as int, tick),
{
    law_counter_follows_ticks(frames, frames);
    assert forall|tick: nat| #[trigger] signal_at(frames as int, tick) == (tick >= frames) by {
        law_counter_follows_ticks(frames, tick);
    }
}

/// A first stage whose counter has reached the threshold is idle: a tick
/// draws nothing, leaves the counter as it is and signals the second stage,
/// which draws the reference circle and no probe.
pub proof fn law_first_stage_idle_at_threshold(counter: int, frames: int)
    requires
        counter >= frames,
    ensures
        first_stage_draw(counter, frames) is None,
        counter_step(counter, frames) == counter,
        first_stage_done(counter, frames),
        frame_draws(counter, frames) == seq![reference_circle()],
{
}

/// In a run that starts at zero the first stage is idle from tick number
/// `frames` on: it draws nothing on any such tick, and the counter and the
/// number of probes drawn stay as they are.
pub proof fn law_no_probe_after_threshold(frames: nat, tick: nat)
    requires
        tick >= frames,
    ensures
        first_stage_draw(counter_after(frames as int, tick), frames as int) is None,
        counter_after(frames as int, tick + 1) == counter_after(frames as int, tick),
        probes_drawn(frames as int, tick + 1) == probes_drawn(frames as int, tick),
{
    law_counter_follows_ticks(frames, tick);
    law_counter_follows_ticks(frames, tick + 1);
}

/// The counter counts the probe circles: over any run the first stage draws
/// as many probes as the counter shows, and never more than `frames`.
pub proof fn law_counter_counts_probes(frames: nat, ticks: nat)
    ensures
        probes_drawn(frames as int, ticks) == counter_after(frames as int, ticks),
        probes_drawn(frames as int, ticks) <= frames,
    decreases ticks,
{
    law_counter_follows_ticks(frames, ticks);
    if ticks > 0 {
        law_counter_counts_probes(frames, (ticks - 1) as nat);
    }
}

/// A run draws one circle on every tick: the probe on each of the first
/// `frames` ticks, the reference on every tick after them.
pub proof fn law_probes_then_references(frames: nat, ticks: nat)
    ensures
        run_draws(frames as int, ticks) == Seq::new(
            ticks,
            |tick: int|
                if tick < frames {
                    probe_circle()
                } else {
                    reference_circle()
                },
        ),
    decreases ticks,
{
    if ticks > 0 {
        law_probes_then_references(frames, (ticks - 1) as nat);
        law_counter_follows_ticks(frames, (ticks - 1) as nat);
    }
}

} // verus!
