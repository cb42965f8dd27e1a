//! The time-gated sequencer: nothing until the run is older than a given
//! time, then two concentric circles on one tick, then nothing again.
//!
//! Elapsed time is counted in nanoseconds since the start of the run. A
//! latch is set on the tick that draws and never cleared.

use crate::circle::{Circle, Tint};
use vstd::prelude::*;

verus! {

/// Default age of the run, in nanoseconds, that the first draw waits for:
/// three seconds.
pub const DRAW_AFTER_NANOS: u64 = 3_000_000_000;

/// Radius of the inner circle.
pub const INNER_RADIUS: u32 = 30;

/// Radius of the outer circle.
pub const OUTER_RADIUS: u32 = 120;

/// The smaller of the two circles, submitted first.
pub open spec fn inner_circle() -> Circle {
    Circle::centered(INNER_RADIUS, Tint::Blue)
}

/// The larger of the two circles, submitted second.
pub open spec fn outer_circle() -> Circle {
    Circle::centered(OUTER_RADIUS, Tint::Green)
}

/// Whether a tick draws: the latch is still unset and the run is older than
/// `after`.
pub open spec fn fires(drawn: bool, elapsed: int, after: int) -> bool {
    !drawn && elapsed > after
}

/// The latch after a tick.
pub open spec fn latch_step(drawn: bool, elapsed: int, after: int) -> bool {
    drawn || elapsed > after
}

/// Everything drawn on one tick, in the order of submission.
pub open spec fn tick_draws(drawn: bool, elapsed: int, after: int) -> Seq<Circle> {
    if fires(drawn, elapsed, after) {
        seq![inner_circle(), outer_circle()]
    } else {
        Seq::empty()
    }
}

/// One tick, on which the clock reads `elapsed_nanos`. The first tick that
/// finds the run older than `after_nanos` asks for both circles and sets the
/// latch; every other tick asks for nothing and leaves the latch as it is.
pub fn draw_once_after(
    drawn: &mut bool,
    elapsed_nanos: u64,
    after_nanos: u64,
) -> (draws: Vec<Circle>)
    ensures
        *final(drawn) == latch_step(*old(drawn), elapsed_nanos as int, after_nanos as int),
        draws@ == tick_draws(*old(drawn), elapsed_nanos as int, after_nanos as int),
        draws@.len() > 0 ==> elapsed_nanos > after_nanos,
        *old(drawn) ==> draws@.len() == 0 && *final(drawn),
{
    let mut draws: Vec<Circle> = Vec::new();
    if elapsed_nanos > after_nanos && !*drawn {
        draws.push(Circle::at_origin(INNER_RADIUS, Tint::Blue));
        draws.push(Circle::at_origin(OUTER_RADIUS, Tint::Green));
        *drawn = true;
    }
    draws
}

/// The latch after a run in which the ticks read, one after the other, the
/// elapsed times `readings`, the latch being unset at the start.
pub open spec fn latch_after(after: int, readings: Seq<u64>) -> bool
    decreases readings.len(),
{
    if readings.len() == 0 {
        false
    } else {
        latch_step(latch_after(after, readings.drop_last()), readings.last() as int, after)
    }
}

/// Everything drawn over such a run, in the order of submission.
pub open spec fn run_draws(after: int, readings: Seq<u64>) -> Seq<Circle>
    decreases readings.len(),
{
    if readings.len() == 0 {
        Seq::empty()
    } else {
        run_draws(after, readings.drop_last()) + tick_draws(
            latch_after(after, readings.drop_last()),
            readings.last() as int,
            after,
        )
    }
}

/// Whether tick number `tick` of such a run draws, the first tick being
/// number zero.
pub open spec fn fires_at(after: int, readings: Seq<u64>, tick: int) -> bool
    recommends
        0 <= tick < readings.len(),
{
    fires(latch_after(after, readings.take(tick)), readings[tick] as int, after)
}

/// Whether some tick of the run found it older than `after`.
pub open spec fn exceeded(after: int, readings: Seq<u64>) -> bool {
    exists|tick: int| 0 <= tick < readings.len() && #[trigger] readings[tick] > after
}

/// The latch is set exactly when some tick so far found the run older than
/// `after`.
pub proof fn law_latch_set_once_exceeded(after: int, readings: Seq<u64>)
    ensures
        latch_after(after, readings) == exceeded(after, readings),
    decreases readings.len(),
{
    if readings.len() > 0 {
        let front = readings.drop_last();
        law_latch_set_once_exceeded(after, front);
        if exceeded(after, front) {
            let tick = choose|tick: int| 0 <= tick < front.len() && #[trigger] front[tick] > after;
            assert(readings[tick] > after);
        }
        if exceeded(after, readings) {
            let tick = choose|tick: int|
                0 <= tick < readings.len() && #[trigger] readings[tick] > after;
            if tick < front.len() {
                assert(front[tick] > after);
            }
        }
    }
}

/// The two circles are drawn exactly once: a run in which some tick found
/// the run older than `after` draws the inner and the outer circle and nothing
/// else, however long it goes on; a run in which none did draws nothing.
pub proof fn law_draws_exactly_once(after: int, readings: Seq<u64>)
    ensures
        run_draws(after, readings) == if exceeded(after, readings) {
            seq![inner_circle(), outer_circle()]
        } else {
            Seq::<Circle>::empty()
        },
    decreases readings.len(),
{
    if readings.len() > 0 {
        let front = readings.drop_last();
        law_draws_exactly_once(after, front);
        law_latch_set_once_exceeded(after, front);
        law_latch_set_once_exceeded(after, readings);
    }
}

/// A tick draws exactly when it is the first to find the run older than
/// `after`. So no tick draws before that age is passed, and no two ticks draw.
pub proof fn law_draws_on_first_tick_past_threshold(after: int, readings: Seq<u64>, tick: int)
    requires
        0 <= tick < readings.len(),
    ensures
        fires_at(after, readings, tick) == (readings[tick] > after && !exceeded(
            after,
            readings.take(tick),
        )),
        fires_at(after, readings, tick) ==> readings[tick] > after,
        fires_at(after, readings, tick) ==> forall|other: int|
            0 <= other < readings.len() && other != tick ==> !#[trigger] fires_at(
                after,
                readings,
                other,
            ),
{
    law_latch_set_once_exceeded(after, readings.take(tick));
    if fires_at(after, readings, tick) {
        assert forall|other: int|
            0 <= other < readings.len() && other != tick implies !#[trigger] fires_at(
            after,
            readings,
            other,
        ) by {
            law_latch_set_once_exceeded(after, readings.take(other));
            if other < tick {
                assert(readings.take(tick)[other] == readings[other]);
            } else {
                assert(readings.take(other)[tick] > after);
            }
        }
    }
}

/// Once the latch is set the sequencer is idle: a tick draws nothing and
/// leaves the latch set, whatever the clock reads.
pub proof fn law_latched_sequencer_is_idle(elapsed: int, after: int)
    ensures
        tick_draws(true, elapsed, after) == Seq::<Circle>::empty(),
        latch_step(true, elapsed, after),
{
}

} // verus!
