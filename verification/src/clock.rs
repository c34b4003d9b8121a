//! The accumulator that turns frame times of any length into physics steps
//! of a fixed length.
//!
//! Every tick adds the time since the last tick to a running total. Once the
//! total exceeds the length of a physics step, one step is due and the total
//! starts again from zero: a tick never causes more than one step, and what
//! the total held beyond the length of a step is dropped. Time is counted in
//! whole microseconds.

use crate::config::FRAME_DURATION;
use vstd::prelude::*;

verus! {

/// Whether a physics step is due once `elapsed` is added to the accumulator.
pub open spec fn step_due(frame_time: u32, elapsed: u32) -> bool {
    frame_time + elapsed > FRAME_DURATION
}

/// What the accumulator holds after a tick of length `elapsed`.
pub open spec fn carried(frame_time: u32, elapsed: u32) -> u32 {
    if step_due(frame_time, elapsed) {
        0
    } else {
        (frame_time + elapsed) as u32
    }
}

/// The time that a tick drops: whatever the total holds beyond the length of
/// one step when a step is due.
pub open spec fn dropped(frame_time: u32, elapsed: u32) -> int {
    if step_due(frame_time, elapsed) {
        frame_time + elapsed - FRAME_DURATION
    } else {
        0
    }
}

/// The sum of a run of frame times.
pub open spec fn total(deltas: Seq<u32>) -> int
    decreases deltas.len(),
{
    if deltas.len() == 0 {
        0
    } else {
        deltas[0] + total(deltas.drop_first())
    }
}

/// The number of physics steps that a run of ticks causes.
pub open spec fn steps(frame_time: u32, deltas: Seq<u32>) -> int
    decreases deltas.len(),
{
    if deltas.len() == 0 {
        0
    } else {
        (if step_due(frame_time, deltas[0]) { 1int } else { 0int })
            + steps(carried(frame_time, deltas[0]), deltas.drop_first())
    }
}

/// What the accumulator holds after a run of ticks.
pub open spec fn remaining(frame_time: u32, deltas: Seq<u32>) -> u32
    decreases deltas.len(),
{
    if deltas.len() == 0 {
        frame_time
    } else {
        remaining(carried(frame_time, deltas[0]), deltas.drop_first())
    }
}

/// The time that a run of ticks drops in all.
pub open spec fn discarded(frame_time: u32, deltas: Seq<u32>) -> int
    decreases deltas.len(),
{
    if deltas.len() == 0 {
        0
    } else {
        dropped(frame_time, deltas[0])
            + discarded(carried(frame_time, deltas[0]), deltas.drop_first())
    }
}

/// Adds the length of one tick to the accumulator and says whether a physics
/// step is due. When one is, the accumulator starts again from zero.
pub fn accumulate(frame_time: &mut u32, elapsed: u32) -> (due: bool)
    ensures
        due == step_due(*old(frame_time), elapsed),
        *final(frame_time) == carried(*old(frame_time), elapsed),
        due ==> *final(frame_time) == 0,
        !due ==> *final(frame_time) == *old(frame_time) + elapsed,
{
    if *frame_time > FRAME_DURATION || elapsed > FRAME_DURATION - *frame_time {
        *frame_time = 0;
        true
    } else {
        *frame_time = *frame_time + elapsed;
        false
    }
}

/// Every microsecond is accounted for: what the accumulator held, plus the
/// time that passed, went into physics steps, was dropped when a step came
/// due, or is still in the accumulator.
pub proof fn lemma_time_accounted(frame_time: u32, deltas: Seq<u32>)
    ensures
        frame_time + total(deltas) == FRAME_DURATION * steps(frame_time, deltas) + discarded(
            frame_time,
            deltas,
        ) + remaining(frame_time, deltas),
        0 <= steps(frame_time, deltas) <= deltas.len(),
        0 <= discarded(frame_time, deltas),
    decreases deltas.len(),
{
    if deltas.len() > 0 {
        lemma_time_accounted(carried(frame_time, deltas[0]), deltas.drop_first());
    }
}

/// Starting from an empty accumulator, a run of ticks each shorter than a
/// physics step, which together last at least one step, causes as many steps
/// as whole step lengths have passed, provided that what was dropped and what
/// is left in the accumulator together stay below one step length.
pub proof fn lemma_steps_match_elapsed(deltas: Seq<u32>)
    requires
        forall|i: int| 0 <= i < deltas.len() ==> deltas[i] < FRAME_DURATION,
        total(deltas) >= FRAME_DURATION,
        discarded(0, deltas) + remaining(0, deltas) < FRAME_DURATION,
    ensures
        steps(0, deltas) == total(deltas) / (FRAME_DURATION as int),
{
    lemma_time_accounted(0, deltas);
    let step = FRAME_DURATION as int;
    let n = steps(0, deltas);
    let rest = discarded(0, deltas) + remaining(0, deltas);
    assert((step * n + rest) / step == n) by (nonlinear_arith)
        requires
            0 <= rest < step,
    ;
}

/// The proviso of `lemma_steps_match_elapsed` leaves out no run of which its
/// conclusion holds: whenever the steps number the whole step lengths that
/// have passed, less than one step length was dropped or left over.
pub proof fn lemma_steps_match_only_then(deltas: Seq<u32>)
    requires
        steps(0, deltas) == total(deltas) / (FRAME_DURATION as int),
    ensures
        discarded(0, deltas) + remaining(0, deltas) < FRAME_DURATION,
{
    lemma_time_accounted(0, deltas);
    let step = FRAME_DURATION as int;
    let passed = total(deltas);
    assert(passed - step * (passed / step) < step) by (nonlinear_arith)
        requires
            step > 0,
    ;
}

} // verus!
