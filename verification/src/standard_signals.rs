//! The discrete rule behind the stock square wave.
//!
//! A square wave of a given frequency is low or high depending on how many
//! whole cycles have gone by, counted to the nearest cycle. Which level belongs
//! to which count is fixed here, so that every user of the wave agrees on it.

use vstd::prelude::*;

verus! {

/// The level of the square wave once `cycles` cycles have gone by, the phase
/// being rounded to the nearest whole cycle: `-1` on an even count, `+1` on an
/// odd one. Counts below zero stand for the time before the origin.
pub open spec fn square_level_spec(cycles: int) -> int {
    if cycles % 2 == 0 {
        -1
    } else {
        1
    }
}

/// Computes the level of the square wave for a rounded cycle count.
///
/// The result is always one of the two extremes, and the wave starts low: at
/// the origin no cycle has gone by and the level is `-1`.
pub fn square_level(cycles: i64) -> (level: i8)
    ensures
        level == square_level_spec(cycles as int),
        level == 1 || level == -1,
        cycles == 0 ==> level == -1,
{
    let even: bool = if cycles >= 0 {
        (cycles as u64) % 2 == 0
    } else {
        ((-(cycles + 1)) as u64) % 2 == 1
    };
    if even {
        -1
    } else {
        1
    }
}

/// The square wave never rests between its extremes: at every cycle count its
/// level has magnitude exactly one.
pub proof fn lemma_square_level_is_extreme(cycles: int)
    ensures
        square_level_spec(cycles) * square_level_spec(cycles) == 1,
{
}

} // verus!
