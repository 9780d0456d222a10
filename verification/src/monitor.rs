//! The level that a display is asked to take.

use crate::utils::MAX_LEVEL;
use vstd::prelude::*;

verus! {

/// The level that the display is set to when `lvl` is asked for: `lvl`
/// itself, or one hundred percent where it is more.
pub open spec fn sink_level(lvl: u8) -> u8 {
    if lvl > MAX_LEVEL {
        MAX_LEVEL
    } else {
        lvl
    }
}

/// Limits a level to the range of a display before it is written, whoever
/// asks for it.
pub fn clamp_level(lvl: u8) -> (level: u8)
    ensures
        level == sink_level(lvl),
        level <= MAX_LEVEL,
{
    if lvl > MAX_LEVEL {
        MAX_LEVEL
    } else {
        lvl
    }
}

/// A level that a pass computed is written as it is: the limit of the
/// display changes no level of at most one hundred percent.
pub proof fn clamp_keeps_percentages(lvl: u8)
    requires
        lvl <= MAX_LEVEL,
    ensures
        sink_level(lvl) == lvl,
{
}

} // verus!
