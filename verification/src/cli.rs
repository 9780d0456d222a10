//! The settings of a run.

use vstd::prelude::*;

verus! {

/// The tolerance that applies when none is given, in percent.
pub const DEFAULT_TOLERANCE: u8 = 10;

/// The settings of a run, fixed once it has started.
#[derive(Clone, Debug, PartialEq, Eq)]
pub struct CliParams {
    /// Seconds between two cycles; without it a single cycle is run.
    pub repeat: Option<u64>,
    /// The difference, in percent, up to which the display is left alone.
    pub tolerence: u8,
    /// The lowest level the display is set to, in percent.
    pub min: u8,
    /// The highest level the display is set to, in percent.
    pub max: u8,
    /// The name of the level at which the log file is written.
    pub verbose: String,
}

impl CliParams {
    /// The bounds are percentages and are in order.
    pub open spec fn valid(&self) -> bool {
        self.min <= self.max <= 100
    }

    /// Tells whether the bounds are percentages and are in order.
    pub fn is_valid(&self) -> (ok: bool)
        ensures
            ok == self.valid(),
    {
        self.min <= self.max && self.max <= 100
    }
}

impl Default for CliParams {
    /// A single cycle over the full range, with a tolerance of ten percent.
    fn default() -> (params: Self)
        ensures
            params.repeat is None,
            params.tolerence == DEFAULT_TOLERANCE,
            params.min == 0,
            params.max == 100,
            params.verbose@ == "Error"@,
            params.valid(),
    {
        CliParams {
            repeat: None,
            tolerence: DEFAULT_TOLERANCE,
            min: 0,
            max: 100,
            verbose: "Error".to_owned(),
        }
    }
}

} // verus!
