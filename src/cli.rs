use vstd::prelude::*;

verus! {

/// Pause between two generations when none is configured, in milliseconds.
pub const DEFAULT_TIME_MS: u64 = 100;

/// Number of rows when none is configured.
pub const DEFAULT_HEIGHT: usize = 50;

/// Number of columns when none is configured.
pub const DEFAULT_WIDTH: usize = 50;

/// The settings of a run.
#[derive(Clone, Copy, Debug, PartialEq, Eq, Structural)]
pub struct Args {
    /// Pause between two generations, in milliseconds.
    pub time: u64,
    /// Number of rows of the grid.
    pub height: usize,
    /// Number of columns of the grid.
    pub width: usize,
}

impl Default for Args {
    fn default() -> (r: Args)
        ensures
            r.time == DEFAULT_TIME_MS,
            r.height == DEFAULT_HEIGHT,
            r.width == DEFAULT_WIDTH,
    {
        Args { time: DEFAULT_TIME_MS, height: DEFAULT_HEIGHT, width: DEFAULT_WIDTH }
    }
}

} // verus!
