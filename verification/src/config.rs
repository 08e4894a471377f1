//! What the player can configure.

use vstd::prelude::*;

verus! {

/// The timing of held keys, in milliseconds.
#[derive(Debug, Clone, Copy, PartialEq, Eq, Structural)]
pub struct Config {
    pub das_delay_ms: u64,
    pub arr_delay_ms: u64,
    pub sd_arr_delay_ms: u64,
}

impl Default for Config {
    /// A delay of 133 ms and repeats at once.
    fn default() -> (config: Config)
        ensures
            config == (Config { das_delay_ms: 133, arr_delay_ms: 0, sd_arr_delay_ms: 0 }),
    {
        Config { das_delay_ms: 133, arr_delay_ms: 0, sd_arr_delay_ms: 0 }
    }
}

} // verus!
