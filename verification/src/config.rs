use vstd::prelude::*;

verus! {

/// Settings that apply to every export.
pub struct Config {
    /// Whether versioned file names carry milliseconds in their timestamp.
    pub use_millisecond_precision: bool,
}

impl Config {
    /// Settings with the given precision of timestamps.
    pub fn new(use_millisecond_precision: bool) -> (config: Config)
        ensures
            config.use_millisecond_precision == use_millisecond_precision,
    {
        Config { use_millisecond_precision }
    }
}

impl Default for Config {
    /// Second precision is the default.
    fn default() -> (config: Config)
        ensures
            !config.use_millisecond_precision,
    {
        Config::new(false)
    }
}

} // verus!
