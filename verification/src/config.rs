use vstd::prelude::*;

verus! {

/// Configuration for the timer. Phase lengths are in milliseconds.
#[derive(Clone, Copy, PartialEq, Eq, Structural)]
pub struct PomdConfig {
    /// Length of work phases in milliseconds
    pub work_duration: u64,
    /// Length of short breaks in milliseconds
    pub short_break_duration: u64,
    /// Length of long breaks in milliseconds
    pub long_break_duration: u64,
    /// Number of work phases between long breaks
    pub num_iterations: u8,
    /// Whether to show system notifications
    pub notify: bool,
}

impl PomdConfig {
    /// A configuration is valid when every phase length is positive and at
    /// least one work phase stands between long breaks.
    pub open spec fn wf(self) -> bool {
        &&& self.work_duration > 0
        &&& self.short_break_duration > 0
        &&& self.long_break_duration > 0
        &&& self.num_iterations >= 1
    }
}

impl Default for PomdConfig {
    /// 15 minutes of work, 5-minute short breaks, a 25-minute long break
    /// every 4 iterations, notifications on.
    fn default() -> (r: Self)
        ensures
            r.wf(),
            r.work_duration == 900_000,
            r.short_break_duration == 300_000,
            r.long_break_duration == 1_500_000,
            r.num_iterations == 4,
            r.notify,
    {
        Self {
            work_duration: 900_000,
            short_break_duration: 300_000,
            long_break_duration: 1_500_000,
            num_iterations: 4,
            notify: true,
        }
    }
}

} // verus!
