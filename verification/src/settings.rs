//! The persisted configuration record: three phase durations in minutes
//! and the number of work sessions between long breaks.

use vstd::prelude::*;

use crate::phase::TimePhase;

verus! {

/// Durations are in minutes; `long_break_interval` counts the work
/// sessions between successive long breaks.
#[derive(Clone, Copy, Debug, PartialEq, Eq, Structural)]
pub struct Settings {
    pub work_time: i32,
    pub short_break_time: i32,
    pub long_break_time: i32,
    pub long_break_interval: i32,
}

impl Settings {
    /// All four values are positive, and the interval is small enough
    /// that `2 * long_break_interval - 1` still fits in 32 bits.
    pub open spec fn wf(self) -> bool {
        &&& 1 <= self.work_time
        &&& 1 <= self.short_break_time
        &&& 1 <= self.long_break_time
        &&& 1 <= self.long_break_interval <= 0x3fffffff
    }

    /// The configured duration of the given phase, in minutes.
    pub open spec fn duration_for(self, phase: TimePhase) -> i32 {
        match phase {
            TimePhase::Work => self.work_time,
            TimePhase::ShortBreak => self.short_break_time,
            TimePhase::LongBreak => self.long_break_time,
        }
    }

    /// Looks up the configured duration of the given phase.
    pub fn duration_of(&self, phase: TimePhase) -> (r: i32)
        ensures
            r == self.duration_for(phase),
    {
        match phase {
            TimePhase::Work => self.work_time,
            TimePhase::ShortBreak => self.short_break_time,
            TimePhase::LongBreak => self.long_break_time,
        }
    }
}

impl Default for Settings {
    /// 25-minute work sessions, 5-minute short breaks, 20-minute long
    /// breaks, and a long break after every 4th work session.
    fn default() -> (r: Self)
        ensures
            r == (Settings {
                work_time: 25,
                short_break_time: 5,
                long_break_time: 20,
                long_break_interval: 4,
            }),
            r.wf(),
    {
        Self { work_time: 25, short_break_time: 5, long_break_time: 20, long_break_interval: 4 }
    }
}

} // verus!
