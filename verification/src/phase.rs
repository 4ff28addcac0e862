//! The phase of the Pomodoro cycle and the rule that picks the phase
//! for a given session counter.

use vstd::prelude::*;

verus! {

/// The current segment of the Pomodoro cycle.
#[derive(Clone, Copy, Debug, PartialEq, Eq, Structural)]
pub enum TimePhase {
    Work,
    ShortBreak,
    LongBreak,
}

impl Default for TimePhase {
    /// The cycle starts in the work phase.
    fn default() -> (r: Self)
        ensures
            r == TimePhase::Work,
    {
        Self::Work
    }
}

/// The phase that belongs to session counter `n` under a given long break
/// interval: every odd counter is a break, and every
/// `2 * interval - 1`-th counter is the long one; even counters, and the
/// counters at or below zero that backward transitions can reach, are work.
pub open spec fn phase_for(n: int, interval: int) -> TimePhase {
    if n > 0 && n % 2 == 1 {
        if n % (2 * interval - 1) == 0 {
            TimePhase::LongBreak
        } else {
            TimePhase::ShortBreak
        }
    } else {
        TimePhase::Work
    }
}

/// The phase is a pure function of the counter: an even counter means
/// work, an odd one a break, and among the odd ones exactly the multiples
/// of `2 * interval - 1` mean the long break.
pub proof fn lemma_phase_for_pure(n: int, interval: int)
    requires
        0 <= n,
        1 <= interval,
    ensures
        n % 2 == 0 ==> phase_for(n, interval) == TimePhase::Work,
        n % 2 == 1 && n % (2 * interval - 1) == 0 ==> phase_for(n, interval) == TimePhase::LongBreak,
        n % 2 == 1 && n % (2 * interval - 1) != 0 ==> phase_for(n, interval) == TimePhase::ShortBreak,
{
}

} // verus!
