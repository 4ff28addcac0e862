//! The cumulative usage statistics: accumulated minutes and completed
//! sessions, kept in three rolling buckets (today, this ISO week, total).

use vstd::prelude::*;

verus! {

/// One bucket of accumulated minutes and completed sessions.
#[derive(Clone, Copy, Debug, PartialEq, Eq, Structural)]
pub struct Stat {
    pub minutes: i32,
    pub sessions: i32,
}

impl Stat {
    /// The empty bucket that a reset leaves behind.
    pub open spec fn zero() -> Stat {
        Stat { minutes: 0, sessions: 0 }
    }

    /// Adding `minutes` more minutes and one more session stays within
    /// 32-bit bounds.
    pub open spec fn can_add(self, minutes: int) -> bool {
        &&& i32::MIN <= self.minutes + minutes <= i32::MAX
        &&& self.sessions + 1 <= i32::MAX
    }
}

impl Default for Stat {
    fn default() -> (r: Self)
        ensures
            r == Stat::zero(),
    {
        Self { minutes: 0, sessions: 0 }
    }
}

/// The three rolling buckets. `today` and `week` are zeroed when a date
/// boundary is crossed; `total` never is.
#[derive(Clone, Copy, Debug, PartialEq, Eq, Structural)]
pub struct Stats {
    pub today: Stat,
    pub week: Stat,
    pub total: Stat,
}

impl Stats {
    /// Recording one more session of `minutes` minutes overflows no
    /// bucket.
    pub open spec fn can_record(self, minutes: int) -> bool {
        &&& self.today.can_add(minutes)
        &&& self.week.can_add(minutes)
        &&& self.total.can_add(minutes)
    }

    /// `post` is `pre` with `minutes` more minutes and one more session
    /// in all three buckets at once.
    pub open spec fn records_session(pre: Stats, post: Stats, minutes: int) -> bool {
        &&& post.today.minutes == pre.today.minutes + minutes
        &&& post.today.sessions == pre.today.sessions + 1
        &&& post.week.minutes == pre.week.minutes + minutes
        &&& post.week.sessions == pre.week.sessions + 1
        &&& post.total.minutes == pre.total.minutes + minutes
        &&& post.total.sessions == pre.total.sessions + 1
    }

    /// `stats` with the `today` bucket zeroed and the others untouched.
    pub open spec fn with_today_zeroed(self) -> Stats {
        Stats { today: Stat::zero(), week: self.week, total: self.total }
    }

    /// `stats` with the `week` bucket zeroed and the others untouched.
    pub open spec fn with_week_zeroed(self) -> Stats {
        Stats { today: self.today, week: Stat::zero(), total: self.total }
    }
}

impl Default for Stats {
    fn default() -> (r: Self)
        ensures
            r == (Stats { today: Stat::zero(), week: Stat::zero(), total: Stat::zero() }),
    {
        Self { today: Stat::default(), week: Stat::default(), total: Stat::default() }
    }
}

} // verus!
