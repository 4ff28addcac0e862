//! The calendar fields that the statistics resets read from an instant:
//! the year, the day of the year and the ISO week of the year.

use vstd::prelude::*;

verus! {

/// The calendar position of one UTC instant, reduced to the three
/// fields the boundary check compares.
#[derive(Clone, Copy, Debug, PartialEq, Eq, Structural)]
pub struct DateStamp {
    /// Calendar year; may be negative for years before the common era.
    pub year: i32,
    /// Day of the year, starting from 1.
    pub ordinal: u32,
    /// ISO 8601 week of the year, starting from 1.
    pub week: u32,
}

impl DateStamp {
    /// The ranges a calendar gives: at most 366 days and 53 ISO weeks
    /// in a year.
    pub open spec fn wf(self) -> bool {
        &&& 1 <= self.ordinal <= 366
        &&& 1 <= self.week <= 53
    }
}

/// The two stamps fall on different calendar days: the year or the day
/// of the year differs.
pub open spec fn day_differs(a: DateStamp, b: DateStamp) -> bool {
    a.year != b.year || a.ordinal != b.ordinal
}

/// The two stamps fall in different ISO weeks: the year or the ISO week
/// of the year differs.
pub open spec fn week_differs(a: DateStamp, b: DateStamp) -> bool {
    a.year != b.year || a.week != b.week
}

/// Relies on chrono's `Utc::now` for the current instant, and on the
/// `Datelike` accessors `year`, `ordinal` and `iso_week` (with
/// `IsoWeek::week`) to read its calendar fields. chrono documents the
/// day of the year as ranging over 1..=366 and the ISO week over 1..=53;
/// nothing more can be promised of a clock reading.
#[verifier::external_body]
pub(crate) fn now_stamp() -> (r: DateStamp)
    ensures
        r.wf(),
{
    let now = chrono::Utc::now();
    DateStamp {
        year: chrono::Datelike::year(&now),
        ordinal: chrono::Datelike::ordinal(&now),
        week: chrono::Datelike::iso_week(&now).week(),
    }
}

} // verus!
