//! The durable state: the settings record, the statistics buckets and
//! the instant the boundary check last ran, modelled as one plain value.
//! The surrounding application loads this record from its durable store
//! before a command runs and writes it back afterwards.

use vstd::prelude::*;

use crate::dates::day_differs;
use crate::dates::now_stamp;
use crate::dates::week_differs;
use crate::dates::DateStamp;
use crate::phase::TimePhase;
use crate::settings::Settings;
use crate::stats::Stat;
use crate::stats::Stats;

verus! {

/// Everything that survives a process restart, under its three store
/// keys: `settings`, `stats` and `last_opened`.
#[derive(Clone, Copy, Debug, PartialEq, Eq, Structural)]
pub struct StoreState {
    pub settings: Settings,
    pub stats: Stats,
    pub last_opened: DateStamp,
}

impl StoreState {
    /// The record a first start seeds: default settings, all-zero
    /// statistics, and the given instant as the last-opened mark.
    pub fn new(last_opened: DateStamp) -> (r: StoreState)
        ensures
            r.settings == (Settings {
                work_time: 25,
                short_break_time: 5,
                long_break_time: 20,
                long_break_interval: 4,
            }),
            r.stats == (Stats { today: Stat::zero(), week: Stat::zero(), total: Stat::zero() }),
            r.last_opened == last_opened,
    {
        StoreState { settings: Settings::default(), stats: Stats::default(), last_opened }
    }
}

/// Overwrites the whole settings record with the given one — no field
/// survives from the old record, and no other part of the store moves.
pub fn update_settings(store: &mut StoreState, settings: Settings)
    ensures
        final(store).settings == settings,
        final(store).stats == old(store).stats,
        final(store).last_opened == old(store).last_opened,
{
    store.settings = settings;
}

/// Records one completed session of the given phase: the phase's
/// configured duration is added to the minutes and one to the sessions
/// of all three buckets at once.
pub fn update_stats(store: &mut StoreState, phase: TimePhase)
    requires
        old(store).stats.can_record(old(store).settings.duration_for(phase) as int),
    ensures
        final(store).settings == old(store).settings,
        final(store).last_opened == old(store).last_opened,
        Stats::records_session(
            old(store).stats,
            final(store).stats,
            old(store).settings.duration_for(phase) as int,
        ),
{
    let elapsed_time = store.settings.duration_of(phase);
    store.stats.today.minutes = store.stats.today.minutes + elapsed_time;
    store.stats.today.sessions = store.stats.today.sessions + 1;
    store.stats.week.minutes = store.stats.week.minutes + elapsed_time;
    store.stats.week.sessions = store.stats.week.sessions + 1;
    store.stats.total.minutes = store.stats.total.minutes + elapsed_time;
    store.stats.total.sessions = store.stats.total.sessions + 1;
}

/// What the boundary check leaves in the statistics: a day rollover
/// zeroes `today`, otherwise a week rollover zeroes `week`, otherwise
/// nothing changes. At most one bucket is reset per check.
pub open spec fn reset_stats(stats: Stats, last_opened: DateStamp, now: DateStamp) -> Stats {
    if day_differs(last_opened, now) {
        stats.with_today_zeroed()
    } else if week_differs(last_opened, now) {
        stats.with_week_zeroed()
    } else {
        stats
    }
}

/// Whether the boundary check rewrites the statistics at all.
pub open spec fn reset_fired(last_opened: DateStamp, now: DateStamp) -> bool {
    day_differs(last_opened, now) || week_differs(last_opened, now)
}

/// The boundary check: compares `now` against the stored last-opened
/// instant, zeroes the `today` bucket on a day rollover — else the
/// `week` bucket on an ISO-week rollover — and stamps `now` as the new
/// last-opened instant so the same rollover cannot fire twice.
pub fn check_stat_reset(store: &mut StoreState, now: DateStamp) -> (fired: bool)
    ensures
        final(store).settings == old(store).settings,
        final(store).last_opened == now,
        final(store).stats == reset_stats(old(store).stats, old(store).last_opened, now),
        fired == reset_fired(old(store).last_opened, now),
        final(store).stats.total == old(store).stats.total,
{
    let last_opened = store.last_opened;
    store.last_opened = now;

    if now.year != last_opened.year || now.ordinal != last_opened.ordinal {
        store.stats.today = Stat::default();
        return true;
    }
    if now.year != last_opened.year || now.week != last_opened.week {
        store.stats.week = Stat::default();
        return true;
    }
    false
}

/// The boundary check against the machine's clock: reads the current
/// instant once and runs `check_stat_reset` with it. The stamped
/// last-opened instant is the reading that was used.
pub fn check_stat_reset_now(store: &mut StoreState) -> (fired: bool)
    ensures
        final(store).settings == old(store).settings,
        final(store).last_opened.wf(),
        final(store).stats == reset_stats(
            old(store).stats,
            old(store).last_opened,
            final(store).last_opened,
        ),
        fired == reset_fired(old(store).last_opened, final(store).last_opened),
        final(store).stats.total == old(store).stats.total,
{
    let now = now_stamp();
    check_stat_reset(store, now)
}

/// A day rollover takes precedence: even when the ISO week rolled over
/// in the same check, only the `today` bucket is zeroed and the `week`
/// bucket keeps its value; the week reset is deferred to a later check.
pub proof fn lemma_day_reset_takes_precedence(stats: Stats, last_opened: DateStamp, now: DateStamp)
    requires
        day_differs(last_opened, now),
        week_differs(last_opened, now),
    ensures
        reset_stats(stats, last_opened, now).today == Stat::zero(),
        reset_stats(stats, last_opened, now).week == stats.week,
{
}

/// The `total` bucket survives every boundary check, whatever the two
/// instants are.
pub proof fn lemma_total_never_reset(stats: Stats, last_opened: DateStamp, now: DateStamp)
    ensures
        reset_stats(stats, last_opened, now).total == stats.total,
{
}

} // verus!
