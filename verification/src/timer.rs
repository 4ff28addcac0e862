//! The phase state machine and the commands a front-end invokes on it.
//! Commands return the events they would emit, in emission order,
//! instead of sending them; the surrounding application forwards them.

use vstd::prelude::*;

use crate::phase::phase_for;
use crate::phase::TimePhase;
use crate::stats::Stats;
use crate::store::update_stats;
use crate::store::StoreState;

verus! {

/// The in-memory state of the cycle: the current phase and the session
/// counter. Neither survives a process restart; a fresh timer always
/// starts at `Work` with counter 0.
#[derive(Clone, Copy, Debug, PartialEq, Eq, Structural)]
pub struct Timer {
    pub phase: TimePhase,
    pub session_number: i32,
}

impl Default for Timer {
    fn default() -> (r: Self)
        ensures
            r == (Timer { phase: TimePhase::Work, session_number: 0 }),
    {
        Self { phase: TimePhase::Work, session_number: 0 }
    }
}

/// One emission to the front-end, in the order the commands produce
/// them. `Notification` stands for the system notification shown on a
/// phase change; its body text comes from [`notification_body`].
#[derive(Clone, Copy, Debug, PartialEq, Eq, Structural)]
pub enum Event {
    SwitchPhase(TimePhase),
    SessionNumber(i32),
    Notification(TimePhase),
    Remaining(i32),
}

/// The session counter after one transition: one up when moving
/// forward, one down when reverting.
pub open spec fn next_counter(n: int, is_previous: bool) -> int {
    if is_previous {
        n - 1
    } else {
        n + 1
    }
}

/// Overwrites the current phase; the counter is untouched. Returns the
/// event that announces the new phase.
pub fn set_phase(timer: &mut Timer, new_phase: TimePhase) -> (event: Event)
    ensures
        final(timer).phase == new_phase,
        final(timer).session_number == old(timer).session_number,
        event == Event::SwitchPhase(new_phase),
{
    timer.phase = new_phase;
    Event::SwitchPhase(new_phase)
}

/// Moves the session counter one step forward or backward and returns
/// the new value; the phase is untouched.
pub fn update_session_number(timer: &mut Timer, is_previous: bool) -> (new_value: i32)
    requires
        is_previous ==> old(timer).session_number > i32::MIN,
        !is_previous ==> old(timer).session_number < i32::MAX,
    ensures
        new_value == next_counter(old(timer).session_number as int, is_previous),
        final(timer).session_number == new_value,
        final(timer).phase == old(timer).phase,
{
    let new_value = if !is_previous {
        timer.session_number + 1
    } else {
        timer.session_number - 1
    };
    timer.session_number = new_value;
    new_value
}

/// Computes the phase that belongs to the given session counter under
/// the stored long break interval.
pub fn get_new_phase(store: &StoreState, session_number: i32) -> (new_phase: TimePhase)
    requires
        store.settings.wf(),
    ensures
        new_phase == phase_for(
            session_number as int,
            store.settings.long_break_interval as int,
        ),
{
    let long_break_interval = store.settings.long_break_interval;
    if session_number > 0 && session_number % 2 == 1 {
        if session_number % (2 * long_break_interval - 1) == 0 {
            TimePhase::LongBreak
        } else {
            TimePhase::ShortBreak
        }
    } else {
        TimePhase::Work
    }
}

/// The stored duration of the phase the timer is in right now — what a
/// countdown display starts from.
pub fn get_remaining(timer: &Timer, store: &StoreState) -> (remaining: i32)
    ensures
        remaining == store.settings.duration_for(timer.phase),
{
    store.settings.duration_of(timer.phase)
}

/// The body text of the system notification for the given phase; each
/// phase has its own.
pub open spec fn notification_text(phase: TimePhase) -> Seq<char> {
    match phase {
        TimePhase::Work => "Time to get back to work!"@,
        TimePhase::ShortBreak => "Have a little rest!"@,
        TimePhase::LongBreak => "Take some extra time to relax!"@,
    }
}

/// Picks the notification body text for the given phase.
pub fn notification_body(phase: TimePhase) -> (body: &'static str)
    ensures
        body@ == notification_text(phase),
{
    match phase {
        TimePhase::Work => "Time to get back to work!",
        TimePhase::ShortBreak => "Have a little rest!",
        TimePhase::LongBreak => "Take some extra time to relax!",
    }
}

/// Whether this transition records a completed work session: only an
/// automatic forward transition out of the work phase does.
pub open spec fn records_work_session(
    phase: TimePhase,
    is_previous: bool,
    is_user: bool,
) -> bool {
    phase == TimePhase::Work && !is_previous && !is_user
}

/// One transition of the cycle. An automatic forward transition out of
/// `Work` first books the expiring work duration into the statistics;
/// then the counter moves one step and the phase is recomputed from it.
/// The returned events announce, in order, the new phase, the new
/// counter, the notification and the new remaining duration.
pub fn switch_phase(
    timer: &mut Timer,
    store: &mut StoreState,
    is_previous: bool,
    is_user: bool,
) -> (events: Vec<Event>)
    requires
        old(store).settings.wf(),
        is_previous ==> old(timer).session_number > i32::MIN,
        !is_previous ==> old(timer).session_number < i32::MAX,
        records_work_session(old(timer).phase, is_previous, is_user) ==> old(
            store,
        ).stats.can_record(old(store).settings.work_time as int),
    ensures
        final(store).settings == old(store).settings,
        final(store).last_opened == old(store).last_opened,
        final(timer).session_number == next_counter(
            old(timer).session_number as int,
            is_previous,
        ),
        final(timer).phase == phase_for(
            final(timer).session_number as int,
            old(store).settings.long_break_interval as int,
        ),
        records_work_session(old(timer).phase, is_previous, is_user) ==> Stats::records_session(
            old(store).stats,
            final(store).stats,
            old(store).settings.work_time as int,
        ),
        !records_work_session(old(timer).phase, is_previous, is_user) ==> final(store).stats
            == old(store).stats,
        events@ =~= seq![
            Event::SwitchPhase(final(timer).phase),
            Event::SessionNumber(final(timer).session_number),
            Event::Notification(final(timer).phase),
            Event::Remaining(final(store).settings.duration_for(final(timer).phase)),
        ],
{
    if timer.phase == TimePhase::Work && !(is_user || is_previous) {
        update_stats(store, timer.phase);
    }

    let session_number = update_session_number(timer, is_previous);

    let new_phase = get_new_phase(store, session_number);
    let phase_event = set_phase(timer, new_phase);

    let remaining = get_remaining(timer, store);

    let mut events: Vec<Event> = Vec::new();
    events.push(phase_event);
    events.push(Event::SessionNumber(session_number));
    events.push(Event::Notification(new_phase));
    events.push(Event::Remaining(remaining));
    events
}

/// Re-emits the remaining duration of the current phase without moving
/// the cycle — used to resynchronize a countdown display.
pub fn reset_phase(timer: &Timer, store: &StoreState) -> (events: Vec<Event>)
    ensures
        events@ =~= seq![Event::Remaining(store.settings.duration_for(timer.phase))],
{
    let remaining = get_remaining(timer, store);
    let mut events: Vec<Event> = Vec::new();
    events.push(Event::Remaining(remaining));
    events
}

/// Re-emits the whole visible state — phase, counter and remaining
/// duration — used once at front-end startup.
pub fn restore_state(timer: &Timer, store: &StoreState) -> (events: Vec<Event>)
    ensures
        events@ =~= seq![
            Event::SwitchPhase(timer.phase),
            Event::SessionNumber(timer.session_number),
            Event::Remaining(store.settings.duration_for(timer.phase)),
        ],
{
    let remaining = get_remaining(timer, store);
    let mut events: Vec<Event> = Vec::new();
    events.push(Event::SwitchPhase(timer.phase));
    events.push(Event::SessionNumber(timer.session_number));
    events.push(Event::Remaining(remaining));
    events
}

/// Advancing and then immediately reverting is a no-op: the counter
/// comes back to its old value, and with it the phase — provided the
/// starting phase was the one the counter prescribes, as it is for
/// every timer driven only by transitions.
pub proof fn lemma_advance_then_revert(n: int, interval: int, phase: TimePhase)
    requires
        phase == phase_for(n, interval),
    ensures
        next_counter(next_counter(n, false), true) == n,
        phase_for(next_counter(next_counter(n, false), true), interval) == phase,
{
}

} // verus!
