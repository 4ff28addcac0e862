use pomodorio::dates::DateStamp;
use pomodorio::phase::TimePhase;
use pomodorio::settings::Settings;
use pomodorio::stats::{Stat, Stats};
use pomodorio::store::{update_settings, StoreState};
use pomodorio::timer::{
    get_remaining, notification_body, reset_phase, restore_state, switch_phase, Event, Timer,
};

fn store() -> StoreState {
    StoreState::new(DateStamp { year: 2024, ordinal: 1, week: 1 })
}

#[test]
fn default_settings() {
    let settings = Settings::default();
    assert_eq!(settings.work_time, 25);
    assert_eq!(settings.short_break_time, 5);
    assert_eq!(settings.long_break_time, 20);
    assert_eq!(settings.long_break_interval, 4);
}

#[test]
fn update_settings_replaces_the_whole_record() {
    let mut store = store();
    store.stats.total = Stat { minutes: 7, sessions: 1 };
    let new_settings = Settings {
        work_time: 50,
        short_break_time: 10,
        long_break_time: 30,
        long_break_interval: 2,
    };
    update_settings(&mut store, new_settings);
    // no field of the old record survives
    assert_eq!(store.settings, new_settings);
    // and nothing else in the store moves
    assert_eq!(store.stats.total, Stat { minutes: 7, sessions: 1 });
    assert_eq!(store.last_opened, DateStamp { year: 2024, ordinal: 1, week: 1 });
}

#[test]
fn remaining_follows_the_current_phase() {
    let store = store();
    let mut timer = Timer::default();
    assert_eq!(get_remaining(&timer, &store), 25);
    timer.phase = TimePhase::ShortBreak;
    assert_eq!(get_remaining(&timer, &store), 5);
    timer.phase = TimePhase::LongBreak;
    assert_eq!(get_remaining(&timer, &store), 20);
}

#[test]
fn notification_bodies_are_distinct_per_phase() {
    assert_eq!(notification_body(TimePhase::Work), "Time to get back to work!");
    assert_eq!(notification_body(TimePhase::ShortBreak), "Have a little rest!");
    assert_eq!(
        notification_body(TimePhase::LongBreak),
        "Take some extra time to relax!"
    );
}

#[test]
fn switch_phase_emits_phase_counter_notification_remaining() {
    let mut timer = Timer::default();
    let mut store = store();
    let events = switch_phase(&mut timer, &mut store, false, false);
    assert_eq!(
        events,
        vec![
            Event::SwitchPhase(TimePhase::ShortBreak),
            Event::SessionNumber(1),
            Event::Notification(TimePhase::ShortBreak),
            Event::Remaining(5),
        ]
    );
}

#[test]
fn reset_phase_reemits_remaining_only() {
    let timer = Timer::default();
    let store = store();
    let events = reset_phase(&timer, &store);
    assert_eq!(events, vec![Event::Remaining(25)]);
}

#[test]
fn restore_state_reemits_everything() {
    let mut timer = Timer::default();
    let mut store = store();
    switch_phase(&mut timer, &mut store, false, true);
    let events = restore_state(&timer, &store);
    assert_eq!(
        events,
        vec![
            Event::SwitchPhase(TimePhase::ShortBreak),
            Event::SessionNumber(1),
            Event::Remaining(5),
        ]
    );
}

#[test]
fn fresh_store_has_defaults() {
    let store = store();
    assert_eq!(store.settings, Settings::default());
    assert_eq!(
        store.stats,
        Stats {
            today: Stat { minutes: 0, sessions: 0 },
            week: Stat { minutes: 0, sessions: 0 },
            total: Stat { minutes: 0, sessions: 0 },
        }
    );
}
