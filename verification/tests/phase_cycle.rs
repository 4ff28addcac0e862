use pomodorio::dates::DateStamp;
use pomodorio::phase::TimePhase;
use pomodorio::store::StoreState;
use pomodorio::timer::{get_new_phase, switch_phase, Timer};

fn store() -> StoreState {
    StoreState::new(DateStamp { year: 2024, ordinal: 1, week: 1 })
}

#[test]
fn even_counters_are_work() {
    let store = store();
    for n in [0, 2, 4, 6, 8, 100, 1024] {
        assert_eq!(get_new_phase(&store, n), TimePhase::Work);
    }
}

#[test]
fn odd_counters_are_breaks() {
    let store = store();
    // long_break_interval is 4, so every 7th counter is the long break
    assert_eq!(get_new_phase(&store, 1), TimePhase::ShortBreak);
    assert_eq!(get_new_phase(&store, 3), TimePhase::ShortBreak);
    assert_eq!(get_new_phase(&store, 5), TimePhase::ShortBreak);
    assert_eq!(get_new_phase(&store, 7), TimePhase::LongBreak);
    assert_eq!(get_new_phase(&store, 9), TimePhase::ShortBreak);
    assert_eq!(get_new_phase(&store, 14), TimePhase::Work);
    assert_eq!(get_new_phase(&store, 21), TimePhase::LongBreak);
}

#[test]
fn interval_one_makes_every_break_long() {
    let mut store = store();
    store.settings.long_break_interval = 1;
    assert_eq!(get_new_phase(&store, 1), TimePhase::LongBreak);
    assert_eq!(get_new_phase(&store, 3), TimePhase::LongBreak);
    assert_eq!(get_new_phase(&store, 2), TimePhase::Work);
}

#[test]
fn negative_counters_are_work() {
    let store = store();
    assert_eq!(get_new_phase(&store, -1), TimePhase::Work);
    assert_eq!(get_new_phase(&store, -7), TimePhase::Work);
}

#[test]
fn forward_cycle_with_interval_four() {
    let mut timer = Timer::default();
    let mut store = store();
    assert_eq!(timer.phase, TimePhase::Work);
    assert_eq!(timer.session_number, 0);

    let expected = [
        TimePhase::ShortBreak, // counter 1
        TimePhase::Work,       // counter 2
        TimePhase::ShortBreak, // counter 3
        TimePhase::Work,       // counter 4
        TimePhase::ShortBreak, // counter 5
        TimePhase::Work,       // counter 6
        TimePhase::LongBreak,  // counter 7: 7 mod 7 == 0
        TimePhase::Work,       // counter 8
    ];
    for (i, want) in expected.iter().enumerate() {
        switch_phase(&mut timer, &mut store, false, false);
        assert_eq!(timer.session_number, i as i32 + 1);
        assert_eq!(timer.phase, *want);
    }
}

#[test]
fn revert_after_advance_restores_state() {
    let mut timer = Timer::default();
    let mut store = store();
    // walk a little way into the cycle first
    for _ in 0..3 {
        switch_phase(&mut timer, &mut store, false, true);
    }
    let phase_before = timer.phase;
    let counter_before = timer.session_number;

    switch_phase(&mut timer, &mut store, false, true);
    switch_phase(&mut timer, &mut store, true, true);

    assert_eq!(timer.phase, phase_before);
    assert_eq!(timer.session_number, counter_before);
}

#[test]
fn revert_from_zero_goes_negative_and_stays_work() {
    let mut timer = Timer::default();
    let mut store = store();
    switch_phase(&mut timer, &mut store, true, true);
    assert_eq!(timer.session_number, -1);
    assert_eq!(timer.phase, TimePhase::Work);
}
