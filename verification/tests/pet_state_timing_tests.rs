use focus_mochi::state::{
    FocusLevel, GestureType, PetMood, PetStateConfig, PetStateMachine,
};

const SECOND: u64 = 1_000_000;
const TICK: u64 = 66_000;

fn machine() -> PetStateMachine {
    PetStateMachine::new(PetStateConfig::default())
}

/// Lets the given time pass.
fn wait_ms(ms: u64) {
    let start = std::time::Instant::now();
    while start.elapsed() < std::time::Duration::from_millis(ms) {
        std::hint::spin_loop();
    }
}

/// Ticks with a face and the given raw score, 66 ms apart, from `start` on.
fn run_ticks(m: &mut PetStateMachine, raw: i64, count: u64, start: u64) -> u64 {
    let mut now = start;
    for _ in 0..count {
        m.update_at(raw, true, now);
        now += TICK;
    }
    now
}

#[test]
fn the_default_configuration_has_the_documented_values() {
    let config = PetStateConfig::default();
    assert_eq!(config.focus_enter_threshold, 750_000);
    assert_eq!(config.focus_exit_threshold, 350_000);
    assert_eq!(config.focus_confirm_duration, 3_000_000);
    assert_eq!(config.excited_focus_minutes, 25_000_000);
    assert_eq!(config.away_timeout, 5_000_000);
    assert_eq!(config.interact_duration, 3_000_000);
    assert_eq!(PetMood::default(), PetMood::Idle);
    assert_eq!(FocusLevel::default(), FocusLevel::Away);
}

#[test]
fn a_machine_that_never_saw_a_face_sleeps() {
    let mut m = machine();
    assert_eq!(m.update_at(900_000, false, 0), Some(PetMood::Sleepy));
    assert_eq!(m.mood, PetMood::Sleepy);
    assert_eq!(m.focus_level, FocusLevel::Away);
    assert_eq!(m.update_at(900_000, false, TICK), None);
    assert_eq!(m.get_focus_stats().focus_score, 0);
}

#[test]
fn absence_past_the_timeout_forces_sleep_from_any_mood() {
    let mut m = machine();
    let now = run_ticks(&mut m, 900_000, 30, 0);
    assert_eq!(m.mood, PetMood::Happy);
    let last_seen = now - TICK;
    // Exactly at the timeout the user is not away yet.
    m.update_at(900_000, false, last_seen + 5 * SECOND);
    assert_eq!(m.mood, PetMood::Happy);
    assert_eq!(m.update_at(900_000, false, last_seen + 5 * SECOND + 1), Some(PetMood::Sleepy));
    assert_eq!(m.focus_level, FocusLevel::Away);
    // Further ticks without a face keep it asleep.
    for k in 2..50 {
        assert_eq!(m.update_at(900_000, false, last_seen + 5 * SECOND + k * TICK), None);
        assert_eq!(m.mood, PetMood::Sleepy);
        assert_eq!(m.focus_level, FocusLevel::Away);
    }
}

#[test]
fn absence_wins_over_an_active_gesture() {
    let mut m = machine();
    m.update_at(900_000, true, 0);
    assert_eq!(m.on_gesture_at(GestureType::Heart, SECOND), PetMood::Interact);
    assert_eq!(m.update_at(900_000, false, 2 * SECOND), None);
    assert_eq!(m.mood, PetMood::Interact);
    assert_eq!(m.update_at(900_000, false, 5 * SECOND + 1), Some(PetMood::Sleepy));
    assert_eq!(m.focus_level, FocusLevel::Away);
}

#[test]
fn steady_high_scores_lead_to_focus() {
    let mut m = machine();
    run_ticks(&mut m, 900_000, 100, 0);
    assert_eq!(m.focus_level, FocusLevel::Focused);
    assert!(matches!(m.mood, PetMood::Happy | PetMood::Excited));
}

#[test]
fn the_score_is_smoothed_by_fifteen_percent_steps() {
    let mut m = machine();
    m.update_at(900_000, true, 0);
    assert_eq!(m.get_focus_stats().focus_score, 135_000);
    m.update_at(900_000, true, TICK);
    assert_eq!(m.get_focus_stats().focus_score, 249_750);
    m.update_at(900_000, true, 2 * TICK);
    assert_eq!(m.get_focus_stats().focus_score, 347_287);
    m.update_at(0, true, 3 * TICK);
    assert_eq!(m.get_focus_stats().focus_score, 295_193);
}

#[test]
fn focus_is_entered_above_the_enter_threshold_only() {
    let mut m = machine();
    // The smoothed score passes 0.75 on the twelfth tick.
    let now = run_ticks(&mut m, 900_000, 11, 0);
    assert_eq!(m.focus_level, FocusLevel::Distracted);
    assert_eq!(m.mood, PetMood::Sad);
    assert!(m.get_focus_stats().focus_score <= 750_000);
    assert_eq!(m.update_at(900_000, true, now), Some(PetMood::Happy));
    assert_eq!(m.focus_level, FocusLevel::Focused);
    assert!(m.get_focus_stats().focus_score > 750_000);
}

#[test]
fn focus_is_left_below_the_exit_threshold_only() {
    let mut m = machine();
    let mut now = run_ticks(&mut m, 1_000_000, 40, 0);
    assert_eq!(m.focus_level, FocusLevel::Focused);
    // Scores between the thresholds do not end the focus.
    now = run_ticks(&mut m, 500_000, 100, now);
    assert_eq!(m.focus_level, FocusLevel::Focused);
    assert_eq!(m.mood, PetMood::Happy);
    assert!(m.get_focus_stats().focus_score < 750_000);
    // Nor do they start it again once it has ended.
    now = run_ticks(&mut m, 0, 40, now);
    assert_eq!(m.focus_level, FocusLevel::Distracted);
    assert_eq!(m.mood, PetMood::Sad);
    run_ticks(&mut m, 500_000, 100, now);
    assert_eq!(m.focus_level, FocusLevel::Distracted);
    assert!(m.get_focus_stats().focus_score > 350_000);
}

#[test]
fn twenty_five_minutes_of_focus_excite() {
    let mut m = machine();
    let mut now = 0;
    let mut started = None;
    let mut excited_at = None;
    for _ in 0..23_000u32 {
        let change = m.update_at(900_000, true, now);
        if started.is_none() && m.focus_level == FocusLevel::Focused {
            started = Some(now);
        }
        if change == Some(PetMood::Excited) {
            excited_at = Some(now);
            break;
        }
        now += TICK;
    }
    let started = started.unwrap();
    let excited_at = excited_at.unwrap();
    assert!(excited_at - started >= 25 * 60 * SECOND);
    assert!(excited_at - started < 25 * 60 * SECOND + TICK);
    assert_eq!(m.mood, PetMood::Excited);
    assert_eq!(m.focus_level, FocusLevel::Focused);
    assert_eq!(m.update_at(900_000, true, now + TICK), None);
    assert_eq!(m.mood, PetMood::Excited);
}

#[test]
fn a_break_in_focus_starts_the_count_again() {
    let mut m = machine();
    let mut now = run_ticks(&mut m, 1_000_000, 40, 0);
    assert_eq!(m.focus_level, FocusLevel::Focused);
    now = run_ticks(&mut m, 0, 40, now + 24 * 60 * SECOND);
    assert_eq!(m.focus_level, FocusLevel::Distracted);
    now = run_ticks(&mut m, 1_000_000, 40, now);
    assert_eq!(m.focus_level, FocusLevel::Focused);
    m.update_at(1_000_000, true, now + 2 * 60 * SECOND);
    assert_eq!(m.mood, PetMood::Happy);
}

#[test]
fn every_focused_tick_adds_66_milliseconds() {
    let mut m = machine();
    let now = run_ticks(&mut m, 900_000, 11, 0);
    assert_eq!(m.total_focus_ms, 0);
    let now = run_ticks(&mut m, 900_000, 10, now);
    assert_eq!(m.total_focus_ms, 660);
    assert_eq!(m.get_focus_stats().total_focus_ms, 660);
    // The increment does not depend on the time between ticks.
    m.update_at(900_000, true, now + 3 * SECOND);
    assert_eq!(m.total_focus_ms, 726);
    // Distracted ticks add nothing.
    let mut m2 = machine();
    run_ticks(&mut m2, 100_000, 50, 0);
    assert_eq!(m2.total_focus_ms, 0);
}

#[test]
fn the_total_is_held_at_the_largest_value() {
    let mut m = machine();
    let now = run_ticks(&mut m, 900_000, 12, 0);
    m.total_focus_ms = u64::MAX - 10;
    m.update_at(900_000, true, now);
    assert_eq!(m.total_focus_ms, u64::MAX);
}

#[test]
fn the_daily_reset_clears_the_total_only() {
    let mut m = machine();
    run_ticks(&mut m, 900_000, 30, 0);
    let before = m.get_focus_stats();
    assert!(before.total_focus_ms > 0);
    m.reset_daily_stats();
    let after = m.get_focus_stats();
    assert_eq!(after.total_focus_ms, 0);
    assert_eq!(after.current_mood, before.current_mood);
    assert_eq!(after.focus_level, before.focus_level);
    assert_eq!(after.focus_score, before.focus_score);
}

#[test]
fn a_gesture_interrupts_and_the_mood_returns() {
    let mut m = machine();
    let now = run_ticks(&mut m, 900_000, 30, 0);
    assert_eq!(m.mood, PetMood::Happy);
    assert_eq!(m.on_gesture_at(GestureType::Wave, now), PetMood::Interact);
    assert_eq!(m.mood, PetMood::Interact);
    // Until three seconds have passed nothing changes, whatever the score.
    assert_eq!(m.update_at(0, true, now + SECOND), None);
    assert_eq!(m.update_at(0, true, now + 3 * SECOND), None);
    assert_eq!(m.mood, PetMood::Interact);
    assert_eq!(m.update_at(0, true, now + 3 * SECOND + 1), Some(PetMood::Happy));
    assert_eq!(m.mood, PetMood::Happy);
}

#[test]
fn ticks_during_a_gesture_do_not_touch_the_score() {
    let mut m = machine();
    let now = run_ticks(&mut m, 900_000, 30, 0);
    let before = m.get_focus_stats();
    m.on_gesture_at(GestureType::ThumbsUp, now);
    m.update_at(0, true, now + SECOND);
    m.update_at(0, true, now + 4 * SECOND);
    let after = m.get_focus_stats();
    assert_eq!(after.focus_score, before.focus_score);
    assert_eq!(after.total_focus_ms, before.total_focus_ms);
    assert_eq!(after.focus_level, before.focus_level);
}

#[test]
fn every_gesture_leads_to_the_interact_mood() {
    for gesture in [GestureType::Wave, GestureType::Heart, GestureType::Okay, GestureType::ThumbsUp] {
        let mut m = machine();
        m.update_at(100_000, true, 0);
        assert_eq!(m.mood, PetMood::Sad);
        assert_eq!(m.on_gesture_at(gesture, TICK), PetMood::Interact);
        assert_eq!(m.update_at(100_000, true, 4 * SECOND), Some(PetMood::Sad));
    }
}

#[test]
fn a_second_gesture_restarts_the_time_and_keeps_the_mood_to_return_to() {
    let mut m = machine();
    m.update_at(100_000, true, 0);
    assert_eq!(m.mood, PetMood::Sad);
    m.on_gesture_at(GestureType::Wave, SECOND);
    m.on_gesture_at(GestureType::Heart, 3 * SECOND);
    assert_eq!(m.update_at(100_000, true, 5 * SECOND), None);
    assert_eq!(m.mood, PetMood::Interact);
    assert_eq!(m.update_at(100_000, true, 6 * SECOND + 1), Some(PetMood::Sad));
}

#[test]
fn a_clock_that_runs_backwards_counts_as_no_time_passed() {
    let mut m = machine();
    m.update_at(900_000, true, 100 * SECOND);
    // An earlier reading without a face: the face was seen "no time ago".
    assert_eq!(m.update_at(900_000, false, SECOND), None);
    assert_eq!(m.mood, PetMood::Sad);
    m.on_gesture_at(GestureType::Wave, 50 * SECOND);
    assert_eq!(m.update_at(900_000, true, 10 * SECOND), None);
    assert_eq!(m.mood, PetMood::Interact);
}

#[test]
fn the_machine_reads_its_own_clock() {
    let config = PetStateConfig {
        interact_duration: 2_000,
        away_timeout: 60_000_000,
        ..PetStateConfig::default()
    };
    let mut m = PetStateMachine::new(config);
    assert_eq!(m.update(100_000, true), Some(PetMood::Sad));
    assert_eq!(m.on_gesture(GestureType::Wave), PetMood::Interact);
    wait_ms(20);
    // More than two milliseconds have passed on the machine's clock.
    assert_eq!(m.update(100_000, true), Some(PetMood::Sad));
}

#[test]
fn the_machine_notices_absence_on_its_own_clock() {
    let config = PetStateConfig { away_timeout: 1_000, ..PetStateConfig::default() };
    let mut m = PetStateMachine::new(config);
    assert_eq!(m.update(100_000, true), Some(PetMood::Sad));
    wait_ms(20);
    assert_eq!(m.update(100_000, false), Some(PetMood::Sleepy));
    assert_eq!(m.update(100_000, true), Some(PetMood::Sad));
}

#[test]
fn absence_during_a_gesture_forgets_the_mood_to_return_to() {
    let mut m = machine();
    m.update_at(100_000, true, 0);
    assert_eq!(m.mood, PetMood::Sad);
    m.on_gesture_at(GestureType::Wave, SECOND);
    assert_eq!(m.update_at(100_000, false, 6 * SECOND), Some(PetMood::Sleepy));
    // Put into the interact mood from outside, the machine has nothing to
    // return to: the mood from before the absence is gone.
    m.mood = PetMood::Interact;
    assert_eq!(m.update_at(100_000, true, 20 * SECOND), None);
    assert_eq!(m.update_at(100_000, true, 30 * SECOND), None);
    assert_eq!(m.mood, PetMood::Interact);
}

#[test]
fn a_gesture_after_an_absence_returns_to_sleep_not_to_the_mood_before() {
    let mut m = machine();
    run_ticks(&mut m, 900_000, 30, 0);
    assert_eq!(m.mood, PetMood::Happy);
    m.on_gesture_at(GestureType::Heart, 3 * SECOND);
    assert_eq!(m.update_at(900_000, false, 10 * SECOND), Some(PetMood::Sleepy));
    assert_eq!(m.on_gesture_at(GestureType::Wave, 11 * SECOND), PetMood::Interact);
    // A face is back; once the gesture's time is over the machine returns to
    // the mood it had when the gesture came.
    assert_eq!(m.update_at(900_000, true, 12 * SECOND), None);
    assert_eq!(m.update_at(900_000, true, 14 * SECOND + 1), Some(PetMood::Sleepy));
}
