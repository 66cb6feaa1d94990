use cyber_cat::emotion::Emotion;
use cyber_cat::state::SophieState;

const T0: u64 = 1_700_000_000;

fn agent() -> SophieState {
    SophieState::new_at(T0)
}

#[test]
fn fresh_agent_defaults() {
    let s = agent();
    assert_eq!(s.physiological.energy, 800);
    assert_eq!(s.physiological.hunger, 200);
    assert_eq!(s.physiological.sleepiness, 100);
    assert_eq!(s.emotion, Emotion::Calm);
    assert_eq!(s.relationship.trust, 100);
    assert_eq!(s.relationship.intimacy, 50);
    assert_eq!(s.relationship.understanding, 0);
    assert!(!s.is_sleeping);
    assert_eq!(s.last_interaction_ts, T0);
    assert_eq!(s.recent_interaction_count, 0);
    assert_eq!(s.interaction_count_reset_ts, T0);
    assert!(s.is_well_formed());
}

#[test]
fn clock_backed_constructor_is_well_formed() {
    let s = SophieState::new();
    assert!(s.is_well_formed());
    assert_eq!(s.last_interaction_ts, s.interaction_count_reset_ts);
}

#[test]
fn out_of_range_state_is_not_well_formed() {
    let mut s = agent();
    s.relationship.trust = 1001;
    assert!(!s.is_well_formed());
}

#[test]
fn awake_below_threshold_stays_awake() {
    let mut s = agent();
    s.physiological.sleepiness = 790;
    s.tick_at(T0);
    assert_eq!(s.physiological.sleepiness, 792);
    assert!(!s.is_sleeping);
}

#[test]
fn awake_reaching_eighty_one_falls_asleep() {
    let mut s = agent();
    s.physiological.sleepiness = 808;
    s.tick_at(T0);
    assert_eq!(s.physiological.sleepiness, 810);
    assert!(s.is_sleeping);
}

#[test]
fn asleep_at_six_keeps_sleeping() {
    let mut s = agent();
    s.is_sleeping = true;
    s.physiological.sleepiness = 90;
    s.tick_at(T0);
    assert_eq!(s.physiological.sleepiness, 60);
    assert!(s.is_sleeping);
}

#[test]
fn asleep_at_four_wakes() {
    let mut s = agent();
    s.is_sleeping = true;
    s.physiological.sleepiness = 70;
    s.tick_at(T0);
    assert_eq!(s.physiological.sleepiness, 40);
    assert!(!s.is_sleeping);
}

#[test]
fn just_asleep_does_not_wake_in_the_same_tick() {
    let mut s = agent();
    s.physiological.sleepiness = 1000;
    s.tick_at(T0);
    assert!(s.is_sleeping);
    assert_eq!(s.physiological.sleepiness, 1000);
}

#[test]
fn interactions_while_asleep() {
    let mut s = agent();
    s.is_sleeping = true;
    s.record_interaction_at(T0 + 1);
    assert_eq!(s.recent_interaction_count, 1);
    assert!(s.is_sleeping);
    assert_eq!(s.emotion, Emotion::Calm);
    s.record_interaction_at(T0 + 2);
    assert_eq!(s.recent_interaction_count, 2);
    assert!(!s.is_sleeping);
    s.record_interaction_at(T0 + 3);
    s.record_interaction_at(T0 + 4);
    assert_eq!(s.recent_interaction_count, 4);
    assert!(!s.is_sleeping);
    assert_eq!(s.emotion, Emotion::Calm);
    assert_eq!(s.last_interaction_ts, T0 + 4);
}

#[test]
fn fourth_disturbance_of_a_sleeper_irritates() {
    let mut s = agent();
    s.is_sleeping = true;
    s.recent_interaction_count = 3;
    s.record_interaction_at(T0 + 5);
    assert_eq!(s.recent_interaction_count, 4);
    assert_eq!(s.emotion, Emotion::Irritated);
    assert!(!s.is_sleeping);
}

#[test]
fn counter_saturates() {
    let mut s = agent();
    s.recent_interaction_count = u32::MAX;
    s.record_interaction_at(T0);
    assert_eq!(s.recent_interaction_count, u32::MAX);
}

#[test]
fn neglect_decay_after_two_hundred_minutes() {
    let mut s = agent();
    s.relationship.trust = 500;
    s.relationship.intimacy = 500;
    s.tick_at(T0 + 200 * 60);
    assert_eq!(s.relationship.trust, 499);
    assert_eq!(s.relationship.intimacy, 498);
}

#[test]
fn no_decay_at_one_hundred_eighty_minutes() {
    let mut s = agent();
    s.relationship.trust = 500;
    s.relationship.intimacy = 500;
    s.tick_at(T0 + 180 * 60 + 59);
    assert_eq!(s.relationship.trust, 500);
    assert_eq!(s.relationship.intimacy, 500);
}

#[test]
fn interaction_window_resets_after_ten_minutes() {
    let mut s = agent();
    s.recent_interaction_count = 5;
    s.tick_at(T0 + 600);
    assert_eq!(s.recent_interaction_count, 5);
    assert_eq!(s.interaction_count_reset_ts, T0);
    s.tick_at(T0 + 601);
    assert_eq!(s.recent_interaction_count, 0);
    assert_eq!(s.interaction_count_reset_ts, T0 + 601);
}

#[test]
fn recent_interaction_makes_calm_agent_happy() {
    let mut s = agent();
    s.record_interaction_at(T0 + 30);
    s.tick_at(T0 + 90);
    assert_eq!(s.emotion, Emotion::Happy);
}

#[test]
fn long_silence_makes_calm_agent_bored() {
    let mut s = agent();
    s.tick_at(T0 + 121 * 60);
    assert_eq!(s.emotion, Emotion::Bored);
}

#[test]
fn minutes_since_interaction_truncates() {
    let s = agent();
    assert_eq!(s.minutes_since_interaction_at(T0 + 179), 2);
    assert_eq!(s.minutes_since_interaction_at(T0 + 59), 0);
    assert_eq!(s.minutes_since_interaction_at(T0 - 100), 0);
    let _ = s.minutes_since_interaction();
}

#[test]
fn clock_backed_operations_keep_bounds() {
    let mut s = agent();
    s.tick();
    s.record_interaction();
    assert!(s.is_well_formed());
    assert!(s.recent_interaction_count >= 1);
}

#[test]
fn long_run_keeps_bounds_and_understanding() {
    let mut s = agent();
    let mut understanding = s.relationship.understanding;
    let mut now = T0;
    for i in 0u64..20_000 {
        now += 60;
        match i % 97 {
            0 => s.record_interaction_at(now),
            1 => s.physiological.feed(),
            2 => s.relationship.on_positive_interaction(),
            3 => s.relationship.on_conversation(),
            _ => s.tick_at(now),
        }
        assert!(s.is_well_formed());
        assert!(s.relationship.understanding >= understanding);
        understanding = s.relationship.understanding;
    }
}
