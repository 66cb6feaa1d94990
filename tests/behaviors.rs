use cyber_cat::behavior::{decide_behavior, decide_behavior_with, flip_direction, rand_roll, random_daily_behavior, roll_of, Behavior};
use cyber_cat::emotion::Emotion;
use cyber_cat::state::SophieState;

fn calm_agent() -> SophieState {
    let mut s = SophieState::new_at(0);
    s.physiological.energy = 700;
    s
}

fn with_emotion(e: Emotion) -> SophieState {
    let mut s = calm_agent();
    s.emotion = e;
    s
}

#[test]
fn sleeping_agent_always_sleeps() {
    let mut s = calm_agent();
    s.is_sleeping = true;
    s.physiological.energy = 0;
    s.physiological.hunger = 1000;
    for e in [Emotion::Happy, Emotion::Bored, Emotion::Playful, Emotion::Curious, Emotion::Irritated] {
        s.emotion = e;
        for roll in [0u32, 2999, 5000, 9999] {
            assert_eq!(decide_behavior_with(&s, 6, roll, roll), Behavior::Sleep);
        }
        assert_eq!(decide_behavior(&s, 12), Behavior::Sleep);
    }
}

#[test]
fn drives_take_precedence() {
    let mut s = with_emotion(Emotion::Curious);
    s.physiological.sleepiness = 701;
    assert_eq!(decide_behavior_with(&s, 12, 0, 0), Behavior::Sleep);
    s.physiological.sleepiness = 700;
    s.physiological.energy = 199;
    assert_eq!(decide_behavior_with(&s, 12, 0, 0), Behavior::Sit);
    s.physiological.energy = 200;
    s.physiological.hunger = 851;
    assert_eq!(decide_behavior_with(&s, 12, 0, 0), Behavior::Walk);
    s.physiological.hunger = 850;
    assert_eq!(decide_behavior_with(&s, 12, 0, 0), Behavior::Alert);
}

#[test]
fn bored_weights() {
    let s = with_emotion(Emotion::Bored);
    assert_eq!(decide_behavior_with(&s, 12, 2999, 0), Behavior::Walk);
    assert_eq!(decide_behavior_with(&s, 12, 3000, 0), Behavior::Run);
    assert_eq!(decide_behavior_with(&s, 12, 4999, 0), Behavior::Run);
    assert_eq!(decide_behavior_with(&s, 12, 5000, 0), Behavior::Alert);
}

#[test]
fn happy_weights() {
    let mut s = with_emotion(Emotion::Happy);
    s.relationship.intimacy = 501;
    assert_eq!(decide_behavior_with(&s, 12, 2999, 0), Behavior::Walk);
    assert_eq!(decide_behavior_with(&s, 12, 3000, 0), Behavior::Idle);
    assert_eq!(decide_behavior_with(&s, 12, 5000, 0), Behavior::Sit);
    s.relationship.intimacy = 500;
    assert_eq!(decide_behavior_with(&s, 12, 0, 0), Behavior::Idle);
    assert_eq!(decide_behavior_with(&s, 12, 4999, 0), Behavior::Idle);
    assert_eq!(decide_behavior_with(&s, 12, 5000, 0), Behavior::Sit);
}

#[test]
fn fixed_emotions() {
    assert_eq!(decide_behavior_with(&with_emotion(Emotion::Irritated), 12, 0, 0), Behavior::Sit);
    assert_eq!(decide_behavior_with(&with_emotion(Emotion::Down), 12, 0, 0), Behavior::Sleep);
    assert_eq!(decide_behavior_with(&with_emotion(Emotion::Curious), 12, 0, 0), Behavior::Alert);
}

#[test]
fn playful_weights() {
    let s = with_emotion(Emotion::Playful);
    assert_eq!(decide_behavior_with(&s, 12, 4999, 0), Behavior::Run);
    assert_eq!(decide_behavior_with(&s, 12, 5000, 0), Behavior::Walk);
}

#[test]
fn calm_strolls_at_dawn_and_dusk() {
    let mut s = calm_agent();
    for hour in [5u32, 7, 17, 19] {
        assert_eq!(decide_behavior_with(&s, hour, 3999, 0), Behavior::Walk);
        assert_eq!(decide_behavior_with(&s, hour, 4000, 0), Behavior::Idle);
    }
    for hour in [4u32, 8, 16, 20] {
        assert_eq!(decide_behavior_with(&s, hour, 0, 9000), Behavior::Idle);
    }
    s.physiological.energy = 600;
    assert_eq!(decide_behavior_with(&s, 6, 0, 6000), Behavior::Walk);
    assert_eq!(decide_behavior_with(&s, 6, 0, 4000), Behavior::Sit);
}

#[test]
fn daily_behavior_bands() {
    assert_eq!(random_daily_behavior(0), Behavior::Idle);
    assert_eq!(random_daily_behavior(3499), Behavior::Idle);
    assert_eq!(random_daily_behavior(3500), Behavior::Sit);
    assert_eq!(random_daily_behavior(5499), Behavior::Sit);
    assert_eq!(random_daily_behavior(5500), Behavior::Walk);
    assert_eq!(random_daily_behavior(6999), Behavior::Walk);
    assert_eq!(random_daily_behavior(7000), Behavior::Alert);
    assert_eq!(random_daily_behavior(8499), Behavior::Alert);
    assert_eq!(random_daily_behavior(8500), Behavior::Idle);
    assert_eq!(random_daily_behavior(9999), Behavior::Idle);
}

#[test]
fn rolls_from_nanoseconds() {
    assert_eq!(roll_of(0), 2345);
    assert_eq!(roll_of(1), 7590);
    assert_eq!(roll_of(4), 6029);
    assert_eq!(roll_of(999_999_999), 8556);
    assert!(rand_roll() < 10000);
}

#[test]
fn direction_changes_only_when_moving() {
    assert!(Behavior::Walk.may_change_direction());
    assert!(Behavior::Run.may_change_direction());
    for b in [Behavior::Idle, Behavior::Sleep, Behavior::Alert, Behavior::Sit] {
        assert!(!b.may_change_direction());
        assert!(!flip_direction(b, 2));
    }
    assert!(flip_direction(Behavior::Walk, 2));
    assert!(!flip_direction(Behavior::Run, 3));
}
