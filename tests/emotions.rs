use cyber_cat::emotion::Emotion;
use cyber_cat::emotion::Emotion::{Bored, Calm, Curious, Down, Happy, Irritated, Playful};

fn next(e: Emotion, minutes: u32, energy: u32, intimacy: u32) -> Emotion {
    e.transition(minutes < 2, minutes, energy, intimacy)
}

#[test]
fn calm_row() {
    assert_eq!(next(Calm, 0, 510, 0), Happy);
    assert_eq!(next(Calm, 0, 500, 0), Calm);
    assert_eq!(next(Calm, 121, 900, 0), Bored);
    assert_eq!(next(Calm, 120, 900, 0), Calm);
}

#[test]
fn happy_row() {
    assert_eq!(next(Happy, 61, 0, 0), Calm);
    assert_eq!(next(Happy, 60, 0, 0), Happy);
}

#[test]
fn bored_row() {
    assert_eq!(next(Bored, 1, 0, 0), Happy);
    assert_eq!(next(Bored, 241, 0, 401), Irritated);
    assert_eq!(next(Bored, 241, 0, 400), Down);
    assert_eq!(next(Bored, 240, 0, 900), Bored);
    assert_eq!(next(Bored, 5, 0, 900), Bored);
}

#[test]
fn irritated_row() {
    assert_eq!(next(Irritated, 31, 0, 0), Calm);
    assert_eq!(next(Irritated, 30, 0, 0), Irritated);
    assert_eq!(Irritated.transition(true, 31, 0, 0), Irritated);
}

#[test]
fn down_row() {
    assert_eq!(next(Down, 0, 0, 301), Calm);
    assert_eq!(next(Down, 0, 0, 300), Down);
    assert_eq!(next(Down, 50, 0, 900), Down);
}

#[test]
fn curious_row() {
    assert_eq!(next(Curious, 11, 0, 0), Calm);
    assert_eq!(next(Curious, 10, 0, 0), Curious);
}

#[test]
fn playful_row() {
    assert_eq!(next(Playful, 0, 399, 0), Calm);
    assert_eq!(next(Playful, 31, 400, 0), Bored);
    assert_eq!(next(Playful, 30, 400, 0), Playful);
}

#[test]
fn every_transition_stays_in_the_seven_emotions() {
    let all = [Happy, Calm, Curious, Playful, Bored, Irritated, Down];
    for e in all {
        for has in [false, true] {
            for minutes in [0u32, 1, 2, 10, 11, 30, 31, 60, 61, 120, 121, 180, 240, 241, u32::MAX] {
                for energy in [0u32, 399, 400, 500, 501, 1000] {
                    for intimacy in [0u32, 300, 301, 400, 401, 1000] {
                        let r = e.transition(has, minutes, energy, intimacy);
                        assert!(all.contains(&r));
                    }
                }
            }
        }
    }
}
