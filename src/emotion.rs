use vstd::prelude::*;

verus! {

/// The single active emotion of the agent.
#[derive(Debug, Clone, Copy, PartialEq, Eq, Structural)]
pub enum Emotion {
    /// After company, food or play.
    Happy,
    /// The resting state.
    Calm,
    /// Something caught its eye.
    Curious,
    /// Full of energy and looking for fun.
    Playful,
    /// Nobody has come by for a while.
    Bored,
    /// Disturbed too often.
    Irritated,
    /// Neglected for a long time.
    Down,
}

/// The emotion that follows `current` at a tick. `energy` and `intimacy` are
/// in tenths of a point; `has_interaction` says whether the owner came by in
/// the last two minutes.
pub open spec fn next_emotion(
    current: Emotion,
    has_interaction: bool,
    minutes: u32,
    energy: u32,
    intimacy: u32,
) -> Emotion {
    match current {
        Emotion::Calm => {
            if has_interaction && energy > 500 {
                Emotion::Happy
            } else if minutes > 120 {
                Emotion::Bored
            } else {
                Emotion::Calm
            }
        },
        Emotion::Happy => if minutes > 60 {
            Emotion::Calm
        } else {
            Emotion::Happy
        },
        Emotion::Bored => {
            if has_interaction {
                Emotion::Happy
            } else if minutes > 240 && intimacy > 400 {
                Emotion::Irritated
            } else if minutes > 240 {
                Emotion::Down
            } else {
                Emotion::Bored
            }
        },
        Emotion::Irritated => if minutes > 30 && !has_interaction {
            Emotion::Calm
        } else {
            Emotion::Irritated
        },
        Emotion::Down => if has_interaction && intimacy > 300 {
            Emotion::Calm
        } else {
            Emotion::Down
        },
        Emotion::Curious => if minutes > 10 {
            Emotion::Calm
        } else {
            Emotion::Curious
        },
        Emotion::Playful => {
            if energy < 400 {
                Emotion::Calm
            } else if minutes > 30 {
                Emotion::Bored
            } else {
                Emotion::Playful
            }
        },
    }
}

impl Emotion {
    /// The next emotion, by the first guard of the current state's row that
    /// holds; with none, the emotion stays.
    pub fn transition(&self, has_interaction: bool, minutes_since_interaction: u32, energy: u32, intimacy: u32) -> (r: Emotion)
        ensures
            r == next_emotion(*self, has_interaction, minutes_since_interaction, energy, intimacy),
    {
        match self {
            Emotion::Calm => {
                if has_interaction && energy > 500 {
                    Emotion::Happy
                } else if minutes_since_interaction > 120 {
                    Emotion::Bored
                } else {
                    Emotion::Calm
                }
            },
            Emotion::Happy => {
                if minutes_since_interaction > 60 {
                    Emotion::Calm
                } else {
                    Emotion::Happy
                }
            },
            Emotion::Bored => {
                if has_interaction {
                    Emotion::Happy
                } else if minutes_since_interaction > 240 {
                    if intimacy > 400 {
                        Emotion::Irritated
                    } else {
                        Emotion::Down
                    }
                } else {
                    Emotion::Bored
                }
            },
            Emotion::Irritated => {
                if minutes_since_interaction > 30 && !has_interaction {
                    Emotion::Calm
                } else {
                    Emotion::Irritated
                }
            },
            Emotion::Down => {
                if has_interaction && intimacy > 300 {
                    Emotion::Calm
                } else {
                    Emotion::Down
                }
            },
            Emotion::Curious => {
                if minutes_since_interaction > 10 {
                    Emotion::Calm
                } else {
                    Emotion::Curious
                }
            },
            Emotion::Playful => {
                if energy < 400 {
                    Emotion::Calm
                } else if minutes_since_interaction > 30 {
                    Emotion::Bored
                } else {
                    Emotion::Playful
                }
            },
        }
    }
}

} // verus!
