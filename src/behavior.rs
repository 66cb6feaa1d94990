use vstd::prelude::*;

use crate::clock::chrono_nanos;
use crate::emotion::Emotion;
use crate::state::SophieState;

verus! {

/// A random roll lies in `0..ROLL_RANGE`: a probability in ten-thousandths.
pub const ROLL_RANGE: u32 = 10000;

/// The action the agent shows; each maps to one animation of the front end.
#[derive(Debug, Clone, Copy, PartialEq, Eq, Structural)]
pub enum Behavior {
    Idle,
    Sleep,
    Walk,
    Alert,
    Sit,
    Run,
}

impl Behavior {
    /// Whether the front end may turn the agent to face the other way.
    pub fn may_change_direction(&self) -> (r: bool)
        ensures
            r == (*self == Behavior::Walk || *self == Behavior::Run),
    {
        match self {
            Behavior::Walk | Behavior::Run => true,
            _ => false,
        }
    }
}

/// The everyday behavior of a calm agent for `roll`: Idle 35%, Sit 20%,
/// Walk 15%, Alert 15%, Idle 15%.
pub open spec fn daily_behavior(roll: u32) -> Behavior {
    if roll < 3500 {
        Behavior::Idle
    } else if roll < 5500 {
        Behavior::Sit
    } else if roll < 7000 {
        Behavior::Walk
    } else if roll < 8500 {
        Behavior::Alert
    } else {
        Behavior::Idle
    }
}

/// Dawn and dusk, when a calm agent likes to stroll: hours 5 to 7 and 17 to 19.
pub open spec fn is_active_hour(hour: u32) -> bool {
    (5 <= hour && hour < 8) || (17 <= hour && hour < 20)
}

/// The behavior of `state` at `hour`, with `roll` deciding the emotion's
/// weighted pick and `daily_roll` the everyday pick of a calm agent. Sleep
/// comes first, then the drives, then the emotion.
pub open spec fn decision(state: SophieState, hour: u32, roll: u32, daily_roll: u32) -> Behavior {
    let phys = state.physiological;
    if state.is_sleeping {
        Behavior::Sleep
    } else if phys.sleepiness > 700 {
        Behavior::Sleep
    } else if phys.energy < 200 {
        Behavior::Sit
    } else if phys.hunger > 850 {
        Behavior::Walk
    } else {
        match state.emotion {
            Emotion::Bored => if roll < 3000 {
                Behavior::Walk
            } else if roll < 5000 {
                Behavior::Run
            } else {
                Behavior::Alert
            },
            Emotion::Happy => if state.relationship.intimacy > 500 && roll < 3000 {
                Behavior::Walk
            } else if roll < 5000 {
                Behavior::Idle
            } else {
                Behavior::Sit
            },
            Emotion::Irritated => Behavior::Sit,
            Emotion::Down => Behavior::Sleep,
            Emotion::Curious => Behavior::Alert,
            Emotion::Playful => if roll < 5000 {
                Behavior::Run
            } else {
                Behavior::Walk
            },
            Emotion::Calm => if is_active_hour(hour) && phys.energy > 600 && roll < 4000 {
                Behavior::Walk
            } else {
                daily_behavior(daily_roll)
            },
        }
    }
}

/// The roll drawn from `nanos` by a linear congruential step in 32 bits.
pub open spec fn roll_from(nanos: u32) -> u32 {
    let m = (nanos as nat * 1103515245) % 0x1_0000_0000;
    (((m + 12345) % 0x1_0000_0000) % 10000) as u32
}

/// The everyday pick of a calm agent.
pub fn random_daily_behavior(roll: u32) -> (r: Behavior)
    ensures
        r == daily_behavior(roll),
{
    if roll < 3500 {
        Behavior::Idle
    } else if roll < 5500 {
        Behavior::Sit
    } else if roll < 7000 {
        Behavior::Walk
    } else if roll < 8500 {
        Behavior::Alert
    } else {
        Behavior::Idle
    }
}

/// Mixes the nanoseconds of the clock into a roll.
pub fn roll_of(nanos: u32) -> (r: u32)
    ensures
        r == roll_from(nanos),
        r < ROLL_RANGE,
{
    let mixed = nanos.wrapping_mul(1103515245).wrapping_add(12345);
    mixed % ROLL_RANGE
}

/// A roll taken from the clock.
pub fn rand_roll() -> (r: u32)
    ensures
        r < ROLL_RANGE,
{
    roll_of(chrono_nanos())
}

/// The behavior of `state` at `hour` with the given rolls.
pub fn decide_behavior_with(state: &SophieState, hour: u32, roll: u32, daily_roll: u32) -> (r: Behavior)
    ensures
        r == decision(*state, hour, roll, daily_roll),
{
    if state.is_sleeping {
        return Behavior::Sleep;
    }
    let phys = &state.physiological;
    if phys.sleepiness > 700 {
        return Behavior::Sleep;
    }
    if phys.energy < 200 {
        return Behavior::Sit;
    }
    if phys.hunger > 850 {
        return Behavior::Walk;
    }
    match state.emotion {
        Emotion::Bored => {
            if roll < 3000 {
                Behavior::Walk
            } else if roll < 5000 {
                Behavior::Run
            } else {
                Behavior::Alert
            }
        },
        Emotion::Happy => {
            if state.relationship.intimacy > 500 && roll < 3000 {
                Behavior::Walk
            } else if roll < 5000 {
                Behavior::Idle
            } else {
                Behavior::Sit
            }
        },
        Emotion::Irritated => Behavior::Sit,
        Emotion::Down => Behavior::Sleep,
        Emotion::Curious => Behavior::Alert,
        Emotion::Playful => {
            if roll < 5000 {
                Behavior::Run
            } else {
                Behavior::Walk
            }
        },
        Emotion::Calm => {
            if ((5 <= hour && hour < 8) || (17 <= hour && hour < 20)) && phys.energy > 600 && roll
                < 4000 {
                return Behavior::Walk;
            }
            random_daily_behavior(daily_roll)
        },
    }
}

/// The behavior of `state` at `hour`, with rolls taken from the clock. A
/// sleeping agent always sleeps.
pub fn decide_behavior(state: &SophieState, hour: u32) -> (r: Behavior)
    ensures
        exists|roll: u32, daily_roll: u32|
            roll < ROLL_RANGE && daily_roll < ROLL_RANGE && r == #[trigger] decision(
                *state,
                hour,
                roll,
                daily_roll,
            ),
        state.is_sleeping ==> r == Behavior::Sleep,
{
    let roll = rand_roll();
    let daily_roll = rand_roll();
    decide_behavior_with(state, hour, roll, daily_roll)
}

/// Whether the agent turns around: only while walking or running, and then
/// on an even nanosecond count.
pub fn flip_direction(behavior: Behavior, nanos: u32) -> (r: bool)
    ensures
        r == ((behavior == Behavior::Walk || behavior == Behavior::Run) && nanos % 2 == 0),
{
    behavior.may_change_direction() && nanos % 2 == 0
}

} // verus!
