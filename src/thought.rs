use vstd::prelude::*;

use crate::clock::chrono_nanos;
use crate::emotion::Emotion;
use crate::state::SophieState;

verus! {

/// The text of an optional string.
pub open spec fn text_of(o: Option<String>) -> Option<Seq<char>> {
    match o {
        Some(s) => Some(s@),
        None => None,
    }
}

/// `Some(t)` where `roll` is under `bound`, else nothing.
pub open spec fn below(roll: u32, bound: u32, t: Seq<char>) -> Option<Seq<char>> {
    if roll < bound {
        Some(t)
    } else {
        None
    }
}

/// The bubble that the agent may show in `state`, with `nanos` as the source
/// of chance: needs come first, a sleeper murmurs one time in five, and
/// otherwise the emotion speaks with its own odds out of a hundred.
pub open spec fn thought_line(state: SophieState, nanos: u32) -> Option<Seq<char>> {
    let r = nanos % 100;
    if state.physiological.hunger > 800 {
        Some("饿..."@)
    } else if state.physiological.sleepiness > 750 && !state.is_sleeping {
        Some("困..."@)
    } else if state.is_sleeping {
        if nanos % 5 == 0 {
            Some("zzz"@)
        } else {
            None
        }
    } else {
        match state.emotion {
            Emotion::Happy => if r < 20 {
                Some("嗯~"@)
            } else {
                below(r, 35, "舒服"@)
            },
            Emotion::Bored => if r < 25 {
                Some("无聊"@)
            } else {
                below(r, 40, "..."@)
            },
            Emotion::Irritated => below(r, 20, "烦"@),
            Emotion::Down => below(r, 15, "..."@),
            Emotion::Curious => below(r, 30, "嗯？"@),
            Emotion::Playful => below(r, 25, "来玩！"@),
            Emotion::Calm => if r < 10 {
                Some("嗯。"@)
            } else {
                below(r, 15, "暖和"@)
            },
        }
    }
}

fn line(t: &str) -> (r: Option<String>)
    ensures
        text_of(r) == Some(t@),
{
    Some(String::from_str(t))
}

/// The bubble for `state`, with `nanos` as the source of chance.
pub fn rule_based_thought_with(state: &SophieState, nanos: u32) -> (r: Option<String>)
    ensures
        text_of(r) == thought_line(*state, nanos),
{
    if state.physiological.hunger > 800 {
        return line("饿...");
    }
    if state.physiological.sleepiness > 750 && !state.is_sleeping {
        return line("困...");
    }
    if state.is_sleeping {
        if nanos % 5 == 0 {
            return line("zzz");
        }
        return None;
    }
    let r = nanos % 100;
    match state.emotion {
        Emotion::Happy => {
            if r < 20 {
                line("嗯~")
            } else if r < 35 {
                line("舒服")
            } else {
                None
            }
        },
        Emotion::Bored => {
            if r < 25 {
                line("无聊")
            } else if r < 40 {
                line("...")
            } else {
                None
            }
        },
        Emotion::Irritated => {
            if r < 20 {
                line("烦")
            } else {
                None
            }
        },
        Emotion::Down => {
            if r < 15 {
                line("...")
            } else {
                None
            }
        },
        Emotion::Curious => {
            if r < 30 {
                line("嗯？")
            } else {
                None
            }
        },
        Emotion::Playful => {
            if r < 25 {
                line("来玩！")
            } else {
                None
            }
        },
        Emotion::Calm => {
            if r < 10 {
                line("嗯。")
            } else if r < 15 {
                line("暖和")
            } else {
                None
            }
        },
    }
}

/// A bubble for `state`, with the clock as the source of chance.
pub fn rule_based_thought(state: &SophieState) -> (r: Option<String>)
    ensures
        exists|nanos: u32| text_of(r) == #[trigger] thought_line(*state, nanos),
{
    let nanos = chrono_nanos();
    rule_based_thought_with(state, nanos)
}

} // verus!
