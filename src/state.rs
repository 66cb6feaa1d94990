use vstd::prelude::*;

use crate::clock::unix_now;
use crate::emotion::{next_emotion, Emotion};
use crate::level::MAX_LEVEL;
use crate::physiological::PhysiologicalState;
use crate::relationship::RelationshipState;

verus! {

/// Seconds after which the short-window interaction counter starts afresh.
pub const COUNT_WINDOW_SECS: u64 = 600;

/// Minutes without interaction after which the relationship decays.
pub const NEGLECT_MINUTES: u32 = 180;

/// The whole state of the agent.
#[derive(Debug, Clone, Copy, PartialEq, Eq, Structural)]
pub struct SophieState {
    pub physiological: PhysiologicalState,
    pub emotion: Emotion,
    pub relationship: RelationshipState,
    /// Whether the agent is asleep.
    pub is_sleeping: bool,
    /// Unix time, in seconds, of the last interaction.
    pub last_interaction_ts: u64,
    /// Interactions in the current short window.
    pub recent_interaction_count: u32,
    /// Unix time, in seconds, at which the short window began.
    pub interaction_count_reset_ts: u64,
}

/// Seconds from `since` to `now`; zero where the clock went back.
pub open spec fn seconds_between(now: u64, since: u64) -> u64 {
    if now >= since {
        (now - since) as u64
    } else {
        0
    }
}

/// Whole minutes from `since` to `now`, truncated to 32 bits.
pub open spec fn minutes_between(now: u64, since: u64) -> u32 {
    (seconds_between(now, since) / 60) as u32
}

/// Whether the agent sleeps after a tick that left it `sleepiness`: it falls
/// asleep above 80.0 and wakes below 5.0, and otherwise stays as it was.
pub open spec fn asleep_after(was_sleeping: bool, sleepiness: u32) -> bool {
    if !was_sleeping && sleepiness > 800 {
        true
    } else if was_sleeping && sleepiness < 50 {
        false
    } else {
        was_sleeping
    }
}

fn elapsed(now: u64, since: u64) -> (r: u64)
    ensures
        r == seconds_between(now, since),
{
    if now >= since {
        now - since
    } else {
        0
    }
}

impl SophieState {
    /// Every drive and affinity lies in `0..=1000`.
    pub open spec fn wf(&self) -> bool {
        self.physiological.wf() && self.relationship.wf()
    }

    /// The fresh state of an agent created at Unix time `now`.
    pub open spec fn fresh(now: u64) -> SophieState {
        SophieState {
            physiological: PhysiologicalState { energy: 800, hunger: 200, sleepiness: 100 },
            emotion: Emotion::Calm,
            relationship: RelationshipState { trust: 100, intimacy: 50, understanding: 0 },
            is_sleeping: false,
            last_interaction_ts: now,
            recent_interaction_count: 0,
            interaction_count_reset_ts: now,
        }
    }

    /// The state after the tick at Unix time `now`.
    pub open spec fn ticked_at(self, now: u64) -> SophieState {
        let minutes = minutes_between(now, self.last_interaction_ts);
        let reset = seconds_between(now, self.interaction_count_reset_ts) > COUNT_WINDOW_SECS;
        let physiological = self.physiological.ticked(self.is_sleeping);
        SophieState {
            physiological,
            emotion: next_emotion(
                self.emotion,
                minutes < 2,
                minutes,
                physiological.energy,
                self.relationship.intimacy,
            ),
            relationship: if minutes > NEGLECT_MINUTES {
                self.relationship.after_neglect()
            } else {
                self.relationship
            },
            is_sleeping: asleep_after(self.is_sleeping, physiological.sleepiness),
            last_interaction_ts: self.last_interaction_ts,
            recent_interaction_count: if reset {
                0
            } else {
                self.recent_interaction_count
            },
            interaction_count_reset_ts: if reset {
                now
            } else {
                self.interaction_count_reset_ts
            },
        }
    }

    /// The state after an interaction at Unix time `now`. The counter
    /// saturates at `u32::MAX`.
    pub open spec fn interacted_at(self, now: u64) -> SophieState {
        let count = if self.recent_interaction_count < u32::MAX {
            (self.recent_interaction_count + 1) as u32
        } else {
            u32::MAX
        };
        SophieState {
            last_interaction_ts: now,
            recent_interaction_count: count,
            emotion: if self.is_sleeping && count > 3 {
                Emotion::Irritated
            } else {
                self.emotion
            },
            is_sleeping: self.is_sleeping && count <= 1,
            ..self
        }
    }

    /// A fresh agent whose clock starts at Unix time `now`.
    pub fn new_at(now: u64) -> (r: SophieState)
        ensures
            r == SophieState::fresh(now),
            r.wf(),
    {
        SophieState {
            physiological: PhysiologicalState::new(),
            emotion: Emotion::Calm,
            relationship: RelationshipState::new(),
            is_sleeping: false,
            last_interaction_ts: now,
            recent_interaction_count: 0,
            interaction_count_reset_ts: now,
        }
    }

    /// A fresh agent whose clock starts now.
    pub fn new() -> (r: SophieState)
        ensures
            exists|now: u64| r == #[trigger] SophieState::fresh(now),
            r.wf(),
    {
        let now = unix_now();
        SophieState::new_at(now)
    }

    /// Whether every drive and affinity is in range, as the operations
    /// require of a state that was restored from storage.
    pub fn is_well_formed(&self) -> (r: bool)
        ensures
            r == self.wf(),
    {
        self.physiological.energy <= MAX_LEVEL && self.physiological.hunger <= MAX_LEVEL
            && self.physiological.sleepiness <= MAX_LEVEL && self.relationship.trust <= MAX_LEVEL
            && self.relationship.intimacy <= MAX_LEVEL
            && self.relationship.understanding <= MAX_LEVEL
    }

    /// One simulated minute at Unix time `now`: the interaction window is
    /// renewed when over ten minutes old, the drives move, sleep begins or
    /// ends on its thresholds, the emotion follows its table, and after three
    /// hours without interaction the relationship decays.
    pub fn tick_at(&mut self, now: u64)
        requires
            old(self).wf(),
        ensures
            *final(self) == old(self).ticked_at(now),
            final(self).wf(),
    {
        let minutes = self.minutes_since_interaction_at(now);
        if elapsed(now, self.interaction_count_reset_ts) > COUNT_WINDOW_SECS {
            self.recent_interaction_count = 0;
            self.interaction_count_reset_ts = now;
        }
        self.physiological.tick(self.is_sleeping);
        if !self.is_sleeping && self.physiological.sleepiness > 800 {
            self.is_sleeping = true;
        }
        if self.is_sleeping && self.physiological.sleepiness < 50 {
            self.is_sleeping = false;
        }
        let has_interaction = minutes < 2;
        self.emotion = self.emotion.transition(
            has_interaction,
            minutes,
            self.physiological.energy,
            self.relationship.intimacy,
        );
        if minutes > NEGLECT_MINUTES {
            self.relationship.on_neglect();
        }
    }

    /// One simulated minute, now.
    pub fn tick(&mut self)
        requires
            old(self).wf(),
        ensures
            exists|now: u64| *final(self) == #[trigger] old(self).ticked_at(now),
            final(self).wf(),
    {
        let now = unix_now();
        self.tick_at(now);
    }

    /// An interaction at Unix time `now`: it is stamped and counted. A
    /// sleeping agent disturbed more than three times in the window turns
    /// irritated, and wakes from the second disturbance on.
    pub fn record_interaction_at(&mut self, now: u64)
        requires
            old(self).wf(),
        ensures
            *final(self) == old(self).interacted_at(now),
            final(self).wf(),
    {
        self.last_interaction_ts = now;
        self.recent_interaction_count = self.recent_interaction_count.saturating_add(1);
        if self.is_sleeping {
            if self.recent_interaction_count > 3 {
                self.emotion = Emotion::Irritated;
            }
            if self.recent_interaction_count > 1 {
                self.is_sleeping = false;
            }
        }
    }

    /// An interaction, now.
    pub fn record_interaction(&mut self)
        requires
            old(self).wf(),
        ensures
            exists|now: u64| *final(self) == #[trigger] old(self).interacted_at(now),
            final(self).wf(),
    {
        let now = unix_now();
        self.record_interaction_at(now);
    }

    /// Whole minutes from the last interaction to Unix time `now`.
    pub fn minutes_since_interaction_at(&self, now: u64) -> (r: u32)
        ensures
            r == minutes_between(now, self.last_interaction_ts),
    {
        (elapsed(now, self.last_interaction_ts) / 60) as u32
    }

    /// Whole minutes since the last interaction.
    pub fn minutes_since_interaction(&self) -> (r: u32)
        ensures
            exists|now: u64| r == #[trigger] minutes_between(now, self.last_interaction_ts),
    {
        let now = unix_now();
        self.minutes_since_interaction_at(now)
    }
}

} // verus!
