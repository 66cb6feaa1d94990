use vstd::prelude::*;

use crate::level::{lower, lowered, raise, raised, MAX_LEVEL};

verus! {

/// The three bounded affinities toward the owner, each in tenths of a point.
#[derive(Debug, Clone, Copy, PartialEq, Eq, Structural)]
pub struct RelationshipState {
    /// Grows with steady company, falls with neglect.
    pub trust: u32,
    /// Grows with good interactions, falls with neglect.
    pub intimacy: u32,
    /// Grows with conversation and never falls.
    pub understanding: u32,
}

impl RelationshipState {
    /// Every affinity lies in `0..=1000`.
    pub open spec fn wf(&self) -> bool {
        &&& self.trust <= MAX_LEVEL
        &&& self.intimacy <= MAX_LEVEL
        &&& self.understanding <= MAX_LEVEL
    }

    /// After a pleasant interaction: trust +0.5, intimacy +0.8.
    pub open spec fn after_positive(self) -> RelationshipState {
        RelationshipState {
            trust: raised(self.trust, 5),
            intimacy: raised(self.intimacy, 8),
            ..self
        }
    }

    /// After a conversation: understanding +1.0, intimacy +0.3.
    pub open spec fn after_conversation(self) -> RelationshipState {
        RelationshipState {
            understanding: raised(self.understanding, 10),
            intimacy: raised(self.intimacy, 3),
            ..self
        }
    }

    /// After a minute of neglect: trust -0.1, intimacy -0.2.
    pub open spec fn after_neglect(self) -> RelationshipState {
        RelationshipState {
            trust: lowered(self.trust, 1),
            intimacy: lowered(self.intimacy, 2),
            ..self
        }
    }

    /// Trust 10.0, intimacy 5.0, understanding 0.
    pub fn new() -> (r: RelationshipState)
        ensures
            r == (RelationshipState { trust: 100, intimacy: 50, understanding: 0 }),
            r.wf(),
    {
        RelationshipState { trust: 100, intimacy: 50, understanding: 0 }
    }

    pub fn on_positive_interaction(&mut self)
        requires
            old(self).wf(),
        ensures
            *final(self) == old(self).after_positive(),
            final(self).wf(),
    {
        self.trust = raise(self.trust, 5);
        self.intimacy = raise(self.intimacy, 8);
    }

    pub fn on_conversation(&mut self)
        requires
            old(self).wf(),
        ensures
            *final(self) == old(self).after_conversation(),
            final(self).wf(),
    {
        self.understanding = raise(self.understanding, 10);
        self.intimacy = raise(self.intimacy, 3);
    }

    pub fn on_neglect(&mut self)
        requires
            old(self).wf(),
        ensures
            *final(self) == old(self).after_neglect(),
            final(self).wf(),
    {
        self.trust = lower(self.trust, 1);
        self.intimacy = lower(self.intimacy, 2);
    }

    /// Willing to come closer: trust over 30.0.
    pub fn will_approach(&self) -> (r: bool)
        ensures
            r == (self.trust > 300),
    {
        self.trust > 300
    }

    /// Trusting enough for a slow blink: trust over 50.0.
    pub fn will_slow_blink(&self) -> (r: bool)
        ensures
            r == (self.trust > 500),
    {
        self.trust > 500
    }

    /// Trusting enough to show its belly: trust over 70.0.
    pub fn will_show_belly(&self) -> (r: bool)
        ensures
            r == (self.trust > 700),
    {
        self.trust > 700
    }
}

} // verus!
