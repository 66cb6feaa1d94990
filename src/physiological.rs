use vstd::prelude::*;

use crate::level::{lower, lowered, raise, raised, MAX_LEVEL};

verus! {

/// The three bounded drives, each in tenths of a point (`0..=1000`).
#[derive(Debug, Clone, Copy, PartialEq, Eq, Structural)]
pub struct PhysiologicalState {
    /// Spent while awake, recovered while asleep.
    pub energy: u32,
    /// Grows with time, lowered by feeding.
    pub hunger: u32,
    /// Grows while awake, falls while asleep.
    pub sleepiness: u32,
}

impl PhysiologicalState {
    /// Every drive lies in `0..=1000`.
    pub open spec fn wf(&self) -> bool {
        &&& self.energy <= MAX_LEVEL
        &&& self.hunger <= MAX_LEVEL
        &&& self.sleepiness <= MAX_LEVEL
    }

    /// The drives after one simulated minute.
    pub open spec fn ticked(self, is_sleeping: bool) -> PhysiologicalState {
        if is_sleeping {
            PhysiologicalState {
                energy: raised(self.energy, 20),
                hunger: raised(self.hunger, 3),
                sleepiness: lowered(self.sleepiness, 30),
            }
        } else {
            PhysiologicalState {
                energy: lowered(self.energy, 5),
                hunger: raised(self.hunger, 3),
                sleepiness: raised(self.sleepiness, 2),
            }
        }
    }

    /// The drives after a meal.
    pub open spec fn fed(self) -> PhysiologicalState {
        PhysiologicalState { hunger: lowered(self.hunger, 300), ..self }
    }

    /// Energy 80.0, hunger 20.0, sleepiness 10.0.
    pub fn new() -> (r: PhysiologicalState)
        ensures
            r == (PhysiologicalState { energy: 800, hunger: 200, sleepiness: 100 }),
            r.wf(),
    {
        PhysiologicalState { energy: 800, hunger: 200, sleepiness: 100 }
    }

    /// One simulated minute: asleep, energy +2.0 and sleepiness -3.0; awake,
    /// energy -0.5 and sleepiness +0.2; hunger +0.3 either way; all clamped.
    pub fn tick(&mut self, is_sleeping: bool)
        requires
            old(self).wf(),
        ensures
            *final(self) == old(self).ticked(is_sleeping),
            final(self).wf(),
    {
        if is_sleeping {
            self.energy = raise(self.energy, 20);
            self.sleepiness = lower(self.sleepiness, 30);
        } else {
            self.energy = lower(self.energy, 5);
            self.sleepiness = raise(self.sleepiness, 2);
        }
        self.hunger = raise(self.hunger, 3);
    }

    /// A meal: hunger -30.0, clamped at 0.
    pub fn feed(&mut self)
        requires
            old(self).wf(),
        ensures
            *final(self) == old(self).fed(),
            final(self).wf(),
    {
        self.hunger = lower(self.hunger, 300);
    }

    /// Energy under 30.0 or sleepiness over 80.0.
    pub fn needs_rest(&self) -> (r: bool)
        ensures
            r == (self.energy < 300 || self.sleepiness > 800),
    {
        self.energy < 300 || self.sleepiness > 800
    }

    /// Hunger over 70.0.
    pub fn is_hungry(&self) -> (r: bool)
        ensures
            r == (self.hunger > 700),
    {
        self.hunger > 700
    }
}

} // verus!
