//! Actions a creature can take and how long each one takes.
use crate::hex::RelativeDir;
use vstd::prelude::*;

verus! {

/// What a creature can be asked to do.
#[derive(Clone, Copy, PartialEq, Eq, Structural, Debug)]
pub enum Action {
    MOVE(RelativeDir),
    TURN(RelativeDir),
    MELEE(RelativeDir),
    WAIT,
}

impl Action {
    /// Ticks that pass between choosing the action and its effect.
    pub open spec fn spec_pre_ticks(self) -> nat {
        match self {
            Action::MOVE(RelativeDir::BACKWARD) => 15,
            Action::MOVE(_) => 10,
            Action::TURN(_) => 5,
            Action::MELEE(_) => 4,
            Action::WAIT => 1,
        }
    }

    /// Ticks that pass after the effect before the next action is chosen.
    pub open spec fn spec_post_ticks(self) -> nat {
        match self {
            Action::MOVE(_) => 10,
            Action::TURN(_) => 5,
            Action::MELEE(_) => 8,
            Action::WAIT => 0,
        }
    }

    pub fn pre_ticks(&self) -> (r: u32)
        ensures
            r == self.spec_pre_ticks(),
    {
        match *self {
            Action::MOVE(RelativeDir::BACKWARD) => 15,
            Action::MOVE(_) => 10,
            Action::TURN(_) => 5,
            Action::MELEE(_) => 4,
            Action::WAIT => 1,
        }
    }

    pub fn post_ticks(&self) -> (r: u32)
        ensures
            r == self.spec_post_ticks(),
    {
        match *self {
            Action::MOVE(_) => 10,
            Action::TURN(_) => 5,
            Action::MELEE(_) => 8,
            Action::WAIT => 0,
        }
    }
}

/// Turns are the quickest effects to complete, a strike has the shortest
/// wind-up of them, and backing away is the slowest thing a creature can do.
pub proof fn lemma_speed_ordering(a: Action, rd: RelativeDir)
    ensures
        Action::TURN(rd).spec_pre_ticks() + Action::TURN(rd).spec_post_ticks() <= a.spec_pre_ticks()
            + a.spec_post_ticks() || a == Action::WAIT,
        Action::MELEE(rd).spec_pre_ticks() <= a.spec_pre_ticks() || a == Action::WAIT,
        a.spec_pre_ticks() + a.spec_post_ticks() <= Action::MOVE(
            RelativeDir::BACKWARD,
        ).spec_pre_ticks() + Action::MOVE(RelativeDir::BACKWARD).spec_post_ticks(),
{
}

} // verus!
