use vstd::prelude::*;
use crate::actor::ActorState;

verus! {

/// Which first-person hand.
#[derive(Clone, Copy, Debug, PartialEq, Eq, Structural)]
pub enum HandSide {
    Left,
    Right,
}

/// The procedural motion a hand follows around its rest offset.
#[derive(Clone, Copy, Debug, PartialEq, Eq, Structural)]
pub enum HandMotion {
    /// Stay at the rest offset.
    Rest,
    /// Slow, small vertical breathing.
    Breathe,
    /// Fast vertical bob with a lateral sway; the sway runs half a turn out
    /// of phase when `opposite_phase` holds.
    Bob { opposite_phase: bool },
    /// Repeated forward jabs.
    Jab,
}

/// Idle breathes, Running bobs with the two hands in opposite phase,
/// Punching jabs with the right hand only, Jumping rests.
pub open spec fn motion_of(state: ActorState, side: HandSide) -> HandMotion {
    match state {
        ActorState::Idle => HandMotion::Breathe,
        ActorState::Running => HandMotion::Bob { opposite_phase: side == HandSide::Right },
        ActorState::Punching => if side == HandSide::Right {
            HandMotion::Jab
        } else {
            HandMotion::Rest
        },
        ActorState::Jumping => HandMotion::Rest,
    }
}

pub fn hand_motion(state: ActorState, side: HandSide) -> (r: HandMotion)
    ensures
        r == motion_of(state, side),
{
    match state {
        ActorState::Idle => HandMotion::Breathe,
        ActorState::Running => HandMotion::Bob { opposite_phase: side == HandSide::Right },
        ActorState::Punching => match side {
            HandSide::Right => HandMotion::Jab,
            HandSide::Left => HandMotion::Rest,
        },
        ActorState::Jumping => HandMotion::Rest,
    }
}

} // verus!
