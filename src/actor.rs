use vstd::prelude::*;

verus! {

/// The combat and locomotion state of an actor; exactly one at any time.
#[derive(Clone, Copy, Debug, PartialEq, Eq, Structural)]
pub enum ActorState {
    Idle,
    Running,
    Jumping,
    Punching,
}

impl Default for ActorState {
    fn default() -> (r: Self)
        ensures
            r == ActorState::Idle,
    {
        ActorState::Idle
    }
}

/// The two kinds of actor: the player-controlled character and the enemy.
#[derive(Clone, Copy, Debug, PartialEq, Eq, Structural)]
pub enum ActorKind {
    Player,
    Enemy,
}

/// An actor: its kind, its state, and the animation player bound to it (an
/// entity index), once one has been found.
#[derive(Clone, Copy, Debug, PartialEq, Eq, Structural)]
pub struct Actor {
    pub kind: ActorKind,
    pub state: ActorState,
    pub animation_target: Option<usize>,
}

impl Actor {
    /// A freshly spawned actor: idle, with no animation player bound yet.
    pub fn spawn(kind: ActorKind) -> (r: Actor)
        ensures
            r.kind == kind,
            r.state == ActorState::Idle,
            r.animation_target is None,
    {
        Actor { kind, state: ActorState::Idle, animation_target: None }
    }
}

} // verus!
