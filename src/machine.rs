use vstd::prelude::*;
use crate::actor::{Actor, ActorKind, ActorState};
use crate::animation::{AnimationStatus, ClipChoice, choice_of, clip_finished, drive_animation, finished, request_of, select_clip};
use crate::input::InputIntent;

verus! {

/// The outcome of one state-machine evaluation for the player.
#[derive(Clone, Copy, Debug, PartialEq, Eq, Structural)]
pub struct PlayerStep {
    /// The new state.
    pub state: ActorState,
    /// A one-shot punch sound is requested (the punch was entered this tick).
    pub punch_sound: bool,
    /// Forward translation is allowed this tick (the state is not Punching).
    pub advance: bool,
}

/// The outcome of one full tick for the player: the state-machine step and
/// the play request for the bound animation player, if any.
#[derive(Clone, Copy, Debug, PartialEq, Eq, Structural)]
pub struct PlayerTick {
    pub step: PlayerStep,
    pub play: Option<ClipChoice>,
}

/// Punching and Jumping are left, for Idle, only once their clip has finished.
pub open spec fn after_exit(state: ActorState, clip_done: bool) -> ActorState {
    if (state == ActorState::Punching || state == ActorState::Jumping) && clip_done {
        ActorState::Idle
    } else {
        state
    }
}

/// The decision table, applied from Idle or Running in priority order:
/// punch, then jump, then movement, else Idle. Other states are kept.
pub open spec fn decide(state: ActorState, intent: InputIntent) -> ActorState {
    if state == ActorState::Idle || state == ActorState::Running {
        if intent.punch {
            ActorState::Punching
        } else if intent.jump {
            ActorState::Jumping
        } else if intent.moving() {
            ActorState::Running
        } else {
            ActorState::Idle
        }
    } else {
        state
    }
}

/// The next player state: the exit check first, then the decision table on
/// the same tick.
pub open spec fn next_state(state: ActorState, intent: InputIntent, clip_done: bool) -> ActorState {
    decide(after_exit(state, clip_done), intent)
}

pub open spec fn step_of(state: ActorState, intent: InputIntent, clip_done: bool) -> PlayerStep {
    let entry = after_exit(state, clip_done);
    let s = decide(entry, intent);
    PlayerStep {
        state: s,
        punch_sound: (entry == ActorState::Idle || entry == ActorState::Running) && intent.punch,
        advance: s != ActorState::Punching,
    }
}

pub fn player_next(state: ActorState, intent: &InputIntent, clip_done: bool) -> (r: PlayerStep)
    ensures
        r == step_of(state, *intent, clip_done),
        r.state == next_state(state, *intent, clip_done),
        state == ActorState::Punching && !clip_done ==> r.state == ActorState::Punching,
        state == ActorState::Running && *intent == InputIntent::none_spec() ==> r.state == ActorState::Idle,
{
    let entry = if (state == ActorState::Punching || state == ActorState::Jumping) && clip_done {
        ActorState::Idle
    } else {
        state
    };
    let free = entry == ActorState::Idle || entry == ActorState::Running;
    let s = if free {
        if intent.punch {
            ActorState::Punching
        } else if intent.jump {
            ActorState::Jumping
        } else if intent.is_moving() {
            ActorState::Running
        } else {
            ActorState::Idle
        }
    } else {
        entry
    };
    PlayerStep { state: s, punch_sound: free && intent.punch, advance: s != ActorState::Punching }
}

pub open spec fn status_finished(kind: ActorKind, state: ActorState, status: Option<AnimationStatus>) -> bool {
    match status {
        Some(st) => finished(st, choice_of(kind, state).clip),
        None => false,
    }
}

pub open spec fn tick_of(actor: Actor, intent: InputIntent, status: Option<AnimationStatus>) -> PlayerTick {
    let step = step_of(actor.state, intent, status_finished(actor.kind, actor.state, status));
    PlayerTick {
        step,
        play: match status {
            Some(st) => request_of(actor.kind, step.state, st),
            None => None,
        },
    }
}

/// One tick of the player: the state machine, fed with whether the clip of the
/// current state has finished, then the play request for the new state.
/// `status` is what the bound animation player reports, or `None` when no
/// player is bound or it cannot be found; then nothing has finished and
/// nothing is played.
pub fn player_tick(actor: &mut Actor, intent: &InputIntent, status: Option<AnimationStatus>) -> (r: PlayerTick)
    ensures
        r == tick_of(*old(actor), *intent, status),
        *final(actor) == (Actor { state: r.step.state, ..*old(actor) }),
{
    let done = match status {
        Some(st) => clip_finished(&st, select_clip(actor.kind, actor.state).clip),
        None => false,
    };
    let step = player_next(actor.state, intent, done);
    actor.state = step.state;
    let play = match status {
        Some(st) => drive_animation(actor.kind, step.state, &st),
        None => None,
    };
    PlayerTick { step, play }
}

/// The state after a run of ticks, each with its intent and whether the
/// current clip was reported finished; oldest first.
pub open spec fn run_ticks(state: ActorState, ticks: Seq<(InputIntent, bool)>) -> ActorState
    decreases ticks.len(),
{
    if ticks.len() == 0 {
        state
    } else {
        let t = ticks.last();
        next_state(run_ticks(state, ticks.drop_last()), t.0, t.1)
    }
}

/// Punching is sticky: from Punching, as long as no tick reports the clip
/// finished, the state stays Punching whatever the input says.
pub proof fn lemma_punch_sticky(ticks: Seq<(InputIntent, bool)>)
    requires
        forall|i: int| 0 <= i < ticks.len() ==> !(#[trigger] ticks[i]).1,
    ensures
        run_ticks(ActorState::Punching, ticks) == ActorState::Punching,
    decreases ticks.len(),
{
    if ticks.len() > 0 {
        let rest = ticks.drop_last();
        assert forall|i: int| 0 <= i < rest.len() implies !(#[trigger] rest[i]).1 by {
            assert(rest[i] == ticks[i]);
        }
        lemma_punch_sticky(rest);
        assert(!ticks[ticks.len() - 1].1);
    }
}

/// From Running, an intent with no movement and no action brings the state
/// to Idle in one tick.
pub proof fn lemma_rest_converges(clip_done: bool)
    ensures
        next_state(ActorState::Running, InputIntent::none_spec(), clip_done) == ActorState::Idle,
{
}

} // verus!
