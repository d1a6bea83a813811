use vstd::prelude::*;
use crate::actor::{Actor, ActorState};
use crate::animation::{AnimationStatus, ClipChoice, choice_of, clip_finished, drive_animation, finished, request_of, select_clip};

verus! {

/// Below this planar distance to the player the enemy chases (thousandths of a unit).
pub const CHASE_RANGE: i64 = 15000;

/// Below this planar distance to the player the enemy punches (thousandths of a unit).
pub const ATTACK_RANGE: i64 = 1500;

/// A position on the ground plane, in thousandths of a unit; height is ignored.
#[derive(Clone, Copy, Debug, PartialEq, Eq, Structural)]
pub struct PlanarPos {
    pub x: i32,
    pub z: i32,
}

/// The outcome of one enemy tick.
#[derive(Clone, Copy, Debug, PartialEq, Eq, Structural)]
pub struct EnemyStep {
    /// The new state.
    pub state: ActorState,
    /// The enemy moves straight toward the player this tick.
    pub seek: bool,
    /// The play request for the bound animation player, if any.
    pub play: Option<ClipChoice>,
}

pub open spec fn dist_sq(a: PlanarPos, b: PlanarPos) -> int {
    (a.x - b.x) * (a.x - b.x) + (a.z - b.z) * (a.z - b.z)
}

/// The planar distance between `a` and `b` is below `range`.
pub open spec fn within(a: PlanarPos, b: PlanarPos, range: int) -> bool {
    dist_sq(a, b) < range * range
}

/// The enemy's decision, in priority order: an unfinished punch goes on;
/// otherwise punch within attack range, chase within chase range, else idle.
/// Without a player nothing changes.
pub open spec fn desired_state(state: ActorState, enemy: PlanarPos, player: Option<PlanarPos>, clip_done: bool) -> ActorState {
    match player {
        None => state,
        Some(p) => if state == ActorState::Punching && !clip_done {
            ActorState::Punching
        } else if within(enemy, p, ATTACK_RANGE as int) {
            ActorState::Punching
        } else if within(enemy, p, CHASE_RANGE as int) {
            ActorState::Running
        } else {
            ActorState::Idle
        },
    }
}

fn planar_dist_sq(a: PlanarPos, b: PlanarPos) -> (r: i128)
    ensures
        r == dist_sq(a, b),
{
    let dx: i128 = a.x as i128 - b.x as i128;
    let dz: i128 = a.z as i128 - b.z as i128;
    assert(-0x1_0000_0000 <= dx <= 0x1_0000_0000);
    assert(-0x1_0000_0000 <= dz <= 0x1_0000_0000);
    assert(0 <= dx * dx <= 0x1_0000_0000_0000_0000) by (nonlinear_arith)
        requires
            -0x1_0000_0000 <= dx <= 0x1_0000_0000,
    ;
    assert(0 <= dz * dz <= 0x1_0000_0000_0000_0000) by (nonlinear_arith)
        requires
            -0x1_0000_0000 <= dz <= 0x1_0000_0000,
    ;
    dx * dx + dz * dz
}

pub fn enemy_decide(state: ActorState, enemy: PlanarPos, player: Option<PlanarPos>, clip_done: bool) -> (r: ActorState)
    ensures
        r == desired_state(state, enemy, player, clip_done),
        state != ActorState::Jumping ==> r != ActorState::Jumping,
{
    match player {
        None => state,
        Some(p) => {
            if state == ActorState::Punching && !clip_done {
                ActorState::Punching
            } else {
                let d = planar_dist_sq(enemy, p);
                let attack = ATTACK_RANGE as i128;
                let chase = CHASE_RANGE as i128;
                if d < attack * attack {
                    ActorState::Punching
                } else if d < chase * chase {
                    ActorState::Running
                } else {
                    ActorState::Idle
                }
            }
        },
    }
}

pub open spec fn enemy_step_of(actor: Actor, enemy: PlanarPos, player: Option<PlanarPos>, status: Option<AnimationStatus>) -> EnemyStep {
    let clip_done = match status {
        Some(st) => finished(st, choice_of(actor.kind, actor.state).clip),
        None => false,
    };
    let s = desired_state(actor.state, enemy, player, clip_done);
    EnemyStep {
        state: s,
        seek: player is Some && s == ActorState::Running,
        play: match (player, status) {
            (Some(_), Some(st)) => request_of(actor.kind, s, st),
            _ => None,
        },
    }
}

/// One tick of the enemy at `enemy`, with the player at `player` (`None` when
/// there is not exactly one player: then the tick does nothing). The enemy
/// seeks the player only while Running, and the bound animation player
/// (`status`) is asked to play the new state's clip unless it already does.
pub fn enemy_tick(actor: &mut Actor, enemy: PlanarPos, player: Option<PlanarPos>, status: Option<AnimationStatus>) -> (r: EnemyStep)
    ensures
        r == enemy_step_of(*old(actor), enemy, player, status),
        *final(actor) == (Actor { state: r.state, ..*old(actor) }),
        player is None ==> *final(actor) == *old(actor) && !r.seek && r.play is None,
{
    let clip_done = match status {
        Some(st) => clip_finished(&st, select_clip(actor.kind, actor.state).clip),
        None => false,
    };
    let s = enemy_decide(actor.state, enemy, player, clip_done);
    actor.state = s;
    let seek = player.is_some() && s == ActorState::Running;
    let play = match (player, status) {
        (Some(_), Some(st)) => drive_animation(actor.kind, s, &st),
        _ => None,
    };
    EnemyStep { state: s, seek, play }
}

/// Attack has priority over chase: within attack range the enemy's state
/// becomes Punching, whatever its state was, though it is within chase
/// range as well.
pub proof fn lemma_attack_has_priority(state: ActorState, enemy: PlanarPos, player: PlanarPos, clip_done: bool)
    requires
        within(enemy, player, ATTACK_RANGE as int),
    ensures
        within(enemy, player, CHASE_RANGE as int),
        desired_state(state, enemy, Some(player), clip_done) == ActorState::Punching,
{
    assert((ATTACK_RANGE as int) * (ATTACK_RANGE as int) < (CHASE_RANGE as int) * (CHASE_RANGE as int));
}

} // verus!
