//! Behaviour layer of a small first-person character demo: the actor state
//! machines, the enemy's reactive decisions, the choice of animation clip for
//! each state, the binding of animation players to their actors, the
//! aggregation of per-tick input and the choice of first-person hand motion.
//!
//! Positions and input axes are fixed-point integers (thousandths of a world
//! unit), so that every decision here can be stated and proved exactly.
use vstd::prelude::*;

pub mod actor;
pub mod animation;
pub mod input;
pub mod machine;
pub mod enemy;
pub mod binder;
pub mod viewmodel;

pub use actor::{Actor, ActorKind, ActorState};
pub use animation::{AnimationStatus, Clip, ClipChoice, clip_finished, drive_animation, select_clip};
pub use binder::{Hierarchy, bind_new_players, find_owner};
pub use enemy::{EnemyStep, PlanarPos, enemy_decide, enemy_tick};
pub use input::{ControlState, InputIntent, KeySnapshot, aggregate_input, update_buttons, update_joystick};
pub use machine::{PlayerStep, PlayerTick, player_next, player_tick};
pub use viewmodel::{HandMotion, HandSide, hand_motion};
