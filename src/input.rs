use vstd::prelude::*;

verus! {

/// One full keyboard step along an axis, in thousandths of a unit.
pub const KEY_STEP: i64 = 1000;

/// The virtual control surface that the host writes at any time: the last
/// joystick axes (thousandths of a unit) and two latched buttons. Reading it
/// never clears anything; only a new write changes it.
#[derive(Clone, Copy, Debug, PartialEq, Eq, Structural)]
pub struct ControlState {
    pub joystick_x: i32,
    pub joystick_y: i32,
    pub jump: bool,
    pub punch: bool,
}

/// The keyboard as seen in one tick: movement keys held down, and the action
/// keys pressed during this tick.
#[derive(Clone, Copy, Debug, PartialEq, Eq, Structural)]
pub struct KeySnapshot {
    pub forward_held: bool,
    pub back_held: bool,
    pub left_held: bool,
    pub right_held: bool,
    pub jump_pressed: bool,
    pub punch_pressed: bool,
}

/// The intent of one tick. `move_x` is the lateral axis (positive to the
/// right), `move_z` the longitudinal one (negative forward); both in
/// thousandths of a unit.
#[derive(Clone, Copy, Debug, PartialEq, Eq, Structural)]
pub struct InputIntent {
    pub move_x: i64,
    pub move_z: i64,
    pub jump: bool,
    pub punch: bool,
}

impl ControlState {
    pub fn new() -> (r: ControlState)
        ensures
            r == (ControlState { joystick_x: 0, joystick_y: 0, jump: false, punch: false }),
    {
        ControlState { joystick_x: 0, joystick_y: 0, jump: false, punch: false }
    }
}

impl InputIntent {
    pub open spec fn none_spec() -> InputIntent {
        InputIntent { move_x: 0, move_z: 0, jump: false, punch: false }
    }

    /// An intent with no movement and no action.
    pub fn none() -> (r: InputIntent)
        ensures
            r == InputIntent::none_spec(),
    {
        InputIntent { move_x: 0, move_z: 0, jump: false, punch: false }
    }

    pub open spec fn moving(self) -> bool {
        self.move_x != 0 || self.move_z != 0
    }

    /// Whether the intent asks for any movement.
    pub fn is_moving(&self) -> (r: bool)
        ensures
            r == self.moving(),
    {
        self.move_x != 0 || self.move_z != 0
    }
}

pub open spec fn key_axis(negative: bool, positive: bool) -> int {
    (if positive { KEY_STEP as int } else { 0 }) - (if negative { KEY_STEP as int } else { 0 })
}

/// The intent of a tick: the keyboard's axes plus the joystick's (unclamped),
/// and each action when its key was just pressed or its button is latched.
/// Without the control state (it could not be read) only the keyboard counts.
pub open spec fn intent_of(keys: KeySnapshot, control: Option<ControlState>) -> InputIntent {
    let kx = key_axis(keys.left_held, keys.right_held);
    let kz = key_axis(keys.forward_held, keys.back_held);
    match control {
        Some(c) => InputIntent {
            move_x: (kx + c.joystick_x) as i64,
            move_z: (kz + c.joystick_y) as i64,
            jump: keys.jump_pressed || c.jump,
            punch: keys.punch_pressed || c.punch,
        },
        None => InputIntent {
            move_x: kx as i64,
            move_z: kz as i64,
            jump: keys.jump_pressed,
            punch: keys.punch_pressed,
        },
    }
}

fn axis_of_keys(negative: bool, positive: bool) -> (r: i64)
    ensures
        r == key_axis(negative, positive),
{
    let p: i64 = if positive { KEY_STEP } else { 0 };
    let n: i64 = if negative { KEY_STEP } else { 0 };
    p - n
}

pub fn aggregate_input(keys: &KeySnapshot, control: Option<ControlState>) -> (r: InputIntent)
    ensures
        r == intent_of(*keys, control),
{
    let kx = axis_of_keys(keys.left_held, keys.right_held);
    let kz = axis_of_keys(keys.forward_held, keys.back_held);
    match control {
        Some(c) => InputIntent {
            move_x: kx + c.joystick_x as i64,
            move_z: kz + c.joystick_y as i64,
            jump: keys.jump_pressed || c.jump,
            punch: keys.punch_pressed || c.punch,
        },
        None => InputIntent { move_x: kx, move_z: kz, jump: keys.jump_pressed, punch: keys.punch_pressed },
    }
}

/// Overwrites the joystick axes; the latched buttons are kept.
pub fn update_joystick(state: &mut ControlState, x: i32, y: i32)
    ensures
        *final(state) == (ControlState { joystick_x: x, joystick_y: y, ..*old(state) }),
{
    state.joystick_x = x;
    state.joystick_y = y;
}

/// Overwrites the two latched buttons; the axes are kept.
pub fn update_buttons(state: &mut ControlState, jump: bool, punch: bool)
    ensures
        *final(state) == (ControlState { jump, punch, ..*old(state) }),
{
    state.jump = jump;
    state.punch = punch;
}

/// The control state after a run of joystick writes, oldest first.
pub open spec fn after_joystick_writes(c: ControlState, writes: Seq<(i32, i32)>) -> ControlState
    decreases writes.len(),
{
    if writes.len() == 0 {
        c
    } else {
        let w = writes.last();
        let before = after_joystick_writes(c, writes.drop_last());
        ControlState { joystick_x: w.0, joystick_y: w.1, ..before }
    }
}

proof fn lemma_joystick_writes_keep_buttons(c: ControlState, writes: Seq<(i32, i32)>)
    ensures
        after_joystick_writes(c, writes).jump == c.jump,
        after_joystick_writes(c, writes).punch == c.punch,
    decreases writes.len(),
{
    if writes.len() > 0 {
        lemma_joystick_writes_keep_buttons(c, writes.drop_last());
    }
}

/// The jump button is a latch: once the buttons are written with jump set,
/// every later tick that reads the control state has a jump intent, whatever
/// the keyboard does and whatever joystick writes come in between, until the
/// buttons are written again.
pub proof fn lemma_jump_latched(before: ControlState, punch: bool, writes: Seq<(i32, i32)>, keys: KeySnapshot)
    ensures
        intent_of(keys, Some(after_joystick_writes(ControlState { jump: true, punch, ..before }, writes))).jump,
{
    lemma_joystick_writes_keep_buttons(ControlState { jump: true, punch, ..before }, writes);
}

} // verus!
