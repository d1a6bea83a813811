use kero_bevy::{
    aggregate_input, bind_new_players, clip_finished, drive_animation, enemy_decide, enemy_tick, find_owner,
    hand_motion, player_next, player_tick, select_clip, update_buttons, update_joystick, Actor, ActorKind,
    ActorState, AnimationStatus, Clip, ClipChoice, ControlState, HandMotion, HandSide, Hierarchy, InputIntent,
    KeySnapshot, PlanarPos,
};

fn no_keys() -> KeySnapshot {
    KeySnapshot {
        forward_held: false,
        back_held: false,
        left_held: false,
        right_held: false,
        jump_pressed: false,
        punch_pressed: false,
    }
}

fn status_playing(clip: Clip, all_finished: bool) -> AnimationStatus {
    let mut st = AnimationStatus::stopped();
    st.record_play(select_clip(ActorKind::Player, match clip {
        Clip::Idle => ActorState::Idle,
        Clip::Run => ActorState::Running,
        Clip::Jump => ActorState::Jumping,
        Clip::Punch => ActorState::Punching,
    }));
    st.all_finished = all_finished;
    st
}

fn intent(move_x: i64, move_z: i64, jump: bool, punch: bool) -> InputIntent {
    InputIntent { move_x, move_z, jump, punch }
}

#[test]
fn spawned_actor_is_idle_and_unbound() {
    let a = Actor::spawn(ActorKind::Enemy);
    assert_eq!(a.state, ActorState::Idle);
    assert_eq!(a.animation_target, None);
    assert_eq!(ActorState::default(), ActorState::Idle);
}

#[test]
fn clip_table() {
    let c = select_clip(ActorKind::Player, ActorState::Idle);
    assert_eq!(c, ClipChoice { clip: Clip::Idle, looping: true, speed_tenths: 10 });
    let c = select_clip(ActorKind::Player, ActorState::Running);
    assert_eq!(c, ClipChoice { clip: Clip::Run, looping: true, speed_tenths: 15 });
    let c = select_clip(ActorKind::Player, ActorState::Jumping);
    assert_eq!(c, ClipChoice { clip: Clip::Jump, looping: false, speed_tenths: 10 });
    let c = select_clip(ActorKind::Enemy, ActorState::Jumping);
    assert_eq!(c, ClipChoice { clip: Clip::Idle, looping: true, speed_tenths: 10 });
    let c = select_clip(ActorKind::Enemy, ActorState::Punching);
    assert_eq!(c, ClipChoice { clip: Clip::Punch, looping: false, speed_tenths: 10 });
}

#[test]
fn driver_requests_clip_once_per_state() {
    let mut st = AnimationStatus::stopped();
    let mut requests = 0;
    for _ in 0..5 {
        if let Some(c) = drive_animation(ActorKind::Player, ActorState::Running, &st) {
            assert_eq!(c.clip, Clip::Run);
            st.record_play(c);
            requests += 1;
        }
    }
    assert_eq!(requests, 1);
    let c = drive_animation(ActorKind::Player, ActorState::Punching, &st);
    assert_eq!(c, Some(ClipChoice { clip: Clip::Punch, looping: false, speed_tenths: 10 }));
}

#[test]
fn finished_needs_the_clip_active() {
    let st = status_playing(Clip::Punch, true);
    assert!(clip_finished(&st, Clip::Punch));
    assert!(!clip_finished(&st, Clip::Jump));
    let st = status_playing(Clip::Punch, false);
    assert!(!clip_finished(&st, Clip::Punch));
}

#[test]
fn input_sums_keyboard_and_joystick() {
    let mut c = ControlState::new();
    update_joystick(&mut c, 500, -250);
    let keys = KeySnapshot { forward_held: true, right_held: true, ..no_keys() };
    let i = aggregate_input(&keys, Some(c));
    assert_eq!(i, intent(1500, -1250, false, false));
    let i = aggregate_input(&keys, None);
    assert_eq!(i, intent(1000, -1000, false, false));
    let keys = KeySnapshot { left_held: true, back_held: true, punch_pressed: true, ..no_keys() };
    let i = aggregate_input(&keys, Some(ControlState::new()));
    assert_eq!(i, intent(-1000, 1000, false, true));
}

#[test]
fn jump_button_stays_latched() {
    let mut c = ControlState::new();
    update_buttons(&mut c, true, false);
    for k in 0..10 {
        update_joystick(&mut c, k, -k);
        let i = aggregate_input(&no_keys(), Some(c));
        assert!(i.jump);
        assert!(!i.punch);
    }
    update_buttons(&mut c, false, false);
    assert!(!aggregate_input(&no_keys(), Some(c)).jump);
}

#[test]
fn player_decision_table_priority() {
    let s = player_next(ActorState::Idle, &intent(1000, 0, true, true), false);
    assert_eq!(s.state, ActorState::Punching);
    assert!(s.punch_sound);
    assert!(!s.advance);
    let s = player_next(ActorState::Running, &intent(1000, 0, true, false), false);
    assert_eq!(s.state, ActorState::Jumping);
    assert!(!s.punch_sound);
    let s = player_next(ActorState::Idle, &intent(0, -1000, false, false), false);
    assert_eq!(s.state, ActorState::Running);
    assert!(s.advance);
}

#[test]
fn running_with_no_input_goes_idle() {
    let s = player_next(ActorState::Running, &InputIntent::none(), false);
    assert_eq!(s.state, ActorState::Idle);
    let s = player_next(ActorState::Running, &InputIntent::none(), true);
    assert_eq!(s.state, ActorState::Idle);
}

#[test]
fn punching_is_sticky_until_finished() {
    let mut state = ActorState::Punching;
    for k in 0..8 {
        let s = player_next(state, &intent(k * 100, 1000, k % 2 == 0, k % 3 == 0), false);
        assert_eq!(s.state, ActorState::Punching);
        assert!(!s.punch_sound);
        state = s.state;
    }
}

#[test]
fn finished_punch_returns_to_idle() {
    let mut a = Actor { kind: ActorKind::Player, state: ActorState::Punching, animation_target: Some(3) };
    let st = status_playing(Clip::Punch, true);
    let t = player_tick(&mut a, &InputIntent::none(), Some(st));
    assert_eq!(t.step.state, ActorState::Idle);
    assert_eq!(a.state, ActorState::Idle);
    assert_eq!(t.play, Some(ClipChoice { clip: Clip::Idle, looping: true, speed_tenths: 10 }));
}

#[test]
fn finished_jump_reenters_table_same_tick() {
    let s = player_next(ActorState::Jumping, &intent(0, -1000, false, false), true);
    assert_eq!(s.state, ActorState::Running);
    let s = player_next(ActorState::Jumping, &intent(0, -1000, false, false), false);
    assert_eq!(s.state, ActorState::Jumping);
}

#[test]
fn unbound_player_never_finishes() {
    let mut a = Actor { kind: ActorKind::Player, state: ActorState::Punching, animation_target: None };
    let t = player_tick(&mut a, &InputIntent::none(), None);
    assert_eq!(t.step.state, ActorState::Punching);
    assert_eq!(t.play, None);
}

#[test]
fn enemy_close_punches() {
    let s = enemy_decide(ActorState::Idle, PlanarPos { x: 0, z: 0 }, Some(PlanarPos { x: 1000, z: 0 }), false);
    assert_eq!(s, ActorState::Punching);
}

#[test]
fn enemy_scenario_close_tick() {
    let mut e = Actor::spawn(ActorKind::Enemy);
    let st = status_playing(Clip::Idle, false);
    let r = enemy_tick(&mut e, PlanarPos { x: 5000, z: -5000 }, Some(PlanarPos { x: 5000, z: -4000 }), Some(st));
    assert_eq!(r.state, ActorState::Punching);
    assert_eq!(e.state, ActorState::Punching);
    assert!(!r.seek);
    assert_eq!(r.play, Some(ClipChoice { clip: Clip::Punch, looping: false, speed_tenths: 10 }));
}

#[test]
fn enemy_scenario_chase() {
    let mut e = Actor::spawn(ActorKind::Enemy);
    let r = enemy_tick(&mut e, PlanarPos { x: 0, z: 0 }, Some(PlanarPos { x: 6000, z: 8000 }), None);
    assert_eq!(r.state, ActorState::Running);
    assert!(r.seek);
    assert_eq!(r.play, None);
}

#[test]
fn enemy_scenario_far() {
    let mut e = Actor { kind: ActorKind::Enemy, state: ActorState::Running, animation_target: None };
    let r = enemy_tick(&mut e, PlanarPos { x: 0, z: 0 }, Some(PlanarPos { x: 0, z: 20000 }), None);
    assert_eq!(r.state, ActorState::Idle);
    assert!(!r.seek);
}

#[test]
fn enemy_range_boundaries() {
    let o = PlanarPos { x: 0, z: 0 };
    assert_eq!(enemy_decide(ActorState::Idle, o, Some(PlanarPos { x: 1500, z: 0 }), false), ActorState::Running);
    assert_eq!(enemy_decide(ActorState::Idle, o, Some(PlanarPos { x: 1499, z: 0 }), false), ActorState::Punching);
    assert_eq!(enemy_decide(ActorState::Idle, o, Some(PlanarPos { x: 0, z: -15000 }), false), ActorState::Idle);
    assert_eq!(enemy_decide(ActorState::Idle, o, Some(PlanarPos { x: 0, z: -14999 }), false), ActorState::Running);
    let far = PlanarPos { x: i32::MAX, z: i32::MIN };
    let near = PlanarPos { x: i32::MIN, z: i32::MAX };
    assert_eq!(enemy_decide(ActorState::Running, far, Some(near), false), ActorState::Idle);
}

#[test]
fn enemy_unfinished_punch_goes_on() {
    let o = PlanarPos { x: 0, z: 0 };
    let p = Some(PlanarPos { x: 30000, z: 0 });
    assert_eq!(enemy_decide(ActorState::Punching, o, p, false), ActorState::Punching);
    assert_eq!(enemy_decide(ActorState::Punching, o, p, true), ActorState::Idle);
}

#[test]
fn enemy_without_player_does_nothing() {
    let mut e = Actor { kind: ActorKind::Enemy, state: ActorState::Running, animation_target: Some(1) };
    let st = AnimationStatus::stopped();
    let r = enemy_tick(&mut e, PlanarPos { x: 0, z: 0 }, None, Some(st));
    assert_eq!(e.state, ActorState::Running);
    assert!(!r.seek);
    assert_eq!(r.play, None);
}

fn sample_hierarchy() -> Hierarchy {
    // 0: player root, 1: player model, 2: player rig
    // 3: enemy root, 4: enemy rig, 5: second enemy rig, 6: orphan rig
    Hierarchy {
        parent: vec![None, Some(0), Some(1), None, Some(3), Some(3), None],
        actor: vec![Some(0), None, None, Some(1), None, None, None],
    }
}

#[test]
fn owner_is_nearest_actor_ancestor() {
    let h = sample_hierarchy();
    assert_eq!(find_owner(&h, 2), Some(0));
    assert_eq!(find_owner(&h, 4), Some(1));
    assert_eq!(find_owner(&h, 6), None);
    assert_eq!(find_owner(&h, 0), None);
    assert_eq!(find_owner(&h, 99), None);
}

#[test]
fn owner_walk_ends_on_a_cycle() {
    let h = Hierarchy { parent: vec![Some(1), Some(0), Some(0)], actor: vec![None, None, None] };
    assert_eq!(find_owner(&h, 2), None);
}

#[test]
fn binding_is_made_once() {
    let h = sample_hierarchy();
    let mut actors = vec![Actor::spawn(ActorKind::Player), Actor::spawn(ActorKind::Enemy)];
    bind_new_players(&h, &mut actors, &vec![6, 2, 4]);
    assert_eq!(actors[0].animation_target, Some(2));
    assert_eq!(actors[1].animation_target, Some(4));
    bind_new_players(&h, &mut actors, &vec![5]);
    assert_eq!(actors[1].animation_target, Some(4));
    assert_eq!(actors[1].kind, ActorKind::Enemy);
}

#[test]
fn hand_motion_by_state() {
    assert_eq!(hand_motion(ActorState::Idle, HandSide::Left), HandMotion::Breathe);
    assert_eq!(hand_motion(ActorState::Running, HandSide::Left), HandMotion::Bob { opposite_phase: false });
    assert_eq!(hand_motion(ActorState::Running, HandSide::Right), HandMotion::Bob { opposite_phase: true });
    assert_eq!(hand_motion(ActorState::Punching, HandSide::Right), HandMotion::Jab);
    assert_eq!(hand_motion(ActorState::Punching, HandSide::Left), HandMotion::Rest);
    assert_eq!(hand_motion(ActorState::Jumping, HandSide::Right), HandMotion::Rest);
}
