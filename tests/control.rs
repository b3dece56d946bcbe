use fps_control::capture::{capture_step, cursor_for, CursorRequest, GrabMode, INITIAL_CAPTURED};
use fps_control::frame::ControlState;
use fps_control::locomotion::{
    horizontal, isqrt, locomotion_step, normalize_or_zero, raw_direction, rotate, scale, Heading,
    HeldKeys, JumpAction, LocomotionConfig, Vec3, MAX_SPEED, UNIT,
};
use fps_control::look::{
    LookConfig, LookState, PointerMotion, DEMO_SENSITIVITY_URAD, HALF_PI_URAD,
    MAX_SENSITIVITY_URAD, TAU_URAD,
};

fn keys(forward: bool, backward: bool, left: bool, right: bool, jump: bool) -> HeldKeys {
    HeldKeys { forward, backward, left, right, jump }
}

fn v(x: i64, y: i64, z: i64) -> Vec3 {
    Vec3 { x, y, z }
}

fn motion(dx: i32, dy: i32) -> PointerMotion {
    PointerMotion { dx, dy }
}

fn frame_motions(state: &mut LookState, events: &[PointerMotion]) {
    let events: Vec<PointerMotion> = events.to_vec();
    state.apply_frame(&events, true, &LookConfig::demo());
}

#[test]
fn toggle_twice_restores_mode_and_cursor() {
    for start in [true, false] {
        let first = capture_step(start, true);
        assert_eq!(first.captured, !start);
        assert_eq!(first.cursor, Some(cursor_for(!start)));
        let second = capture_step(first.captured, true);
        assert_eq!(second.captured, start);
        assert_eq!(second.cursor, Some(cursor_for(start)));
    }
}

#[test]
fn no_toggle_press_changes_nothing() {
    let step = capture_step(true, false);
    assert!(step.captured);
    assert_eq!(step.cursor, None);
    let step = capture_step(false, false);
    assert!(!step.captured);
    assert_eq!(step.cursor, None);
}

#[test]
fn cursor_settings_follow_capture_mode() {
    assert!(INITIAL_CAPTURED);
    assert_eq!(
        cursor_for(true),
        CursorRequest { grab_mode: GrabMode::Confined, visible: false }
    );
    assert_eq!(
        cursor_for(false),
        CursorRequest { grab_mode: GrabMode::Released, visible: true }
    );
}

#[test]
fn horizontal_motion_turns_yaw_by_half_radian() {
    let mut s = LookState::new();
    frame_motions(&mut s, &[motion(100, 0)]);
    // -0.5 rad, taken modulo a full turn
    assert_eq!(s.yaw, TAU_URAD - 500_000);
    assert_eq!(s.pitch, 0);
    frame_motions(&mut s, &[motion(-100, 0)]);
    assert_eq!(s.yaw, 0);
    let radians = (s.yaw as f64) / 1e6;
    assert!(radians.abs() < 1e-9);
}

#[test]
fn pitch_clamps_at_minus_half_pi() {
    let mut s = LookState::new();
    frame_motions(&mut s, &[motion(0, 100), motion(0, 100), motion(0, 100), motion(0, 100)]);
    assert_eq!(s.pitch, -HALF_PI_URAD);
    assert!(((s.pitch as f64) / 1e6 + 1.5708).abs() < 1e-4);
    assert_eq!(s.yaw, 0);
}

#[test]
fn pitch_clamps_at_plus_half_pi_and_steps_back() {
    let mut s = LookState::new();
    frame_motions(&mut s, &[motion(0, -400)]);
    assert_eq!(s.pitch, HALF_PI_URAD);
    // the clamp applies per event, so the step back starts from the bound
    frame_motions(&mut s, &[motion(0, 100)]);
    assert_eq!(s.pitch, HALF_PI_URAD - 500_000);
}

#[test]
fn pitch_stays_bounded_for_extreme_motion() {
    let mut s = LookState::new();
    let mut events = Vec::new();
    for i in 0..50 {
        events.push(if i % 3 == 0 { motion(i32::MAX, i32::MIN) } else { motion(i32::MIN, i32::MAX) });
    }
    let config = LookConfig::new(MAX_SENSITIVITY_URAD).unwrap();
    for e in events {
        s.apply_motion(e, &config);
        assert!(-HALF_PI_URAD <= s.pitch && s.pitch <= HALF_PI_URAD);
        assert!(0 <= s.yaw && s.yaw < TAU_URAD);
    }
}

#[test]
fn yaw_and_pitch_depend_on_their_own_axis() {
    let mut a = LookState::new();
    let mut b = LookState::new();
    frame_motions(&mut a, &[motion(30, 5), motion(-7, 200)]);
    frame_motions(&mut b, &[motion(30, -90), motion(-7, 1)]);
    assert_eq!(a.yaw, b.yaw);
    assert_ne!(a.pitch, b.pitch);

    let mut c = LookState::new();
    let mut d = LookState::new();
    frame_motions(&mut c, &[motion(12, 40), motion(-300, -10)]);
    frame_motions(&mut d, &[motion(-5, 40), motion(999, -10)]);
    assert_eq!(c.pitch, d.pitch);
    assert_ne!(c.yaw, d.yaw);
}

#[test]
fn no_motion_events_change_nothing() {
    let mut s = LookState::new();
    frame_motions(&mut s, &[motion(10, 10)]);
    let before = s;
    frame_motions(&mut s, &[]);
    assert_eq!(s, before);
}

#[test]
fn released_pointer_ignores_motion() {
    let mut s = LookState::new();
    let events = vec![motion(100, 100)];
    s.apply_frame(&events, false, &LookConfig::demo());
    assert_eq!(s, LookState::new());
}

#[test]
fn look_config_rejects_out_of_range_sensitivity() {
    assert_eq!(LookConfig::new(-1), None);
    assert_eq!(LookConfig::new(MAX_SENSITIVITY_URAD + 1), None);
    assert_eq!(LookConfig::new(5_000), Some(LookConfig { sensitivity: DEMO_SENSITIVITY_URAD }));
}

#[test]
fn toggle_in_frame_gates_that_frame_motion() {
    let config = LookConfig::demo();
    let mut state = ControlState::new();
    assert!(state.captured);
    let events = vec![motion(100, 0)];
    let cursor = state.update_view(false, &events, &config);
    assert_eq!(cursor, None);
    assert_eq!(state.look.yaw, TAU_URAD - 500_000);

    let cursor = state.update_view(true, &events, &config);
    assert_eq!(cursor, Some(CursorRequest { grab_mode: GrabMode::Released, visible: true }));
    assert!(!state.captured);
    assert_eq!(state.look.yaw, TAU_URAD - 500_000);

    let cursor = state.update_view(true, &events, &config);
    assert_eq!(cursor, Some(CursorRequest { grab_mode: GrabMode::Confined, visible: false }));
    assert!(state.captured);
    assert_eq!(state.look.yaw, TAU_URAD - 1_000_000);
}

#[test]
fn opposite_keys_cancel() {
    assert_eq!(raw_direction(&keys(true, true, false, false, false)).z, 0);
    assert_eq!(raw_direction(&keys(false, false, true, true, false)).x, 0);
    assert_eq!(raw_direction(&keys(true, true, true, false, false)), v(-UNIT, 0, 0));
    assert_eq!(raw_direction(&keys(true, true, true, true, false)), v(0, 0, 0));
    let cmd = locomotion_step(
        &keys(true, true, true, true, false),
        &Heading::straight(),
        &LocomotionConfig::demo(),
    );
    assert_eq!(cmd.walk.desired_velocity, v(0, 0, 0));
}

#[test]
fn forward_at_zero_yaw_walks_at_full_speed() {
    let k = keys(true, false, false, false, false);
    let raw = raw_direction(&k);
    assert_eq!(raw, v(0, 0, -UNIT));
    let world = horizontal(&rotate(&raw, &Heading::straight()));
    assert_eq!(world, v(0, 0, -UNIT));
    assert_eq!(normalize_or_zero(&world), v(0, 0, -UNIT));
    let cmd = locomotion_step(&k, &Heading::straight(), &LocomotionConfig::demo());
    assert_eq!(cmd.walk.desired_velocity, v(0, 0, -10 * UNIT));
    assert_eq!(cmd.walk.float_height, 1_500_000);
    assert_eq!(cmd.jump, None);
}

#[test]
fn forward_right_is_normalized_diagonal() {
    let k = keys(true, false, false, true, false);
    let raw = raw_direction(&k);
    assert_eq!(raw, v(UNIT, 0, -UNIT));
    let n = normalize_or_zero(&raw);
    assert_eq!(n, v(707_107, 0, -707_107));
    assert!(((n.x as f64) / 1e6 - 0.707).abs() < 1e-3);
    let cmd = locomotion_step(&k, &Heading::straight(), &LocomotionConfig::demo());
    assert_eq!(cmd.walk.desired_velocity, v(7_071_070, 0, -7_071_070));
    assert!(((cmd.walk.desired_velocity.x as f64) / 1e6 - 7.07).abs() < 1e-2);
}

#[test]
fn normalizing_zero_gives_zero() {
    assert_eq!(normalize_or_zero(&v(0, 0, 0)), v(0, 0, 0));
    let cmd = locomotion_step(
        &keys(false, false, false, false, false),
        &Heading::straight(),
        &LocomotionConfig::demo(),
    );
    assert_eq!(cmd.walk.desired_velocity, v(0, 0, 0));
}

#[test]
fn normalize_rounds_toward_zero() {
    assert_eq!(normalize_or_zero(&v(-UNIT, 0, -UNIT)), v(-707_107, 0, -707_107));
    assert_eq!(normalize_or_zero(&v(0, 3 * UNIT, 4 * UNIT)), v(0, 600_000, 800_000));
    assert_eq!(normalize_or_zero(&v(0, 0, 5)), v(0, 0, UNIT));
}

#[test]
fn quarter_turn_sends_forward_to_minus_x() {
    let quarter = Heading { sin: UNIT, cos: 0 };
    let forward = v(0, 0, -UNIT);
    assert_eq!(rotate(&forward, &quarter), v(-UNIT, 0, 0));
    let cmd = locomotion_step(
        &keys(true, false, false, false, false),
        &quarter,
        &LocomotionConfig::demo(),
    );
    assert_eq!(cmd.walk.desired_velocity, v(-10 * UNIT, 0, 0));
}

#[test]
fn vertical_component_is_dropped() {
    assert_eq!(horizontal(&v(3, 9, -4)), v(3, 0, -4));
}

#[test]
fn scale_multiplies_by_speed() {
    assert_eq!(scale(&v(-UNIT, 0, UNIT / 2), 10 * UNIT), v(-10 * UNIT, 0, 5 * UNIT));
    assert_eq!(scale(&v(1, 0, -1), UNIT / 2), v(0, 0, 0));
}

#[test]
fn jump_is_requested_while_held() {
    let cmd = locomotion_step(
        &keys(false, false, false, false, true),
        &Heading::straight(),
        &LocomotionConfig::demo(),
    );
    assert_eq!(cmd.jump, Some(JumpAction { height: 4 * UNIT, shorten_extra_gravity: 0 }));
    assert_eq!(cmd.walk.desired_velocity, v(0, 0, 0));
    assert_eq!(cmd.walk.float_height, 1_500_000);
}

#[test]
fn locomotion_config_rejects_bad_speed() {
    assert_eq!(LocomotionConfig::new(-1, 0, 0, 0), None);
    assert_eq!(LocomotionConfig::new(MAX_SPEED + 1, 0, 0, 0), None);
    let c = LocomotionConfig::new(10 * UNIT, 1_500_000, 4 * UNIT, 0).unwrap();
    assert_eq!(c, LocomotionConfig::demo());
}

#[test]
fn integer_square_root() {
    assert_eq!(isqrt(0), 0);
    assert_eq!(isqrt(15), 3);
    assert_eq!(isqrt(16), 4);
    assert_eq!(isqrt(2_000_000_000_000), 1_414_213);
    assert_eq!(isqrt(4_000_000_000_000_000_000), 2_000_000_000);
}
