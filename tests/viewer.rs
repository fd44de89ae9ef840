use gltf_viewer::angle::{clamp_tilt, wrap_rot, FULL_TURN, HALF_TURN, UNITS_PER_RADIAN};
use gltf_viewer::asset::{filename_from_args, require_existing, Filename, StartupError};
use gltf_viewer::input::{
    mouse_button_events, mouse_motion, touch_events, ButtonState, InteractionObject, MouseButton,
    MouseButtonInput, MouseMotion, Point, TouchInput, TouchPhase,
};
use gltf_viewer::orientation::{rotate_block, HeldKeys, ViewerObject};

const ONE_SECOND: u32 = 1_000_000;

fn px(x: i32, y: i32) -> Point {
    Point { x: x * 1000, y: y * 1000 }
}

fn touch(phase: TouchPhase, x: i32, y: i32) -> TouchInput {
    TouchInput { phase, position: px(x, y) }
}

fn button(button: MouseButton, state: ButtonState) -> MouseButtonInput {
    MouseButtonInput { button, state }
}

fn dragging() -> InteractionObject {
    let mut interact = InteractionObject::new();
    mouse_button_events(&vec![button(MouseButton::Left, ButtonState::Pressed)], &mut interact);
    interact
}

#[test]
fn wrap_ten_pi_moves_back_one_turn_only() {
    assert_eq!(wrap_rot(5 * FULL_TURN), 4 * FULL_TURN);
    assert!(wrap_rot(5 * FULL_TURN) > FULL_TURN);
}

#[test]
fn wrap_brings_one_turn_of_overshoot_into_range() {
    for r in [-FULL_TURN, -1, 0, 1, FULL_TURN, FULL_TURN + 1, 2 * FULL_TURN] {
        let w = wrap_rot(r);
        assert!(0 <= w && w <= FULL_TURN, "{} wrapped to {}", r, w);
    }
    assert_eq!(wrap_rot(-1), FULL_TURN - 1);
    assert_eq!(wrap_rot(FULL_TURN + 7), 7);
    assert_eq!(wrap_rot(FULL_TURN), FULL_TURN);
}

#[test]
fn clamp_stops_exactly_at_half_turn() {
    assert_eq!(clamp_tilt(HALF_TURN), HALF_TURN);
    assert_eq!(clamp_tilt(HALF_TURN + 1), HALF_TURN);
    assert_eq!(clamp_tilt(i64::MAX), HALF_TURN);
    assert_eq!(clamp_tilt(-HALF_TURN), -HALF_TURN);
    assert_eq!(clamp_tilt(-HALF_TURN - 1), -HALF_TURN);
    assert_eq!(clamp_tilt(i64::MIN), -HALF_TURN);
    assert_eq!(clamp_tilt(12345), 12345);
}

#[test]
fn drain_leaves_zero_and_second_drain_is_empty() {
    let mut interact = dragging();
    mouse_motion(&vec![MouseMotion { delta: px(3, -4) }], &mut interact);
    assert_eq!(interact.take_motion(), (30_000_000, -40_000_000));
    assert_eq!((interact.movement_x, interact.movement_y), (0, 0));
    assert_eq!(interact.take_motion(), (0, 0));
    assert!(interact.mousedown);
}

#[test]
fn second_object_in_a_frame_gets_no_pointer_motion() {
    let mut interact = dragging();
    mouse_motion(&vec![MouseMotion { delta: px(5, 2) }], &mut interact);
    let mut objects = vec![ViewerObject::new(), ViewerObject::new()];
    rotate_block(0, &HeldKeys::none(), &mut objects, &mut interact);
    assert_eq!(objects[0], ViewerObject { rot: 50_000_000, tilt: 20_000_000 });
    assert_eq!(objects[1], ViewerObject { rot: 0, tilt: 0 });
    assert_eq!((interact.movement_x, interact.movement_y), (0, 0));
}

#[test]
fn idle_frame_changes_nothing() {
    let mut interact = InteractionObject::new();
    let mut objects = vec![ViewerObject { rot: 1_000, tilt: -2_000 }];
    rotate_block(ONE_SECOND, &HeldKeys::none(), &mut objects, &mut interact);
    assert_eq!(objects[0], ViewerObject { rot: 1_000, tilt: -2_000 });
}

#[test]
fn no_objects_leaves_motion_pending() {
    let mut interact = dragging();
    mouse_motion(&vec![MouseMotion { delta: px(1, 1) }], &mut interact);
    let mut objects: Vec<ViewerObject> = Vec::new();
    rotate_block(ONE_SECOND, &HeldKeys::none(), &mut objects, &mut interact);
    assert_eq!((interact.movement_x, interact.movement_y), (10_000_000, 10_000_000));
}

#[test]
fn key_combination_is_additive() {
    let mut interact = InteractionObject::new();
    let mut objects = vec![ViewerObject::new()];
    let keys = HeldKeys { w: false, a: false, s: true, d: true };
    rotate_block(ONE_SECOND, &keys, &mut objects, &mut interact);
    assert_eq!(objects[0].rot, UNITS_PER_RADIAN / 2);
    assert_eq!(objects[0].tilt, UNITS_PER_RADIAN / 2);
}

#[test]
fn opposing_keys_cancel_and_a_w_turn_back() {
    let mut interact = InteractionObject::new();
    let mut objects = vec![ViewerObject { rot: UNITS_PER_RADIAN, tilt: 0 }];
    let all = HeldKeys { w: true, a: true, s: true, d: true };
    rotate_block(ONE_SECOND, &all, &mut objects, &mut interact);
    assert_eq!(objects[0], ViewerObject { rot: UNITS_PER_RADIAN, tilt: 0 });
    let back = HeldKeys { w: true, a: true, s: false, d: false };
    rotate_block(ONE_SECOND, &back, &mut objects, &mut interact);
    assert_eq!(objects[0], ViewerObject { rot: UNITS_PER_RADIAN / 2, tilt: -UNITS_PER_RADIAN / 2 });
}

#[test]
fn negative_rotation_wraps_and_tilt_clamps_in_a_frame() {
    let mut interact = InteractionObject::new();
    let mut objects = vec![ViewerObject { rot: 0, tilt: HALF_TURN }];
    let keys = HeldKeys { w: false, a: true, s: true, d: false };
    rotate_block(ONE_SECOND, &keys, &mut objects, &mut interact);
    assert_eq!(objects[0].rot, FULL_TURN - UNITS_PER_RADIAN / 2);
    assert_eq!(objects[0].tilt, HALF_TURN);
}

#[test]
fn touch_delta_computation() {
    let mut interact = InteractionObject::new();
    touch_events(&vec![touch(TouchPhase::Started, 100, 100), touch(TouchPhase::Moved, 110, 120)], &mut interact);
    assert_eq!(interact.movement_x, UNITS_PER_RADIAN / 10);
    assert_eq!(interact.movement_y, UNITS_PER_RADIAN / 5);
    assert_eq!(interact.prev_touch, px(110, 120));
    assert!(interact.mousedown);
}

#[test]
fn touch_move_without_start_is_ignored() {
    let mut interact = InteractionObject::new();
    touch_events(&vec![touch(TouchPhase::Moved, 110, 120)], &mut interact);
    assert_eq!(interact, InteractionObject::new());
}

#[test]
fn touch_end_resets_position_but_cancel_keeps_it() {
    let mut interact = InteractionObject::new();
    touch_events(&vec![touch(TouchPhase::Started, 7, 8), touch(TouchPhase::Ended, 9, 9)], &mut interact);
    assert!(!interact.mousedown);
    assert_eq!(interact.prev_touch, Point::origin());

    touch_events(&vec![touch(TouchPhase::Started, 7, 8), touch(TouchPhase::Cancelled, 9, 9)], &mut interact);
    assert!(!interact.mousedown);
    assert_eq!(interact.prev_touch, px(7, 8));
}

#[test]
fn motion_overwrites_rather_than_accumulates() {
    let mut interact = dragging();
    mouse_motion(&vec![MouseMotion { delta: px(5, 5) }, MouseMotion { delta: px(-2, 1) }], &mut interact);
    assert_eq!((interact.movement_x, interact.movement_y), (-20_000_000, 10_000_000));
}

#[test]
fn motion_without_drag_is_ignored() {
    let mut interact = InteractionObject::new();
    mouse_motion(&vec![MouseMotion { delta: px(5, 5) }], &mut interact);
    assert_eq!((interact.movement_x, interact.movement_y), (0, 0));
}

#[test]
fn only_left_button_drags() {
    let mut interact = InteractionObject::new();
    mouse_button_events(
        &vec![button(MouseButton::Right, ButtonState::Pressed), button(MouseButton::Other(4), ButtonState::Pressed)],
        &mut interact,
    );
    assert!(!interact.mousedown);
    mouse_button_events(&vec![button(MouseButton::Left, ButtonState::Pressed)], &mut interact);
    assert!(interact.mousedown);
    mouse_button_events(&vec![button(MouseButton::Middle, ButtonState::Released)], &mut interact);
    assert!(interact.mousedown);
    mouse_button_events(&vec![button(MouseButton::Left, ButtonState::Released)], &mut interact);
    assert!(!interact.mousedown);
}

#[test]
fn full_frame() {
    let mut interact = InteractionObject::new();
    let mut objects = vec![ViewerObject::new()];
    mouse_button_events(&vec![button(MouseButton::Left, ButtonState::Pressed)], &mut interact);
    mouse_motion(&vec![MouseMotion { delta: px(5, 0) }], &mut interact);
    let keys = HeldKeys { w: false, a: false, s: false, d: true };
    rotate_block(ONE_SECOND / 10, &keys, &mut objects, &mut interact);
    assert_eq!(objects[0].rot, UNITS_PER_RADIAN / 10);
    assert_eq!(objects[0].tilt, 0);
}

#[test]
fn asset_and_scene_paths() {
    let name = Filename("duck.gltf".to_string());
    assert_eq!(name.asset_path(), "assets/gltf/duck.gltf");
    assert_eq!(name.scene_path(), "gltf/duck.gltf#Scene0");
}

#[test]
fn filename_is_the_first_argument() {
    let args = vec!["viewer".to_string(), "duck.gltf".to_string(), "extra".to_string()];
    match filename_from_args(&args) {
        Ok(f) => assert_eq!(f.0, "duck.gltf"),
        Err(e) => panic!("unexpected {:?}", e),
    }
}

#[test]
fn missing_filename_is_an_error() {
    let args = vec!["viewer".to_string()];
    let e = filename_from_args(&args).err().unwrap();
    assert_eq!(e, StartupError::MissingFilename);
    assert_eq!(e.message(), "Please pass in a filename to input");
}

#[test]
fn absent_file_is_an_error() {
    let e = require_existing(Filename("x".to_string()), false).err().unwrap();
    assert_eq!(e, StartupError::FileNotFound);
    assert_eq!(e.message(), "File does not exist");
    let f = require_existing(Filename("x".to_string()), true).ok().unwrap();
    assert_eq!(f.0, "x");
}
