use minerust::input::{InputEvent, InputState, Key, MouseButton};
use minerust::orientation::{Orientation, HALF_TURN, PITCH_LIMIT};

#[test]
fn add_yaw_wraps_past_half_turn() {
    let mut view = Orientation::default();
    assert_eq!(view.yaw(), 90_000);
    view.add_yaw(200_000);
    assert_eq!(view.yaw(), -70_000);
}

#[test]
fn add_yaw_keeps_half_turn_and_wraps_minus_half_turn() {
    let mut view = Orientation::new(0, 0);
    view.add_yaw(180_000);
    assert_eq!(view.yaw(), 180_000);
    let mut view = Orientation::new(0, 0);
    view.add_yaw(-180_000);
    assert_eq!(view.yaw(), 180_000);
    view.add_yaw(1);
    assert_eq!(view.yaw(), -179_999);
}

#[test]
fn add_yaw_full_turns_return_to_same_angle() {
    let mut view = Orientation::new(12_345, 0);
    for _ in 0..10 {
        view.add_yaw(360_000);
        assert_eq!(view.yaw(), 12_345);
    }
    view.add_yaw(-3_600_000);
    assert_eq!(view.yaw(), 12_345);
}

#[test]
fn add_yaw_extreme_deltas_stay_in_range() {
    for delta in [i32::MAX, i32::MIN, 1_000_000_007, -999_999_999] {
        let mut view = Orientation::new(HALF_TURN, 0);
        view.add_yaw(delta);
        let yaw = view.yaw();
        assert!(-HALF_TURN < yaw && yaw <= HALF_TURN);
        assert_eq!((yaw as i64 - (HALF_TURN as i64 + delta as i64)).rem_euclid(360_000), 0);
    }
}

#[test]
fn add_pitch_clamps() {
    let mut view = Orientation::default();
    view.add_pitch(50_000);
    assert_eq!(view.pitch(), 50_000);
    view.add_pitch(50_000);
    assert_eq!(view.pitch(), PITCH_LIMIT);
    view.add_pitch(i32::MIN);
    assert_eq!(view.pitch(), -PITCH_LIMIT);
    view.add_pitch(i32::MAX);
    assert_eq!(view.pitch(), PITCH_LIMIT);
    assert_eq!(view.yaw(), 90_000);
}

#[test]
fn new_orientation_wraps_and_clamps() {
    let view = Orientation::new(-270_000, 100_000);
    assert_eq!(view.yaw(), 90_000);
    assert_eq!(view.pitch(), 89_000);
}

#[test]
fn mouse_motion_turns_view() {
    let mut input = InputState::new();
    let mut view = Orientation::default();
    let turned = input.handle_input(&mut view, InputEvent::MouseMotion { xrel: 10, yrel: 5 });
    assert!(turned);
    assert_eq!(view.yaw(), 92_000);
    assert_eq!(view.pitch(), -1_000);
    assert_eq!(input, InputState::default());
}

#[test]
fn keys_hold_and_release() {
    let mut input = InputState::new();
    let mut view = Orientation::default();
    assert!(!input.handle_input(&mut view, InputEvent::KeyDown(Key::W)));
    assert!(input.forward);
    assert_eq!(input.move_intent(), (1, 0));
    input.handle_input(&mut view, InputEvent::KeyDown(Key::S));
    assert_eq!(input.move_intent(), (0, 0));
    input.handle_input(&mut view, InputEvent::KeyUp(Key::W));
    assert_eq!(input.move_intent(), (-1, 0));
    input.handle_input(&mut view, InputEvent::KeyDown(Key::A));
    assert_eq!(input.move_intent(), (-1, -1));
    input.handle_input(&mut view, InputEvent::KeyDown(Key::D));
    assert_eq!(input.move_intent(), (-1, 0));
    input.handle_input(&mut view, InputEvent::KeyUp(Key::A));
    assert_eq!(input.move_intent(), (-1, 1));
    assert_eq!(view, Orientation::default());
}

#[test]
fn toggles_flip() {
    let mut input = InputState::default();
    let mut view = Orientation::default();
    input.handle_input(&mut view, InputEvent::KeyDown(Key::Space));
    assert!(input.space_toggle);
    input.handle_input(&mut view, InputEvent::KeyUp(Key::Space));
    assert!(input.space_toggle);
    input.handle_input(&mut view, InputEvent::KeyDown(Key::Space));
    assert!(!input.space_toggle);
    input.handle_input(&mut view, InputEvent::MouseButtonDown(MouseButton::Left));
    assert!(input.is_mouse_grabbed());
    input.handle_input(&mut view, InputEvent::MouseButtonDown(MouseButton::Other));
    assert!(input.is_mouse_grabbed());
    input.handle_input(&mut view, InputEvent::MouseButtonDown(MouseButton::Left));
    assert!(!input.is_mouse_grabbed());
}

#[test]
fn other_events_change_nothing() {
    let mut input = InputState::new();
    let mut view = Orientation::default();
    assert!(!input.handle_input(&mut view, InputEvent::Other));
    assert!(!input.handle_input(&mut view, InputEvent::KeyDown(Key::Other)));
    assert_eq!(input, InputState::new());
    assert_eq!(input.move_intent(), (0, 0));
}
