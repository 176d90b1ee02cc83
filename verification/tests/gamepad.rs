use slingshot::constants::{BUTTON_1, BUTTON_2, BUTTON_DOWN, BUTTON_LEFT, BUTTON_RIGHT, BUTTON_UP, MOUSE_LEFT, MOUSE_RIGHT};
use slingshot::game_pad_tracker::GamePadTracker;

#[test]
fn test_gamepad_tracker_newly_pressed() {
    let mut inputs = GamePadTracker::new();
    let gamepad = BUTTON_1 | BUTTON_2;
    inputs.update(gamepad, 0, 0, 0);
    assert!(inputs.newly_pressed(BUTTON_1));
    assert!(inputs.newly_pressed(BUTTON_2));
    assert!(!inputs.newly_pressed(BUTTON_UP));
    assert!(!inputs.newly_pressed(BUTTON_RIGHT));
    assert!(!inputs.newly_pressed(BUTTON_DOWN));
    assert!(!inputs.newly_pressed(BUTTON_LEFT));

    inputs.update(BUTTON_1 | BUTTON_UP, 0, 0, 0);
    assert!(!inputs.newly_pressed(BUTTON_1));
    assert!(!inputs.newly_pressed(BUTTON_2));
    assert!(!inputs.pressed(BUTTON_2));
    assert!(inputs.newly_pressed(BUTTON_UP));
}

#[test]
fn test_gamepad_tracker_newly_released() {
    let mut inputs = GamePadTracker::new();
    inputs.update(0, MOUSE_LEFT | MOUSE_RIGHT, 0, 0);
    inputs.update(0, MOUSE_RIGHT, 0, 0);
    assert!(inputs.newly_released(MOUSE_LEFT));
    assert!(!inputs.newly_released(MOUSE_RIGHT));
}

#[test]
fn gamepad_edge_is_single_tick() {
    let mut inputs = GamePadTracker::new();
    inputs.update(BUTTON_1, 0, 0, 0);
    assert!(inputs.newly_pressed(BUTTON_1));
    inputs.update(BUTTON_1, 0, 0, 0);
    assert!(inputs.pressed(BUTTON_1));
    assert!(!inputs.newly_pressed(BUTTON_1));
    inputs.update(0, MOUSE_LEFT, 5, 7);
    assert!(inputs.newly_clicked(MOUSE_LEFT));
    assert!(inputs.clicked(MOUSE_LEFT));
    assert_eq!(inputs.mouse_x, 5);
    assert_eq!(inputs.mouse_y, 7);
    inputs.update(0, MOUSE_LEFT, 5, 7);
    assert!(!inputs.newly_clicked(MOUSE_LEFT));
}
