use voxel_game::inputs::{InputActions, InputEvent, Inputs, Keys, MouseButton, KEYS_COUNT};

fn key_event(key: Keys, released: bool) -> InputEvent {
    InputEvent::Key { code: key.code(), released, unknown: false }
}

#[test]
fn key_codes_follow_the_window_system() {
    assert_eq!(Keys::Space.code(), 32);
    assert_eq!(Keys::A.code(), 65);
    assert_eq!(Keys::Escape.code(), 256);
    assert_eq!(Keys::F3.code(), 292);
    assert_eq!(Keys::Menu.code(), 348);
    assert_eq!(Keys::LAST_KEY.code(), KEYS_COUNT);
    assert_eq!(MouseButton::Left.code(), 0);
    assert_eq!(MouseButton::Right.code(), 1);
}

#[test]
fn a_key_press_lasts_one_frame() {
    let mut inputs = Inputs::new();
    assert!(!inputs.key_down(Keys::W));
    inputs.new_frame();
    inputs.roll_event(&key_event(Keys::W, false));
    assert!(inputs.key_down(Keys::W));
    assert!(inputs.key_pressed(Keys::W));
    assert!(!inputs.key_release(Keys::W));
    inputs.new_frame();
    assert!(inputs.key_down(Keys::W));
    assert!(!inputs.key_pressed(Keys::W));
    inputs.roll_event(&key_event(Keys::W, true));
    assert!(inputs.key_release(Keys::W));
    assert!(!inputs.key_down(Keys::W));
    inputs.new_frame();
    assert!(!inputs.key_release(Keys::W));
}

#[test]
fn an_unnamed_key_is_stored_as_up() {
    let mut inputs = Inputs::new();
    inputs.roll_event(&InputEvent::Key { code: Keys::Q.code(), released: false, unknown: true });
    assert!(!inputs.key_down(Keys::Q));
}

#[test]
fn mouse_action_over_four_frames() {
    let mut inputs = Inputs::new();
    inputs.new_frame();
    inputs.roll_event(&InputEvent::MouseButton { code: 0, released: false });
    assert!(inputs.get_mouse_action(MouseButton::Left) == InputActions::Pressed);
    assert!(inputs.get_mouse_action(MouseButton::Right) == InputActions::Noting);
    inputs.new_frame();
    assert!(inputs.get_mouse_action(MouseButton::Left) == InputActions::Repeat);
    inputs.new_frame();
    inputs.roll_event(&InputEvent::MouseButton { code: 0, released: true });
    assert!(inputs.get_mouse_action(MouseButton::Left) == InputActions::Release);
    assert!(inputs.mouse_release(MouseButton::Left));
    inputs.new_frame();
    assert!(inputs.get_mouse_action(MouseButton::Left) == InputActions::Noting);
}

#[test]
fn scroll_is_kept_for_one_frame() {
    let mut inputs = Inputs::new();
    inputs.roll_event(&InputEvent::Scroll { delta: -2 });
    assert_eq!(inputs.get_mouse_scroll(), -2);
    inputs.roll_event(&InputEvent::Other);
    assert_eq!(inputs.get_mouse_scroll(), -2);
    inputs.new_frame();
    assert_eq!(inputs.get_mouse_scroll(), 0);
}

#[test]
fn an_event_on_one_key_leaves_the_others() {
    let mut inputs = Inputs::new();
    inputs.roll_event(&key_event(Keys::A, false));
    inputs.roll_event(&key_event(Keys::D, false));
    inputs.roll_event(&key_event(Keys::A, true));
    assert!(!inputs.key_down(Keys::A));
    assert!(inputs.key_down(Keys::D));
    assert!(inputs.mouse_down(MouseButton::Right) == false);
}
