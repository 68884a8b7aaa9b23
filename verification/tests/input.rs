use wasm_ui::{InputState, Key, Keyboard, Vector2};

const ALL_KEYS: [Key; 10] = [
    Key::Spacebar,
    Key::ArrowUp,
    Key::ArrowDown,
    Key::ArrowLeft,
    Key::ArrowRight,
    Key::W,
    Key::A,
    Key::S,
    Key::D,
    Key::LShift,
];

#[test]
fn key_codes_are_distinct() {
    for (i, a) in ALL_KEYS.iter().enumerate() {
        for (j, b) in ALL_KEYS.iter().enumerate() {
            assert_eq!(a.code() == b.code(), i == j);
        }
    }
    assert_eq!(Key::Spacebar.code(), 0);
    assert_eq!(Key::LShift.code(), 9);
}

#[test]
fn no_key_is_down_at_first() {
    let state: InputState<f32> = InputState::default();
    for key in ALL_KEYS {
        assert!(!state.is_down(key));
    }
    assert_eq!(state.mouse, Vector2::new(0.0, 0.0));
}

#[test]
fn pressed_key_is_down_until_released() {
    let mut state: InputState<f32> = InputState::new(Vector2::new(1.0, 2.0));
    state.on_key_down(Key::W);
    assert!(state.is_down(Key::W));
    state.on_key_down(Key::W);
    assert!(state.is_down(Key::W));
    state.on_key_up(Key::W);
    assert!(!state.is_down(Key::W));
}

#[test]
fn other_keys_are_unchanged() {
    let mut state: InputState<i32> = InputState::new(Vector2::new(0, 0));
    state.on_key_down(Key::A);
    state.on_key_down(Key::ArrowLeft);
    state.on_key_up(Key::A);
    assert!(state.is_down(Key::ArrowLeft));
    for key in ALL_KEYS {
        if key != Key::ArrowLeft {
            assert!(!state.is_down(key));
        }
    }
}

#[test]
fn releasing_a_key_that_is_up_changes_nothing() {
    let mut state: InputState<i32> = InputState::new(Vector2::new(0, 0));
    state.on_key_down(Key::D);
    state.on_key_up(Key::S);
    assert!(state.is_down(Key::D));
    assert!(!state.is_down(Key::S));
}

#[test]
fn mouse_move_records_the_position_and_keeps_keys() {
    let mut state: InputState<f32> = InputState::new(Vector2::new(0.0, 0.0));
    state.on_key_down(Key::Spacebar);
    state.on_mouse_move(120.5, 33.0);
    assert_eq!(state.mouse, Vector2::new(120.5, 33.0));
    assert!(state.is_down(Key::Spacebar));
    state.on_key_up(Key::Spacebar);
    assert_eq!(state.mouse, Vector2::new(120.5, 33.0));
}

#[test]
fn keyboard_records_presses_and_releases() {
    let mut keyboard = Keyboard::default();
    keyboard.press(Key::S);
    keyboard.press(Key::ArrowUp);
    keyboard.release(Key::S);
    assert!(keyboard.is_down(Key::ArrowUp));
    assert!(!keyboard.is_down(Key::S));
    let mut state: InputState<i32> = InputState::new(Vector2::new(3, 4));
    state.on_key_down(Key::W);
    assert!(state.keyboard.is_down(Key::W));
    let position: Vector2<i32> = state.mouse;
    assert_eq!(position, Vector2::new(3, 4));
}
