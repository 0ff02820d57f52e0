use neon_snake::input::{
    button_to_input, keycode_to_input, GameInput, BUTTON_A, BUTTON_B, BUTTON_DPAD_DOWN,
    BUTTON_DPAD_LEFT, BUTTON_DPAD_RIGHT, BUTTON_DPAD_UP, BUTTON_START, KEY_A, KEY_D, KEY_DOWN,
    KEY_ESCAPE, KEY_LEFT, KEY_RETURN, KEY_RIGHT, KEY_S, KEY_SPACE, KEY_UP, KEY_W,
};

#[test]
fn arrow_keys_steer() {
    assert_eq!(keycode_to_input(KEY_UP), Some(GameInput::Up));
    assert_eq!(keycode_to_input(KEY_DOWN), Some(GameInput::Down));
    assert_eq!(keycode_to_input(KEY_LEFT), Some(GameInput::Left));
    assert_eq!(keycode_to_input(KEY_RIGHT), Some(GameInput::Right));
}

#[test]
fn letter_keys_steer_like_the_arrows() {
    assert_eq!(keycode_to_input(KEY_W), Some(GameInput::Up));
    assert_eq!(keycode_to_input(KEY_S), Some(GameInput::Down));
    assert_eq!(keycode_to_input(KEY_A), Some(GameInput::Left));
    assert_eq!(keycode_to_input(KEY_D), Some(GameInput::Right));
}

#[test]
fn return_and_space_select_and_escape_goes_back() {
    assert_eq!(keycode_to_input(KEY_RETURN), Some(GameInput::Select));
    assert_eq!(keycode_to_input(KEY_SPACE), Some(GameInput::Select));
    assert_eq!(keycode_to_input(KEY_ESCAPE), Some(GameInput::Back));
}

#[test]
fn key_codes_are_those_of_the_keyboard_layer() {
    assert_eq!(keycode_to_input(1_073_741_906), Some(GameInput::Up));
    assert_eq!(keycode_to_input(1_073_741_905), Some(GameInput::Down));
    assert_eq!(keycode_to_input(1_073_741_904), Some(GameInput::Left));
    assert_eq!(keycode_to_input(1_073_741_903), Some(GameInput::Right));
    assert_eq!(keycode_to_input('w' as i32), Some(GameInput::Up));
    assert_eq!(keycode_to_input('a' as i32), Some(GameInput::Left));
    assert_eq!(keycode_to_input('s' as i32), Some(GameInput::Down));
    assert_eq!(keycode_to_input('d' as i32), Some(GameInput::Right));
    assert_eq!(keycode_to_input('\r' as i32), Some(GameInput::Select));
    assert_eq!(keycode_to_input(' ' as i32), Some(GameInput::Select));
    assert_eq!(keycode_to_input(0x1b), Some(GameInput::Back));
}

#[test]
fn other_keys_mean_nothing() {
    assert_eq!(keycode_to_input(0), None);
    assert_eq!(keycode_to_input(-1), None);
    assert_eq!(keycode_to_input('q' as i32), None);
    assert_eq!(keycode_to_input('p' as i32), None);
    assert_eq!(keycode_to_input('W' as i32), None);
    assert_eq!(keycode_to_input(1_073_741_907), None);
    assert_eq!(keycode_to_input(1_073_741_902), None);
    assert_eq!(keycode_to_input(i32::MAX), None);
    assert_eq!(keycode_to_input(i32::MIN), None);
}

#[test]
fn no_key_pauses() {
    for code in 0..512 {
        assert_ne!(keycode_to_input(code), Some(GameInput::Pause));
    }
}

#[test]
fn directional_pad_steers() {
    assert_eq!(button_to_input(BUTTON_DPAD_UP), Some(GameInput::Up));
    assert_eq!(button_to_input(BUTTON_DPAD_DOWN), Some(GameInput::Down));
    assert_eq!(button_to_input(BUTTON_DPAD_LEFT), Some(GameInput::Left));
    assert_eq!(button_to_input(BUTTON_DPAD_RIGHT), Some(GameInput::Right));
}

#[test]
fn face_buttons_select_go_back_and_pause() {
    assert_eq!(button_to_input(BUTTON_A), Some(GameInput::Select));
    assert_eq!(button_to_input(BUTTON_B), Some(GameInput::Back));
    assert_eq!(button_to_input(BUTTON_START), Some(GameInput::Pause));
}

#[test]
fn button_numbers_are_those_of_the_controller_layer() {
    assert_eq!(button_to_input(0), Some(GameInput::Select));
    assert_eq!(button_to_input(1), Some(GameInput::Back));
    assert_eq!(button_to_input(6), Some(GameInput::Pause));
    assert_eq!(button_to_input(11), Some(GameInput::Up));
    assert_eq!(button_to_input(12), Some(GameInput::Down));
    assert_eq!(button_to_input(13), Some(GameInput::Left));
    assert_eq!(button_to_input(14), Some(GameInput::Right));
}

#[test]
fn other_buttons_mean_nothing() {
    for button in [-1, 2, 3, 4, 5, 7, 8, 9, 10, 15, 16, 20, 21, 1000] {
        assert_eq!(button_to_input(button), None);
    }
}
