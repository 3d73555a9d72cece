use open_steam_controller::input::ControllerInput;
use open_steam_controller::virtual_output::{
    digital_action, hat_position, is_analog, xbutton, map_digital_controller_input, map_digital_keyboard_input,
    map_digital_mouse_input, update_digital_buttons, ControllerKey, DPadDirection, DigitalAction,
    GamePadButton, HatAxis, KeyboardKey, MouseButton, XBUTTON_A, XBUTTON_GUIDE, XBUTTON_Y,
};

#[test]
fn controller_keys() {
    assert_eq!(
        map_digital_controller_input(ControllerInput::LeftBumper(true)),
        Some((ControllerKey::GamePad(GamePadButton::TL), true))
    );
    assert_eq!(
        map_digital_controller_input(ControllerInput::Home(false)),
        Some((ControllerKey::GamePad(GamePadButton::Mode), false))
    );
    assert_eq!(
        map_digital_controller_input(ControllerInput::Up(true)),
        Some((ControllerKey::DPad(DPadDirection::Up), true))
    );
    assert_eq!(map_digital_controller_input(ControllerInput::LeftMouse(true)), None);
    assert_eq!(map_digital_controller_input(ControllerInput::Ignore), None);
}

#[test]
fn mouse_and_keyboard_keys() {
    assert_eq!(
        map_digital_mouse_input(ControllerInput::MiddleMouse(true)),
        Some((ControllerKey::Mouse(MouseButton::Middle), true))
    );
    assert_eq!(map_digital_mouse_input(ControllerInput::A(true)), None);
    assert_eq!(map_digital_keyboard_input(ControllerInput::EscKey(false)), Some((KeyboardKey::Esc, false)));
    assert_eq!(map_digital_keyboard_input(ControllerInput::MetaKey(true)), Some((KeyboardKey::LeftMeta, true)));
    assert_eq!(map_digital_keyboard_input(ControllerInput::Up(true)), None);
}

#[test]
fn digital_actions() {
    assert_eq!(
        digital_action(ControllerInput::B(true)),
        DigitalAction::Controller(ControllerKey::GamePad(GamePadButton::B), true)
    );
    assert_eq!(
        digital_action(ControllerInput::RightMouse(false)),
        DigitalAction::Mouse(ControllerKey::Mouse(MouseButton::Right), false)
    );
    assert_eq!(digital_action(ControllerInput::EnterKey(true)), DigitalAction::Keyboard(KeyboardKey::Enter, true));
    assert_eq!(digital_action(ControllerInput::Ignore), DigitalAction::Ignore);
    assert_eq!(digital_action(ControllerInput::Z(true)), DigitalAction::Controller(ControllerKey::GamePad(GamePadButton::Z), true));
}

#[test]
fn hat_positions() {
    assert_eq!(hat_position(ControllerInput::Left(true)), Some((HatAxis::X0, -1)));
    assert_eq!(hat_position(ControllerInput::Right(true)), Some((HatAxis::X0, 1)));
    assert_eq!(hat_position(ControllerInput::Up(true)), Some((HatAxis::Y0, -1)));
    assert_eq!(hat_position(ControllerInput::Down(false)), Some((HatAxis::Y0, 0)));
    assert_eq!(hat_position(ControllerInput::A(true)), None);
}

#[test]
fn xbox_button_word() {
    let w = update_digital_buttons(0, ControllerInput::A(true));
    assert_eq!(w, XBUTTON_A);
    let w = update_digital_buttons(w, ControllerInput::North(true));
    assert_eq!(w, XBUTTON_A | XBUTTON_Y);
    let w = update_digital_buttons(w, ControllerInput::South(false));
    assert_eq!(w, XBUTTON_Y);
    assert_eq!(update_digital_buttons(w, ControllerInput::Menu(true)), XBUTTON_Y | XBUTTON_GUIDE);
    // inputs without a flag leave the word unchanged
    assert_eq!(update_digital_buttons(w, ControllerInput::Z(true)), w);
    assert_eq!(update_digital_buttons(w, ControllerInput::RightJoyStick(3, 4)), w);
    // press then release clears the flag and keeps the others
    let pressed = update_digital_buttons(0x00ff, ControllerInput::RightBumper(true));
    assert_eq!(update_digital_buttons(pressed, ControllerInput::RightBumper(false)), 0x00ff);
}

#[test]
fn analog_inputs() {
    assert!(is_analog(ControllerInput::LeftTrigger(5)));
    assert!(is_analog(ControllerInput::LeftJoyStick(1, 2)));
    assert!(is_analog(ControllerInput::Mouse(0, 0)));
    assert!(!is_analog(ControllerInput::A(true)));
    assert!(!is_analog(ControllerInput::Ignore));
    assert_eq!(xbutton(ControllerInput::Start(true)), Some((0x0010, true)));
    assert_eq!(xbutton(ControllerInput::Z(true)), None);
}
