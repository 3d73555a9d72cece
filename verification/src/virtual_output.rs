//! How controller inputs are mapped onto the virtual devices of the operating system:
//! gamepad, mouse and keyboard keys on Linux, the Xbox 360 button word on Windows.

use vstd::prelude::*;
use crate::input::ControllerInput;

verus! {

/// Buttons of a Linux gamepad.
#[derive(Debug, Clone, Copy, PartialEq, Eq, Structural)]
pub enum GamePadButton {
    South,
    A,
    East,
    B,
    C,
    North,
    X,
    West,
    Y,
    Z,
    TL,
    TR,
    Select,
    Start,
    Mode,
    ThumbL,
    ThumbR,
}

/// Directions of a Linux d-pad.
#[derive(Debug, Clone, Copy, PartialEq, Eq, Structural)]
pub enum DPadDirection {
    Up,
    Down,
    Left,
    Right,
}

/// Buttons of a Linux mouse.
#[derive(Debug, Clone, Copy, PartialEq, Eq, Structural)]
pub enum MouseButton {
    Left,
    Middle,
    Right,
}

/// A key of a Linux controller device.
#[derive(Debug, Clone, Copy, PartialEq, Eq, Structural)]
pub enum ControllerKey {
    GamePad(GamePadButton),
    DPad(DPadDirection),
    Mouse(MouseButton),
}

/// A key of a Linux keyboard.
#[derive(Debug, Clone, Copy, PartialEq, Eq, Structural)]
pub enum KeyboardKey {
    Enter,
    Esc,
    LeftControl,
    LeftShift,
    LeftAlt,
    LeftMeta,
    Up,
    Down,
    Left,
    Right,
}

/// The axes of the d-pad hat.
#[derive(Debug, Clone, Copy, PartialEq, Eq, Structural)]
pub enum HatAxis {
    X0,
    Y0,
}

pub const HAT_NONE: i32 = 0;
pub const HAT_LEFT: i32 = -1;
pub const HAT_RIGHT: i32 = 1;
pub const HAT_UP: i32 = -1;
pub const HAT_DOWN: i32 = 1;

/// Whether an input carries an analog amount (sticks, triggers, wheel and mouse movement).
pub open spec fn spec_is_analog(input: ControllerInput) -> bool {
    match input {
        ControllerInput::LeftJoyStick(..) | ControllerInput::RightJoyStick(..) | ControllerInput::LeftTrigger(_)
        | ControllerInput::RightTrigger(_) | ControllerInput::Wheel(..) | ControllerInput::Mouse(..) => true,
        _ => false,
    }
}

/// Whether an input carries an analog amount (sticks, triggers, wheel and mouse movement).
pub fn is_analog(input: ControllerInput) -> (r: bool)
    ensures
        r == spec_is_analog(input),
{
    match input {
        ControllerInput::LeftJoyStick(..) | ControllerInput::RightJoyStick(..) | ControllerInput::LeftTrigger(_)
        | ControllerInput::RightTrigger(_) | ControllerInput::Wheel(..) | ControllerInput::Mouse(..) => true,
        _ => false,
    }
}

/// The gamepad or d-pad key of a digital input, and whether it is pressed.
pub open spec fn spec_controller_key(input: ControllerInput) -> Option<(ControllerKey, bool)> {
    match input {
        ControllerInput::South(p) => Some((ControllerKey::GamePad(GamePadButton::South), p)),
        ControllerInput::A(p) => Some((ControllerKey::GamePad(GamePadButton::A), p)),
        ControllerInput::East(p) => Some((ControllerKey::GamePad(GamePadButton::East), p)),
        ControllerInput::B(p) => Some((ControllerKey::GamePad(GamePadButton::B), p)),
        ControllerInput::C(p) => Some((ControllerKey::GamePad(GamePadButton::C), p)),
        ControllerInput::North(p) => Some((ControllerKey::GamePad(GamePadButton::North), p)),
        ControllerInput::X(p) => Some((ControllerKey::GamePad(GamePadButton::X), p)),
        ControllerInput::West(p) => Some((ControllerKey::GamePad(GamePadButton::West), p)),
        ControllerInput::Y(p) => Some((ControllerKey::GamePad(GamePadButton::Y), p)),
        ControllerInput::Z(p) => Some((ControllerKey::GamePad(GamePadButton::Z), p)),
        ControllerInput::LeftBumper(p) => Some((ControllerKey::GamePad(GamePadButton::TL), p)),
        ControllerInput::RightBumper(p) => Some((ControllerKey::GamePad(GamePadButton::TR), p)),
        ControllerInput::Select(p) => Some((ControllerKey::GamePad(GamePadButton::Select), p)),
        ControllerInput::Start(p) => Some((ControllerKey::GamePad(GamePadButton::Start), p)),
        ControllerInput::Mode(p) => Some((ControllerKey::GamePad(GamePadButton::Mode), p)),
        ControllerInput::LeftThumb(p) => Some((ControllerKey::GamePad(GamePadButton::ThumbL), p)),
        ControllerInput::RightThumb(p) => Some((ControllerKey::GamePad(GamePadButton::ThumbR), p)),
        ControllerInput::Menu(p) => Some((ControllerKey::GamePad(GamePadButton::Mode), p)),
        ControllerInput::Home(p) => Some((ControllerKey::GamePad(GamePadButton::Mode), p)),
        ControllerInput::Up(p) => Some((ControllerKey::DPad(DPadDirection::Up), p)),
        ControllerInput::Down(p) => Some((ControllerKey::DPad(DPadDirection::Down), p)),
        ControllerInput::Left(p) => Some((ControllerKey::DPad(DPadDirection::Left), p)),
        ControllerInput::Right(p) => Some((ControllerKey::DPad(DPadDirection::Right), p)),
        _ => None,
    }
}

/// Maps a digital input onto a gamepad or d-pad key; `None` for other digital inputs.
/// Analog inputs are not taken.
pub fn map_digital_controller_input(input: ControllerInput) -> (r: Option<(ControllerKey, bool)>)
    requires
        !spec_is_analog(input),
    ensures
        r == spec_controller_key(input),
{
    match input {
        ControllerInput::South(p) => Some((ControllerKey::GamePad(GamePadButton::South), p)),
        ControllerInput::A(p) => Some((ControllerKey::GamePad(GamePadButton::A), p)),
        ControllerInput::East(p) => Some((ControllerKey::GamePad(GamePadButton::East), p)),
        ControllerInput::B(p) => Some((ControllerKey::GamePad(GamePadButton::B), p)),
        ControllerInput::C(p) => Some((ControllerKey::GamePad(GamePadButton::C), p)),
        ControllerInput::North(p) => Some((ControllerKey::GamePad(GamePadButton::North), p)),
        ControllerInput::X(p) => Some((ControllerKey::GamePad(GamePadButton::X), p)),
        ControllerInput::West(p) => Some((ControllerKey::GamePad(GamePadButton::West), p)),
        ControllerInput::Y(p) => Some((ControllerKey::GamePad(GamePadButton::Y), p)),
        ControllerInput::Z(p) => Some((ControllerKey::GamePad(GamePadButton::Z), p)),
        ControllerInput::LeftBumper(p) => Some((ControllerKey::GamePad(GamePadButton::TL), p)),
        ControllerInput::RightBumper(p) => Some((ControllerKey::GamePad(GamePadButton::TR), p)),
        ControllerInput::Select(p) => Some((ControllerKey::GamePad(GamePadButton::Select), p)),
        ControllerInput::Start(p) => Some((ControllerKey::GamePad(GamePadButton::Start), p)),
        ControllerInput::Mode(p) => Some((ControllerKey::GamePad(GamePadButton::Mode), p)),
        ControllerInput::LeftThumb(p) => Some((ControllerKey::GamePad(GamePadButton::ThumbL), p)),
        ControllerInput::RightThumb(p) => Some((ControllerKey::GamePad(GamePadButton::ThumbR), p)),
        ControllerInput::Menu(p) => Some((ControllerKey::GamePad(GamePadButton::Mode), p)),
        ControllerInput::Home(p) => Some((ControllerKey::GamePad(GamePadButton::Mode), p)),
        ControllerInput::Up(p) => Some((ControllerKey::DPad(DPadDirection::Up), p)),
        ControllerInput::Down(p) => Some((ControllerKey::DPad(DPadDirection::Down), p)),
        ControllerInput::Left(p) => Some((ControllerKey::DPad(DPadDirection::Left), p)),
        ControllerInput::Right(p) => Some((ControllerKey::DPad(DPadDirection::Right), p)),
        _ => None,
    }
}

/// The mouse button of a digital input, and whether it is pressed.
pub open spec fn spec_mouse_key(input: ControllerInput) -> Option<(ControllerKey, bool)> {
    match input {
        ControllerInput::LeftMouse(p) => Some((ControllerKey::Mouse(MouseButton::Left), p)),
        ControllerInput::MiddleMouse(p) => Some((ControllerKey::Mouse(MouseButton::Middle), p)),
        ControllerInput::RightMouse(p) => Some((ControllerKey::Mouse(MouseButton::Right), p)),
        _ => None,
    }
}

/// Maps a digital input onto a mouse button; `None` for other inputs.
pub fn map_digital_mouse_input(input: ControllerInput) -> (r: Option<(ControllerKey, bool)>)
    ensures
        r == spec_mouse_key(input),
{
    match input {
        ControllerInput::LeftMouse(p) => Some((ControllerKey::Mouse(MouseButton::Left), p)),
        ControllerInput::MiddleMouse(p) => Some((ControllerKey::Mouse(MouseButton::Middle), p)),
        ControllerInput::RightMouse(p) => Some((ControllerKey::Mouse(MouseButton::Right), p)),
        _ => None,
    }
}

/// The keyboard key of a digital input, and whether it is pressed.
pub open spec fn spec_keyboard_key(input: ControllerInput) -> Option<(KeyboardKey, bool)> {
    match input {
        ControllerInput::EnterKey(p) => Some((KeyboardKey::Enter, p)),
        ControllerInput::EscKey(p) => Some((KeyboardKey::Esc, p)),
        ControllerInput::CtrlKey(p) => Some((KeyboardKey::LeftControl, p)),
        ControllerInput::ShiftKey(p) => Some((KeyboardKey::LeftShift, p)),
        ControllerInput::AltKey(p) => Some((KeyboardKey::LeftAlt, p)),
        ControllerInput::MetaKey(p) => Some((KeyboardKey::LeftMeta, p)),
        ControllerInput::UpKey(p) => Some((KeyboardKey::Up, p)),
        ControllerInput::DownKey(p) => Some((KeyboardKey::Down, p)),
        ControllerInput::LeftKey(p) => Some((KeyboardKey::Left, p)),
        ControllerInput::RightKey(p) => Some((KeyboardKey::Right, p)),
        _ => None,
    }
}

/// Maps a digital input onto a keyboard key; `None` for other inputs.
pub fn map_digital_keyboard_input(input: ControllerInput) -> (r: Option<(KeyboardKey, bool)>)
    ensures
        r == spec_keyboard_key(input),
{
    match input {
        ControllerInput::EnterKey(p) => Some((KeyboardKey::Enter, p)),
        ControllerInput::EscKey(p) => Some((KeyboardKey::Esc, p)),
        ControllerInput::CtrlKey(p) => Some((KeyboardKey::LeftControl, p)),
        ControllerInput::ShiftKey(p) => Some((KeyboardKey::LeftShift, p)),
        ControllerInput::AltKey(p) => Some((KeyboardKey::LeftAlt, p)),
        ControllerInput::MetaKey(p) => Some((KeyboardKey::LeftMeta, p)),
        ControllerInput::UpKey(p) => Some((KeyboardKey::Up, p)),
        ControllerInput::DownKey(p) => Some((KeyboardKey::Down, p)),
        ControllerInput::LeftKey(p) => Some((KeyboardKey::Left, p)),
        ControllerInput::RightKey(p) => Some((KeyboardKey::Right, p)),
        _ => None,
    }
}

/// Where a digital input goes on Linux.
#[derive(Debug, Clone, Copy, PartialEq, Eq, Structural)]
pub enum DigitalAction {
    /// Press or release a key of the virtual controller.
    Controller(ControllerKey, bool),
    /// Press or release a button of the virtual mouse.
    Mouse(ControllerKey, bool),
    /// Press or release a key on the virtual mouse device, which also carries the keyboard keys.
    Keyboard(KeyboardKey, bool),
    /// Nothing to do.
    Ignore,
}

/// Where a digital input goes: controller keys first, then mouse buttons, then keyboard keys.
pub open spec fn spec_digital_action(input: ControllerInput) -> DigitalAction {
    match spec_controller_key(input) {
        Some((k, p)) => DigitalAction::Controller(k, p),
        None => match spec_mouse_key(input) {
            Some((k, p)) => DigitalAction::Mouse(k, p),
            None => match spec_keyboard_key(input) {
                Some((k, p)) => DigitalAction::Keyboard(k, p),
                None => DigitalAction::Ignore,
            },
        },
    }
}

/// Decides where a digital input goes on Linux. Analog inputs are not taken.
pub fn digital_action(input: ControllerInput) -> (r: DigitalAction)
    requires
        !spec_is_analog(input),
    ensures
        r == spec_digital_action(input),
{
    if let Some((key, pressed)) = map_digital_controller_input(input) {
        DigitalAction::Controller(key, pressed)
    } else if let Some((key, pressed)) = map_digital_mouse_input(input) {
        DigitalAction::Mouse(key, pressed)
    } else if let Some((key, pressed)) = map_digital_keyboard_input(input) {
        DigitalAction::Keyboard(key, pressed)
    } else {
        DigitalAction::Ignore
    }
}

/// The hat position a d-pad input sets on Linux, besides its key.
pub open spec fn spec_hat_position(input: ControllerInput) -> Option<(HatAxis, i32)> {
    match input {
        ControllerInput::Left(p) => Some((HatAxis::X0, if p { HAT_LEFT } else { HAT_NONE })),
        ControllerInput::Right(p) => Some((HatAxis::X0, if p { HAT_RIGHT } else { HAT_NONE })),
        ControllerInput::Up(p) => Some((HatAxis::Y0, if p { HAT_UP } else { HAT_NONE })),
        ControllerInput::Down(p) => Some((HatAxis::Y0, if p { HAT_DOWN } else { HAT_NONE })),
        _ => None,
    }
}

/// The hat position a d-pad input sets on Linux, besides its key.
pub fn hat_position(input: ControllerInput) -> (r: Option<(HatAxis, i32)>)
    ensures
        r == spec_hat_position(input),
{
    match input {
        ControllerInput::Left(p) => Some((HatAxis::X0, if p { HAT_LEFT } else { HAT_NONE })),
        ControllerInput::Right(p) => Some((HatAxis::X0, if p { HAT_RIGHT } else { HAT_NONE })),
        ControllerInput::Up(p) => Some((HatAxis::Y0, if p { HAT_UP } else { HAT_NONE })),
        ControllerInput::Down(p) => Some((HatAxis::Y0, if p { HAT_DOWN } else { HAT_NONE })),
        _ => None,
    }
}

// ---------------------------------------------------------------------------
// Windows: the Xbox 360 button word
// ---------------------------------------------------------------------------

pub const XBUTTON_UP: u16 = 0x0001;
pub const XBUTTON_DOWN: u16 = 0x0002;
pub const XBUTTON_LEFT: u16 = 0x0004;
pub const XBUTTON_RIGHT: u16 = 0x0008;
pub const XBUTTON_START: u16 = 0x0010;
pub const XBUTTON_BACK: u16 = 0x0020;
pub const XBUTTON_LTHUMB: u16 = 0x0040;
pub const XBUTTON_RTHUMB: u16 = 0x0080;
pub const XBUTTON_LB: u16 = 0x0100;
pub const XBUTTON_RB: u16 = 0x0200;
pub const XBUTTON_GUIDE: u16 = 0x0400;
pub const XBUTTON_A: u16 = 0x1000;
pub const XBUTTON_B: u16 = 0x2000;
pub const XBUTTON_X: u16 = 0x4000;
pub const XBUTTON_Y: u16 = 0x8000;

/// The Xbox button flag of a digital input, and whether it is pressed.
pub open spec fn spec_xbutton(input: ControllerInput) -> Option<(u16, bool)> {
    match input {
        ControllerInput::South(s) => Some((XBUTTON_A, s)),
        ControllerInput::A(s) => Some((XBUTTON_A, s)),
        ControllerInput::East(s) => Some((XBUTTON_B, s)),
        ControllerInput::B(s) => Some((XBUTTON_B, s)),
        ControllerInput::North(s) => Some((XBUTTON_Y, s)),
        ControllerInput::X(s) => Some((XBUTTON_X, s)),
        ControllerInput::West(s) => Some((XBUTTON_X, s)),
        ControllerInput::Y(s) => Some((XBUTTON_Y, s)),
        ControllerInput::LeftBumper(s) => Some((XBUTTON_LB, s)),
        ControllerInput::RightBumper(s) => Some((XBUTTON_RB, s)),
        ControllerInput::Select(s) => Some((XBUTTON_BACK, s)),
        ControllerInput::Start(s) => Some((XBUTTON_START, s)),
        ControllerInput::Mode(s) => Some((XBUTTON_GUIDE, s)),
        ControllerInput::LeftThumb(s) => Some((XBUTTON_LTHUMB, s)),
        ControllerInput::RightThumb(s) => Some((XBUTTON_RTHUMB, s)),
        ControllerInput::Up(s) => Some((XBUTTON_UP, s)),
        ControllerInput::Down(s) => Some((XBUTTON_DOWN, s)),
        ControllerInput::Left(s) => Some((XBUTTON_LEFT, s)),
        ControllerInput::Right(s) => Some((XBUTTON_RIGHT, s)),
        ControllerInput::Menu(s) => Some((XBUTTON_GUIDE, s)),
        ControllerInput::Home(s) => Some((XBUTTON_GUIDE, s)),
        _ => None,
    }
}

/// The button word after a digital input: its flag is set when pressed and cleared when
/// released; other inputs leave the word as it is.
pub open spec fn spec_update_digital_buttons(current: u16, input: ControllerInput) -> u16 {
    match spec_xbutton(input) {
        Some((flag, true)) => current | flag,
        Some((flag, false)) => current & !flag,
        None => current,
    }
}

/// The Xbox button flag of a digital input, and whether it is pressed.
pub fn xbutton(input: ControllerInput) -> (r: Option<(u16, bool)>)
    ensures
        r == spec_xbutton(input),
{
    match input {
        ControllerInput::South(s) => Some((XBUTTON_A, s)),
        ControllerInput::A(s) => Some((XBUTTON_A, s)),
        ControllerInput::East(s) => Some((XBUTTON_B, s)),
        ControllerInput::B(s) => Some((XBUTTON_B, s)),
        ControllerInput::North(s) => Some((XBUTTON_Y, s)),
        ControllerInput::X(s) => Some((XBUTTON_X, s)),
        ControllerInput::West(s) => Some((XBUTTON_X, s)),
        ControllerInput::Y(s) => Some((XBUTTON_Y, s)),
        ControllerInput::LeftBumper(s) => Some((XBUTTON_LB, s)),
        ControllerInput::RightBumper(s) => Some((XBUTTON_RB, s)),
        ControllerInput::Select(s) => Some((XBUTTON_BACK, s)),
        ControllerInput::Start(s) => Some((XBUTTON_START, s)),
        ControllerInput::Mode(s) => Some((XBUTTON_GUIDE, s)),
        ControllerInput::LeftThumb(s) => Some((XBUTTON_LTHUMB, s)),
        ControllerInput::RightThumb(s) => Some((XBUTTON_RTHUMB, s)),
        ControllerInput::Up(s) => Some((XBUTTON_UP, s)),
        ControllerInput::Down(s) => Some((XBUTTON_DOWN, s)),
        ControllerInput::Left(s) => Some((XBUTTON_LEFT, s)),
        ControllerInput::Right(s) => Some((XBUTTON_RIGHT, s)),
        ControllerInput::Menu(s) => Some((XBUTTON_GUIDE, s)),
        ControllerInput::Home(s) => Some((XBUTTON_GUIDE, s)),
        _ => None,
    }
}

/// Calculates the new button word from the current one and a new input.
pub fn update_digital_buttons(current_buttons: u16, input: ControllerInput) -> (r: u16)
    ensures
        r == spec_update_digital_buttons(current_buttons, input),
{
    match xbutton(input) {
        Some((flag, set)) => {
            if set {
                current_buttons | flag
            } else {
                current_buttons & !flag
            }
        },
        None => current_buttons,
    }
}

} // verus!
