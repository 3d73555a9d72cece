//! What the mappings and the decoder mean, stated button by button and axis by axis against
//! the names of the controls.

use vstd::prelude::*;
use crate::input::{charging_status_of, ChargingStatus, ControllerInput, DeviceCommand, DeviceEvent};
use crate::properties::{bool_text, charging_text, int_value_text, DeviceProperties};
use crate::text::{decimal, hex4, hex_digit_char};
use crate::discovery::{count_supported, interfaces_below, is_supported};
use crate::refresh::{absorbed, after_passive_event, passive_absorbed, passive_pressed, pressed_inputs};
use crate::steam_controller::{
    alt_at, analog, bit, buttons_seq, button_input, combination_events, status_charging, SteamController, BIT_A, BIT_B, BIT_DPAD_DOWN,
    BIT_DPAD_LEFT, BIT_DPAD_RIGHT, BIT_DPAD_UP, BIT_GRIP_LEFT, BIT_GRIP_RIGHT, BIT_L1, BIT_L2, BIT_L4, BIT_L5,
    BIT_MENU, BIT_PAD_LEFT_CLICK, BIT_PAD_LEFT_TOUCH, BIT_PAD_RIGHT_CLICK, BIT_PAD_RIGHT_TOUCH, BIT_R1, BIT_R2,
    BIT_R4, BIT_R5, BIT_SELECT, BIT_START, BIT_STEAM, BIT_THUMB_LEFT, BIT_THUMB_LEFT_TOUCH, BIT_THUMB_RIGHT,
    BIT_THUMB_RIGHT_TOUCH, BIT_X, BIT_Y,
};
use crate::virtual_output::{
    spec_controller_key, spec_digital_action, spec_hat_position, spec_keyboard_key, spec_mouse_key, spec_xbutton,
    ControllerKey, DPadDirection, DigitalAction, GamePadButton, HatAxis, KeyboardKey, MouseButton, XBUTTON_A,
    XBUTTON_B, XBUTTON_BACK, XBUTTON_DOWN, XBUTTON_GUIDE, XBUTTON_LB, XBUTTON_LEFT, XBUTTON_LTHUMB, XBUTTON_RB,
    XBUTTON_RIGHT, XBUTTON_RTHUMB, XBUTTON_START, XBUTTON_UP, XBUTTON_X, XBUTTON_Y,
};

verus! {

// ---------------------------------------------------------------------------
// Buttons of the controller
// ---------------------------------------------------------------------------

/// In the normal mode every button reports the control of its own name: the face buttons,
/// the d-pad directions, start and select, the thumb buttons, the Steam button as home, the
/// bumpers (R1, L1) with the upper paddles (R4, L4), the lower paddles (R5, L5) as full trigger
/// pulls, the trigger clicks (R2, L2) and the right pad click as the left mouse button. The
/// menu button, touches, the left pad click and the grips report nothing.
pub proof fn law_normal_mode_buttons(p: bool)
    ensures
        button_input(BIT_A, false, p) == ControllerInput::A(p),
        button_input(BIT_B, false, p) == ControllerInput::B(p),
        button_input(BIT_X, false, p) == ControllerInput::X(p),
        button_input(BIT_Y, false, p) == ControllerInput::Y(p),
        button_input(BIT_MENU, false, p) == ControllerInput::Ignore,
        button_input(BIT_THUMB_RIGHT, false, p) == ControllerInput::RightThumb(p),
        button_input(BIT_START, false, p) == ControllerInput::Start(p),
        button_input(BIT_R4, false, p) == ControllerInput::RightBumper(p),
        button_input(BIT_R5, false, p) == ControllerInput::RightTrigger(if p { 32767 } else { 0 }),
        button_input(BIT_R1, false, p) == ControllerInput::RightBumper(p),
        button_input(BIT_DPAD_DOWN, false, p) == ControllerInput::Down(p),
        button_input(BIT_DPAD_RIGHT, false, p) == ControllerInput::Right(p),
        button_input(BIT_DPAD_LEFT, false, p) == ControllerInput::Left(p),
        button_input(BIT_DPAD_UP, false, p) == ControllerInput::Up(p),
        button_input(BIT_SELECT, false, p) == ControllerInput::Select(p),
        button_input(BIT_THUMB_LEFT, false, p) == ControllerInput::LeftThumb(p),
        button_input(BIT_STEAM, false, p) == ControllerInput::Home(p),
        button_input(BIT_L4, false, p) == ControllerInput::LeftBumper(p),
        button_input(BIT_L5, false, p) == ControllerInput::LeftTrigger(if p { 32767 } else { 0 }),
        button_input(BIT_L1, false, p) == ControllerInput::LeftBumper(p),
        button_input(BIT_THUMB_RIGHT_TOUCH, false, p) == ControllerInput::Ignore,
        button_input(BIT_PAD_RIGHT_TOUCH, false, p) == ControllerInput::Ignore,
        button_input(BIT_PAD_RIGHT_CLICK, false, p) == ControllerInput::LeftMouse(p),
        button_input(BIT_R2, false, p) == ControllerInput::RightTriggerClick(p),
        button_input(BIT_THUMB_LEFT_TOUCH, false, p) == ControllerInput::Ignore,
        button_input(BIT_PAD_LEFT_TOUCH, false, p) == ControllerInput::Ignore,
        button_input(BIT_PAD_LEFT_CLICK, false, p) == ControllerInput::Ignore,
        button_input(BIT_L2, false, p) == ControllerInput::LeftTriggerClick(p),
        button_input(BIT_GRIP_RIGHT, false, p) == ControllerInput::Ignore,
        button_input(BIT_GRIP_LEFT, false, p) == ControllerInput::Ignore,
{
}

/// In the alternative mode A is enter, B escape, the d-pad the arrow keys, the right thumb
/// button the middle mouse button, the right pad click and R2 the left mouse button and L2 the
/// right mouse button; every other button reports nothing.
pub proof fn law_alternative_mode_buttons(p: bool)
    ensures
        button_input(BIT_A, true, p) == ControllerInput::EnterKey(p),
        button_input(BIT_B, true, p) == ControllerInput::EscKey(p),
        button_input(BIT_X, true, p) == ControllerInput::Ignore,
        button_input(BIT_Y, true, p) == ControllerInput::Ignore,
        button_input(BIT_MENU, true, p) == ControllerInput::Ignore,
        button_input(BIT_THUMB_RIGHT, true, p) == ControllerInput::MiddleMouse(p),
        button_input(BIT_START, true, p) == ControllerInput::Ignore,
        button_input(BIT_R4, true, p) == ControllerInput::Ignore,
        button_input(BIT_R5, true, p) == ControllerInput::Ignore,
        button_input(BIT_R1, true, p) == ControllerInput::Ignore,
        button_input(BIT_DPAD_DOWN, true, p) == ControllerInput::DownKey(p),
        button_input(BIT_DPAD_RIGHT, true, p) == ControllerInput::RightKey(p),
        button_input(BIT_DPAD_LEFT, true, p) == ControllerInput::LeftKey(p),
        button_input(BIT_DPAD_UP, true, p) == ControllerInput::UpKey(p),
        button_input(BIT_SELECT, true, p) == ControllerInput::Ignore,
        button_input(BIT_THUMB_LEFT, true, p) == ControllerInput::Ignore,
        button_input(BIT_STEAM, true, p) == ControllerInput::Ignore,
        button_input(BIT_L4, true, p) == ControllerInput::Ignore,
        button_input(BIT_L5, true, p) == ControllerInput::Ignore,
        button_input(BIT_L1, true, p) == ControllerInput::Ignore,
        button_input(BIT_THUMB_RIGHT_TOUCH, true, p) == ControllerInput::Ignore,
        button_input(BIT_PAD_RIGHT_TOUCH, true, p) == ControllerInput::Ignore,
        button_input(BIT_PAD_RIGHT_CLICK, true, p) == ControllerInput::LeftMouse(p),
        button_input(BIT_R2, true, p) == ControllerInput::LeftMouse(p),
        button_input(BIT_THUMB_LEFT_TOUCH, true, p) == ControllerInput::Ignore,
        button_input(BIT_PAD_LEFT_TOUCH, true, p) == ControllerInput::Ignore,
        button_input(BIT_PAD_LEFT_CLICK, true, p) == ControllerInput::Ignore,
        button_input(BIT_L2, true, p) == ControllerInput::RightMouse(p),
        button_input(BIT_GRIP_RIGHT, true, p) == ControllerInput::Ignore,
        button_input(BIT_GRIP_LEFT, true, p) == ControllerInput::Ignore,
{
}

/// A button reports the state it is in: the same button pressed and released gives the same
/// control, once with `true` and once with `false` (or a full and an empty trigger pull).
pub proof fn law_button_reports_its_state(i: u32, alt: bool)
    ensures
        match (button_input(i, alt, true), button_input(i, alt, false)) {
            (ControllerInput::A(x), ControllerInput::A(y)) => x && !y,
            (ControllerInput::RightTrigger(x), ControllerInput::RightTrigger(y)) => x == 32767 && y == 0,
            (ControllerInput::LeftTrigger(x), ControllerInput::LeftTrigger(y)) => x == 32767 && y == 0,
            (ControllerInput::Ignore, ControllerInput::Ignore) => true,
            (ControllerInput::Right(x), ControllerInput::Right(y)) => x && !y,
            (ControllerInput::Left(x), ControllerInput::Left(y)) => x && !y,
            (ControllerInput::Up(x), ControllerInput::Up(y)) => x && !y,
            (ControllerInput::Down(x), ControllerInput::Down(y)) => x && !y,
            _ => true,
        },
{
}

proof fn lemma_one_bit(i: u32, k: u32)
    requires
        i < 32,
        k < 32,
    ensures
        bit(1u32 << i, k) == (i == k),
{
    assert(((1u32 << i) >> k) & 1u32 == 1u32 <==> i == k) by (bit_vector)
        requires
            i < 32,
            k < 32,
    ;
}

proof fn lemma_two_bits(i: u32, j: u32, k: u32)
    requires
        i < 32,
        j < 32,
        k < 32,
    ensures
        bit((1u32 << i) | (1u32 << j), k) == (k == i || k == j),
{
    assert((((1u32 << i) | (1u32 << j)) >> k) & 1u32 == 1u32 <==> (k == i || k == j)) by (bit_vector)
        requires
            i < 32,
            j < 32,
            k < 32,
    ;
}

proof fn lemma_no_bits(k: u32)
    ensures
        !bit(0u32, k),
{
    assert((0u32 >> k) & 1u32 != 1u32) by (bit_vector);
}

proof fn lemma_buttons_seq_empty(states: u32, alt0: bool, n: u32)
    ensures
        buttons_seq(0, states, alt0, n) == Seq::<ControllerInput>::empty(),
    decreases n,
{
    if n > 0 {
        lemma_no_bits((n - 1) as u32);
        lemma_buttons_seq_empty(states, alt0, (n - 1) as u32);
    }
}

proof fn lemma_buttons_seq_one(i: u32, states: u32, alt0: bool, n: u32)
    requires
        i < 30,
        n <= 30,
    ensures
        buttons_seq(1u32 << i, states, alt0, n) == (if n > i {
            seq![button_input(i, alt_at(1u32 << i, states, alt0, i), bit(states, i))]
        } else {
            Seq::<ControllerInput>::empty()
        }),
    decreases n,
{
    if n > 0 {
        lemma_one_bit(i, (n - 1) as u32);
        lemma_buttons_seq_one(i, states, alt0, (n - 1) as u32);
        if n - 1 == i {
            assert(Seq::<ControllerInput>::empty().push(
                button_input(i, alt_at(1u32 << i, states, alt0, i), bit(states, i)),
            ) =~= seq![button_input(i, alt_at(1u32 << i, states, alt0, i), bit(states, i))]);
        }
    }
}

proof fn lemma_buttons_seq_two(i: u32, j: u32, states: u32, alt0: bool, n: u32)
    requires
        i < j < 30,
        n <= 30,
    ensures
        ({
            let c = (1u32 << i) | (1u32 << j);
            let x = button_input(i, alt_at(c, states, alt0, i), bit(states, i));
            let y = button_input(j, alt_at(c, states, alt0, j), bit(states, j));
            buttons_seq(c, states, alt0, n) == (if n > j {
                seq![x, y]
            } else if n > i {
                seq![x]
            } else {
                Seq::<ControllerInput>::empty()
            })
        }),
    decreases n,
{
    if n > 0 {
        let c = (1u32 << i) | (1u32 << j);
        lemma_two_bits(i, j, (n - 1) as u32);
        lemma_buttons_seq_two(i, j, states, alt0, (n - 1) as u32);
        let x = button_input(i, alt_at(c, states, alt0, i), bit(states, i));
        let y = button_input(j, alt_at(c, states, alt0, j), bit(states, j));
        assert(Seq::<ControllerInput>::empty().push(x) =~= seq![x]);
        assert(seq![x].push(y) =~= seq![x, y]);
    }
}

/// Changed buttons are reported in ascending order of their bits, each in the state it is in:
/// for two changed buttons `i < j` first `i`, then `j`.
pub proof fn law_buttons_in_bit_order(i: u32, j: u32, states: u32, alt0: bool)
    requires
        i < j < 30,
        i != BIT_MENU,
    ensures
        buttons_seq((1u32 << i) | (1u32 << j), states, alt0, 30) == seq![
            button_input(i, alt0, bit(states, i)),
            button_input(j, alt0, bit(states, j)),
        ],
{
    lemma_buttons_seq_two(i, j, states, alt0, 30);
    lemma_two_bits(i, j, BIT_MENU);
}

/// Pressing a single button with nothing held reports that button pressed (in the mode the
/// controller is in) and the new button word, and nothing else.
pub proof fn law_single_button_press(s: SteamController, b: Seq<u8>, i: u32)
    requires
        b.len() == 4,
        i < 30,
        s.previous_bitmap() == 0,
        SteamController::report_bitmap(b) == 1u32 << i,
    ensures
        s.spec_handle_buttons(b).1 == seq![
            DeviceEvent::ButtonPressed(button_input(i, s.alt_mode, true)),
            DeviceEvent::UpdateBitmap((1u32 << i) as u64),
        ],
{
    let now = 1u32 << i;
    assert(now ^ 0u32 == now) by (bit_vector);
    assert(now != 0u32) by (bit_vector)
        requires
            now == 1u32 << i,
            i < 32,
    ;
    lemma_one_bit(i, i);
    lemma_one_bit(i, BIT_MENU);
    lemma_buttons_seq_one(i, now, s.alt_mode, 30);
    let s1 = s.after_get_buttons(now, now);
    lemma_buttons_seq_one(i, 0, s1.alt_mode, 30);
    lemma_no_bits(i);
    let first = buttons_seq(now, now, s.alt_mode, 30);
    let second = buttons_seq(now, 0, s1.alt_mode, 30);
    assert(second =~= seq![button_input(i, alt_at(now, 0, s1.alt_mode, i), false)]);
    assert(first =~= seq![button_input(i, s.alt_mode, true)]);
    assert(!second.contains(ControllerInput::Home(true)));
    assert(!second.contains(ControllerInput::A(true)));
    assert(!second.contains(ControllerInput::Y(true)));
    assert(combination_events(second, first) == Seq::<DeviceEvent>::empty());
    assert(crate::input::wrap_inputs(first) =~= seq![DeviceEvent::ButtonPressed(button_input(i, s.alt_mode, true))]);
    assert(s.spec_handle_buttons(b).1 =~= seq![
        DeviceEvent::ButtonPressed(button_input(i, s.alt_mode, true)),
        DeviceEvent::UpdateBitmap((1u32 << i) as u64),
    ]);
}

/// Releasing the only held button reports that button released (in the mode the controller
/// is in) and the empty button word, and nothing else.
pub proof fn law_single_button_release(s: SteamController, b: Seq<u8>, i: u32)
    requires
        b.len() == 4,
        i < 30,
        s.previous_bitmap() == 1u32 << i,
        SteamController::report_bitmap(b) == 0,
    ensures
        s.spec_handle_buttons(b).1 == seq![
            DeviceEvent::ButtonPressed(button_input(i, s.alt_mode, false)),
            DeviceEvent::UpdateBitmap(0),
        ],
{
    let prev = 1u32 << i;
    assert(0u32 ^ prev == prev) by (bit_vector);
    assert(prev != 0u32) by (bit_vector)
        requires
            prev == 1u32 << i,
            i < 32,
    ;
    lemma_one_bit(i, BIT_MENU);
    lemma_no_bits(i);
    lemma_buttons_seq_one(i, 0, s.alt_mode, 30);
    let s1 = s.after_get_buttons(prev, 0);
    lemma_buttons_seq_empty(prev, s1.alt_mode, 30);
    let first = buttons_seq(prev, 0, s.alt_mode, 30);
    let second = buttons_seq(0, prev, s1.alt_mode, 30);
    assert(first =~= seq![button_input(i, s.alt_mode, false)]);
    assert(combination_events(second, first) == Seq::<DeviceEvent>::empty());
    assert(crate::input::wrap_inputs(first) =~= seq![DeviceEvent::ButtonPressed(button_input(i, s.alt_mode, false))]);
    assert(s.spec_handle_buttons(b).1 =~= seq![
        DeviceEvent::ButtonPressed(button_input(i, s.alt_mode, false)),
        DeviceEvent::UpdateBitmap(0),
    ]);
}

// ---------------------------------------------------------------------------
// Button combinations
// ---------------------------------------------------------------------------

/// Whether Home and Y are both down with one of them just changed.
pub open spec fn home_with(all: Seq<ControllerInput>, changes: Seq<ControllerInput>, x: ControllerInput) -> bool {
    (all.contains(x) && changes.contains(ControllerInput::Home(true))) || (changes.contains(x) && all.contains(
        ControllerInput::Home(true),
    ))
}

/// Holding Y and pressing Home, or holding Home and pressing Y, turns the controller off; in
/// either order.
pub proof fn law_home_y_turns_off(all: Seq<ControllerInput>, changes: Seq<ControllerInput>)
    requires
        (all.contains(ControllerInput::Y(true)) && changes.contains(ControllerInput::Home(true)))
            || (changes.contains(ControllerInput::Y(true)) && all.contains(ControllerInput::Home(true))),
    ensures
        combination_events(all, changes) == seq![DeviceEvent::Command(DeviceCommand::TurnOff)],
        combination_events(changes, all) == seq![DeviceEvent::Command(DeviceCommand::TurnOff)],
{
}

/// Holding A and pressing Home, or holding Home and pressing A, releases A and B and toggles the
/// layout, in either order, unless the same report also turns the controller off.
pub proof fn law_home_a_toggles_layout(all: Seq<ControllerInput>, changes: Seq<ControllerInput>)
    requires
        (all.contains(ControllerInput::A(true)) && changes.contains(ControllerInput::Home(true)))
            || (changes.contains(ControllerInput::A(true)) && all.contains(ControllerInput::Home(true))),
        !((all.contains(ControllerInput::Y(true)) && changes.contains(ControllerInput::Home(true)))
            || (changes.contains(ControllerInput::Y(true)) && all.contains(ControllerInput::Home(true)))),
    ensures
        combination_events(all, changes) == seq![
            DeviceEvent::ButtonPressed(ControllerInput::A(false)),
            DeviceEvent::ButtonPressed(ControllerInput::B(false)),
            DeviceEvent::Command(DeviceCommand::NintendoLayoutToggle),
        ],
        combination_events(changes, all) == combination_events(all, changes),
{
}

/// Without Home held or just pressed there is no combination.
pub proof fn law_no_combination_without_home(all: Seq<ControllerInput>, changes: Seq<ControllerInput>)
    requires
        !all.contains(ControllerInput::Home(true)),
        !changes.contains(ControllerInput::Home(true)),
    ensures
        combination_events(all, changes).len() == 0,
{
}

// ---------------------------------------------------------------------------
// Analog controls
// ---------------------------------------------------------------------------

/// Each trackpad remembers its reading; a pad with a previous reading moves by the difference:
/// the left pad scrolls the wheel by 64 steps per unit against the finger's movement on both
/// axes, the right pad moves the mouse by 256 steps per unit with the finger's x movement and
/// against its y movement (pad y grows upwards, screen y downwards).
pub proof fn law_trackpad_motion(s: SteamController, b: Seq<u8>)
    requires
        b.len() == 12,
    ensures
        ({
            let (s1, e) = s.spec_handle_trackpads(b);
            let lx = analog(b[0], b[1]);
            let ly = analog(b[2], b[3]);
            let lf = analog(b[4], b[5]);
            let rx = analog(b[6], b[7]);
            let ry = analog(b[8], b[9]);
            let rf = analog(b[10], b[11]);
            &&& s1.left_trackpad_prev == Some((lx as i16, ly as i16, lf as i16))
            &&& s1.right_trackpad_prev == Some((rx as i16, ry as i16, rf as i16))
            &&& s1.alt_mode == s.alt_mode
            &&& s1.properties == s.properties
            &&& e.len() == (if s.left_trackpad_prev is Some { 1int } else { 0int }) + (if s.right_trackpad_prev is Some {
                1int
            } else {
                0int
            })
            &&& (s.left_trackpad_prev matches Some(p) ==> e[0] == DeviceEvent::ButtonPressed(
                ControllerInput::Wheel(((p.0 - lx) * 64) as i32, ((p.1 - ly) * 64) as i32),
            ))
            &&& (s.right_trackpad_prev matches Some(p) ==> e[e.len() - 1] == DeviceEvent::ButtonPressed(
                ControllerInput::Mouse(((rx - p.0) * 256) as i32, ((p.1 - ry) * 256) as i32),
            ))
        }),
{
    let (s1, e) = s.spec_handle_trackpads(b);
    let left = crate::steam_controller::pad_reading(b, 0);
    let right = crate::steam_controller::pad_reading(b, 6);
    assert(-32767 <= analog(b[0], b[1]) <= 32767);
    assert(-32767 <= analog(b[2], b[3]) <= 32767);
    assert(-32767 <= analog(b[4], b[5]) <= 32767);
    assert(-32767 <= analog(b[6], b[7]) <= 32767);
    assert(-32767 <= analog(b[8], b[9]) <= 32767);
    assert(-32767 <= analog(b[10], b[11]) <= 32767);
    assert(left.0 == analog(b[0], b[1]));
    assert(left.1 == analog(b[2], b[3]));
    assert(right.0 == analog(b[6], b[7]));
    assert(right.1 == analog(b[8], b[9]));
}

/// In the normal mode the sticks report their readings as they are; in the alternative mode a
/// deflected left stick (`20 (x^2 + y^2) > 32767^2`) scrolls the wheel with the stick and a
/// deflected right stick moves the mouse by 8 steps per unit, with the stick's x and against its
/// y.
pub proof fn law_stick_motion(s: SteamController, b: Seq<u8>)
    requires
        b.len() == 8,
    ensures
        ({
            let e = s.spec_handle_joysticks(b);
            let lx = analog(b[0], b[1]);
            let ly = analog(b[2], b[3]);
            let rx = analog(b[4], b[5]);
            let ry = analog(b[6], b[7]);
            let left_moved = 20 * (lx * lx + ly * ly) > 32767 * 32767;
            let right_moved = 20 * (rx * rx + ry * ry) > 32767 * 32767;
            if !s.alt_mode {
                e == seq![
                    DeviceEvent::ButtonPressed(ControllerInput::LeftJoyStick(lx as i16, ly as i16)),
                    DeviceEvent::ButtonPressed(ControllerInput::RightJoyStick(rx as i16, ry as i16)),
                ]
            } else {
                &&& e.len() == (if left_moved { 1int } else { 0int }) + (if right_moved { 1int } else { 0int })
                &&& left_moved ==> e[0] == DeviceEvent::ButtonPressed(ControllerInput::Wheel(lx as i32, ly as i32))
                &&& right_moved ==> e[e.len() - 1] == DeviceEvent::ButtonPressed(
                    ControllerInput::Mouse((rx * 8) as i32, (-ry * 8) as i32),
                )
            }
        }),
{
    assert(-32767 <= analog(b[0], b[1]) <= 32767);
    assert(-32767 <= analog(b[2], b[3]) <= 32767);
    assert(-32767 <= analog(b[4], b[5]) <= 32767);
    assert(-32767 <= analog(b[6], b[7]) <= 32767);
}

/// The triggers report their readings as they are, and nothing in the alternative mode.
pub proof fn law_trigger_motion(s: SteamController, b: Seq<u8>)
    requires
        b.len() == 4,
    ensures
        s.alt_mode ==> s.spec_handle_triggers(b).len() == 0,
        !s.alt_mode ==> s.spec_handle_triggers(b) == seq![
            DeviceEvent::ButtonPressed(ControllerInput::LeftTrigger(analog(b[0], b[1]) as i16)),
            DeviceEvent::ButtonPressed(ControllerInput::RightTrigger(analog(b[2], b[3]) as i16)),
        ],
{
}

/// Analog readings are little endian, signed, and never below full deflection.
pub proof fn law_analog_reading(lo: u8, hi: u8)
    ensures
        -32767 <= analog(lo, hi) <= 32767,
        hi < 128 ==> analog(lo, hi) == lo + 256 * hi,
        (hi >= 128 && !(lo == 0 && hi == 128)) ==> analog(lo, hi) == lo + 256 * hi - 65536,
        (lo == 0 && hi == 128) ==> analog(lo, hi) == -32767,
{
}

// ---------------------------------------------------------------------------
// Status
// ---------------------------------------------------------------------------

/// The status byte of a status report: 1 is not charging, 2 (puck) and 3 (cable) charging, 4
/// fully charged, anything else an error.
pub proof fn law_status_charging(b: u8)
    ensures
        status_charging(1) == ChargingStatus::NotCharging,
        status_charging(2) == ChargingStatus::Charging,
        status_charging(3) == ChargingStatus::Charging,
        status_charging(4) == ChargingStatus::FullyCharged,
        (b == 0 || b > 4) ==> status_charging(b) == ChargingStatus::ChargeError,
        charging_status_of(0) == ChargingStatus::NotCharging,
        charging_status_of(1) == ChargingStatus::Charging,
        charging_status_of(2) == ChargingStatus::FullyCharged,
        b > 2 ==> charging_status_of(b) == ChargingStatus::ChargeError,
{
}

/// A status report and a connection report tell what their bytes say.
pub proof fn law_status_and_connection_reports(r: Seq<u8>)
    requires
        r.len() >= 16,
    ensures
        SteamController::spec_status_events(r) == seq![
            DeviceEvent::Charging(status_charging(r[1])),
            DeviceEvent::BatteryLevel(r[2]),
            DeviceEvent::WirelessConnected(true),
        ],
        SteamController::spec_connection_event(1) == Some(DeviceEvent::WirelessConnected(false)),
        SteamController::spec_connection_event(r[1]) is Some ==> r[1] == 1,
{
}

// ---------------------------------------------------------------------------
// Refreshes
// ---------------------------------------------------------------------------

/// Every event that is not a command is stored by a passive refresh as by an active one, and
/// each status event sets exactly its own property.
pub proof fn law_passive_refresh_stores_events(p: DeviceProperties, e: DeviceEvent)
    ensures
        !(e is Command) ==> after_passive_event(p, e) == p.after_event(e),
        (e matches DeviceEvent::WirelessConnected(c) ==> after_passive_event(p, e) == (DeviceProperties {
            connected: Some(c),
            ..p
        })),
        (e matches DeviceEvent::BatteryLevel(l) ==> after_passive_event(p, e) == (DeviceProperties {
            battery_level: Some(l),
            ..p
        })),
        (e matches DeviceEvent::Charging(c) ==> after_passive_event(p, e) == (DeviceProperties {
            charging: Some(c),
            ..p
        })),
        (e matches DeviceEvent::UpdateBitmap(m) ==> after_passive_event(p, e) == (DeviceProperties {
            previous_button_bitmap: m,
            ..p
        })),
        (e matches DeviceEvent::ButtonPressed(_) ==> after_passive_event(p, e) == p),
        e == DeviceEvent::Command(DeviceCommand::TurnOff) ==> after_passive_event(p, e) == p,
        e == DeviceEvent::Command(DeviceCommand::NintendoLayoutToggle) ==> after_passive_event(p, e) == (
        DeviceProperties { nintendo_layout: !p.nintendo_layout, ..p }),
        (e matches DeviceEvent::WirelessConnected(c) ==> passive_absorbed(p, seq![e]).connected == Some(c)),
{
    assert(seq![e].drop_last() =~= Seq::<DeviceEvent>::empty());
}

/// An active refresh hands on a button press as it is and stores nothing for it; every other
/// event is stored as the properties take it and hands nothing on.
pub proof fn law_active_refresh_single_event(p: DeviceProperties, e: DeviceEvent)
    ensures
        absorbed(p, seq![e]) == p.after_event(e),
        (e matches DeviceEvent::ButtonPressed(x) ==> pressed_inputs(seq![e]) == seq![x] && absorbed(p, seq![e])
            == p),
        !(e is ButtonPressed) ==> pressed_inputs(seq![e]) == Seq::<ControllerInput>::empty(),
        (e matches DeviceEvent::WirelessConnected(c) ==> absorbed(p, seq![e]) == (DeviceProperties {
            connected: Some(c),
            ..p
        })),
        (e matches DeviceEvent::BatteryLevel(l) ==> absorbed(p, seq![e]) == (DeviceProperties {
            battery_level: Some(l),
            ..p
        })),
        (e matches DeviceEvent::Charging(c) ==> absorbed(p, seq![e]) == (DeviceProperties {
            charging: Some(c),
            ..p
        })),
        (e matches DeviceEvent::UpdateBitmap(m) ==> absorbed(p, seq![e]) == (DeviceProperties {
            previous_button_bitmap: m,
            ..p
        })),
{
    let es = seq![e];
    assert(es.drop_last() =~= Seq::<DeviceEvent>::empty());
    assert(es.last() == e);
    assert(absorbed(p, es.drop_last()) == p);
    assert(pressed_inputs(es.drop_last()) == Seq::<ControllerInput>::empty());
    match e {
        DeviceEvent::ButtonPressed(x) => {
            assert(pressed_inputs(es) =~= seq![x]);
        },
        _ => {
            assert(pressed_inputs(es) =~= Seq::<ControllerInput>::empty());
        },
    }
}

/// A passive refresh hands on a single button press as the layout sees it: A and B, X and Y
/// swapped in the Nintendo layout, everything else as it is.
pub proof fn law_passive_refresh_layout(l: bool, x: ControllerInput)
    ensures
        passive_pressed(l, seq![DeviceEvent::ButtonPressed(x)]) == seq![
            if l {
                match x {
                    ControllerInput::A(p) => ControllerInput::B(p),
                    ControllerInput::B(p) => ControllerInput::A(p),
                    ControllerInput::X(p) => ControllerInput::Y(p),
                    ControllerInput::Y(p) => ControllerInput::X(p),
                    other => other,
                }
            } else {
                x
            },
        ],
{
    let evs = seq![DeviceEvent::ButtonPressed(x)];
    assert(evs.drop_last() =~= Seq::<DeviceEvent>::empty());
    assert(passive_pressed(l, evs.drop_last()) == Seq::<ControllerInput>::empty());
    assert(passive_pressed(l, evs) =~= seq![crate::refresh::spec_layout_input(l, x)]);
}

// ---------------------------------------------------------------------------
// Virtual devices
// ---------------------------------------------------------------------------

/// On Linux every gamepad input presses the gamepad key of its name: face buttons as
/// themselves, bumpers as TL and TR, select, start, mode, the thumb buttons as ThumbL and
/// ThumbR, menu and home as the mode key, the d-pad directions as the d-pad.
pub proof fn law_gamepad_keys(p: bool)
    ensures
        spec_controller_key(ControllerInput::South(p)) == Some((ControllerKey::GamePad(GamePadButton::South), p)),
        spec_controller_key(ControllerInput::A(p)) == Some((ControllerKey::GamePad(GamePadButton::A), p)),
        spec_controller_key(ControllerInput::East(p)) == Some((ControllerKey::GamePad(GamePadButton::East), p)),
        spec_controller_key(ControllerInput::B(p)) == Some((ControllerKey::GamePad(GamePadButton::B), p)),
        spec_controller_key(ControllerInput::C(p)) == Some((ControllerKey::GamePad(GamePadButton::C), p)),
        spec_controller_key(ControllerInput::North(p)) == Some((ControllerKey::GamePad(GamePadButton::North), p)),
        spec_controller_key(ControllerInput::X(p)) == Some((ControllerKey::GamePad(GamePadButton::X), p)),
        spec_controller_key(ControllerInput::West(p)) == Some((ControllerKey::GamePad(GamePadButton::West), p)),
        spec_controller_key(ControllerInput::Y(p)) == Some((ControllerKey::GamePad(GamePadButton::Y), p)),
        spec_controller_key(ControllerInput::Z(p)) == Some((ControllerKey::GamePad(GamePadButton::Z), p)),
        spec_controller_key(ControllerInput::LeftBumper(p)) == Some((ControllerKey::GamePad(GamePadButton::TL), p)),
        spec_controller_key(ControllerInput::RightBumper(p)) == Some((ControllerKey::GamePad(GamePadButton::TR), p)),
        spec_controller_key(ControllerInput::Select(p)) == Some(
            (ControllerKey::GamePad(GamePadButton::Select), p),
        ),
        spec_controller_key(ControllerInput::Start(p)) == Some((ControllerKey::GamePad(GamePadButton::Start), p)),
        spec_controller_key(ControllerInput::Mode(p)) == Some((ControllerKey::GamePad(GamePadButton::Mode), p)),
        spec_controller_key(ControllerInput::LeftThumb(p)) == Some(
            (ControllerKey::GamePad(GamePadButton::ThumbL), p),
        ),
        spec_controller_key(ControllerInput::RightThumb(p)) == Some(
            (ControllerKey::GamePad(GamePadButton::ThumbR), p),
        ),
        spec_controller_key(ControllerInput::Menu(p)) == Some((ControllerKey::GamePad(GamePadButton::Mode), p)),
        spec_controller_key(ControllerInput::Home(p)) == Some((ControllerKey::GamePad(GamePadButton::Mode), p)),
        spec_controller_key(ControllerInput::Up(p)) == Some((ControllerKey::DPad(DPadDirection::Up), p)),
        spec_controller_key(ControllerInput::Down(p)) == Some((ControllerKey::DPad(DPadDirection::Down), p)),
        spec_controller_key(ControllerInput::Left(p)) == Some((ControllerKey::DPad(DPadDirection::Left), p)),
        spec_controller_key(ControllerInput::Right(p)) == Some((ControllerKey::DPad(DPadDirection::Right), p)),
        spec_digital_action(ControllerInput::Start(p)) == DigitalAction::Controller(
            ControllerKey::GamePad(GamePadButton::Start),
            p,
        ),
        spec_digital_action(ControllerInput::Select(p)) == DigitalAction::Controller(
            ControllerKey::GamePad(GamePadButton::Select),
            p,
        ),
{
}

/// On Linux the mouse inputs press the mouse button of their name and the key inputs the key of
/// their name (escape is a function key, the modifiers are the left ones); mouse and key inputs
/// go to the mouse device.
pub proof fn law_mouse_and_keyboard_keys(p: bool)
    ensures
        spec_mouse_key(ControllerInput::LeftMouse(p)) == Some((ControllerKey::Mouse(MouseButton::Left), p)),
        spec_mouse_key(ControllerInput::MiddleMouse(p)) == Some((ControllerKey::Mouse(MouseButton::Middle), p)),
        spec_mouse_key(ControllerInput::RightMouse(p)) == Some((ControllerKey::Mouse(MouseButton::Right), p)),
        spec_keyboard_key(ControllerInput::EnterKey(p)) == Some((KeyboardKey::Enter, p)),
        spec_keyboard_key(ControllerInput::EscKey(p)) == Some((KeyboardKey::Esc, p)),
        spec_keyboard_key(ControllerInput::CtrlKey(p)) == Some((KeyboardKey::LeftControl, p)),
        spec_keyboard_key(ControllerInput::ShiftKey(p)) == Some((KeyboardKey::LeftShift, p)),
        spec_keyboard_key(ControllerInput::AltKey(p)) == Some((KeyboardKey::LeftAlt, p)),
        spec_keyboard_key(ControllerInput::MetaKey(p)) == Some((KeyboardKey::LeftMeta, p)),
        spec_keyboard_key(ControllerInput::UpKey(p)) == Some((KeyboardKey::Up, p)),
        spec_keyboard_key(ControllerInput::DownKey(p)) == Some((KeyboardKey::Down, p)),
        spec_keyboard_key(ControllerInput::LeftKey(p)) == Some((KeyboardKey::Left, p)),
        spec_keyboard_key(ControllerInput::RightKey(p)) == Some((KeyboardKey::Right, p)),
        spec_digital_action(ControllerInput::LeftMouse(p)) == DigitalAction::Mouse(
            ControllerKey::Mouse(MouseButton::Left),
            p,
        ),
        spec_digital_action(ControllerInput::EnterKey(p)) == DigitalAction::Keyboard(KeyboardKey::Enter, p),
        spec_digital_action(ControllerInput::Ignore) == DigitalAction::Ignore,
{
}

/// On Linux the d-pad also moves the hat: left and up to -1, right and down to +1, each back to
/// 0 when released.
pub proof fn law_hat_directions(p: bool)
    ensures
        spec_hat_position(ControllerInput::Left(p)) == Some((HatAxis::X0, if p { -1i32 } else { 0i32 })),
        spec_hat_position(ControllerInput::Right(p)) == Some((HatAxis::X0, if p { 1i32 } else { 0i32 })),
        spec_hat_position(ControllerInput::Up(p)) == Some((HatAxis::Y0, if p { -1i32 } else { 0i32 })),
        spec_hat_position(ControllerInput::Down(p)) == Some((HatAxis::Y0, if p { 1i32 } else { 0i32 })),
        spec_hat_position(ControllerInput::A(p)) is None,
{
}

/// On Windows every digital input sets the Xbox button of its name: South and A as A, East and
/// B as B, North and Y as Y, West and X as X, the bumpers as LB and RB, select as back, start,
/// the thumbs, the d-pad, and mode, menu and home as the guide button.
pub proof fn law_xbox_buttons(p: bool)
    ensures
        spec_xbutton(ControllerInput::South(p)) == Some((XBUTTON_A, p)),
        spec_xbutton(ControllerInput::A(p)) == Some((XBUTTON_A, p)),
        spec_xbutton(ControllerInput::East(p)) == Some((XBUTTON_B, p)),
        spec_xbutton(ControllerInput::B(p)) == Some((XBUTTON_B, p)),
        spec_xbutton(ControllerInput::North(p)) == Some((XBUTTON_Y, p)),
        spec_xbutton(ControllerInput::Y(p)) == Some((XBUTTON_Y, p)),
        spec_xbutton(ControllerInput::West(p)) == Some((XBUTTON_X, p)),
        spec_xbutton(ControllerInput::X(p)) == Some((XBUTTON_X, p)),
        spec_xbutton(ControllerInput::LeftBumper(p)) == Some((XBUTTON_LB, p)),
        spec_xbutton(ControllerInput::RightBumper(p)) == Some((XBUTTON_RB, p)),
        spec_xbutton(ControllerInput::Select(p)) == Some((XBUTTON_BACK, p)),
        spec_xbutton(ControllerInput::Start(p)) == Some((XBUTTON_START, p)),
        spec_xbutton(ControllerInput::Mode(p)) == Some((XBUTTON_GUIDE, p)),
        spec_xbutton(ControllerInput::Menu(p)) == Some((XBUTTON_GUIDE, p)),
        spec_xbutton(ControllerInput::Home(p)) == Some((XBUTTON_GUIDE, p)),
        spec_xbutton(ControllerInput::LeftThumb(p)) == Some((XBUTTON_LTHUMB, p)),
        spec_xbutton(ControllerInput::RightThumb(p)) == Some((XBUTTON_RTHUMB, p)),
        spec_xbutton(ControllerInput::Up(p)) == Some((XBUTTON_UP, p)),
        spec_xbutton(ControllerInput::Down(p)) == Some((XBUTTON_DOWN, p)),
        spec_xbutton(ControllerInput::Left(p)) == Some((XBUTTON_LEFT, p)),
        spec_xbutton(ControllerInput::Right(p)) == Some((XBUTTON_RIGHT, p)),
        spec_xbutton(ControllerInput::Z(p)) is None,
        spec_xbutton(ControllerInput::C(p)) is None,
{
}

// ---------------------------------------------------------------------------
// Packets
// ---------------------------------------------------------------------------

/// A packet is 64 bytes: the feature report flag 0x01, the command, the payload's length, the
/// payload, then zeros.
pub proof fn law_packet_layout(command: u8, payload: Seq<u8>)
    requires
        payload.len() <= 61,
    ensures
        ({
            let p = SteamController::decorated(command, payload);
            &&& p.len() == 64
            &&& p[0] == 0x01
            &&& p[1] == command
            &&& p[2] == payload.len()
            &&& forall|k: int| 0 <= k < payload.len() ==> p[3 + k] == payload[k]
            &&& forall|k: int| 3 + payload.len() <= k < 64 ==> p[k] == 0
        }),
{
}

/// The lizard-mode packet sets setting 0x09 to zero with the set-setting command 0x87; the
/// turn-off packet is command 0x9f with "off!".
pub proof fn law_fixed_packets()
    ensures
        SteamController::decorated(crate::steam_controller::SET_SETTING_CMD, SteamController::lizard_mode_payload())
            == seq![0x01u8, 0x87u8, 0x03u8, 0x09u8, 0x00u8, 0x00u8] + Seq::new(58, |i: int| 0u8),
        SteamController::turn_off_bytes() == seq![0x01u8, 0x9fu8, 0x04u8, 0x6fu8, 0x66u8, 0x66u8, 0x21u8]
            + Seq::new(57, |i: int| 0u8),
{
    assert(SteamController::decorated(crate::steam_controller::SET_SETTING_CMD, SteamController::lizard_mode_payload())
        =~= seq![0x01u8, 0x87u8, 0x03u8, 0x09u8, 0x00u8, 0x00u8] + Seq::new(58, |i: int| 0u8));
    assert(SteamController::turn_off_bytes() =~= seq![0x01u8, 0x9fu8, 0x04u8, 0x6fu8, 0x66u8, 0x66u8, 0x21u8]
        + Seq::new(57, |i: int| 0u8));
}

// ---------------------------------------------------------------------------
// Devices
// ---------------------------------------------------------------------------

/// The supported devices are Valve's (vendor 0x28de) Steam Controllers by cable (0x1302),
/// Bluetooth (0x1303) and puck (0x1304).
pub proof fn law_supported_ids(vendor_id: u16, product_id: u16)
    ensures
        is_supported(vendor_id, product_id) <==> vendor_id == 0x28de && (product_id == 0x1302 || product_id
            == 0x1303 || product_id == 0x1304),
{
    let v = crate::discovery::supported_vendor_ids();
    let p = crate::discovery::supported_product_ids();
    if vendor_id == 0x28de {
        assert(v[0] == vendor_id);
    }
    if product_id == 0x1302 {
        assert(p[0] == product_id);
    }
    if product_id == 0x1303 {
        assert(p[1] == product_id);
    }
    if product_id == 0x1304 {
        assert(p[2] == product_id);
    }
}

/// Counting the supported devices counts each interface once: nothing counts nothing, a
/// single interface counts one exactly when it is supported, and the count of two lists put
/// together is the sum of their counts.
pub proof fn law_count_supported(a: Seq<(u16, u16)>, b: Seq<(u16, u16)>, d: (u16, u16))
    ensures
        count_supported(Seq::empty()) == 0,
        count_supported(seq![d]) == if is_supported(d.0, d.1) { 1int } else { 0int },
        count_supported(a + b) == count_supported(a) + count_supported(b),
    decreases b.len(),
{
    assert(seq![d].drop_last() =~= Seq::<(u16, u16)>::empty());
    if b.len() == 0 {
        assert(a + b =~= a);
    } else {
        law_count_supported(a, b.drop_last(), d);
        assert((a + b).drop_last() =~= a + b.drop_last());
        assert((a + b).last() == b.last());
    }
}

/// The interfaces taken as controllers are exactly the supported ones at positions divisible by
/// three, each once and in ascending order.
pub proof fn law_controller_interfaces(devices: Seq<(u16, u16)>, n: int)
    requires
        0 <= n <= devices.len(),
        devices.len() <= usize::MAX,
    ensures
        forall|j: int| 0 <= j < interfaces_below(devices, n).len() ==> {
            let k = #[trigger] interfaces_below(devices, n)[j] as int;
            &&& k < n
            &&& k % 3 == 0
            &&& is_supported(devices[k].0, devices[k].1)
        },
        forall|a: int, b: int| 0 <= a < b < interfaces_below(devices, n).len() ==> #[trigger] interfaces_below(devices, n)[a]
            < #[trigger] interfaces_below(devices, n)[b],
        forall|k: int| 0 <= k < n && k % 3 == 0 && #[trigger] is_supported(devices[k].0, devices[k].1) ==> exists|j: int|
            0 <= j < interfaces_below(devices, n).len() && #[trigger] interfaces_below(devices, n)[j] as int == k,
    decreases n,
{
    if n > 0 {
        law_controller_interfaces(devices, n - 1);
        let rest = interfaces_below(devices, n - 1);
        let cur = interfaces_below(devices, n);
        if (n - 1) % 3 == 0 && is_supported(devices[n - 1].0, devices[n - 1].1) {
            assert(cur == rest.push((n - 1) as usize));
            assert(cur[rest.len() as int] as int == n - 1);
            assert forall|k: int| 0 <= k < n && k % 3 == 0 && #[trigger] is_supported(devices[k].0, devices[k].1)
                implies exists|j: int| 0 <= j < cur.len() && #[trigger] cur[j] as int == k by {
                if k == n - 1 {
                    assert(cur[rest.len() as int] as int == k);
                } else {
                    let j = choose|j: int| 0 <= j < rest.len() && #[trigger] rest[j] as int == k;
                    assert(cur[j] == rest[j]);
                }
            }
        } else {
            assert(cur == rest);
        }
    }
}

// ---------------------------------------------------------------------------
// Texts
// ---------------------------------------------------------------------------

/// The value of a text of decimal digits.
pub open spec fn digits_value(s: Seq<char>) -> int
    decreases s.len(),
{
    if s.len() == 0 {
        0
    } else {
        digits_value(s.drop_last()) * 10 + (s.last() as int - '0' as int)
    }
}

/// The decimal notation of a number is made of digits, has no leading zero, and reads back as
/// the number.
pub proof fn law_decimal_reads_back(n: nat)
    ensures
        digits_value(decimal(n)) == n,
        forall|k: int| 0 <= k < decimal(n).len() ==> '0' <= #[trigger] decimal(n)[k] <= '9',
        decimal(n).len() >= 1,
        decimal(n).len() > 1 <==> n >= 10,
        decimal(n).len() > 1 ==> decimal(n)[0] != '0',
    decreases n,
{
    if n >= 10 {
        law_decimal_reads_back(n / 10);
        let d = decimal(n / 10);
        let c = hex_digit_char(n % 10);
        assert(decimal(n) == d.push(c));
        assert(decimal(n).drop_last() == d);
        assert(c as int - '0' as int == n % 10);
        assert(n == (n / 10) * 10 + n % 10);
        assert(digits_value(decimal(n)) == digits_value(d) * 10 + (c as int - '0' as int));
        assert forall|k: int| 0 <= k < decimal(n).len() implies '0' <= #[trigger] decimal(n)[k] <= '9' by {
            if k < d.len() {
                assert(decimal(n)[k] == d[k]);
            }
        }
        assert(decimal(n)[0] == d[0]);
        if d.len() == 1 {
            assert(n / 10 < 10);
            assert(n / 10 >= 1);
            assert(d[0] == hex_digit_char(n / 10));
        }
    } else {
        assert(decimal(n) == seq![hex_digit_char(n)]);
        assert(decimal(n).drop_last() == Seq::<char>::empty());
        assert(hex_digit_char(n) as int - '0' as int == n);
        assert(digits_value(decimal(n)) == digits_value(Seq::<char>::empty()) * 10 + (hex_digit_char(n) as int
            - '0' as int));
    }
}

/// The four hexadecimal digits of a number are its nibbles, most significant first, in upper
/// case.
pub proof fn law_hex4_digits(v: u16)
    ensures
        hex4(v).len() == 4,
        forall|k: int| 0 <= k < 4 ==> {
            let nibble = (v as int / pow16(3 - k)) % 16;
            #[trigger] hex4(v)[k] == if nibble < 10 {
                ('0' as int + nibble) as char
            } else {
                ('A' as int + nibble - 10) as char
            }
        },
{
    assert forall|k: int| 0 <= k < 4 implies {
        let nibble = (v as int / pow16(3 - k)) % 16;
        #[trigger] hex4(v)[k] == if nibble < 10 {
            ('0' as int + nibble) as char
        } else {
            ('A' as int + nibble - 10) as char
        }
    } by {
        assert(pow16(0) == 1);
        assert(pow16(1) == 16);
        assert(pow16(2) == 256);
        assert(pow16(3) == 4096);
    }
}

/// Sixteen to the power `e`, for `e` up to 3.
pub open spec fn pow16(e: int) -> int {
    if e <= 0 {
        1
    } else if e == 1 {
        16
    } else if e == 2 {
        256
    } else {
        4096
    }
}

/// The texts of the charging states and of booleans, and the rule for numbers with units.
pub proof fn law_status_texts(v: u8, suffix: Seq<char>)
    ensures
        charging_text(ChargingStatus::NotCharging) == "Not charging"@,
        charging_text(ChargingStatus::Charging) == "Charging"@,
        charging_text(ChargingStatus::FullyCharged) == "Fully charged"@,
        charging_text(ChargingStatus::ChargeError) == "Charging error!"@,
        bool_text(true) == "true"@,
        bool_text(false) == "false"@,
        (v != 0 || suffix != "min"@) ==> int_value_text(v, suffix) == decimal(v as nat) + suffix,
        int_value_text(0, "min"@) == "never"@,
{
}

// ---------------------------------------------------------------------------
// Windows button word
// ---------------------------------------------------------------------------

/// The Xbox button flags are the XInput bits: d-pad up, down, left, right in bits 0 to 3, start,
/// back, the thumbs in bits 4 to 7, the bumpers in bits 8 and 9, guide in bit 10, and A, B, X, Y
/// in bits 12 to 15.
pub proof fn law_xbox_flag_values()
    ensures
        XBUTTON_UP == 1u16 << 0u16,
        XBUTTON_DOWN == 1u16 << 1u16,
        XBUTTON_LEFT == 1u16 << 2u16,
        XBUTTON_RIGHT == 1u16 << 3u16,
        XBUTTON_START == 1u16 << 4u16,
        XBUTTON_BACK == 1u16 << 5u16,
        XBUTTON_LTHUMB == 1u16 << 6u16,
        XBUTTON_RTHUMB == 1u16 << 7u16,
        XBUTTON_LB == 1u16 << 8u16,
        XBUTTON_RB == 1u16 << 9u16,
        XBUTTON_GUIDE == 1u16 << 10u16,
        XBUTTON_A == 1u16 << 12u16,
        XBUTTON_B == 1u16 << 13u16,
        XBUTTON_X == 1u16 << 14u16,
        XBUTTON_Y == 1u16 << 15u16,
{
    assert(1u16 << 0u16 == 0x0001u16) by (bit_vector);
    assert(1u16 << 1u16 == 0x0002u16) by (bit_vector);
    assert(1u16 << 2u16 == 0x0004u16) by (bit_vector);
    assert(1u16 << 3u16 == 0x0008u16) by (bit_vector);
    assert(1u16 << 4u16 == 0x0010u16) by (bit_vector);
    assert(1u16 << 5u16 == 0x0020u16) by (bit_vector);
    assert(1u16 << 6u16 == 0x0040u16) by (bit_vector);
    assert(1u16 << 7u16 == 0x0080u16) by (bit_vector);
    assert(1u16 << 8u16 == 0x0100u16) by (bit_vector);
    assert(1u16 << 9u16 == 0x0200u16) by (bit_vector);
    assert(1u16 << 10u16 == 0x0400u16) by (bit_vector);
    assert(1u16 << 12u16 == 0x1000u16) by (bit_vector);
    assert(1u16 << 13u16 == 0x2000u16) by (bit_vector);
    assert(1u16 << 14u16 == 0x4000u16) by (bit_vector);
    assert(1u16 << 15u16 == 0x8000u16) by (bit_vector);
}

} // verus!
