use open_steam_controller::input::{
    wrap_controller_input_into_device_event, ChargingStatus, ControllerInput, DeviceCommand, DeviceEvent,
};
use open_steam_controller::properties::DeviceProperties;
use open_steam_controller::steam_controller::{
    convert_analog, convert_analog_2d, convert_analog_3d, parse_button_combinations, SteamController,
};

fn controller() -> SteamController {
    SteamController::new_from_state(DeviceProperties::new(0x1304, 0x28de, None))
}

/// An input report (64 bytes) with the given button word and all analog values at rest.
fn input_report(buttons: u32) -> Vec<u8> {
    let mut r = vec![0u8; 64];
    r[0] = 0x45;
    r[2..6].copy_from_slice(&buttons.to_le_bytes());
    r
}

fn resting_analog() -> Vec<DeviceEvent> {
    vec![
        DeviceEvent::ButtonPressed(ControllerInput::LeftTrigger(0)),
        DeviceEvent::ButtonPressed(ControllerInput::RightTrigger(0)),
        DeviceEvent::ButtonPressed(ControllerInput::LeftJoyStick(0, 0)),
        DeviceEvent::ButtonPressed(ControllerInput::RightJoyStick(0, 0)),
    ]
}

#[test]
fn analog_values_are_signed_little_endian() {
    assert_eq!(convert_analog(0xff, 0x7f), 32767);
    // the one reading below full deflection counts as full deflection
    assert_eq!(convert_analog(0x00, 0x80), -32767);
    assert_eq!(convert_analog(0x01, 0x80), -32767);
    assert_eq!(convert_analog(0x02, 0x80), -32766);
    assert_eq!(convert_analog(0xff, 0xff), -1);
    assert_eq!(convert_analog(0x34, 0x12), 0x1234);
}

#[test]
fn new_controller_starts_in_normal_mode() {
    let c = controller();
    assert!(!c.alt_mode);
    assert!(c.left_trackpad_prev.is_none());
    assert!(c.right_trackpad_prev.is_none());
    assert!(c.allow_passive_refresh());
    assert!(c.get_query_packets().is_empty());
    assert!(c.get_charging_packet().is_none());
    assert!(c.get_battery_packet().is_none());
    assert!(c.get_wireless_connected_status_packet().is_none());
}

#[test]
fn lizard_mode_packet() {
    let p = SteamController::get_disable_lizard_mode_packet();
    assert_eq!(p.len(), 64);
    assert_eq!(&p[0..6], &[0x01, 0x87, 0x03, 0x09, 0x00, 0x00]);
    assert!(p[6..].iter().all(|b| *b == 0));
}

#[test]
fn decorate_packet_layout() {
    let p = SteamController::decorate_packet(0x42, vec![7, 8]);
    assert_eq!(p.len(), 64);
    assert_eq!(&p[0..5], &[0x01, 0x42, 0x02, 7, 8]);
    assert!(p[5..].iter().all(|b| *b == 0));
}

#[test]
fn turn_off_packet() {
    let p = SteamController::get_turn_off_packet();
    assert_eq!(p.len(), 64);
    assert_eq!(&p[0..7], &[0x01, 0x9f, 0x04, b'o', b'f', b'f', b'!']);
    assert!(p[7..].iter().all(|b| *b == 0));
    // the turn-off packet is a decorated packet
    assert_eq!(p, SteamController::decorate_packet(0x9f, b"off!".to_vec()));
}

#[test]
fn status_report() {
    let mut c = controller();
    let mut r = vec![0u8; 16];
    r[0] = 0x43;
    r[1] = 3;
    r[2] = 87;
    let events = c.get_event_from_device_response(&r).unwrap();
    assert_eq!(
        events,
        vec![
            DeviceEvent::Charging(ChargingStatus::Charging),
            DeviceEvent::BatteryLevel(87),
            DeviceEvent::WirelessConnected(true),
        ]
    );
}

#[test]
fn status_charging_values() {
    let cases = [
        (1u8, ChargingStatus::NotCharging),
        (2, ChargingStatus::Charging),
        (3, ChargingStatus::Charging),
        (4, ChargingStatus::FullyCharged),
        (0, ChargingStatus::ChargeError),
        (9, ChargingStatus::ChargeError),
    ];
    for (byte, status) in cases {
        let mut r = vec![0u8; 16];
        r[0] = 0x43;
        r[1] = byte;
        assert_eq!(SteamController::handle_status(&r)[0], DeviceEvent::Charging(status));
    }
}

#[test]
fn connection_reports() {
    let mut c = controller();
    assert_eq!(c.get_event_from_device_response(&[0x79, 1]), Some(vec![DeviceEvent::WirelessConnected(false)]));
    assert_eq!(c.get_event_from_device_response(&[0x79, 2]), None);
    assert_eq!(c.get_event_from_device_response(&[0x79, 7]), None);
    assert_eq!(SteamController::handle_connection(1), Some(DeviceEvent::WirelessConnected(false)));
    assert_eq!(SteamController::handle_connection(2), None);
}

#[test]
fn unknown_report_gives_nothing() {
    let mut c = controller();
    assert_eq!(c.get_event_from_device_response(&[0x00, 1, 2, 3]), None);
}

#[test]
fn pressing_a() {
    let mut c = controller();
    let events = c.get_event_from_device_response(&input_report(0x1)).unwrap();
    let mut expected = vec![
        DeviceEvent::ButtonPressed(ControllerInput::A(true)),
        DeviceEvent::UpdateBitmap(1),
    ];
    expected.extend(resting_analog());
    assert_eq!(events, expected);
    // the trackpads now have a reading
    assert_eq!(c.left_trackpad_prev, Some((0, 0, 0)));
    assert_eq!(c.right_trackpad_prev, Some((0, 0, 0)));
}

#[test]
fn repeated_report_reports_buttons_once() {
    let mut c = controller();
    let report = input_report(0x1);
    let events = c.get_event_from_device_response(&report).unwrap();
    for e in &events {
        if !matches!(e, DeviceEvent::ButtonPressed(_)) {
            c.properties.update_self_with_event(e);
        }
    }
    let again = c.get_event_from_device_response(&report).unwrap();
    let mut expected = resting_analog();
    // both trackpads now have a previous reading and report no movement
    expected.push(DeviceEvent::ButtonPressed(ControllerInput::Wheel(0, 0)));
    expected.push(DeviceEvent::ButtonPressed(ControllerInput::Mouse(0, 0)));
    assert_eq!(again, expected);
    // and handle_buttons alone reports nothing
    assert!(c.handle_buttons([1, 0, 0, 0]).is_empty());
}

#[test]
fn releasing_a() {
    let mut c = controller();
    c.properties.previous_button_bitmap = 1;
    let events = c.handle_buttons([0, 0, 0, 0]);
    assert_eq!(
        events,
        vec![DeviceEvent::ButtonPressed(ControllerInput::A(false)), DeviceEvent::UpdateBitmap(0)]
    );
}

#[test]
fn unnamed_bits_are_ignored() {
    let mut c = controller();
    assert!(c.handle_buttons([0, 0, 0, 0xc0]).is_empty());
}

#[test]
fn home_with_y_turns_off() {
    let mut c = controller();
    c.properties.previous_button_bitmap = 1 << 3; // Y held
    let events = c.handle_buttons(((1u32 << 3) | (1 << 16)).to_le_bytes());
    assert_eq!(
        events,
        vec![
            DeviceEvent::ButtonPressed(ControllerInput::Home(true)),
            DeviceEvent::UpdateBitmap((1 << 3) | (1 << 16)),
            DeviceEvent::Command(DeviceCommand::TurnOff),
        ]
    );
}

#[test]
fn home_with_a_toggles_layout() {
    let mut c = controller();
    c.properties.previous_button_bitmap = 1 << 16; // Home held
    let events = c.handle_buttons((1u32 | (1 << 16)).to_le_bytes());
    assert_eq!(
        events,
        vec![
            DeviceEvent::ButtonPressed(ControllerInput::A(true)),
            DeviceEvent::UpdateBitmap(1 | (1 << 16)),
            DeviceEvent::ButtonPressed(ControllerInput::A(false)),
            DeviceEvent::ButtonPressed(ControllerInput::B(false)),
            DeviceEvent::Command(DeviceCommand::NintendoLayoutToggle),
        ]
    );
}

#[test]
fn parse_button_combinations_cases() {
    let none = parse_button_combinations(&vec![ControllerInput::A(true)], &vec![ControllerInput::B(true)]);
    assert!(none.is_empty());
    let off = parse_button_combinations(&vec![ControllerInput::Home(true)], &vec![ControllerInput::Y(true)]);
    assert_eq!(off, vec![DeviceEvent::Command(DeviceCommand::TurnOff)]);
    // turning off wins over the layout toggle
    let both = parse_button_combinations(
        &vec![ControllerInput::Y(true), ControllerInput::A(true)],
        &vec![ControllerInput::Home(true)],
    );
    assert_eq!(both, vec![DeviceEvent::Command(DeviceCommand::TurnOff)]);
}

#[test]
fn trigger_buttons_report_full_or_no_pull() {
    let mut c = controller();
    let events = c.handle_buttons(((1u32 << 8) | (1 << 18)).to_le_bytes());
    assert_eq!(
        events,
        vec![
            DeviceEvent::ButtonPressed(ControllerInput::RightTrigger(32767)),
            DeviceEvent::ButtonPressed(ControllerInput::LeftTrigger(32767)),
            DeviceEvent::UpdateBitmap((1 << 8) | (1 << 18)),
        ]
    );
}

#[test]
fn menu_switches_mode_a_report_later() {
    let mut c = controller();
    // pressing menu alone: the second mapping pass restores the previous menu state
    let events = c.handle_buttons((1u32 << 4).to_le_bytes());
    assert_eq!(events, vec![DeviceEvent::ButtonPressed(ControllerInput::Ignore), DeviceEvent::UpdateBitmap(16)]);
    assert!(!c.alt_mode);
    c.properties.previous_button_bitmap = 16;
    // with menu held, the next change switches to the alternative mode
    let events = c.handle_buttons((1u32 | (1 << 4)).to_le_bytes());
    assert_eq!(events, vec![DeviceEvent::ButtonPressed(ControllerInput::A(true)), DeviceEvent::UpdateBitmap(17)]);
    assert!(c.alt_mode);
    // in the alternative mode A is the enter key
    c.properties.previous_button_bitmap = 17;
    let events = c.handle_buttons((1u32 << 4).to_le_bytes());
    assert_eq!(
        events,
        vec![DeviceEvent::ButtonPressed(ControllerInput::EnterKey(false)), DeviceEvent::UpdateBitmap(16)]
    );
}

#[test]
fn get_buttons_in_both_modes() {
    let mut c = controller();
    let all = (1u32 << 30) - 1;
    let normal = c.get_buttons(1 | (1 << 5) | (1 << 22) | (1 << 27), all);
    assert_eq!(
        normal,
        vec![
            ControllerInput::A(true),
            ControllerInput::RightThumb(true),
            ControllerInput::LeftMouse(true),
            ControllerInput::LeftTriggerClick(true),
        ]
    );
    c.alt_mode = true;
    let alt = c.get_buttons(1 | (1 << 1) | (1 << 5) | (1 << 10) | (1 << 23) | (1 << 27), 0);
    assert_eq!(
        alt,
        vec![
            ControllerInput::EnterKey(false),
            ControllerInput::EscKey(false),
            ControllerInput::MiddleMouse(false),
            ControllerInput::DownKey(false),
            ControllerInput::LeftMouse(false),
            ControllerInput::RightMouse(false),
        ]
    );
}

#[test]
fn touching_a_pad_forgets_its_reading() {
    let mut c = controller();
    c.left_trackpad_prev = Some((1, 2, 3));
    c.right_trackpad_prev = Some((4, 5, 6));
    let out = c.get_buttons(1 << 21, 1 << 21);
    assert_eq!(out, vec![ControllerInput::Ignore]);
    assert_eq!(c.right_trackpad_prev, None);
    assert_eq!(c.left_trackpad_prev, Some((1, 2, 3)));
    c.get_buttons(1 << 25, 0);
    assert_eq!(c.left_trackpad_prev, None);
}

#[test]
fn triggers_and_sticks() {
    let c = controller();
    assert_eq!(
        c.handle_triggers([0xff, 0x7f, 0x00, 0x40]),
        vec![
            DeviceEvent::ButtonPressed(ControllerInput::LeftTrigger(32767)),
            DeviceEvent::ButtonPressed(ControllerInput::RightTrigger(16384)),
        ]
    );
    assert_eq!(
        c.handle_joysticks([0x01, 0x00, 0xff, 0xff, 0x00, 0x80, 0xff, 0x7f]),
        vec![
            DeviceEvent::ButtonPressed(ControllerInput::LeftJoyStick(1, -1)),
            DeviceEvent::ButtonPressed(ControllerInput::RightJoyStick(-32767, 32767)),
        ]
    );
}

#[test]
fn alternative_mode_sticks_move_wheel_and_mouse() {
    let mut c = controller();
    c.alt_mode = true;
    assert!(c.handle_triggers([0xff, 0x7f, 0xff, 0x7f]).is_empty());
    // small deflections are ignored: 20 * (x^2 + y^2) must exceed 32767^2
    assert!(c.handle_joysticks([0x00, 0x10, 0x00, 0x00, 0x00, 0x10, 0x00, 0x00]).is_empty());
    // 7327^2 * 20 = 1073682580 > 32767^2 = 1073676289; 7326 is below
    let x_in = 7327i16.to_le_bytes();
    let x_out = 7326i16.to_le_bytes();
    assert_eq!(
        c.handle_joysticks([x_in[0], x_in[1], 0, 0, x_out[0], x_out[1], 0, 0]),
        vec![DeviceEvent::ButtonPressed(ControllerInput::Wheel(7327, 0))]
    );
    let y = 10000i16.to_le_bytes();
    assert_eq!(
        c.handle_joysticks([0, 0, 0, 0, 0, 0, y[0], y[1]]),
        vec![DeviceEvent::ButtonPressed(ControllerInput::Mouse(0, -80000))]
    );
}

#[test]
fn trackpads_move_by_difference() {
    let mut c = controller();
    let mut first = [0u8; 12];
    first[0..2].copy_from_slice(&100i16.to_le_bytes());
    first[8..10].copy_from_slice(&(-20i16).to_le_bytes());
    assert!(c.handle_trackpads(first).is_empty());
    let mut second = first;
    second[0..2].copy_from_slice(&110i16.to_le_bytes());
    second[8..10].copy_from_slice(&(-15i16).to_le_bytes());
    assert_eq!(
        c.handle_trackpads(second),
        vec![
            DeviceEvent::ButtonPressed(ControllerInput::Wheel(10 * -64, 0)),
            DeviceEvent::ButtonPressed(ControllerInput::Mouse(0, -5 * 256)),
        ]
    );
    assert_eq!(c.left_trackpad_prev, Some((110, 0, 0)));
    assert_eq!(c.right_trackpad_prev, Some((0, -15, 0)));
}

#[test]
fn wrap_inputs_keeps_order() {
    let events = wrap_controller_input_into_device_event(&[ControllerInput::B(true), ControllerInput::Ignore]);
    assert_eq!(
        events,
        vec![
            DeviceEvent::ButtonPressed(ControllerInput::B(true)),
            DeviceEvent::ButtonPressed(ControllerInput::Ignore),
        ]
    );
}

#[test]
fn numbering_controllers() {
    let cs = vec![controller(), controller(), controller()];
    let numbered = SteamController::number_controllers(cs);
    let ids: Vec<u64> = numbered.iter().map(|c| c.properties.controller_id).collect();
    assert_eq!(ids, vec![0, 1, 2]);
}

#[test]
fn paddles_are_shoulder_buttons_and_touches_are_ignored() {
    let mut c = controller();
    let out = c.get_buttons((1 << 7) | (1 << 17) | (1 << 20) | (1 << 24), (1 << 7) | (1 << 17) | (1 << 20) | (1 << 24));
    assert_eq!(
        out,
        vec![
            ControllerInput::RightBumper(true),
            ControllerInput::LeftBumper(true),
            ControllerInput::Ignore,
            ControllerInput::Ignore,
        ]
    );
}

#[test]
fn analog_groups() {
    assert_eq!(convert_analog_2d([0x01, 0x00, 0x00, 0x80]), (1, -32767));
    assert_eq!(convert_analog_3d([0xff, 0xff, 0x02, 0x00, 0xff, 0x7f]), (-1, 2, 32767));
}
