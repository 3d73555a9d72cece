use open_steam_controller::input::{ChargingStatus, ControllerInput, DeviceCommand, DeviceEvent};
use open_steam_controller::properties::DeviceProperties;
use open_steam_controller::discovery::{discovery_failure, DiscoveryFailure};
use open_steam_controller::refresh::{active_refresh_result, layout_input};
use open_steam_controller::steam_controller::SteamController;

fn fresh() -> DeviceProperties {
    DeviceProperties::new(0x1302, 0x28de, None)
}

#[test]
fn layout_swaps_face_buttons() {
    assert_eq!(layout_input(true, ControllerInput::A(true)), ControllerInput::B(true));
    assert_eq!(layout_input(true, ControllerInput::B(false)), ControllerInput::A(false));
    assert_eq!(layout_input(true, ControllerInput::X(true)), ControllerInput::Y(true));
    assert_eq!(layout_input(true, ControllerInput::Y(true)), ControllerInput::X(true));
    assert_eq!(layout_input(true, ControllerInput::Start(true)), ControllerInput::Start(true));
    assert_eq!(layout_input(false, ControllerInput::A(true)), ControllerInput::A(true));
    // seeing an input through the layout twice gives it back
    let x = ControllerInput::X(false);
    assert_eq!(layout_input(true, layout_input(true, x)), x);
}

#[test]
fn passive_refresh_with_nintendo_layout() {
    let mut p = fresh();
    p.nintendo_layout = true;
    let events = vec![
        DeviceEvent::ButtonPressed(ControllerInput::A(true)),
        DeviceEvent::Charging(ChargingStatus::FullyCharged),
        DeviceEvent::ButtonPressed(ControllerInput::Y(true)),
        DeviceEvent::UpdateBitmap(9),
    ];
    let mut pressed = Vec::new();
    let layout = p.nintendo_layout;
    let stop = p.process_passive_events(layout, &events, 0, &mut pressed);
    assert_eq!(stop, None);
    assert_eq!(pressed, vec![ControllerInput::B(true), ControllerInput::X(true)]);
    assert_eq!(p.charging, Some(ChargingStatus::FullyCharged));
    assert_eq!(p.previous_button_bitmap, 9);
}

#[test]
fn passive_refresh_stops_at_turn_off() {
    let mut p = fresh();
    let events = vec![
        DeviceEvent::ButtonPressed(ControllerInput::A(true)),
        DeviceEvent::Command(DeviceCommand::NintendoLayoutToggle),
        DeviceEvent::ButtonPressed(ControllerInput::A(false)),
        DeviceEvent::Command(DeviceCommand::TurnOff),
        DeviceEvent::BatteryLevel(1),
        DeviceEvent::ButtonPressed(ControllerInput::B(true)),
    ];
    let mut pressed = Vec::new();
    // the layout in effect is the one at the start of the refresh
    let stop = p.process_passive_events(false, &events, 0, &mut pressed);
    assert_eq!(stop, Some(3));
    assert_eq!(pressed, vec![ControllerInput::A(true), ControllerInput::A(false)]);
    assert!(p.nintendo_layout);
    assert_eq!(p.battery_level, None);
    // after the controller was turned off the rest is handled
    let stop = p.process_passive_events(false, &events, 4, &mut pressed);
    assert_eq!(stop, None);
    assert_eq!(pressed, vec![ControllerInput::A(true), ControllerInput::A(false), ControllerInput::B(true)]);
    assert_eq!(p.battery_level, Some(1));
}

#[test]
fn passive_refresh_from_the_end() {
    let mut p = fresh();
    let events = vec![DeviceEvent::BatteryLevel(4)];
    let mut pressed = Vec::new();
    assert_eq!(p.process_passive_events(false, &events, 1, &mut pressed), None);
    assert!(pressed.is_empty());
    assert_eq!(p, fresh());
}

#[test]
fn status_report_is_shown_after_refresh() {
    let mut c = SteamController::new_from_state(fresh());
    let mut report = vec![0u8; 64];
    report[0] = 0x43;
    report[1] = 4;
    report[2] = 93;
    let events = c.get_event_from_device_response(&report).unwrap();
    let mut pressed = Vec::new();
    c.properties.absorb_refresh_events(&events, &mut pressed);
    assert!(pressed.is_empty());
    assert_eq!(c.properties.charging, Some(ChargingStatus::FullyCharged));
    assert_eq!(c.properties.battery_level, Some(93));
    assert_eq!(c.properties.connected, Some(true));
    assert!(c.properties.keeps_querying());
    assert_eq!(
        c.properties.to_string(),
        "Charging status:          Fully charged\nBattery level:            93%\nConnected:                true\nUse Nintendo Layout:      false"
    );
}

#[test]
fn standard_layout_passive_matches_active() {
    let events = vec![
        DeviceEvent::ButtonPressed(ControllerInput::A(true)),
        DeviceEvent::ButtonPressed(ControllerInput::Y(false)),
        DeviceEvent::BatteryLevel(50),
    ];
    let mut active = fresh();
    let mut active_pressed = Vec::new();
    active.absorb_refresh_events(&events, &mut active_pressed);
    let mut passive = fresh();
    let mut passive_pressed = Vec::new();
    passive.process_passive_events(false, &events, 0, &mut passive_pressed);
    assert_eq!(active_pressed, passive_pressed);
    assert_eq!(active, passive);
}

#[test]
fn active_refresh_needs_an_answer() {
    assert_eq!(active_refresh_result(false, vec![ControllerInput::A(true)]), None);
    assert_eq!(active_refresh_result(true, vec![]), Some(vec![]));
}

#[test]
fn discovery_failure_prefers_open_error() {
    assert!(matches!(discovery_failure(Some("busy")), DiscoveryFailure::OpenFailed("busy")));
    assert!(matches!(discovery_failure::<&str>(None), DiscoveryFailure::NoDeviceFound));
}
