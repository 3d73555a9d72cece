use open_steam_controller::input::{ChargingStatus, ControllerInput, DeviceCommand, DeviceEvent};
use open_steam_controller::properties::{
    format_int_value, DeviceProperties, PropertyDescriptorWrapper, PropertyType,
};

fn fresh() -> DeviceProperties {
    DeviceProperties::new(0x1302, 0x28de, Some("Steam Controller".to_string()))
}

#[test]
fn format_int_value_never_for_zero_minutes() {
    assert_eq!(format_int_value(0, "min"), "never");
}

#[test]
fn format_int_value_other_values() {
    assert_eq!(format_int_value(0, "%"), "0%");
    assert_eq!(format_int_value(5, "min"), "5min");
    assert_eq!(format_int_value(255, ""), "255");
    assert_eq!(format_int_value(42, "%"), "42%");
    assert_eq!(format_int_value(10, "mi"), "10mi");
}

#[test]
fn new_properties_know_only_ids_and_name() {
    let p = fresh();
    assert_eq!(p.product_id, 0x1302);
    assert_eq!(p.vendor_id, 0x28de);
    assert_eq!(p.device_name.as_deref(), Some("Steam Controller"));
    assert_eq!(p.battery_level, None);
    assert_eq!(p.charging, None);
    assert_eq!(p.connected, None);
    assert_eq!(p.previous_button_bitmap, 0);
    assert!(!p.nintendo_layout);
    assert_eq!(p.controller_id, 99);
}

#[test]
fn charging_status_from_byte() {
    assert_eq!(ChargingStatus::from(0u8), ChargingStatus::NotCharging);
    assert_eq!(ChargingStatus::from(1u8), ChargingStatus::Charging);
    assert_eq!(ChargingStatus::from(2u8), ChargingStatus::FullyCharged);
    assert_eq!(ChargingStatus::from(3u8), ChargingStatus::ChargeError);
    assert_eq!(ChargingStatus::from(200u8), ChargingStatus::ChargeError);
}

#[test]
fn charging_status_texts() {
    assert_eq!(ChargingStatus::NotCharging.to_string(), "Not charging");
    assert_eq!(ChargingStatus::Charging.to_string(), "Charging");
    assert_eq!(ChargingStatus::FullyCharged.to_string(), "Fully charged");
    assert_eq!(ChargingStatus::ChargeError.to_string(), "Charging error!");
}

#[test]
fn get_properties_lists_four_descriptors() {
    let mut p = fresh();
    p.charging = Some(ChargingStatus::FullyCharged);
    p.battery_level = Some(77);
    let props = p.get_properties();
    assert_eq!(props.len(), 4);
    match &props[0] {
        PropertyDescriptorWrapper::String(d) => {
            assert_eq!(d.name, "charging_status");
            assert_eq!(d.pretty_name, "Charging status");
            assert_eq!(d.data.as_deref(), Some("Fully charged"));
            assert_eq!(d.property_type, PropertyType::AlwaysReadOnly);
            assert!(d.create_event.is_none());
        }
        _ => panic!("charging status should be a text"),
    }
    match &props[1] {
        PropertyDescriptorWrapper::Int(d, allowed) => {
            assert_eq!(d.name, "battery_level");
            assert_eq!(d.data, Some(77));
            assert_eq!(d.suffix, "%");
            assert!(allowed.is_empty());
        }
        _ => panic!("battery level should be a number"),
    }
    match &props[2] {
        PropertyDescriptorWrapper::Bool(d) => {
            assert_eq!(d.name, "connected");
            assert_eq!(d.data, None);
        }
        _ => panic!("connected should be a boolean"),
    }
    match &props[3] {
        PropertyDescriptorWrapper::Bool(d) => {
            assert_eq!(d.name, "nintendo_layout");
            assert_eq!(d.pretty_name, "Use Nintendo Layout");
            assert_eq!(d.data, Some(false));
            assert_eq!(d.property_type, PropertyType::ReadWrite);
            assert_eq!(d.create_event_for(true), Some(DeviceCommand::NintendoLayoutToggle));
        }
        _ => panic!("layout should be a boolean"),
    }
}

#[test]
fn display_of_fresh_properties_shows_layout_only() {
    let p = fresh();
    assert_eq!(p.to_string_with_padding(25), "Use Nintendo Layout:      false");
    assert_eq!(p.to_string(), "Use Nintendo Layout:      false");
}

#[test]
fn display_of_known_properties() {
    let mut p = fresh();
    p.charging = Some(ChargingStatus::Charging);
    p.battery_level = Some(80);
    p.connected = Some(true);
    p.nintendo_layout = true;
    let expected = "Charging status:          Charging\nBattery level:            80%\nConnected:                true\nUse Nintendo Layout:      true";
    assert_eq!(p.to_string_with_padding(25), expected);
    // no property of this device is read-only on its own, so no marker appears
    assert_eq!(p.to_string_with_readonly_info(25), expected);
    assert_eq!(p.to_string(), expected);
}

#[test]
fn display_with_short_padding_does_not_cut() {
    let mut p = fresh();
    p.battery_level = Some(0);
    assert_eq!(p.to_string_with_padding(5), "Battery level: 0%\nUse Nintendo Layout: false");
}

#[test]
fn update_self_with_event_stores_status() {
    let mut p = fresh();
    p.update_self_with_event(&DeviceEvent::BatteryLevel(55));
    p.update_self_with_event(&DeviceEvent::Charging(ChargingStatus::Charging));
    p.update_self_with_event(&DeviceEvent::WirelessConnected(true));
    p.update_self_with_event(&DeviceEvent::UpdateBitmap(0x1234));
    p.update_self_with_event(&DeviceEvent::Command(DeviceCommand::TurnOff));
    assert_eq!(p.battery_level, Some(55));
    assert_eq!(p.charging, Some(ChargingStatus::Charging));
    assert_eq!(p.connected, Some(true));
    assert_eq!(p.previous_button_bitmap, 0x1234);
    assert!(!p.nintendo_layout);
}

#[test]
fn try_apply_toggles_layout_and_defers_turn_off() {
    let mut p = fresh();
    assert!(!p.try_apply(DeviceCommand::NintendoLayoutToggle));
    assert!(p.nintendo_layout);
    assert!(p.try_apply(DeviceCommand::TurnOff));
    assert!(p.nintendo_layout);
    // toggling twice gives the layout back
    assert!(!p.try_apply(DeviceCommand::NintendoLayoutToggle));
    assert!(!p.nintendo_layout);
}

#[test]
fn clear_state_keeps_ids_and_name() {
    let mut p = fresh();
    p.battery_level = Some(3);
    p.connected = Some(false);
    p.nintendo_layout = true;
    p.controller_id = 2;
    p.previous_button_bitmap = 7;
    p.clear_state();
    assert_eq!(p, fresh());
}

#[test]
fn snapshot_is_equal() {
    let mut p = fresh();
    p.battery_level = Some(9);
    assert_eq!(p.snapshot(), p);
}

#[test]
fn keeps_querying_only_while_connected() {
    let mut p = fresh();
    assert!(!p.keeps_querying());
    p.connected = Some(false);
    assert!(!p.keeps_querying());
    p.connected = Some(true);
    assert!(p.keeps_querying());
}

#[test]
fn absorb_refresh_events_hands_on_presses() {
    let mut p = fresh();
    let mut pressed = vec![ControllerInput::Start(true)];
    let events = vec![
        DeviceEvent::ButtonPressed(ControllerInput::A(true)),
        DeviceEvent::BatteryLevel(12),
        DeviceEvent::ButtonPressed(ControllerInput::X(false)),
        DeviceEvent::Command(DeviceCommand::NintendoLayoutToggle),
    ];
    p.absorb_refresh_events(&events, &mut pressed);
    assert_eq!(pressed, vec![ControllerInput::Start(true), ControllerInput::A(true), ControllerInput::X(false)]);
    assert_eq!(p.battery_level, Some(12));
    // an active refresh does not apply commands
    assert!(!p.nintendo_layout);
}

#[test]
fn readonly_info_never_marks() {
    let mut p = fresh();
    for padding in [0usize, 10, 40] {
        p.charging = Some(ChargingStatus::ChargeError);
        p.battery_level = Some(100);
        p.connected = Some(false);
        let marked = p.to_string_with_readonly_info(padding);
        assert_eq!(marked, p.to_string_with_padding(padding));
        assert!(!marked.contains("(read-only)"));
    }
}
