//! Backend-independent controller inputs and the events a device produces.

use vstd::prelude::*;

verus! {

/// Full deflection of an analog control, as reported by the device.
///
/// A stick or trigger value `v` in `[-1, 1]` is carried as the integer `n` with
/// `v == n / ANALOG_MAX`, `n` between `-ANALOG_MAX` and `ANALOG_MAX`.
pub const ANALOG_MAX: i32 = 32767;

/// Backend independent controller inputs.
///
/// Analog values are exact: a stick, trigger, wheel or mouse amount `n` stands for the
/// real number `n / ANALOG_MAX`.
#[derive(Debug, Clone, Copy, PartialEq, Eq, Structural)]
pub enum ControllerInput {
    South(bool),
    A(bool),
    East(bool),
    B(bool),
    C(bool),
    North(bool),
    X(bool),
    West(bool),
    Y(bool),
    Z(bool),
    LeftBumper(bool),
    RightBumper(bool),
    Select(bool),
    Start(bool),
    Mode(bool),
    LeftThumb(bool),
    RightThumb(bool),
    Up(bool),
    Down(bool),
    Left(bool),
    Right(bool),
    Menu(bool),
    Home(bool),
    RightJoyStick(i16, i16),
    LeftJoyStick(i16, i16),
    LeftTrigger(i16),
    LeftTriggerClick(bool),
    RightTrigger(i16),
    RightTriggerClick(bool),
    Wheel(i32, i32),
    Mouse(i32, i32),
    LeftMouse(bool),
    MiddleMouse(bool),
    RightMouse(bool),
    EnterKey(bool),
    EscKey(bool),
    CtrlKey(bool),
    ShiftKey(bool),
    AltKey(bool),
    MetaKey(bool),
    UpKey(bool),
    DownKey(bool),
    LeftKey(bool),
    RightKey(bool),
    Ignore,
}

/// Commands targeting the controller.
#[derive(Debug, Clone, Copy, PartialEq, Eq, Structural)]
pub enum DeviceCommand {
    TurnOff,
    NintendoLayoutToggle,
}

/// Charging state of a controller.
#[derive(Debug, Clone, Copy, PartialEq, Eq, Structural)]
pub enum ChargingStatus {
    NotCharging,
    Charging,
    FullyCharged,
    ChargeError,
}

/// Events for or from the device.
#[derive(Debug, Clone, Copy, PartialEq, Eq, Structural)]
pub enum DeviceEvent {
    BatteryLevel(u8),
    Charging(ChargingStatus),
    WirelessConnected(bool),
    ButtonPressed(ControllerInput),
    UpdateBitmap(u64),
    Command(DeviceCommand),
}

/// The charging status that a raw status byte stands for.
pub open spec fn charging_status_of(value: u8) -> ChargingStatus {
    if value == 0 {
        ChargingStatus::NotCharging
    } else if value == 1 {
        ChargingStatus::Charging
    } else if value == 2 {
        ChargingStatus::FullyCharged
    } else {
        ChargingStatus::ChargeError
    }
}

impl From<u8> for ChargingStatus {
    fn from(value: u8) -> (status: ChargingStatus) {
        match value {
            0 => ChargingStatus::NotCharging,
            1 => ChargingStatus::Charging,
            2 => ChargingStatus::FullyCharged,
            _ => ChargingStatus::ChargeError,
        }
    }
}

impl vstd::std_specs::convert::FromSpecImpl<u8> for ChargingStatus {
    open spec fn obeys_from_spec() -> bool {
        true
    }

    open spec fn from_spec(value: u8) -> ChargingStatus {
        charging_status_of(value)
    }
}

/// Wraps each input into a `ButtonPressed` event, keeping the order.
pub open spec fn wrap_inputs(inputs: Seq<ControllerInput>) -> Seq<DeviceEvent> {
    inputs.map_values(|i: ControllerInput| DeviceEvent::ButtonPressed(i))
}

/// Wraps each input into a `ButtonPressed` event, keeping the order.
pub fn wrap_controller_input_into_device_event(input: &[ControllerInput]) -> (events: Vec<DeviceEvent>)
    ensures
        events@ == wrap_inputs(input@),
{
    let mut events: Vec<DeviceEvent> = Vec::new();
    let mut i: usize = 0;
    while i < input.len()
        invariant
            i <= input@.len(),
            events@ == wrap_inputs(input@.subrange(0, i as int)),
        decreases input@.len() - i,
    {
        events.push(DeviceEvent::ButtonPressed(input[i]));
        proof {
            assert(input@.subrange(0, i + 1) == input@.subrange(0, i as int).push(input@[i as int]));
        }
        i = i + 1;
    }
    proof {
        assert(input@.subrange(0, input@.len() as int) == input@);
    }
    events
}

} // verus!
