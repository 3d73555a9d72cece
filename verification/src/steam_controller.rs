//! Decoding of the Steam Controller's HID reports into device events.

use vstd::prelude::*;
use crate::input::{
    wrap_controller_input_into_device_event, wrap_inputs, ChargingStatus, ControllerInput, DeviceCommand,
    DeviceEvent, ANALOG_MAX,
};
use crate::properties::DeviceProperties;

verus! {

/// Valve's USB vendor id.
pub const VENDOR_ID: u16 = 0x28de;
/// Product id of a controller connected via cable.
pub const PRODUCT_ID_CABLE: u16 = 0x1302;
/// Product id of a controller connected via Bluetooth.
pub const PRODUCT_ID_BLUETOOTH: u16 = 0x1303;
/// Product id of a controller connected via the puck.
pub const PRODUCT_ID_PUCK: u16 = 0x1304;

/// Flag to start a feature report.
pub const FEATURE_REPORT: u8 = 0x01;
/// Command to set a setting.
pub const SET_SETTING_CMD: u8 = 0x87;
/// Command to turn the controller off.
pub const TURN_OFF_CMD: u8 = 0x9f;
/// Length of every packet sent to the controller.
pub const PACKET_LEN: usize = 64;
/// First possible prefix of a button event response.
pub const RESPONSE_INPUT_EVENT_FIRST: u8 = 0x45;
/// Second possible prefix of a button event response.
pub const RESPONSE_INPUT_EVENT_SECOND: u8 = 0x42;
/// Response prefix for a status event.
pub const RESPONSE_STATUS_EVENT: u8 = 0x43;
/// Response prefix for a connection event.
pub const RESPONSE_CONNECTION_EVENT: u8 = 0x79;

/// The bits of the button word that name a button (bits 0 to 29).
pub const BUTTON_MASK: u32 = 0x3FFF_FFFF;
/// Number of named buttons.
pub const BUTTON_COUNT: u32 = 30;
// Bits of the named buttons in the button word of an input report.
pub const BIT_A: u32 = 0;
pub const BIT_B: u32 = 1;
pub const BIT_X: u32 = 2;
pub const BIT_Y: u32 = 3;
/// Bit of the menu button, which toggles the alternative (mouse and keyboard) mode.
pub const BIT_MENU: u32 = 4;
pub const BIT_THUMB_RIGHT: u32 = 5;
pub const BIT_START: u32 = 6;
pub const BIT_R4: u32 = 7;
pub const BIT_R5: u32 = 8;
pub const BIT_R1: u32 = 9;
pub const BIT_DPAD_DOWN: u32 = 10;
pub const BIT_DPAD_RIGHT: u32 = 11;
pub const BIT_DPAD_LEFT: u32 = 12;
pub const BIT_DPAD_UP: u32 = 13;
pub const BIT_SELECT: u32 = 14;
pub const BIT_THUMB_LEFT: u32 = 15;
pub const BIT_STEAM: u32 = 16;
pub const BIT_L4: u32 = 17;
pub const BIT_L5: u32 = 18;
pub const BIT_L1: u32 = 19;
pub const BIT_THUMB_RIGHT_TOUCH: u32 = 20;
/// Bit of a touch on the right trackpad.
pub const BIT_PAD_RIGHT_TOUCH: u32 = 21;
pub const BIT_PAD_RIGHT_CLICK: u32 = 22;
pub const BIT_R2: u32 = 23;
pub const BIT_THUMB_LEFT_TOUCH: u32 = 24;
/// Bit of a touch on the left trackpad.
pub const BIT_PAD_LEFT_TOUCH: u32 = 25;
pub const BIT_PAD_LEFT_CLICK: u32 = 26;
pub const BIT_L2: u32 = 27;
pub const BIT_GRIP_RIGHT: u32 = 28;
pub const BIT_GRIP_LEFT: u32 = 29;

/// Trackpad as mouse speed multiplier.
pub const TRACKPAD_MOUSE_SPEED: i32 = 256;
/// Trackpad as wheel speed multiplier.
pub const TRACKPAD_WHEEL_SPEED: i32 = -64;
/// Joystick as mouse speed multiplier.
pub const STICK_MOUSE_SPEED: i32 = 8;
/// Joystick as wheel speed multiplier.
pub const STICK_WHEEL_SPEED: i32 = 1;

/// A trackpad reading: x, y and pressure.
pub type PadReading = (i16, i16, i16);

/// A connected Steam Controller: its properties and what the decoder remembers
/// between two reports.
pub struct SteamController {
    pub properties: DeviceProperties,
    pub left_trackpad_prev: Option<PadReading>,
    pub right_trackpad_prev: Option<PadReading>,
    pub alt_mode: bool,
}

// ---------------------------------------------------------------------------
// Byte level model
// ---------------------------------------------------------------------------

/// The signed little endian 16 bit number held by two bytes.
pub open spec fn le_i16(lo: u8, hi: u8) -> int {
    let u = lo + 256 * hi;
    if u >= 32768 {
        u - 65536
    } else {
        u
    }
}

/// The unsigned little endian 32 bit number held by four bytes.
pub open spec fn le_u32(b: Seq<u8>) -> int {
    b[0] + 256 * b[1] + 65536 * b[2] + 16777216 * b[3]
}

/// The analog value held by two bytes, between `-ANALOG_MAX` and `ANALOG_MAX`: the one
/// reading below full deflection (-32768) counts as full deflection.
pub open spec fn analog(lo: u8, hi: u8) -> int {
    let v = le_i16(lo, hi);
    if v < -ANALOG_MAX {
        -ANALOG_MAX as int
    } else {
        v
    }
}

/// Whether bit `i` of `x` is set.
pub open spec fn bit(x: u32, i: u32) -> bool {
    (x >> i) & 1u32 == 1u32
}

/// Converts two bytes of data into an analog value between -1 and 1 (in units of
/// `1 / ANALOG_MAX`).
pub fn convert_analog(lo: u8, hi: u8) -> (v: i16)
    ensures
        v as int == analog(lo, hi),
{
    let u: i32 = lo as i32 + 256 * (hi as i32);
    if u == 32768 {
        -32767
    } else if u > 32768 {
        (u - 65536) as i16
    } else {
        u as i16
    }
}

/// Converts four bytes of data into two analog axes.
pub fn convert_analog_2d(input: [u8; 4]) -> (r: (i16, i16))
    ensures
        r.0 as int == analog(input[0], input[1]),
        r.1 as int == analog(input[2], input[3]),
{
    (convert_analog(input[0], input[1]), convert_analog(input[2], input[3]))
}

/// Converts six bytes of data into three analog axes.
pub fn convert_analog_3d(input: [u8; 6]) -> (r: PadReading)
    ensures
        r == pad_reading(input@, 0),
{
    (convert_analog(input[0], input[1]), convert_analog(input[2], input[3]), convert_analog(input[4], input[5]))
}

fn le_bytes_u32(b: [u8; 4]) -> (v: u32)
    ensures
        v as int == le_u32(b@),
{
    b[0] as u32 + 256 * (b[1] as u32) + 65536 * (b[2] as u32) + 16777216 * (b[3] as u32)
}

/// Tests bit `i` of `x`.
pub fn test_bit(x: u32, i: u32) -> (r: bool)
    requires
        i < 32,
    ensures
        r == bit(x, i),
{
    (x >> i) & 1u32 == 1u32
}

// ---------------------------------------------------------------------------
// Buttons
// ---------------------------------------------------------------------------

/// The input that button bit `i` produces in the given mode when its state is `pressed`.
pub open spec fn button_input(i: u32, alt: bool, pressed: bool) -> ControllerInput {
    let trigger: i16 = if pressed { 32767 } else { 0 };
    if alt {
        if i == 0 { ControllerInput::EnterKey(pressed) }
        else if i == 1 { ControllerInput::EscKey(pressed) }
        else if i == 5 { ControllerInput::MiddleMouse(pressed) }
        else if i == 10 { ControllerInput::DownKey(pressed) }
        else if i == 11 { ControllerInput::RightKey(pressed) }
        else if i == 12 { ControllerInput::LeftKey(pressed) }
        else if i == 13 { ControllerInput::UpKey(pressed) }
        else if i == 22 { ControllerInput::LeftMouse(pressed) }
        else if i == 23 { ControllerInput::LeftMouse(pressed) }
        else if i == 27 { ControllerInput::RightMouse(pressed) }
        else { ControllerInput::Ignore }
    } else {
        if i == 0 { ControllerInput::A(pressed) }
        else if i == 1 { ControllerInput::B(pressed) }
        else if i == 2 { ControllerInput::X(pressed) }
        else if i == 3 { ControllerInput::Y(pressed) }
        else if i == 5 { ControllerInput::RightThumb(pressed) }
        else if i == 6 { ControllerInput::Start(pressed) }
        else if i == 7 { ControllerInput::RightBumper(pressed) }
        else if i == 8 { ControllerInput::RightTrigger(trigger) }
        else if i == 9 { ControllerInput::RightBumper(pressed) }
        else if i == 10 { ControllerInput::Down(pressed) }
        else if i == 11 { ControllerInput::Right(pressed) }
        else if i == 12 { ControllerInput::Left(pressed) }
        else if i == 13 { ControllerInput::Up(pressed) }
        else if i == 14 { ControllerInput::Select(pressed) }
        else if i == 15 { ControllerInput::LeftThumb(pressed) }
        else if i == 16 { ControllerInput::Home(pressed) }
        else if i == 17 { ControllerInput::LeftBumper(pressed) }
        else if i == 18 { ControllerInput::LeftTrigger(trigger) }
        else if i == 19 { ControllerInput::LeftBumper(pressed) }
        else if i == 22 { ControllerInput::LeftMouse(pressed) }
        else if i == 23 { ControllerInput::RightTriggerClick(pressed) }
        else if i == 27 { ControllerInput::LeftTriggerClick(pressed) }
        else { ControllerInput::Ignore }
    }
}

fn button_input_exec(i: u32, alt: bool, pressed: bool) -> (r: ControllerInput)
    ensures
        r == button_input(i, alt, pressed),
{
    let trigger: i16 = if pressed { 32767 } else { 0 };
    if alt {
        match i {
            0 => ControllerInput::EnterKey(pressed),
            1 => ControllerInput::EscKey(pressed),
            5 => ControllerInput::MiddleMouse(pressed),
            10 => ControllerInput::DownKey(pressed),
            11 => ControllerInput::RightKey(pressed),
            12 => ControllerInput::LeftKey(pressed),
            13 => ControllerInput::UpKey(pressed),
            22 => ControllerInput::LeftMouse(pressed),
            23 => ControllerInput::LeftMouse(pressed),
            27 => ControllerInput::RightMouse(pressed),
            _ => ControllerInput::Ignore,
        }
    } else {
        match i {
            0 => ControllerInput::A(pressed),
            1 => ControllerInput::B(pressed),
            2 => ControllerInput::X(pressed),
            3 => ControllerInput::Y(pressed),
            5 => ControllerInput::RightThumb(pressed),
            6 => ControllerInput::Start(pressed),
            7 => ControllerInput::RightBumper(pressed),
            8 => ControllerInput::RightTrigger(trigger),
            9 => ControllerInput::RightBumper(pressed),
            10 => ControllerInput::Down(pressed),
            11 => ControllerInput::Right(pressed),
            12 => ControllerInput::Left(pressed),
            13 => ControllerInput::Up(pressed),
            14 => ControllerInput::Select(pressed),
            15 => ControllerInput::LeftThumb(pressed),
            16 => ControllerInput::Home(pressed),
            17 => ControllerInput::LeftBumper(pressed),
            18 => ControllerInput::LeftTrigger(trigger),
            19 => ControllerInput::LeftBumper(pressed),
            22 => ControllerInput::LeftMouse(pressed),
            23 => ControllerInput::RightTriggerClick(pressed),
            27 => ControllerInput::LeftTriggerClick(pressed),
            _ => ControllerInput::Ignore,
        }
    }
}

/// The mode in effect when bit `i` of `changes` is mapped: the menu button (bit 4) switches
/// the mode for every later bit.
pub open spec fn alt_at(changes: u32, states: u32, alt0: bool, i: u32) -> bool {
    if i > BIT_MENU && bit(changes, BIT_MENU) {
        bit(states, BIT_MENU)
    } else {
        alt0
    }
}

/// The inputs for the set bits of `changes` below `n`, in ascending bit order, each reported
/// pressed or released as `states` says.
pub open spec fn buttons_seq(changes: u32, states: u32, alt0: bool, n: u32) -> Seq<ControllerInput>
    decreases n,
{
    if n == 0 {
        Seq::empty()
    } else {
        let i = (n - 1) as u32;
        let rest = buttons_seq(changes, states, alt0, i);
        if bit(changes, i) {
            rest.push(button_input(i, alt_at(changes, states, alt0, i), bit(states, i)))
        } else {
            rest
        }
    }
}

/// Special events for button combinations: home with Y turns the controller off, home with
/// A releases A and B and toggles the Nintendo layout. `all` holds the buttons held before,
/// `changes` the buttons that just changed.
pub open spec fn combination_events(all: Seq<ControllerInput>, changes: Seq<ControllerInput>) -> Seq<DeviceEvent> {
    let home = ControllerInput::Home(true);
    let y = ControllerInput::Y(true);
    let a = ControllerInput::A(true);
    if (all.contains(y) && changes.contains(home)) || (changes.contains(y) && all.contains(home)) {
        seq![DeviceEvent::Command(DeviceCommand::TurnOff)]
    } else if (all.contains(a) && changes.contains(home)) || (changes.contains(a) && all.contains(home)) {
        seq![
            DeviceEvent::ButtonPressed(ControllerInput::A(false)),
            DeviceEvent::ButtonPressed(ControllerInput::B(false)),
            DeviceEvent::Command(DeviceCommand::NintendoLayoutToggle),
        ]
    } else {
        Seq::empty()
    }
}

/// Whether `inputs` holds `x`.
pub fn contains_input(inputs: &Vec<ControllerInput>, x: ControllerInput) -> (r: bool)
    ensures
        r == inputs@.contains(x),
{
    let mut i: usize = 0;
    while i < inputs.len()
        invariant
            i <= inputs@.len(),
            forall|j: int| 0 <= j < i ==> inputs@[j] != x,
        decreases inputs@.len() - i,
    {
        if inputs[i] == x {
            return true;
        }
        i = i + 1;
    }
    false
}

/// Parses button combinations to generate special events.
pub fn parse_button_combinations(all_buttons: &Vec<ControllerInput>, changes: &Vec<ControllerInput>) -> (r: Vec<DeviceEvent>)
    ensures
        r@ == combination_events(all_buttons@, changes@),
{
    let home = ControllerInput::Home(true);
    let y = ControllerInput::Y(true);
    let a = ControllerInput::A(true);
    if (contains_input(all_buttons, y) && contains_input(changes, home)) || (contains_input(changes, y)
        && contains_input(all_buttons, home)) {
        vec![DeviceEvent::Command(DeviceCommand::TurnOff)]
    } else if (contains_input(all_buttons, a) && contains_input(changes, home)) || (contains_input(changes, a)
        && contains_input(all_buttons, home)) {
        let r = vec![
            DeviceEvent::ButtonPressed(ControllerInput::A(false)),
            DeviceEvent::ButtonPressed(ControllerInput::B(false)),
            DeviceEvent::Command(DeviceCommand::NintendoLayoutToggle),
        ];
        assert(r@ =~= combination_events(all_buttons@, changes@));
        r
    } else {
        Vec::new()
    }
}

/// The status byte of a status report as a charging status.
pub open spec fn status_charging(b: u8) -> ChargingStatus {
    if b == 1 {
        ChargingStatus::NotCharging
    } else if b == 2 || b == 3 {
        ChargingStatus::Charging
    } else if b == 4 {
        ChargingStatus::FullyCharged
    } else {
        ChargingStatus::ChargeError
    }
}

/// Whether a stick is moved far enough to count in the alternative mode: the squared
/// deflection `(x / ANALOG_MAX)^2 + (y / ANALOG_MAX)^2` exceeds `0.05`.
pub open spec fn stick_deflected(x: i16, y: i16) -> bool {
    20 * (x * x + y * y) > ANALOG_MAX * ANALOG_MAX
}

fn stick_deflected_exec(x: i16, y: i16) -> (r: bool)
    ensures
        r == stick_deflected(x, y),
{
    let xi: i64 = x as i64;
    let yi: i64 = y as i64;
    assert(0 <= xi * xi <= 32768 * 32768) by (nonlinear_arith)
        requires -32768 <= xi <= 32767;
    assert(0 <= yi * yi <= 32768 * 32768) by (nonlinear_arith)
        requires -32768 <= yi <= 32767;
    let xx: i64 = xi * xi;
    let yy: i64 = yi * yi;
    20 * (xx + yy) > 32767i64 * 32767i64
}

/// A reading of three analog values from six bytes.
pub open spec fn pad_reading(b: Seq<u8>, at: int) -> PadReading {
    (
        analog(b[at], b[at + 1]) as i16,
        analog(b[at + 2], b[at + 3]) as i16,
        analog(b[at + 4], b[at + 5]) as i16,
    )
}

impl SteamController {
    // -----------------------------------------------------------------------
    // Specification of the decoder
    // -----------------------------------------------------------------------

    /// The button word of a report, cut to the named buttons.
    pub open spec fn report_bitmap(b: Seq<u8>) -> u32 {
        (le_u32(b) as u32) & BUTTON_MASK
    }

    /// The button word remembered from the previous report, cut to the named buttons.
    pub open spec fn previous_bitmap(self) -> u32 {
        (self.properties.previous_button_bitmap as u32) & BUTTON_MASK
    }

    /// The decoder after mapping the buttons of `changes`: the menu button sets the mode,
    /// a trackpad touch forgets that pad's last reading.
    pub open spec fn after_get_buttons(self, changes: u32, states: u32) -> SteamController {
        SteamController {
            alt_mode: if bit(changes, BIT_MENU) { bit(states, BIT_MENU) } else { self.alt_mode },
            right_trackpad_prev: if bit(changes, BIT_PAD_RIGHT_TOUCH) { None } else { self.right_trackpad_prev },
            left_trackpad_prev: if bit(changes, BIT_PAD_LEFT_TOUCH) { None } else { self.left_trackpad_prev },
            ..self
        }
    }

    /// Events and next decoder state for the four button bytes `b` of an input report.
    ///
    /// When buttons changed: the changed buttons with their new state, the new button word,
    /// then the combination events computed from the buttons held now (with their previous
    /// state) and the changed ones.
    pub open spec fn spec_handle_buttons(self, b: Seq<u8>) -> (SteamController, Seq<DeviceEvent>) {
        let now = Self::report_bitmap(b);
        let prev = self.previous_bitmap();
        let changed = now ^ prev;
        if changed == 0 {
            (self, Seq::empty())
        } else {
            let first = buttons_seq(changed, now, self.alt_mode, BUTTON_COUNT);
            let s1 = self.after_get_buttons(changed, now);
            let second = buttons_seq(now, prev, s1.alt_mode, BUTTON_COUNT);
            let s2 = s1.after_get_buttons(now, prev);
            (
                s2,
                wrap_inputs(first).push(DeviceEvent::UpdateBitmap(now as u64)) + combination_events(second, first),
            )
        }
    }

    /// Events for the four trigger bytes `b`: both trigger values, none in the alternative mode.
    pub open spec fn spec_handle_triggers(self, b: Seq<u8>) -> Seq<DeviceEvent> {
        if self.alt_mode {
            Seq::empty()
        } else {
            wrap_inputs(seq![
                ControllerInput::LeftTrigger(analog(b[0], b[1]) as i16),
                ControllerInput::RightTrigger(analog(b[2], b[3]) as i16),
            ])
        }
    }

    /// Events for the eight joystick bytes `b`: both sticks, or in the alternative mode a wheel
    /// movement from the left and a mouse movement from the right stick when they are deflected.
    pub open spec fn spec_handle_joysticks(self, b: Seq<u8>) -> Seq<DeviceEvent> {
        let lx = analog(b[0], b[1]) as i16;
        let ly = analog(b[2], b[3]) as i16;
        let rx = analog(b[4], b[5]) as i16;
        let ry = analog(b[6], b[7]) as i16;
        if self.alt_mode {
            let wheel: Seq<ControllerInput> = if stick_deflected(lx, ly) {
                seq![ControllerInput::Wheel((lx * STICK_WHEEL_SPEED) as i32, (ly * STICK_WHEEL_SPEED) as i32)]
            } else {
                Seq::empty()
            };
            let mouse: Seq<ControllerInput> = if stick_deflected(rx, ry) {
                seq![ControllerInput::Mouse((rx * STICK_MOUSE_SPEED) as i32, (-ry * STICK_MOUSE_SPEED) as i32)]
            } else {
                Seq::empty()
            };
            wrap_inputs(wheel + mouse)
        } else {
            wrap_inputs(seq![
                ControllerInput::LeftJoyStick(lx, ly),
                ControllerInput::RightJoyStick(rx, ry),
            ])
        }
    }

    /// Events and next decoder state for the twelve trackpad bytes `b`: a pad with a previous
    /// reading moves the wheel (left pad) or the mouse (right pad) by the difference; every
    /// pad remembers its new reading.
    pub open spec fn spec_handle_trackpads(self, b: Seq<u8>) -> (SteamController, Seq<DeviceEvent>) {
        let left = pad_reading(b, 0);
        let right = pad_reading(b, 6);
        let wheel: Seq<ControllerInput> = match self.left_trackpad_prev {
            Some(p) => seq![ControllerInput::Wheel(
                ((left.0 - p.0) * TRACKPAD_WHEEL_SPEED) as i32,
                ((left.1 - p.1) * TRACKPAD_WHEEL_SPEED) as i32,
            )],
            None => Seq::empty(),
        };
        let mouse: Seq<ControllerInput> = match self.right_trackpad_prev {
            Some(p) => seq![ControllerInput::Mouse(
                ((right.0 - p.0) * TRACKPAD_MOUSE_SPEED) as i32,
                (-(right.1 - p.1) * TRACKPAD_MOUSE_SPEED) as i32,
            )],
            None => Seq::empty(),
        };
        (
            SteamController { left_trackpad_prev: Some(left), right_trackpad_prev: Some(right), ..self },
            wrap_inputs(wheel + mouse),
        )
    }

    /// The events of a status report: charging status, battery level, and that the controller
    /// is connected.
    pub open spec fn spec_status_events(r: Seq<u8>) -> Seq<DeviceEvent> {
        seq![
            DeviceEvent::Charging(status_charging(r[1])),
            DeviceEvent::BatteryLevel(r[2]),
            DeviceEvent::WirelessConnected(true),
        ]
    }

    /// The event of a connection report.
    pub open spec fn spec_connection_event(b: u8) -> Option<DeviceEvent> {
        if b == 1 {
            Some(DeviceEvent::WirelessConnected(false))
        } else {
            None
        }
    }

    /// Whether the report kind in `r[0]` is an input report.
    pub open spec fn is_input_report(r: Seq<u8>) -> bool {
        r[0] == RESPONSE_INPUT_EVENT_FIRST || r[0] == RESPONSE_INPUT_EVENT_SECOND
    }

    /// Reports that can be decoded without reading past their end.
    pub open spec fn decodable(r: Seq<u8>) -> bool {
        &&& r.len() >= 1
        &&& r[0] == RESPONSE_STATUS_EVENT ==> r.len() >= 16
        &&& Self::is_input_report(r) ==> r.len() >= 30
        &&& r[0] == RESPONSE_CONNECTION_EVENT ==> r.len() >= 2
    }

    /// Events and next decoder state for a whole report.
    pub open spec fn spec_decode(self, r: Seq<u8>) -> (SteamController, Seq<DeviceEvent>) {
        if r[0] == RESPONSE_STATUS_EVENT {
            (self, Self::spec_status_events(r))
        } else if Self::is_input_report(r) {
            let (s1, e1) = self.spec_handle_buttons(r.subrange(2, 6));
            let e2 = s1.spec_handle_triggers(r.subrange(6, 10));
            let e3 = s1.spec_handle_joysticks(r.subrange(10, 18));
            let (s4, e4) = s1.spec_handle_trackpads(r.subrange(18, 30));
            (s4, e1 + e2 + e3 + e4)
        } else if r[0] == RESPONSE_CONNECTION_EVENT {
            match Self::spec_connection_event(r[1]) {
                Some(e) => (self, seq![e]),
                None => (self, Seq::empty()),
            }
        } else {
            (self, Seq::empty())
        }
    }

    // -----------------------------------------------------------------------
    // Implementation
    // -----------------------------------------------------------------------

    /// The packet for a command with its payload: feature report flag, command, payload
    /// length, payload, then zeros up to the packet length.
    pub open spec fn decorated(command: u8, payload: Seq<u8>) -> Seq<u8> {
        seq![FEATURE_REPORT, command, payload.len() as u8] + payload + Seq::new(
            (PACKET_LEN - 3 - payload.len()) as nat,
            |i: int| 0u8,
        )
    }

    /// Builds a packet from a command and a payload.
    pub fn decorate_packet(command: u8, payload: Vec<u8>) -> (packet: Vec<u8>)
        requires
            payload@.len() <= PACKET_LEN - 3,
        ensures
            packet@ == Self::decorated(command, payload@),
            packet@.len() == PACKET_LEN,
    {
        let mut payload = payload;
        let ghost p = payload@;
        let mut packet: Vec<u8> = vec![FEATURE_REPORT, command, payload.len() as u8];
        packet.append(&mut payload);
        let ghost head = packet@;
        while packet.len() < PACKET_LEN
            invariant
                head == seq![FEATURE_REPORT, command, p.len() as u8] + p,
                head.len() <= packet@.len() <= PACKET_LEN,
                packet@ == head + Seq::new((packet@.len() - head.len()) as nat, |i: int| 0u8),
            decreases PACKET_LEN - packet@.len(),
        {
            packet.push(0u8);
            assert(packet@ =~= head + Seq::new((packet@.len() - head.len()) as nat, |i: int| 0u8));
        }
        assert(packet@ =~= Self::decorated(command, p));
        packet
    }

    /// The payload of the setting that disables the "lizard mode" (mouse emulation).
    pub open spec fn lizard_mode_payload() -> Seq<u8> {
        seq![0x09u8, 0x00u8, 0x00u8]
    }

    /// The complete packet to disable the "lizard mode"; it has to be sent frequently to keep
    /// it disabled.
    pub fn get_disable_lizard_mode_packet() -> (packet: Vec<u8>)
        ensures
            packet@ == Self::decorated(SET_SETTING_CMD, Self::lizard_mode_payload()),
    {
        let payload: Vec<u8> = vec![0x09, 0x00, 0x00];
        assert(payload@ =~= Self::lizard_mode_payload());
        Self::decorate_packet(SET_SETTING_CMD, payload)
    }

    /// The packet that turns the controller off: the turn-off command followed by "off!".
    pub open spec fn turn_off_bytes() -> Seq<u8> {
        seq![0x01u8, 0x9fu8, 0x04u8, 0x6fu8, 0x66u8, 0x66u8, 0x21u8] + Seq::new(57, |i: int| 0u8)
    }

    /// The packet that turns the controller off.
    pub fn get_turn_off_packet() -> (packet: Vec<u8>)
        ensures
            packet@ == Self::turn_off_bytes(),
    {
        let mut buf: Vec<u8> = Vec::new();
        while buf.len() < PACKET_LEN
            invariant
                buf@.len() <= PACKET_LEN,
                buf@ == Seq::new(buf@.len(), |i: int| 0u8),
            decreases PACKET_LEN - buf@.len(),
        {
            buf.push(0u8);
            assert(buf@ =~= Seq::new(buf@.len(), |i: int| 0u8));
        }
        buf.set(0, 0x01);
        buf.set(1, 0x9f);
        buf.set(2, 0x04);
        buf.set(3, 0x6f); // o
        buf.set(4, 0x66); // f
        buf.set(5, 0x66); // f
        buf.set(6, 0x21); // !
        assert(buf@ =~= Self::turn_off_bytes());
        buf
    }

    /// The controller answers charging queries on its own: there is no query packet.
    pub fn get_charging_packet(&self) -> (r: Option<Vec<u8>>)
        ensures
            r is None,
    {
        None
    }

    /// The controller reports its battery on its own: there is no query packet.
    pub fn get_battery_packet(&self) -> (r: Option<Vec<u8>>)
        ensures
            r is None,
    {
        None
    }

    /// The connection shows in status reports: there is no query packet.
    pub fn get_wireless_connected_status_packet(&self) -> (r: Option<Vec<u8>>)
        ensures
            r is None,
    {
        None
    }

    /// The packets an active refresh sends, in order: connection, charging and battery
    /// queries that exist.
    pub fn get_query_packets(&self) -> (r: Vec<Vec<u8>>)
        ensures
            r@.len() == 0,
    {
        let mut packets: Vec<Vec<u8>> = Vec::new();
        let queries = [
            self.get_wireless_connected_status_packet(),
            self.get_charging_packet(),
            self.get_battery_packet(),
        ];
        let mut i: usize = 0;
        while i < 3
            invariant
                i <= 3,
                queries@.len() == 3,
                forall|k: int| 0 <= k < 3 ==> queries@[k] is None,
                packets@.len() == 0,
            decreases 3 - i,
        {
            if let Some(p) = &queries[i] {
                packets.push(p.clone());
            }
            i = i + 1;
        }
        packets
    }

    /// The Steam Controller is always listened to between active refreshes.
    pub fn allow_passive_refresh(&self) -> (r: bool)
        ensures
            r,
    {
        true
    }

    /// The controller with the given controller id.
    pub open spec fn with_id(self, id: u64) -> SteamController {
        SteamController { properties: DeviceProperties { controller_id: id, ..self.properties }, ..self }
    }

    /// Numbers the controllers in their order, starting at zero.
    pub fn number_controllers(controllers: Vec<SteamController>) -> (r: Vec<SteamController>)
        ensures
            r@.len() == controllers@.len(),
            forall|k: int| 0 <= k < r@.len() ==> #[trigger] r@[k] == controllers@[k].with_id(k as u64),
    {
        let ghost original = controllers@;
        let mut rest = controllers;
        let mut out: Vec<SteamController> = Vec::new();
        while rest.len() > 0
            invariant
                out@.len() + rest@.len() == original.len(),
                rest@ == original.subrange(out@.len() as int, original.len() as int),
                forall|k: int| 0 <= k < out@.len() ==> #[trigger] out@[k] == original[k].with_id(k as u64),
            decreases rest@.len(),
        {
            let mut c = rest.remove(0);
            c.properties.controller_id = out.len() as u64;
            out.push(c);
            assert(rest@ =~= original.subrange(out@.len() as int, original.len() as int));
        }
        out
    }

    /// Constructs the controller from the properties of its device, in the normal mode and
    /// with no trackpad reading.
    pub fn new_from_state(state: DeviceProperties) -> (c: SteamController)
        ensures
            c.properties == state,
            c.left_trackpad_prev is None,
            c.right_trackpad_prev is None,
            !c.alt_mode,
    {
        SteamController { properties: state, left_trackpad_prev: None, right_trackpad_prev: None, alt_mode: false }
    }

    /// Converts a bitmap of changed buttons and a bitmap of the current button states into the
    /// inputs of the changed buttons, pressed or released.
    pub fn get_buttons(&mut self, changes: u32, states: u32) -> (r: Vec<ControllerInput>)
        ensures
            r@ == buttons_seq(changes, states, old(self).alt_mode, BUTTON_COUNT),
            *final(self) == old(self).after_get_buttons(changes, states),
    {
        let ghost alt0 = self.alt_mode;
        let mut out: Vec<ControllerInput> = Vec::new();
        let mut i: u32 = 0;
        while i < BUTTON_COUNT
            invariant
                i <= BUTTON_COUNT,
                alt0 == old(self).alt_mode,
                out@ == buttons_seq(changes, states, alt0, i),
                self.alt_mode == alt_at(changes, states, alt0, i),
                self.properties == old(self).properties,
                self.right_trackpad_prev == (if i > BIT_PAD_RIGHT_TOUCH && bit(changes, BIT_PAD_RIGHT_TOUCH) {
                    None
                } else {
                    old(self).right_trackpad_prev
                }),
                self.left_trackpad_prev == (if i > BIT_PAD_LEFT_TOUCH && bit(changes, BIT_PAD_LEFT_TOUCH) {
                    None
                } else {
                    old(self).left_trackpad_prev
                }),
            decreases BUTTON_COUNT - i,
        {
            if test_bit(changes, i) {
                let pressed = test_bit(states, i);
                let input = button_input_exec(i, self.alt_mode, pressed);
                if i == BIT_MENU {
                    self.alt_mode = pressed;
                } else if i == BIT_PAD_RIGHT_TOUCH {
                    self.right_trackpad_prev = None;
                } else if i == BIT_PAD_LEFT_TOUCH {
                    self.left_trackpad_prev = None;
                }
                out.push(input);
            }
            i = i + 1;
        }
        out
    }

    /// Converts the four button bytes of an input report into press and release events, the
    /// new button word and combination events.
    pub fn handle_buttons(&mut self, response: [u8; 4]) -> (r: Vec<DeviceEvent>)
        ensures
            (*final(self), r@) == old(self).spec_handle_buttons(response@),
    {
        let button_bitmap = le_bytes_u32(response) & BUTTON_MASK;
        let previous_bitmap = (self.properties.previous_button_bitmap as u32) & BUTTON_MASK;
        let changed = button_bitmap ^ previous_bitmap;
        if changed != 0 {
            let changed_buttons = self.get_buttons(changed, button_bitmap);
            let mut result = wrap_controller_input_into_device_event(changed_buttons.as_slice());
            result.push(DeviceEvent::UpdateBitmap(button_bitmap as u64));
            let previous_changed_buttons = self.get_buttons(button_bitmap, previous_bitmap);
            let mut combos = parse_button_combinations(&previous_changed_buttons, &changed_buttons);
            result.append(&mut combos);
            result
        } else {
            Vec::new()
        }
    }

    /// Converts four bytes into events for the left and right trigger.
    pub fn handle_triggers(&self, response: [u8; 4]) -> (r: Vec<DeviceEvent>)
        ensures
            r@ == self.spec_handle_triggers(response@),
    {
        let left = convert_analog(response[0], response[1]);
        let right = convert_analog(response[2], response[3]);
        if self.alt_mode {
            Vec::new()
        } else {
            let inputs = [ControllerInput::LeftTrigger(left), ControllerInput::RightTrigger(right)];
            let r = wrap_controller_input_into_device_event(&inputs);
            assert(inputs@ =~= seq![ControllerInput::LeftTrigger(left), ControllerInput::RightTrigger(right)]);
            r
        }
    }

    /// Converts eight bytes into events for the left and right joystick.
    pub fn handle_joysticks(&self, response: [u8; 8]) -> (r: Vec<DeviceEvent>)
        ensures
            r@ == self.spec_handle_joysticks(response@),
    {
        let (left_x, left_y) = convert_analog_2d([response[0], response[1], response[2], response[3]]);
        let (right_x, right_y) = convert_analog_2d([response[4], response[5], response[6], response[7]]);
        if self.alt_mode {
            let mut events: Vec<ControllerInput> = Vec::new();
            if stick_deflected_exec(left_x, left_y) {
                events.push(ControllerInput::Wheel(left_x as i32 * STICK_WHEEL_SPEED, left_y as i32 * STICK_WHEEL_SPEED));
            }
            let ghost wheel = events@;
            if stick_deflected_exec(right_x, right_y) {
                events.push(ControllerInput::Mouse(right_x as i32 * STICK_MOUSE_SPEED, -(right_y as i32) * STICK_MOUSE_SPEED));
            }
            let r = wrap_controller_input_into_device_event(events.as_slice());
            proof {
                let b = response@;
                let w: Seq<ControllerInput> = if stick_deflected(left_x, left_y) {
                    seq![ControllerInput::Wheel((left_x * STICK_WHEEL_SPEED) as i32, (left_y * STICK_WHEEL_SPEED) as i32)]
                } else {
                    Seq::empty()
                };
                let m: Seq<ControllerInput> = if stick_deflected(right_x, right_y) {
                    seq![ControllerInput::Mouse((right_x * STICK_MOUSE_SPEED) as i32, (-right_y * STICK_MOUSE_SPEED) as i32)]
                } else {
                    Seq::empty()
                };
                assert(wheel =~= w);
                assert(events@ =~= w + m);
            }
            r
        } else {
            let inputs = [ControllerInput::LeftJoyStick(left_x, left_y), ControllerInput::RightJoyStick(right_x, right_y)];
            let r = wrap_controller_input_into_device_event(&inputs);
            assert(inputs@ =~= seq![
                ControllerInput::LeftJoyStick(left_x, left_y),
                ControllerInput::RightJoyStick(right_x, right_y),
            ]);
            r
        }
    }

    /// Converts twelve bytes into wheel and mouse events for the left and right trackpad.
    pub fn handle_trackpads(&mut self, response: [u8; 12]) -> (r: Vec<DeviceEvent>)
        ensures
            (*final(self), r@) == old(self).spec_handle_trackpads(response@),
    {
        let left = convert_analog_3d(
            [response[0], response[1], response[2], response[3], response[4], response[5]],
        );
        let right = convert_analog_3d(
            [response[6], response[7], response[8], response[9], response[10], response[11]],
        );
        let mut events: Vec<ControllerInput> = Vec::new();
        match self.left_trackpad_prev {
            Some(prev) => {
                let x_diff: i32 = left.0 as i32 - prev.0 as i32;
                let y_diff: i32 = left.1 as i32 - prev.1 as i32;
                events.push(ControllerInput::Wheel(x_diff * TRACKPAD_WHEEL_SPEED, y_diff * TRACKPAD_WHEEL_SPEED));
            },
            None => {},
        }
        let ghost wheel = events@;
        self.left_trackpad_prev = Some(left);
        match self.right_trackpad_prev {
            Some(prev) => {
                let x_diff: i32 = right.0 as i32 - prev.0 as i32;
                let y_diff: i32 = right.1 as i32 - prev.1 as i32;
                events.push(ControllerInput::Mouse(x_diff * TRACKPAD_MOUSE_SPEED, -y_diff * TRACKPAD_MOUSE_SPEED));
            },
            None => {},
        }
        self.right_trackpad_prev = Some(right);
        let r = wrap_controller_input_into_device_event(events.as_slice());
        proof {
            let (s, e) = old(self).spec_handle_trackpads(response@);
            let w: Seq<ControllerInput> = match old(self).left_trackpad_prev {
                Some(p) => seq![ControllerInput::Wheel(
                    ((left.0 - p.0) * TRACKPAD_WHEEL_SPEED) as i32,
                    ((left.1 - p.1) * TRACKPAD_WHEEL_SPEED) as i32,
                )],
                None => Seq::empty(),
            };
            let m: Seq<ControllerInput> = match old(self).right_trackpad_prev {
                Some(p) => seq![ControllerInput::Mouse(
                    ((right.0 - p.0) * TRACKPAD_MOUSE_SPEED) as i32,
                    (-(right.1 - p.1) * TRACKPAD_MOUSE_SPEED) as i32,
                )],
                None => Seq::empty(),
            };
            assert(wheel =~= w);
            assert(events@ =~= w + m);
            assert(pad_reading(response@, 0) == left);
            assert(pad_reading(response@, 6) == right);
        }
        r
    }

    /// Converts a status report into charging, battery and connection events.
    pub fn handle_status(response: &[u8]) -> (r: Vec<DeviceEvent>)
        requires
            response@.len() >= 16,
        ensures
            r@ == Self::spec_status_events(response@),
    {
        // implicit connection event, because receiving data == controller is connected
        let connected_event = DeviceEvent::WirelessConnected(true);
        let status = match response[1] {
            1 => ChargingStatus::NotCharging,
            // 2 means charging with puck, 3 charging by cable
            2 | 3 => ChargingStatus::Charging,
            4 => ChargingStatus::FullyCharged,
            _ => ChargingStatus::ChargeError,
        };
        let charge_event = DeviceEvent::Charging(status);
        let battery_event = DeviceEvent::BatteryLevel(response[2]);
        let r = vec![charge_event, battery_event, connected_event];
        assert(r@ =~= Self::spec_status_events(response@));
        r
    }

    /// Converts the byte of a connection report into an event: only a disconnection is
    /// reported, status reports tell that a controller is connected.
    pub fn handle_connection(response: u8) -> (r: Option<DeviceEvent>)
        ensures
            r == Self::spec_connection_event(response),
    {
        match response {
            1 => Some(DeviceEvent::WirelessConnected(false)),
            _ => None,
        }
    }

    /// Decodes a report of the controller into events, `None` when it holds none.
    pub fn get_event_from_device_response(&mut self, response: &[u8]) -> (r: Option<Vec<DeviceEvent>>)
        requires
            Self::decodable(response@),
        ensures
            *final(self) == old(self).spec_decode(response@).0,
            match r {
                Some(events) => events@ == old(self).spec_decode(response@).1 && events@.len() > 0,
                None => old(self).spec_decode(response@).1.len() == 0,
            },
    {
        let ghost r = response@;
        let mut events: Vec<DeviceEvent> = Vec::new();
        let kind = response[0];
        if kind == RESPONSE_STATUS_EVENT {
            let mut status = Self::handle_status(response);
            events.append(&mut status);
        } else if kind == RESPONSE_INPUT_EVENT_FIRST || kind == RESPONSE_INPUT_EVENT_SECOND {
            let buttons: [u8; 4] = [response[2], response[3], response[4], response[5]];
            assert(buttons@ =~= r.subrange(2, 6));
            let mut e1 = self.handle_buttons(buttons);
            events.append(&mut e1);
            let triggers: [u8; 4] = [response[6], response[7], response[8], response[9]];
            assert(triggers@ =~= r.subrange(6, 10));
            let mut e2 = self.handle_triggers(triggers);
            events.append(&mut e2);
            let sticks: [u8; 8] = [
                response[10], response[11], response[12], response[13],
                response[14], response[15], response[16], response[17],
            ];
            assert(sticks@ =~= r.subrange(10, 18));
            let mut e3 = self.handle_joysticks(sticks);
            events.append(&mut e3);
            let pads: [u8; 12] = [
                response[18], response[19], response[20], response[21], response[22], response[23],
                response[24], response[25], response[26], response[27], response[28], response[29],
            ];
            assert(pads@ =~= r.subrange(18, 30));
            let mut e4 = self.handle_trackpads(pads);
            events.append(&mut e4);
        } else if kind == RESPONSE_CONNECTION_EVENT {
            if let Some(event) = Self::handle_connection(response[1]) {
                events.push(event);
            }
        }
        assert(events@ =~= old(self).spec_decode(r).1);
        if events.len() == 0 {
            None
        } else {
            Some(events)
        }
    }
}

} // verus!
