//! What the library knows about a connected device, and how it is shown.

use vstd::prelude::*;
use crate::input::{ChargingStatus, DeviceCommand};
use crate::text::{
    decimal, join_lines, join_with_newlines, pad_right, pad_to, push_decimal, str_eq,
};

verus! {

/// The state of a connected controller that the application keeps and shows.
#[derive(Debug, Clone, PartialEq, Eq)]
pub struct DeviceProperties {
    pub product_id: u16,
    pub vendor_id: u16,
    pub device_name: Option<String>,
    pub battery_level: Option<u8>,
    pub charging: Option<ChargingStatus>,
    pub connected: Option<bool>,
    pub previous_button_bitmap: u64,
    pub nintendo_layout: bool,
    pub controller_id: u64,
}

/// Controller id given to a device before the application numbers it.
pub const UNASSIGNED_CONTROLLER_ID: u64 = 99;

/// Width of the name column when properties are shown.
pub const DISPLAY_PADDING: usize = 25;

/// How a property may be changed.
#[derive(Debug, Clone, Copy, PartialEq, Eq, Structural)]
pub enum PropertyType {
    ReadOnly,
    AlwaysReadOnly,
    ReadWrite,
}

/// A property of a device as it is shown and changed.
///
/// `create_event` is the command that changing the property asks of the device, if any.
#[derive(Debug)]
pub struct PropertyDescriptor<T> {
    pub name: &'static str,
    pub pretty_name: &'static str,
    pub data: Option<T>,
    pub suffix: &'static str,
    pub property_type: PropertyType,
    pub create_event: Option<DeviceCommand>,
}

impl<T> PropertyDescriptor<T> {
    /// The command that setting the property to `value` creates.
    pub fn create_event_for(&self, value: T) -> (r: Option<DeviceCommand>)
        ensures
            r == self.create_event,
    {
        self.create_event
    }
}

/// A property together with the type of its value.
#[derive(Debug)]
pub enum PropertyDescriptorWrapper {
    /// A small number; the list holds the values it may be set to (empty when any).
    Int(PropertyDescriptor<u8>, Vec<u8>),
    Bool(PropertyDescriptor<bool>),
    String(PropertyDescriptor<String>),
}

// ---------------------------------------------------------------------------
// Texts
// ---------------------------------------------------------------------------

/// The text of a charging status.
pub open spec fn charging_text(c: ChargingStatus) -> Seq<char> {
    match c {
        ChargingStatus::NotCharging => "Not charging"@,
        ChargingStatus::Charging => "Charging"@,
        ChargingStatus::FullyCharged => "Fully charged"@,
        ChargingStatus::ChargeError => "Charging error!"@,
    }
}

/// The text of a boolean.
pub open spec fn bool_text(b: bool) -> Seq<char> {
    if b {
        "true"@
    } else {
        "false"@
    }
}

/// The text of a number with its unit; a duration of zero minutes reads "never".
pub open spec fn int_value_text(value: u8, suffix: Seq<char>) -> Seq<char> {
    if value == 0 && suffix == "min"@ {
        "never"@
    } else {
        decimal(value as nat) + suffix
    }
}

/// The marker shown behind a property that cannot be changed on this device.
pub open spec fn readonly_marker(property_type: PropertyType, readonly_info: bool) -> Seq<char> {
    if readonly_info && property_type == PropertyType::ReadOnly {
        " (read-only)"@
    } else {
        Seq::empty()
    }
}

/// One shown line: the name and a colon, padded to `padding`, a space, the value, its unit
/// and the marker.
pub open spec fn property_line(
    pretty_name: Seq<char>,
    data: Seq<char>,
    suffix: Seq<char>,
    marker: Seq<char>,
    padding: nat,
) -> Seq<char> {
    pad_right(pretty_name.push(':'), padding).push(' ') + data + suffix + marker
}

/// The line shown for a property, `None` when its value is unknown.
pub open spec fn wrapper_line(w: PropertyDescriptorWrapper, padding: nat, readonly_info: bool) -> Option<Seq<char>> {
    match w {
        PropertyDescriptorWrapper::Int(d, _) => match d.data {
            Some(v) => Some(property_line(
                d.pretty_name@,
                int_value_text(v, d.suffix@),
                Seq::empty(),
                readonly_marker(d.property_type, readonly_info),
                padding,
            )),
            None => None,
        },
        PropertyDescriptorWrapper::Bool(d) => match d.data {
            Some(v) => Some(property_line(
                d.pretty_name@,
                bool_text(v),
                d.suffix@,
                readonly_marker(d.property_type, readonly_info),
                padding,
            )),
            None => None,
        },
        PropertyDescriptorWrapper::String(d) => match d.data {
            Some(v) => Some(property_line(
                d.pretty_name@,
                v@,
                d.suffix@,
                readonly_marker(d.property_type, readonly_info),
                padding,
            )),
            None => None,
        },
    }
}

/// The lines shown for a list of properties, skipping those with unknown values.
pub open spec fn lines_of(ws: Seq<PropertyDescriptorWrapper>, padding: nat, readonly_info: bool) -> Seq<Seq<char>>
    decreases ws.len(),
{
    if ws.len() == 0 {
        Seq::empty()
    } else {
        let rest = lines_of(ws.drop_last(), padding, readonly_info);
        match wrapper_line(ws.last(), padding, readonly_info) {
            Some(l) => rest.push(l),
            None => rest,
        }
    }
}

/// Formats a number with its unit; zero minutes is "never".
pub fn format_int_value(value: u8, suffix: &str) -> (r: String)
    ensures
        r@ == int_value_text(value, suffix@),
{
    let min = "min";
    let never = "never";
    proof {
        reveal_strlit("min");
        reveal_strlit("never");
    }
    if value == 0 && str_eq(suffix, min) {
        String::from_str(never)
    } else {
        let mut s = String::new();
        push_decimal(&mut s, value as u64);
        s.append(suffix);
        s
    }
}

/// The text of a boolean.
pub fn bool_to_string(b: bool) -> (r: String)
    ensures
        r@ == bool_text(b),
{
    proof {
        reveal_strlit("true");
        reveal_strlit("false");
    }
    if b {
        String::from_str("true")
    } else {
        String::from_str("false")
    }
}

impl ChargingStatus {
    /// The text shown for the status.
    pub fn to_string(&self) -> (r: String)
        ensures
            r@ == charging_text(*self),
    {
        proof {
            reveal_strlit("Not charging");
            reveal_strlit("Charging");
            reveal_strlit("Fully charged");
            reveal_strlit("Charging error!");
        }
        match self {
            ChargingStatus::NotCharging => String::from_str("Not charging"),
            ChargingStatus::Charging => String::from_str("Charging"),
            ChargingStatus::FullyCharged => String::from_str("Fully charged"),
            ChargingStatus::ChargeError => String::from_str("Charging error!"),
        }
    }
}

/// The line shown for a property, `None` when its value is unknown.
pub fn describe_property(w: &PropertyDescriptorWrapper, padding: usize, readonly_info: bool) -> (r: Option<String>)
    ensures
        match r {
            Some(s) => wrapper_line(*w, padding as nat, readonly_info) == Some(s@),
            None => wrapper_line(*w, padding as nat, readonly_info) is None,
        },
{
    let (pretty_name, data, suffix, property_type): (&str, Option<String>, &str, PropertyType) = match w {
        PropertyDescriptorWrapper::Int(d, _) => (
            d.pretty_name,
            match d.data {
                Some(v) => Some(format_int_value(v, d.suffix)),
                None => None,
            },
            "",
            d.property_type,
        ),
        PropertyDescriptorWrapper::Bool(d) => (
            d.pretty_name,
            match d.data {
                Some(v) => Some(bool_to_string(v)),
                None => None,
            },
            d.suffix,
            d.property_type,
        ),
        PropertyDescriptorWrapper::String(d) => (
            d.pretty_name,
            match &d.data {
                Some(v) => Some(v.clone()),
                None => None,
            },
            d.suffix,
            d.property_type,
        ),
    };
    proof {
        reveal_strlit("");
    }
    match data {
        Some(data) => {
            let mut line = String::from_str(pretty_name);
            let colon = ":";
            let space = " ";
            proof {
                reveal_strlit(":");
                reveal_strlit(" ");
            }
            assert(colon@ =~= seq![':']);
            assert(space@ =~= seq![' ']);
            line.append(colon);
            pad_to(&mut line, padding);
            line.append(space);
            line.append(data.as_str());
            line.append(suffix);
            if readonly_info && property_type == PropertyType::ReadOnly {
                let marker = " (read-only)";
                line.append(marker);
            }
            assert(line@ =~= property_line(
                pretty_name@,
                data@,
                suffix@,
                readonly_marker(property_type, readonly_info),
                padding as nat,
            ));
            Some(line)
        },
        None => None,
    }
}

impl DeviceProperties {
    /// The properties of a freshly opened device: nothing is known yet but its ids and name.
    pub open spec fn fresh(product_id: u16, vendor_id: u16, device_name: Option<String>) -> DeviceProperties {
        DeviceProperties {
            product_id,
            vendor_id,
            device_name,
            battery_level: None,
            charging: None,
            connected: None,
            previous_button_bitmap: 0,
            nintendo_layout: false,
            controller_id: UNASSIGNED_CONTROLLER_ID,
        }
    }

    pub fn new(product_id: u16, vendor_id: u16, device_name: Option<String>) -> (p: DeviceProperties)
        ensures
            p == DeviceProperties::fresh(product_id, vendor_id, device_name),
    {
        DeviceProperties {
            product_id,
            vendor_id,
            device_name,
            battery_level: None,
            charging: None,
            connected: None,
            previous_button_bitmap: 0,
            nintendo_layout: false,
            controller_id: UNASSIGNED_CONTROLLER_ID,
        }
    }

    /// Whether `ws` are the descriptors of these properties: charging status, battery level,
    /// connection and layout, in this order.
    pub open spec fn describes(self, ws: Seq<PropertyDescriptorWrapper>) -> bool {
        &&& ws.len() == 4
        &&& ws[0] matches PropertyDescriptorWrapper::String(d) && {
            &&& d.name@ == "charging_status"@
            &&& d.pretty_name@ == "Charging status"@
            &&& match self.charging {
                Some(c) => d.data matches Some(s) && s@ == charging_text(c),
                None => d.data is None,
            }
            &&& d.suffix@ == Seq::<char>::empty()
            &&& d.property_type == PropertyType::AlwaysReadOnly
            &&& d.create_event is None
        }
        &&& ws[1] matches PropertyDescriptorWrapper::Int(d, allowed) && {
            &&& d.name@ == "battery_level"@
            &&& d.pretty_name@ == "Battery level"@
            &&& d.data == self.battery_level
            &&& d.suffix@ == "%"@
            &&& d.property_type == PropertyType::AlwaysReadOnly
            &&& d.create_event is None
            &&& allowed@.len() == 0
        }
        &&& ws[2] matches PropertyDescriptorWrapper::Bool(d) && {
            &&& d.name@ == "connected"@
            &&& d.pretty_name@ == "Connected"@
            &&& d.data == self.connected
            &&& d.suffix@ == Seq::<char>::empty()
            &&& d.property_type == PropertyType::AlwaysReadOnly
            &&& d.create_event is None
        }
        &&& ws[3] matches PropertyDescriptorWrapper::Bool(d) && {
            &&& d.name@ == "nintendo_layout"@
            &&& d.pretty_name@ == "Use Nintendo Layout"@
            &&& d.data == Some(self.nintendo_layout)
            &&& d.suffix@ == Seq::<char>::empty()
            &&& d.property_type == PropertyType::ReadWrite
            &&& d.create_event == Some(DeviceCommand::NintendoLayoutToggle)
        }
    }

    /// The lines shown for these properties: each known value on its own line, the layout
    /// always.
    pub open spec fn shown_lines(self, padding: nat, readonly_info: bool) -> Seq<Seq<char>> {
        let charging: Seq<Seq<char>> = match self.charging {
            Some(c) => seq![property_line(
                "Charging status"@,
                charging_text(c),
                Seq::empty(),
                readonly_marker(PropertyType::AlwaysReadOnly, readonly_info),
                padding,
            )],
            None => Seq::empty(),
        };
        let battery: Seq<Seq<char>> = match self.battery_level {
            Some(v) => seq![property_line(
                "Battery level"@,
                int_value_text(v, "%"@),
                Seq::empty(),
                readonly_marker(PropertyType::AlwaysReadOnly, readonly_info),
                padding,
            )],
            None => Seq::empty(),
        };
        let connected: Seq<Seq<char>> = match self.connected {
            Some(b) => seq![property_line(
                "Connected"@,
                bool_text(b),
                Seq::empty(),
                readonly_marker(PropertyType::AlwaysReadOnly, readonly_info),
                padding,
            )],
            None => Seq::empty(),
        };
        let layout: Seq<Seq<char>> = seq![property_line(
            "Use Nintendo Layout"@,
            bool_text(self.nintendo_layout),
            Seq::empty(),
            readonly_marker(PropertyType::ReadWrite, readonly_info),
            padding,
        )];
        charging + battery + connected + layout
    }

    /// The descriptors of the properties: charging status, battery level, connection and
    /// layout; only the layout can be changed.
    pub fn get_properties(&self) -> (r: Vec<PropertyDescriptorWrapper>)
        ensures
            self.describes(r@),
    {
        let charging_data = match self.charging {
            Some(c) => Some(c.to_string()),
            None => None,
        };
        let no_suffix: &'static str = "";
        proof {
            reveal_strlit("");
        }
        assert(no_suffix@ =~= Seq::<char>::empty());
        let r = vec![
            PropertyDescriptorWrapper::String(PropertyDescriptor {
                name: "charging_status",
                pretty_name: "Charging status",
                data: charging_data,
                suffix: no_suffix,
                property_type: PropertyType::AlwaysReadOnly,
                create_event: None,
            }),
            PropertyDescriptorWrapper::Int(
                PropertyDescriptor {
                    name: "battery_level",
                    pretty_name: "Battery level",
                    data: self.battery_level,
                    suffix: "%",
                    property_type: PropertyType::AlwaysReadOnly,
                    create_event: None,
                },
                Vec::new(),
            ),
            PropertyDescriptorWrapper::Bool(PropertyDescriptor {
                name: "connected",
                pretty_name: "Connected",
                data: self.connected,
                suffix: no_suffix,
                property_type: PropertyType::AlwaysReadOnly,
                create_event: None,
            }),
            PropertyDescriptorWrapper::Bool(PropertyDescriptor {
                name: "nintendo_layout",
                pretty_name: "Use Nintendo Layout",
                data: Some(self.nintendo_layout),
                suffix: no_suffix,
                property_type: PropertyType::ReadWrite,
                create_event: Some(DeviceCommand::NintendoLayoutToggle),
            }),
        ];
        r
    }

    proof fn lemma_lines_of_described(self, ws: Seq<PropertyDescriptorWrapper>, padding: nat, readonly_info: bool)
        requires
            self.describes(ws),
        ensures
            lines_of(ws, padding, readonly_info) == self.shown_lines(padding, readonly_info),
    {
        reveal_strlit("");
        reveal_strlit("%");
        let l1 = lines_of(ws.take(1), padding, readonly_info);
        let l2 = lines_of(ws.take(2), padding, readonly_info);
        let l3 = lines_of(ws.take(3), padding, readonly_info);
        assert(ws.take(1).drop_last() =~= ws.take(0));
        assert(ws.take(2).drop_last() =~= ws.take(1));
        assert(ws.take(3).drop_last() =~= ws.take(2));
        assert(ws.drop_last() =~= ws.take(3));
        assert(lines_of(ws.take(0), padding, readonly_info) == Seq::<Seq<char>>::empty());
        assert(l1 =~= self.shown_lines(padding, readonly_info).take(0) + match self.charging {
            Some(c) => seq![property_line("Charging status"@, charging_text(c), Seq::empty(), readonly_marker(PropertyType::AlwaysReadOnly, readonly_info), padding)],
            None => Seq::<Seq<char>>::empty(),
        });
        assert(lines_of(ws, padding, readonly_info) =~= self.shown_lines(padding, readonly_info));
    }

    fn lines(&self, padding: usize, readonly_info: bool) -> (r: Vec<String>)
        ensures
            r@.map_values(|l: String| l@) == self.shown_lines(padding as nat, readonly_info),
    {
        let props = self.get_properties();
        let mut lines: Vec<String> = Vec::new();
        let mut i: usize = 0;
        while i < props.len()
            invariant
                i <= props@.len(),
                lines@.map_values(|l: String| l@) == lines_of(props@.take(i as int), padding as nat, readonly_info),
            decreases props@.len() - i,
        {
            let ghost before = lines@;
            assert(props@.take(i + 1).drop_last() =~= props@.take(i as int));
            match describe_property(&props[i], padding, readonly_info) {
                Some(line) => {
                    lines.push(line);
                    assert(lines@.map_values(|l: String| l@) =~= before.map_values(|l: String| l@).push(
                        lines@.last()@,
                    ));
                },
                None => {},
            }
            i = i + 1;
        }
        proof {
            assert(props@.take(props@.len() as int) =~= props@);
            self.lemma_lines_of_described(props@, padding as nat, readonly_info);
        }
        lines
    }

    /// All known properties, one per line, names padded to `padding`.
    pub fn to_string_with_padding(&self, padding: usize) -> (r: String)
        ensures
            r@ == join_lines(self.shown_lines(padding as nat, false)),
    {
        let lines = self.lines(padding, false);
        join_with_newlines(&lines)
    }

    /// All known properties, one per line, names padded to `padding`, properties that cannot
    /// be changed on this device marked.
    pub fn to_string_with_readonly_info(&self, padding: usize) -> (r: String)
        ensures
            r@ == join_lines(self.shown_lines(padding as nat, true)),
    {
        let lines = self.lines(padding, true);
        join_with_newlines(&lines)
    }

    /// The text the application shows for the device.
    pub fn to_string(&self) -> (r: String)
        ensures
            r@ == join_lines(self.shown_lines(DISPLAY_PADDING as nat, true)),
    {
        self.to_string_with_readonly_info(DISPLAY_PADDING)
    }
}

} // verus!
