//! Properties of the library that span several functions.

use vstd::prelude::*;
use crate::input::{
    wrap_inputs, ControllerInput, DeviceCommand, DeviceEvent,
};
use crate::properties::{
    bool_text, charging_text, int_value_text, property_line, readonly_marker, DeviceProperties, PropertyType,
};
use crate::text::{decimal, hex_digit_char, join_lines, join_sep, occurs_in, pad_right};
use crate::refresh::{
    absorbed, after_passive_event, passive_absorbed, passive_pressed, pressed_inputs, spec_layout_input,
};
use crate::steam_controller::{
    button_input, combination_events, status_charging, SteamController, BUTTON_MASK, RESPONSE_STATUS_EVENT,
    TURN_OFF_CMD,
};
use crate::virtual_output::{spec_update_digital_buttons, spec_xbutton};

verus! {

// ---------------------------------------------------------------------------
// Folding events into the properties
// ---------------------------------------------------------------------------

proof fn lemma_absorbed_append(p: DeviceProperties, a: Seq<DeviceEvent>, b: Seq<DeviceEvent>)
    ensures
        absorbed(p, a + b) == absorbed(absorbed(p, a), b),
    decreases b.len(),
{
    if b.len() == 0 {
        assert(a + b =~= a);
    } else {
        assert((a + b).drop_last() =~= a + b.drop_last());
        lemma_absorbed_append(p, a, b.drop_last());
    }
}

proof fn lemma_passive_absorbed_append(p: DeviceProperties, a: Seq<DeviceEvent>, b: Seq<DeviceEvent>)
    ensures
        passive_absorbed(p, a + b) == passive_absorbed(passive_absorbed(p, a), b),
    decreases b.len(),
{
    if b.len() == 0 {
        assert(a + b =~= a);
    } else {
        assert((a + b).drop_last() =~= a + b.drop_last());
        lemma_passive_absorbed_append(p, a, b.drop_last());
    }
}

proof fn lemma_passive_pressed_append(l: bool, a: Seq<DeviceEvent>, b: Seq<DeviceEvent>)
    ensures
        passive_pressed(l, a + b) == passive_pressed(l, a) + passive_pressed(l, b),
    decreases b.len(),
{
    if b.len() == 0 {
        assert(a + b =~= a);
        assert(passive_pressed(l, a) + passive_pressed(l, b) =~= passive_pressed(l, a));
    } else {
        assert((a + b).drop_last() =~= a + b.drop_last());
        lemma_passive_pressed_append(l, a, b.drop_last());
        assert(passive_pressed(l, a + b) =~= passive_pressed(l, a) + passive_pressed(l, b));
    }
}

proof fn lemma_wrapped_absorbed(p: DeviceProperties, xs: Seq<ControllerInput>)
    ensures
        absorbed(p, wrap_inputs(xs)) == p,
        passive_absorbed(p, wrap_inputs(xs)) == p,
    decreases xs.len(),
{
    if xs.len() > 0 {
        assert(wrap_inputs(xs).drop_last() =~= wrap_inputs(xs.drop_last()));
        lemma_wrapped_absorbed(p, xs.drop_last());
    }
}

proof fn lemma_combinations_keep_bitmap(p: DeviceProperties, all: Seq<ControllerInput>, changes: Seq<ControllerInput>)
    ensures
        absorbed(p, combination_events(all, changes)) == p,
        passive_absorbed(p, combination_events(all, changes)).previous_button_bitmap == p.previous_button_bitmap,
{
    let c = combination_events(all, changes);
    if c.len() == 1 {
        assert(c.drop_last() =~= Seq::<DeviceEvent>::empty());
        assert(absorbed(p, c.drop_last()) == p);
        assert(passive_absorbed(p, c.drop_last()) == p);
    } else if c.len() == 3 {
        let c1 = c.drop_last().drop_last();
        let c2 = c.drop_last();
        assert(c1.drop_last() =~= Seq::<DeviceEvent>::empty());
        assert(absorbed(p, c1.drop_last()) == p);
        assert(passive_absorbed(p, c1.drop_last()) == p);
        assert(absorbed(p, c1) == p);
        assert(passive_absorbed(p, c1) == p);
        assert(absorbed(p, c2) == p);
        assert(passive_absorbed(p, c2) == p);
    }
}

/// The part of a report that names buttons, unchanged by storing it as the remembered word.
proof fn lemma_bitmap_roundtrip(x: u32)
    ensures
        (((x & BUTTON_MASK) as u64) as u32) & BUTTON_MASK == x & BUTTON_MASK,
        (x & BUTTON_MASK) ^ (x & BUTTON_MASK) == 0,
{
    assert((((x & 0x3FFF_FFFFu32) as u64) as u32) & 0x3FFF_FFFFu32 == x & 0x3FFF_FFFFu32) by (bit_vector);
    assert((x & 0x3FFF_FFFFu32) ^ (x & 0x3FFF_FFFFu32) == 0) by (bit_vector);
}

/// Storing the events of the button bytes `b`, by either refresh, leaves the button word of
/// `b` as the remembered one.
proof fn lemma_button_events_store_bitmap(s: SteamController, b: Seq<u8>)
    requires
        b.len() == 4,
    ensures
        ({
            let (s1, events) = s.spec_handle_buttons(b);
            let now = SteamController::report_bitmap(b);
            &&& SteamController { properties: absorbed(s1.properties, events), ..s1 }.previous_bitmap() == now
            &&& SteamController { properties: passive_absorbed(s1.properties, events), ..s1 }.previous_bitmap() == now
        }),
{
    let (s1, events) = s.spec_handle_buttons(b);
    let now = SteamController::report_bitmap(b);
    lemma_bitmap_roundtrip(crate::steam_controller::le_u32(b) as u32);
    let changed = now ^ s.previous_bitmap();
    if changed != 0 {
        let first = crate::steam_controller::buttons_seq(changed, now, s.alt_mode, 30);
        let mid = s.after_get_buttons(changed, now);
        let second = crate::steam_controller::buttons_seq(now, s.previous_bitmap(), mid.alt_mode, 30);
        let p = s1.properties;
        let w = wrap_inputs(first).push(DeviceEvent::UpdateBitmap(now as u64));
        let c = combination_events(second, first);
        assert(events == w + c);
        lemma_absorbed_append(p, w, c);
        lemma_passive_absorbed_append(p, w, c);
        lemma_wrapped_absorbed(p, first);
        assert(w.drop_last() =~= wrap_inputs(first));
        lemma_combinations_keep_bitmap(absorbed(p, w), second, first);
        lemma_combinations_keep_bitmap(passive_absorbed(p, w), second, first);
    } else {
        let pv: u32 = s.previous_bitmap();
        let nv: u32 = now;
        assert((nv ^ pv) == 0u32 ==> pv == nv) by (bit_vector);
    }
}

/// A button report is reported once: after the events of the four button bytes of a report
/// are stored (by an active refresh), the same bytes produce no events.
pub proof fn law_button_report_seen_once_active(s: SteamController, b: Seq<u8>)
    requires
        b.len() == 4,
    ensures
        ({
            let (s1, events) = s.spec_handle_buttons(b);
            let s2 = SteamController { properties: absorbed(s1.properties, events), ..s1 };
            s2.spec_handle_buttons(b).1.len() == 0
        }),
{
    lemma_button_events_store_bitmap(s, b);
    lemma_bitmap_roundtrip(crate::steam_controller::le_u32(b) as u32);
}

/// A button report is reported once: after the events of the four button bytes of a report
/// are handled by a passive refresh, the same bytes produce no events.
pub proof fn law_button_report_seen_once_passive(s: SteamController, b: Seq<u8>)
    requires
        b.len() == 4,
    ensures
        ({
            let (s1, events) = s.spec_handle_buttons(b);
            let s2 = SteamController { properties: passive_absorbed(s1.properties, events), ..s1 };
            s2.spec_handle_buttons(b).1.len() == 0
        }),
{
    lemma_button_events_store_bitmap(s, b);
    lemma_bitmap_roundtrip(crate::steam_controller::le_u32(b) as u32);
}

/// A status report tells the charging status (byte 1), the battery level (byte 2) and that the
/// controller is connected; once its events are stored, the properties show them.
pub proof fn law_status_report_stored(s: SteamController, r: Seq<u8>)
    requires
        SteamController::decodable(r),
        r[0] == RESPONSE_STATUS_EVENT,
    ensures
        ({
            let (s1, events) = s.spec_decode(r);
            let p = absorbed(s1.properties, events);
            let q = passive_absorbed(s1.properties, events);
            &&& s1 == s
            &&& p.charging == Some(status_charging(r[1]))
            &&& p.battery_level == Some(r[2])
            &&& p.connected == Some(true)
            &&& q == p
        }),
{
    let events = SteamController::spec_status_events(r);
    let p0 = s.properties;
    let e1 = events.drop_last().drop_last();
    let e2 = events.drop_last();
    assert(e1.drop_last() =~= Seq::<DeviceEvent>::empty());
    assert(absorbed(p0, e1.drop_last()) == p0);
    assert(passive_absorbed(p0, e1.drop_last()) == p0);
    assert(absorbed(p0, e1) == passive_absorbed(p0, e1));
    assert(absorbed(p0, e2) == passive_absorbed(p0, e2));
    assert(absorbed(p0, events) == passive_absorbed(p0, events));
}

/// Handling the events of a passive refresh in pieces, with the controller turned off between
/// them at each turn-off command, does to the properties and the handed-on inputs what
/// handling them in one go does: the turn-off command itself changes neither.
pub proof fn law_passive_segments(p: DeviceProperties, l: bool, a: Seq<DeviceEvent>, b: Seq<DeviceEvent>)
    ensures
        ({
            let whole = a.push(DeviceEvent::Command(DeviceCommand::TurnOff)) + b;
            &&& passive_absorbed(p, whole) == passive_absorbed(passive_absorbed(p, a), b)
            &&& passive_pressed(l, whole) == passive_pressed(l, a) + passive_pressed(l, b)
        }),
{
    let t = DeviceEvent::Command(DeviceCommand::TurnOff);
    let at = a.push(t);
    lemma_passive_absorbed_append(p, at, b);
    lemma_passive_pressed_append(l, at, b);
    assert(at.drop_last() =~= a);
}

proof fn lemma_pressed_inputs_append(a: Seq<DeviceEvent>, b: Seq<DeviceEvent>)
    ensures
        pressed_inputs(a + b) == pressed_inputs(a) + pressed_inputs(b),
    decreases b.len(),
{
    if b.len() == 0 {
        assert(a + b =~= a);
        assert(pressed_inputs(a) + pressed_inputs(b) =~= pressed_inputs(a));
    } else {
        assert((a + b).drop_last() =~= a + b.drop_last());
        lemma_pressed_inputs_append(a, b.drop_last());
        assert(pressed_inputs(a + b) =~= pressed_inputs(a) + pressed_inputs(b));
    }
}

/// A refresh may take the answers of the controller one batch after another: the properties
/// after two batches are those after the second batch applied to those after the first, and
/// the inputs handed on are those of the first batch followed by those of the second, for an
/// active refresh and for a passive one.
pub proof fn law_refresh_in_batches(p: DeviceProperties, l: bool, a: Seq<DeviceEvent>, b: Seq<DeviceEvent>)
    ensures
        absorbed(p, a + b) == absorbed(absorbed(p, a), b),
        pressed_inputs(a + b) == pressed_inputs(a) + pressed_inputs(b),
        passive_absorbed(p, a + b) == passive_absorbed(passive_absorbed(p, a), b),
        passive_pressed(l, a + b) == passive_pressed(l, a) + passive_pressed(l, b),
{
    lemma_absorbed_append(p, a, b);
    lemma_pressed_inputs_append(a, b);
    lemma_passive_absorbed_append(p, a, b);
    lemma_passive_pressed_append(l, a, b);
}

/// With the standard layout a passive refresh hands on the button presses as an active one does.
pub proof fn law_standard_layout_keeps_inputs(events: Seq<DeviceEvent>)
    ensures
        passive_pressed(false, events) == pressed_inputs(events),
    decreases events.len(),
{
    if events.len() > 0 {
        law_standard_layout_keeps_inputs(events.drop_last());
    }
}

/// Toggling the layout twice gives back the properties.
pub proof fn law_layout_toggle_involution(p: DeviceProperties)
    ensures
        p.toggled().toggled() == p,
        after_passive_event(
            after_passive_event(p, DeviceEvent::Command(DeviceCommand::NintendoLayoutToggle)),
            DeviceEvent::Command(DeviceCommand::NintendoLayoutToggle),
        ) == p,
{
}

/// Seeing an input through a layout twice gives back the input.
pub proof fn law_layout_input_involution(l: bool, input: ControllerInput)
    ensures
        spec_layout_input(l, spec_layout_input(l, input)) == input,
{
}

/// The turn-off packet is the turn-off command with the payload "off!".
pub proof fn law_turn_off_packet_is_decorated()
    ensures
        SteamController::turn_off_bytes() == SteamController::decorated(
            TURN_OFF_CMD,
            seq![0x6fu8, 0x66u8, 0x66u8, 0x21u8],
        ),
{
    assert(SteamController::turn_off_bytes() =~= SteamController::decorated(
        TURN_OFF_CMD,
        seq![0x6fu8, 0x66u8, 0x66u8, 0x21u8],
    ));
}

/// On Windows an input changes only its own flag of the button word, and pressing then
/// releasing a button leaves the word with that flag cleared and every other flag as it was.
pub proof fn law_xbutton_update_local(current: u16, input: ControllerInput)
    ensures
        match spec_xbutton(input) {
            Some((flag, pressed)) => {
                let r = spec_update_digital_buttons(current, input);
                &&& (r ^ current) & !flag == 0
                &&& (r & flag == flag) == pressed
            },
            None => spec_update_digital_buttons(current, input) == current,
        },
{
    match spec_xbutton(input) {
        Some((flag, pressed)) => {
            assert(((current | flag) ^ current) & !flag == 0) by (bit_vector);
            assert(((current & !flag) ^ current) & !flag == 0) by (bit_vector);
            assert((current | flag) & flag == flag) by (bit_vector);
            assert(flag != 0 ==> ((current & !flag) & flag != flag)) by (bit_vector);
        },
        None => {},
    }
}

/// Pressing and releasing a button on Windows clears its flag and keeps every other flag.
pub proof fn law_xbutton_press_release(current: u16, flag: u16, pressed: ControllerInput, released: ControllerInput)
    requires
        spec_xbutton(pressed) == Some((flag, true)),
        spec_xbutton(released) == Some((flag, false)),
    ensures
        spec_update_digital_buttons(spec_update_digital_buttons(current, pressed), released) == current & !flag,
{
    assert((current | flag) & !flag == current & !flag) by (bit_vector);
}

/// Capacitive "buttons" are disabled: a touch of a stick or a trackpad never produces an input,
/// in either mode.
pub proof fn law_touches_are_ignored(alt: bool, pressed: bool)
    ensures
        button_input(20, alt, pressed) == ControllerInput::Ignore,
        button_input(21, alt, pressed) == ControllerInput::Ignore,
        button_input(24, alt, pressed) == ControllerInput::Ignore,
        button_input(25, alt, pressed) == ControllerInput::Ignore,
{
}

/// In the normal mode the buttons are mapped like those of an Xbox controller, and the
/// paddles (R4, L4) act as the shoulder buttons.
pub proof fn law_xbox_like_mapping(pressed: bool)
    ensures
        button_input(0, false, pressed) == ControllerInput::A(pressed),
        button_input(1, false, pressed) == ControllerInput::B(pressed),
        button_input(2, false, pressed) == ControllerInput::X(pressed),
        button_input(3, false, pressed) == ControllerInput::Y(pressed),
        button_input(7, false, pressed) == ControllerInput::RightBumper(pressed),
        button_input(9, false, pressed) == ControllerInput::RightBumper(pressed),
        button_input(17, false, pressed) == ControllerInput::LeftBumper(pressed),
        button_input(19, false, pressed) == ControllerInput::LeftBumper(pressed),
        button_input(16, false, pressed) == ControllerInput::Home(pressed),
{
}

// ---------------------------------------------------------------------------
// The texts shown for a device
// ---------------------------------------------------------------------------

/// The text holds no opening parenthesis.
spec fn paren_free(s: Seq<char>) -> bool {
    forall|i: int| 0 <= i < s.len() ==> s[i] != '('
}

proof fn lemma_concat_paren_free(a: Seq<char>, b: Seq<char>)
    requires
        paren_free(a),
        paren_free(b),
    ensures
        paren_free(a + b),
{
    assert forall|i: int| 0 <= i < (a + b).len() implies (a + b)[i] != '(' by {
        if i < a.len() {
            assert((a + b)[i] == a[i]);
        } else {
            assert((a + b)[i] == b[i - a.len()]);
        }
    }
}

proof fn lemma_decimal_paren_free(n: nat)
    ensures
        paren_free(decimal(n)),
    decreases n,
{
    if n >= 10 {
        lemma_decimal_paren_free(n / 10);
        let d = decimal(n / 10);
        assert(hex_digit_char((n % 10) as nat) != '(');
        assert(decimal(n) == d.push(hex_digit_char((n % 10) as nat)));
        assert forall|i: int| 0 <= i < decimal(n).len() implies decimal(n)[i] != '(' by {
            if i < d.len() {
                assert(decimal(n)[i] == d[i]);
            }
        }
    } else {
        assert(hex_digit_char(n) != '(');
    }
}

proof fn lemma_join_paren_free(parts: Seq<Seq<char>>, sep: Seq<char>)
    requires
        forall|k: int| 0 <= k < parts.len() ==> paren_free(#[trigger] parts[k]),
        paren_free(sep),
    ensures
        paren_free(join_sep(parts, sep)),
    decreases parts.len(),
{
    if parts.len() > 1 {
        let rest = parts.drop_last();
        assert forall|k: int| 0 <= k < rest.len() implies paren_free(#[trigger] rest[k]) by {
            assert(rest[k] == parts[k]);
        }
        lemma_join_paren_free(rest, sep);
        lemma_concat_paren_free(join_sep(rest, sep), sep);
        lemma_concat_paren_free(join_sep(rest, sep) + sep, parts.last());
    } else if parts.len() == 1 {
        assert(paren_free(parts[0]));
    }
}

proof fn lemma_line_paren_free(name: Seq<char>, data: Seq<char>, padding: nat)
    requires
        paren_free(name),
        paren_free(data),
    ensures
        paren_free(property_line(name, data, Seq::empty(), Seq::empty(), padding)),
{
    let named = name.push(':');
    assert forall|i: int| 0 <= i < named.len() implies named[i] != '(' by {
        if i < name.len() {
            assert(named[i] == name[i]);
        }
    }
    let padded = pad_right(named, padding);
    if named.len() < padding {
        let spaces = Seq::new((padding - named.len()) as nat, |i: int| ' ');
        assert forall|i: int| 0 <= i < spaces.len() implies spaces[i] != '(' by {}
        lemma_concat_paren_free(named, spaces);
    }
    let spaced = padded.push(' ');
    assert forall|i: int| 0 <= i < spaced.len() implies spaced[i] != '(' by {
        if i < padded.len() {
            assert(spaced[i] == padded[i]);
        }
    }
    lemma_concat_paren_free(spaced, data);
    assert(spaced + data + Seq::<char>::empty() + Seq::<char>::empty() =~= spaced + data);
}

proof fn lemma_literal_paren_free()
    ensures
        paren_free("Charging status"@),
        paren_free("Battery level"@),
        paren_free("Connected"@),
        paren_free("Use Nintendo Layout"@),
        paren_free("Not charging"@),
        paren_free("Charging"@),
        paren_free("Fully charged"@),
        paren_free("Charging error!"@),
        paren_free("true"@),
        paren_free("false"@),
        paren_free("never"@),
        paren_free("%"@),
        "%"@ != "min"@,
{
    reveal_strlit("Charging status");
    reveal_strlit("Battery level");
    reveal_strlit("Connected");
    reveal_strlit("Use Nintendo Layout");
    reveal_strlit("Not charging");
    reveal_strlit("Charging");
    reveal_strlit("Fully charged");
    reveal_strlit("Charging error!");
    reveal_strlit("true");
    reveal_strlit("false");
    reveal_strlit("never");
    reveal_strlit("%");
    reveal_strlit("min");
    assert("%"@.len() == 1);
    assert("min"@.len() == 3);
}

/// No property of a device is read-only on its own: the text with read-only markers is the
/// plain text, and it never shows "(read-only)".
pub proof fn law_readonly_info_changes_nothing(p: DeviceProperties, padding: nat)
    ensures
        join_lines(p.shown_lines(padding, true)) == join_lines(p.shown_lines(padding, false)),
        !occurs_in("(read-only)"@, join_lines(p.shown_lines(padding, true))),
{
    let lines = p.shown_lines(padding, true);
    assert(lines =~= p.shown_lines(padding, false));
    lemma_literal_paren_free();
    let e = Seq::<char>::empty();
    assert(readonly_marker(PropertyType::AlwaysReadOnly, true) == e);
    assert(readonly_marker(PropertyType::ReadWrite, true) == e);
    let charging: Seq<Seq<char>> = match p.charging {
        Some(c) => {
            assert(paren_free(charging_text(c)));
            lemma_line_paren_free("Charging status"@, charging_text(c), padding);
            seq![property_line("Charging status"@, charging_text(c), e, e, padding)]
        },
        None => Seq::empty(),
    };
    let battery: Seq<Seq<char>> = match p.battery_level {
        Some(v) => {
            lemma_decimal_paren_free(v as nat);
            lemma_concat_paren_free(decimal(v as nat), "%"@);
            assert(int_value_text(v, "%"@) == decimal(v as nat) + "%"@);
            lemma_line_paren_free("Battery level"@, int_value_text(v, "%"@), padding);
            seq![property_line("Battery level"@, int_value_text(v, "%"@), e, e, padding)]
        },
        None => Seq::empty(),
    };
    let connected: Seq<Seq<char>> = match p.connected {
        Some(c) => {
            lemma_line_paren_free("Connected"@, bool_text(c), padding);
            seq![property_line("Connected"@, bool_text(c), e, e, padding)]
        },
        None => Seq::empty(),
    };
    lemma_line_paren_free("Use Nintendo Layout"@, bool_text(p.nintendo_layout), padding);
    let layout = seq![property_line("Use Nintendo Layout"@, bool_text(p.nintendo_layout), e, e, padding)];
    assert(lines =~= charging + battery + connected + layout);
    assert forall|k: int| 0 <= k < lines.len() implies paren_free(#[trigger] lines[k]) by {
        let a = charging.len();
        let b = a + battery.len();
        let c = b + connected.len();
        if k < a {
            assert(lines[k] == charging[k]);
        } else if k < b {
            assert(lines[k] == battery[k - a]);
        } else if k < c {
            assert(lines[k] == connected[k - b]);
        } else {
            assert(lines[k] == layout[k - c]);
        }
    }
    reveal_strlit("(read-only)");
    assert(paren_free(seq!['\n']));
    lemma_join_paren_free(lines, seq!['\n']);
    let text = join_lines(lines);
    let needle = "(read-only)"@;
    assert forall|i: int| 0 <= i && i + needle.len() <= text.len() implies
        #[trigger] text.subrange(i, i + needle.len()) != needle by {
        assert(text.subrange(i, i + needle.len())[0] == text[i]);
        assert(needle[0] == '(');
    }
}

} // verus!
