//! What a device does with the events it decoded: state updates, commands and the
//! inputs handed on to the virtual controller.

use vstd::prelude::*;
use crate::input::{ControllerInput, DeviceCommand, DeviceEvent};
use crate::properties::DeviceProperties;

verus! {

impl DeviceProperties {
    /// The properties after an event that is not a button press: status events are stored,
    /// commands change nothing here.
    pub open spec fn after_event(self, event: DeviceEvent) -> DeviceProperties {
        match event {
            DeviceEvent::BatteryLevel(level) => DeviceProperties { battery_level: Some(level), ..self },
            DeviceEvent::Charging(status) => DeviceProperties { charging: Some(status), ..self },
            DeviceEvent::WirelessConnected(c) => DeviceProperties { connected: Some(c), ..self },
            DeviceEvent::UpdateBitmap(bitmap) => DeviceProperties { previous_button_bitmap: bitmap, ..self },
            DeviceEvent::ButtonPressed(_) => self,
            DeviceEvent::Command(_) => self,
        }
    }

    /// The properties with the other button layout.
    pub open spec fn toggled(self) -> DeviceProperties {
        DeviceProperties { nintendo_layout: !self.nintendo_layout, ..self }
    }

    /// Stores what a status event tells. Button presses are handed on, not stored.
    pub fn update_self_with_event(&mut self, event: &DeviceEvent)
        requires
            !(*event is ButtonPressed),
        ensures
            *final(self) == old(self).after_event(*event),
    {
        match event {
            DeviceEvent::BatteryLevel(level) => self.battery_level = Some(*level),
            DeviceEvent::Charging(status) => self.charging = Some(*status),
            DeviceEvent::WirelessConnected(connected) => self.connected = Some(*connected),
            DeviceEvent::ButtonPressed(_) => {},
            DeviceEvent::UpdateBitmap(bitmap) => self.previous_button_bitmap = *bitmap,
            DeviceEvent::Command(_) => {},
        }
    }

    /// Applies the part of a command that needs no device: the layout toggle. Returns whether
    /// the command must still be sent to the device (turning it off).
    pub fn try_apply(&mut self, command: DeviceCommand) -> (needs_device: bool)
        ensures
            needs_device == (command == DeviceCommand::TurnOff),
            *final(self) == (if needs_device { *old(self) } else { old(self).toggled() }),
    {
        match command {
            DeviceCommand::TurnOff => true,
            DeviceCommand::NintendoLayoutToggle => {
                self.nintendo_layout = !self.nintendo_layout;
                false
            },
        }
    }

    /// Forgets everything learnt from the device but its ids and name.
    pub fn clear_state(&mut self)
        ensures
            *final(self) == DeviceProperties::fresh(
                old(self).product_id,
                old(self).vendor_id,
                old(self).device_name,
            ),
    {
        let device_name = match &self.device_name {
            Some(n) => Some(n.clone()),
            None => None,
        };
        *self = DeviceProperties::new(self.product_id, self.vendor_id, device_name);
    }

    /// A copy of the properties.
    pub fn snapshot(&self) -> (r: DeviceProperties)
        ensures
            r == *self,
    {
        DeviceProperties {
            product_id: self.product_id,
            vendor_id: self.vendor_id,
            device_name: match &self.device_name {
                Some(n) => Some(n.clone()),
                None => None,
            },
            battery_level: self.battery_level,
            charging: self.charging,
            connected: self.connected,
            previous_button_bitmap: self.previous_button_bitmap,
            nintendo_layout: self.nintendo_layout,
            controller_id: self.controller_id,
        }
    }

    /// Whether an active refresh goes on querying: only while the controller is known to be
    /// connected.
    pub fn keeps_querying(&self) -> (r: bool)
        ensures
            r == (self.connected == Some(true)),
    {
        match self.connected {
            Some(true) => true,
            _ => false,
        }
    }
}

// ---------------------------------------------------------------------------
// Active refresh: button presses are handed on, everything else is stored.
// ---------------------------------------------------------------------------

/// The inputs of the button presses among `events`, in order.
pub open spec fn pressed_inputs(events: Seq<DeviceEvent>) -> Seq<ControllerInput>
    decreases events.len(),
{
    if events.len() == 0 {
        Seq::empty()
    } else {
        let rest = pressed_inputs(events.drop_last());
        match events.last() {
            DeviceEvent::ButtonPressed(b) => rest.push(b),
            _ => rest,
        }
    }
}

/// The properties after storing every event that is not a button press, in order.
pub open spec fn absorbed(p: DeviceProperties, events: Seq<DeviceEvent>) -> DeviceProperties
    decreases events.len(),
{
    if events.len() == 0 {
        p
    } else {
        absorbed(p, events.drop_last()).after_event(events.last())
    }
}

impl DeviceProperties {
    /// Handles the events of one answer during an active refresh: button presses are appended
    /// to `pressed`, every other event is stored.
    pub fn absorb_refresh_events(&mut self, events: &Vec<DeviceEvent>, pressed: &mut Vec<ControllerInput>)
        ensures
            final(pressed)@ == old(pressed)@ + pressed_inputs(events@),
            *final(self) == absorbed(*old(self), events@),
    {
        let mut i: usize = 0;
        while i < events.len()
            invariant
                i <= events@.len(),
                pressed@ == old(pressed)@ + pressed_inputs(events@.take(i as int)),
                *self == absorbed(*old(self), events@.take(i as int)),
            decreases events@.len() - i,
        {
            assert(events@.take(i + 1).drop_last() =~= events@.take(i as int));
            let event = events[i];
            match event {
                DeviceEvent::ButtonPressed(button) => pressed.push(button),
                _ => self.update_self_with_event(&event),
            }
            i = i + 1;
            assert(pressed@ =~= old(pressed)@ + pressed_inputs(events@.take(i as int)));
        }
        assert(events@.take(events@.len() as int) =~= events@);
    }
}

/// The result of an active refresh: the pressed inputs when the device answered at least one
/// query, `None` (no response) when it answered none.
pub fn active_refresh_result(responded: bool, pressed: Vec<ControllerInput>) -> (r: Option<Vec<ControllerInput>>)
    ensures
        r == (if responded { Some(pressed) } else { None::<Vec<ControllerInput>> }),
{
    if responded {
        Some(pressed)
    } else {
        None
    }
}

// ---------------------------------------------------------------------------
// Passive refresh: the layout swaps face buttons, commands are applied.
// ---------------------------------------------------------------------------

/// The input as the layout reports it: the Nintendo layout swaps A with B and X with Y.
pub open spec fn spec_layout_input(nintendo_layout: bool, input: ControllerInput) -> ControllerInput {
    if nintendo_layout {
        match input {
            ControllerInput::A(p) => ControllerInput::B(p),
            ControllerInput::B(p) => ControllerInput::A(p),
            ControllerInput::X(p) => ControllerInput::Y(p),
            ControllerInput::Y(p) => ControllerInput::X(p),
            other => other,
        }
    } else {
        input
    }
}

/// The input as the layout reports it: the Nintendo layout swaps A with B and X with Y.
pub fn layout_input(nintendo_layout: bool, input: ControllerInput) -> (r: ControllerInput)
    ensures
        r == spec_layout_input(nintendo_layout, input),
{
    if nintendo_layout {
        match input {
            ControllerInput::A(p) => ControllerInput::B(p),
            ControllerInput::B(p) => ControllerInput::A(p),
            ControllerInput::X(p) => ControllerInput::Y(p),
            ControllerInput::Y(p) => ControllerInput::X(p),
            other => other,
        }
    } else {
        input
    }
}

/// Whether the event asks to turn the controller off.
pub open spec fn is_turn_off(e: DeviceEvent) -> bool {
    e == DeviceEvent::Command(DeviceCommand::TurnOff)
}

/// The index of the first turn-off command at or after `i`, or the length of `events`.
pub open spec fn next_turn_off(events: Seq<DeviceEvent>, i: int) -> int
    decreases events.len() - i,
{
    if i >= events.len() {
        events.len() as int
    } else if is_turn_off(events[i]) {
        i
    } else {
        next_turn_off(events, i + 1)
    }
}

/// The properties after a passive refresh handled one event other than a turn-off command.
pub open spec fn after_passive_event(p: DeviceProperties, e: DeviceEvent) -> DeviceProperties {
    match e {
        DeviceEvent::Command(DeviceCommand::NintendoLayoutToggle) => p.toggled(),
        _ => p.after_event(e),
    }
}

/// The inputs a passive refresh hands on for `events`, seen through the layout.
pub open spec fn passive_pressed(nintendo_layout: bool, events: Seq<DeviceEvent>) -> Seq<ControllerInput>
    decreases events.len(),
{
    if events.len() == 0 {
        Seq::empty()
    } else {
        let rest = passive_pressed(nintendo_layout, events.drop_last());
        match events.last() {
            DeviceEvent::ButtonPressed(b) => rest.push(spec_layout_input(nintendo_layout, b)),
            _ => rest,
        }
    }
}

/// The properties after a passive refresh handled `events`.
pub open spec fn passive_absorbed(p: DeviceProperties, events: Seq<DeviceEvent>) -> DeviceProperties
    decreases events.len(),
{
    if events.len() == 0 {
        p
    } else {
        after_passive_event(passive_absorbed(p, events.drop_last()), events.last())
    }
}

proof fn lemma_next_turn_off_bounds(events: Seq<DeviceEvent>, i: int)
    requires
        0 <= i <= events.len(),
    ensures
        i <= next_turn_off(events, i) <= events.len(),
        next_turn_off(events, i) < events.len() ==> is_turn_off(events[next_turn_off(events, i)]),
        forall|k: int| i <= k < next_turn_off(events, i) ==> !is_turn_off(#[trigger] events[k]),
    decreases events.len() - i,
{
    if i < events.len() && !is_turn_off(events[i]) {
        lemma_next_turn_off_bounds(events, i + 1);
    }
}

impl DeviceProperties {
    /// Handles the events of one passive refresh from index `start` on, up to the next command
    /// to turn the controller off: button presses (seen through `nintendo_layout`) are appended
    /// to `pressed`, layout toggles are applied and status events stored. Returns the index of
    /// the turn-off command where it stopped, `None` when it handled every event.
    pub fn process_passive_events(
        &mut self,
        nintendo_layout: bool,
        events: &Vec<DeviceEvent>,
        start: usize,
        pressed: &mut Vec<ControllerInput>,
    ) -> (stop: Option<usize>)
        requires
            start <= events@.len(),
        ensures
            ({
                let end = next_turn_off(events@, start as int);
                let handled = events@.subrange(start as int, end);
                &&& stop == (if end < events@.len() { Some(end as usize) } else { None })
                &&& final(pressed)@ == old(pressed)@ + passive_pressed(nintendo_layout, handled)
                &&& *final(self) == passive_absorbed(*old(self), handled)
            }),
    {
        proof {
            lemma_next_turn_off_bounds(events@, start as int);
        }
        let ghost end = next_turn_off(events@, start as int);
        let mut i: usize = start;
        while i < events.len()
            invariant
                start <= i <= end,
                end == next_turn_off(events@, start as int),
                start <= end <= events@.len(),
                end < events@.len() ==> is_turn_off(events@[end]),
                forall|k: int| start <= k < end ==> !is_turn_off(#[trigger] events@[k]),
                pressed@ == old(pressed)@ + passive_pressed(nintendo_layout, events@.subrange(start as int, i as int)),
                *self == passive_absorbed(*old(self), events@.subrange(start as int, i as int)),
            decreases events@.len() - i,
        {
            let event = events[i];
            if event == DeviceEvent::Command(DeviceCommand::TurnOff) {
                return Some(i);
            }
            assert(events@.subrange(start as int, i + 1).drop_last() =~= events@.subrange(start as int, i as int));
            match event {
                DeviceEvent::ButtonPressed(button) => pressed.push(layout_input(nintendo_layout, button)),
                DeviceEvent::Command(command) => {
                    self.try_apply(command);
                },
                _ => self.update_self_with_event(&event),
            }
            i = i + 1;
            assert(pressed@ =~= old(pressed)@ + passive_pressed(nintendo_layout, events@.subrange(start as int, i as int)));
        }
        None
    }
}

} // verus!
