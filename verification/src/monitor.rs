//! The monitor: what the bus has said so far, and what to do on the next
//! event.
//!
//! The monitor owns the registry of peripherals and the state of the
//! machine's battery. It does no input or output of its own: its owner hands
//! it each event of the message stream and carries out the action it gets
//! back. While it listens, no message stops it; when the stream ends it stops
//! for good.

use vstd::prelude::*;
use crate::battery::process_battery_percentage;
use crate::battery::process_battery_state;
use crate::battery::battery_level;
use crate::battery::battery_state;
use crate::battery::BatteryChange;
use crate::battery::SystemBatteryState;
use crate::bluetooth::interface_facts;
use crate::bluetooth::interface_report;
use crate::bluetooth::Origin;
use crate::display::battery_summary;
use crate::display::battery_text;
use crate::display::bluetooth_summary;
use crate::display::compute_bluetooth_display_string;
use crate::registry::after_battery_changed;
use crate::registry::after_interfaces_added;
use crate::registry::after_interfaces_removed;
use crate::registry::after_media_changed;
use crate::registry::lemma_battery_changed;
use crate::registry::lemma_interfaces_added;
use crate::registry::lemma_interfaces_removed;
use crate::registry::lemma_media_changed;
use crate::registry::registry_wf;
use crate::registry::text_view;
use crate::registry::DeviceFacts;
use crate::registry::DeviceRegistry;
use crate::signal::parse;
use crate::signal::parsed;
use crate::signal::BusMessage;
use crate::signal::Discard;
use crate::signal::Signal;
use crate::signal::SignalView;
use crate::value::BusValue;
use crate::value::DictEntry;

verus! {

/// The state of a monitor, as plain values.
pub struct MonitorState {
    /// Whether the monitor still takes events.
    pub listening: bool,
    pub battery: SystemBatteryState,
    pub devices: Seq<DeviceFacts>,
}

impl MonitorState {
    /// The state of a monitor that has heard nothing yet.
    pub open spec fn initial() -> MonitorState {
        MonitorState {
            listening: true,
            battery: SystemBatteryState::spec_new(),
            devices: Seq::empty(),
        }
    }

    /// The invariant of the monitor: that of the registry, and a battery
    /// level that is a percentage.
    pub open spec fn wf(self) -> bool {
        registry_wf(self.devices) && self.battery.wf()
    }
}

/// An event of the message stream.
#[derive(Debug, PartialEq, Eq)]
pub enum BusEvent {
    /// A message arrived.
    Message(BusMessage),
    /// A message could not be received.
    ReceiveError,
    /// The stream has ended.
    StreamEnded,
}

/// What the owner of the monitor is to do after an event.
#[derive(Debug, Clone, PartialEq, Eq)]
pub enum Action {
    /// Hand each text that is given to its reader.
    Publish { battery_text: Option<String>, bluetooth_text: Option<String> },
    /// Nothing changed; the event was set aside for the reason given.
    Discard(Discard),
    /// Listen no more.
    Stop,
}

/// An action as plain values.
pub enum ActionView {
    Publish { battery_text: Option<Seq<char>>, bluetooth_text: Option<Seq<char>> },
    Discard(Discard),
    Stop,
}

impl View for Action {
    type V = ActionView;

    open spec fn view(&self) -> ActionView {
        match *self {
            Action::Publish { battery_text, bluetooth_text } => ActionView::Publish {
                battery_text: text_view(battery_text),
                bluetooth_text: text_view(bluetooth_text),
            },
            Action::Discard(reason) => ActionView::Discard(reason),
            Action::Stop => ActionView::Stop,
        }
    }
}

/// An object of the inventory that the Bluetooth service lists: its path and
/// its map from interface names to properties.
#[derive(Debug, PartialEq, Eq)]
pub struct ManagedObject {
    pub path: String,
    pub interfaces: Vec<DictEntry>,
}

/// The texts that are shown first.
#[derive(Debug, Clone, PartialEq, Eq)]
pub struct InitialTexts {
    pub battery_text: String,
    pub bluetooth_text: String,
}

/// The state after a signal.
pub open spec fn applied(state: MonitorState, signal: SignalView) -> MonitorState {
    match signal {
        SignalView::InterfacesAdded { path, report } => MonitorState {
            devices: after_interfaces_added(state.devices, path, report),
            ..state
        },
        SignalView::InterfacesRemoved { path, gone } => MonitorState {
            devices: after_interfaces_removed(state.devices, path, gone),
            ..state
        },
        SignalView::SystemBatteryChanged { change } => MonitorState {
            battery: state.battery.changed(change),
            ..state
        },
        SignalView::DeviceBatteryChanged { path, percentage } => MonitorState {
            devices: after_battery_changed(state.devices, path, percentage),
            ..state
        },
        SignalView::DeviceMediaChanged { path } => MonitorState {
            devices: after_media_changed(state.devices, path),
            ..state
        },
    }
}

/// Whether a signal calls for the Bluetooth text: it does where it adds,
/// changes or removes interfaces of a peripheral.
pub open spec fn concerns_bluetooth(signal: SignalView) -> bool {
    match signal {
        SignalView::InterfacesAdded { report, .. } => report.device_info || report.battery
            || report.media,
        SignalView::InterfacesRemoved { .. } => true,
        SignalView::SystemBatteryChanged { .. } => false,
        SignalView::DeviceBatteryChanged { .. } => true,
        SignalView::DeviceMediaChanged { .. } => true,
    }
}

/// Whether a signal calls for the battery text: it does where it gives the
/// level of the machine's battery.
pub open spec fn concerns_battery(signal: SignalView) -> bool {
    signal matches SignalView::SystemBatteryChanged { change } && change.percentage is Some
}

/// The action after a signal, given the state that the signal left: each
/// text that the signal calls for, derived from that state.
pub open spec fn published(after: MonitorState, signal: SignalView) -> ActionView {
    ActionView::Publish {
        battery_text: if concerns_battery(signal) {
            Some(battery_summary(after.battery.percentage))
        } else {
            None
        },
        bluetooth_text: if concerns_bluetooth(signal) {
            Some(bluetooth_summary(after.devices))
        } else {
            None
        },
    }
}

/// The state and the action after an event. A monitor that has stopped stays
/// as it is. The end of the stream stops it. A message that cannot be
/// received or read is discarded and changes nothing.
pub open spec fn stepped(state: MonitorState, event: BusEvent) -> (MonitorState, ActionView) {
    if !state.listening {
        (state, ActionView::Stop)
    } else {
        match event {
            BusEvent::StreamEnded => (MonitorState { listening: false, ..state }, ActionView::Stop),
            BusEvent::ReceiveError => (state, ActionView::Discard(Discard::ReceiveError)),
            BusEvent::Message(message) => match parsed(message) {
                Ok(signal) => (applied(state, signal), published(applied(state, signal), signal)),
                Err(reason) => (state, ActionView::Discard(reason)),
            },
        }
    }
}

/// The registry after the objects of an inventory were taken in, one after
/// the other. Of the names of a peripheral, the alias is preferred, and the
/// properties are read as they are listed.
pub open spec fn seeded(devs: Seq<DeviceFacts>, objects: Seq<ManagedObject>) -> Seq<DeviceFacts>
    decreases objects.len(),
{
    if objects.len() == 0 {
        devs
    } else {
        after_interfaces_added(
            seeded(devs, objects.drop_last()),
            objects.last().path@,
            interface_report(objects.last().interfaces@, Origin::Inventory),
        )
    }
}

/// What the first readings say of the battery: each property that was read
/// gives what its value gives.
pub open spec fn first_reading(percentage: Option<BusValue>, state: Option<BusValue>) -> BatteryChange {
    BatteryChange {
        percentage: match percentage {
            Some(value) => battery_level(value),
            None => None,
        },
        state: match state {
            Some(value) => battery_state(value),
            None => None,
        },
    }
}

/// The state after the first readings of the battery and the inventory of
/// the Bluetooth service.
pub open spec fn loaded(
    state: MonitorState,
    percentage: Option<BusValue>,
    charging: Option<BusValue>,
    objects: Seq<ManagedObject>,
) -> MonitorState {
    MonitorState {
        listening: state.listening,
        battery: state.battery.changed(first_reading(percentage, charging)),
        devices: seeded(state.devices, objects),
    }
}

/// The state after a run of events.
pub open spec fn ran(state: MonitorState, events: Seq<BusEvent>) -> MonitorState
    decreases events.len(),
{
    if events.len() == 0 {
        state
    } else {
        stepped(ran(state, events.drop_last()), events.last()).0
    }
}

/// A signal that is read from a message holds battery levels that are
/// percentages.
pub proof fn lemma_parsed_wf(message: BusMessage)
    ensures
        parsed(message) matches Ok(signal) ==> signal.wf(),
{
}

/// A signal keeps the invariant of the monitor.
pub proof fn lemma_applied_wf(state: MonitorState, signal: SignalView)
    requires
        state.wf(),
        signal.wf(),
    ensures
        applied(state, signal).wf(),
        applied(state, signal).listening == state.listening,
{
    match signal {
        SignalView::InterfacesAdded { path, report } => {
            lemma_interfaces_added(state.devices, path, report, path);
        },
        SignalView::InterfacesRemoved { path, gone } => {
            lemma_interfaces_removed(state.devices, path, gone, path);
        },
        SignalView::SystemBatteryChanged { change } => {},
        SignalView::DeviceBatteryChanged { path, percentage } => {
            lemma_battery_changed(state.devices, path, percentage);
        },
        SignalView::DeviceMediaChanged { path } => {
            lemma_media_changed(state.devices, path);
        },
    }
}

/// An event keeps the invariant of the monitor.
pub proof fn lemma_stepped_wf(state: MonitorState, event: BusEvent)
    requires
        state.wf(),
    ensures
        stepped(state, event).0.wf(),
{
    if state.listening {
        match event {
            BusEvent::Message(message) => {
                lemma_parsed_wf(message);
                match parsed(message) {
                    Ok(signal) => {
                        lemma_applied_wf(state, signal);
                    },
                    Err(_) => {},
                }
            },
            _ => {},
        }
    }
}

/// An inventory keeps the invariant of the registry.
pub proof fn lemma_seeded_wf(devs: Seq<DeviceFacts>, objects: Seq<ManagedObject>)
    requires
        registry_wf(devs),
    ensures
        registry_wf(seeded(devs, objects)),
    decreases objects.len(),
{
    if objects.len() > 0 {
        lemma_seeded_wf(devs, objects.drop_last());
        let path = objects.last().path@;
        lemma_interfaces_added(
            seeded(devs, objects.drop_last()),
            path,
            interface_report(objects.last().interfaces@, Origin::Inventory),
            path,
        );
    }
}

/// The invariant holds in every state that can be reached: whatever the
/// first readings and the inventory were, and whatever events followed, no
/// two records are for one path, and every record has a battery, or media
/// control, or a name.
pub proof fn lemma_reachable_wf(
    percentage: Option<BusValue>,
    charging: Option<BusValue>,
    objects: Seq<ManagedObject>,
    events: Seq<BusEvent>,
)
    ensures
        ran(loaded(MonitorState::initial(), percentage, charging, objects), events).wf(),
    decreases events.len(),
{
    let start = loaded(MonitorState::initial(), percentage, charging, objects);
    if events.len() == 0 {
        lemma_seeded_wf(Seq::empty(), objects);
    } else {
        lemma_reachable_wf(percentage, charging, objects, events.drop_last());
        lemma_stepped_wf(ran(start, events.drop_last()), events.last());
    }
}

/// A monitor that has stopped stays stopped, and nothing changes it.
pub proof fn lemma_stopped_is_final(state: MonitorState, events: Seq<BusEvent>)
    requires
        !state.listening,
    ensures
        ran(state, events) == state,
    decreases events.len(),
{
    if events.len() > 0 {
        lemma_stopped_is_final(state, events.drop_last());
    }
}

/// The monitor of the bus.
#[derive(Debug, Clone, PartialEq, Eq)]
pub struct BusMonitor {
    listening: bool,
    battery: SystemBatteryState,
    devices: DeviceRegistry,
}

impl View for BusMonitor {
    type V = MonitorState;

    closed spec fn view(&self) -> MonitorState {
        MonitorState { listening: self.listening, battery: self.battery, devices: self.devices@ }
    }
}

impl BusMonitor {
    /// The invariant of the monitor holds of this one.
    pub open spec fn wf(&self) -> bool {
        self@.wf()
    }

    /// A monitor that listens and has heard nothing yet.
    pub fn new() -> (monitor: BusMonitor)
        ensures
            monitor@ == MonitorState::initial(),
            monitor.wf(),
    {
        BusMonitor {
            listening: true,
            battery: SystemBatteryState::new(),
            devices: DeviceRegistry::new(),
        }
    }

    /// Whether the monitor still takes events.
    pub fn is_listening(&self) -> (listening: bool)
        ensures
            listening == self@.listening,
    {
        self.listening
    }

    /// The battery of the machine as far as it is known.
    pub fn battery(&self) -> (battery: SystemBatteryState)
        ensures
            battery == self@.battery,
    {
        self.battery
    }

    /// The registry of peripherals.
    pub fn devices(&self) -> (devices: &DeviceRegistry)
        ensures
            devices@ == self@.devices,
    {
        &self.devices
    }

    /// Derives the battery text from what is known.
    pub fn battery_text(&self) -> (text: String)
        ensures
            text@ == battery_summary(self@.battery.percentage),
    {
        battery_text(self.battery.percentage)
    }

    /// Derives the Bluetooth text from what is known.
    pub fn bluetooth_text(&self) -> (text: String)
        ensures
            text@ == bluetooth_summary(self@.devices),
    {
        compute_bluetooth_display_string(&self.devices)
    }

    /// Takes in the first readings of the battery, each of which may be
    /// missing, and the inventory of the Bluetooth service, which is empty
    /// where it could not be had. Both texts are derived afterwards.
    pub fn load_snapshot(
        &mut self,
        percentage: Option<&BusValue>,
        charging: Option<&BusValue>,
        objects: &Vec<ManagedObject>,
    ) -> (texts: InitialTexts)
        requires
            old(self).wf(),
        ensures
            final(self).wf(),
            final(self)@ == loaded(
                old(self)@,
                match percentage {
                    Some(value) => Some(*value),
                    None => None,
                },
                match charging {
                    Some(value) => Some(*value),
                    None => None,
                },
                objects@,
            ),
            texts.battery_text@ == battery_summary(final(self)@.battery.percentage),
            texts.bluetooth_text@ == bluetooth_summary(final(self)@.devices),
    {
        let change = BatteryChange {
            percentage: match percentage {
                Some(value) => process_battery_percentage(value),
                None => None,
            },
            state: match charging {
                Some(value) => process_battery_state(value),
                None => None,
            },
        };
        self.battery.apply(change);
        let ghost start = self.devices@;
        let mut i: usize = 0;
        assert(objects@.take(0) =~= Seq::<ManagedObject>::empty());
        while i < objects.len()
            invariant
                i <= objects@.len(),
                self.devices.wf(),
                self.devices@ == seeded(start, objects@.take(i as int)),
                self.battery == old(self)@.battery.changed(change),
                self.battery.wf(),
                self.listening == old(self)@.listening,
            decreases objects@.len() - i,
        {
            let object = &objects[i];
            proof {
                let upto = objects@.take(i as int + 1);
                assert(upto.drop_last() =~= objects@.take(i as int));
                assert(upto.last() == objects@[i as int]);
            }
            let facts = interface_facts(&object.interfaces, Origin::Inventory);
            self.devices.interfaces_added(object.path.as_str(), facts);
            i += 1;
        }
        assert(objects@.take(i as int) =~= objects@);
        InitialTexts { battery_text: self.battery_text(), bluetooth_text: self.bluetooth_text() }
    }

    /// Takes a signal in and says which texts to hand on.
    pub fn apply(&mut self, signal: Signal) -> (action: Action)
        requires
            old(self).wf(),
            signal@.wf(),
        ensures
            final(self).wf(),
            final(self)@ == applied(old(self)@, signal@),
            action@ == published(final(self)@, signal@),
    {
        proof {
            lemma_applied_wf(self@, signal@);
        }
        match signal {
            Signal::InterfacesAdded { path, facts } => {
                let concerned = facts.device_info || facts.battery || facts.media;
                self.devices.interfaces_added(path.as_str(), facts);
                Action::Publish {
                    battery_text: None,
                    bluetooth_text: if concerned {
                        Some(self.bluetooth_text())
                    } else {
                        None
                    },
                }
            },
            Signal::InterfacesRemoved { path, gone } => {
                self.devices.interfaces_removed(path.as_str(), gone);
                Action::Publish { battery_text: None, bluetooth_text: Some(self.bluetooth_text()) }
            },
            Signal::SystemBatteryChanged { change } => {
                self.battery.apply(change);
                Action::Publish {
                    battery_text: if change.percentage.is_some() {
                        Some(self.battery_text())
                    } else {
                        None
                    },
                    bluetooth_text: None,
                }
            },
            Signal::DeviceBatteryChanged { path, percentage } => {
                self.devices.battery_changed(path.as_str(), percentage);
                Action::Publish { battery_text: None, bluetooth_text: Some(self.bluetooth_text()) }
            },
            Signal::DeviceMediaChanged { path } => {
                self.devices.media_changed(path.as_str());
                Action::Publish { battery_text: None, bluetooth_text: Some(self.bluetooth_text()) }
            },
        }
    }

    /// Takes the next event of the message stream and says what to do.
    pub fn step(&mut self, event: &BusEvent) -> (action: Action)
        requires
            old(self).wf(),
        ensures
            final(self).wf(),
            (final(self)@, action@) == stepped(old(self)@, *event),
    {
        if !self.listening {
            return Action::Stop;
        }
        match event {
            BusEvent::StreamEnded => {
                self.listening = false;
                Action::Stop
            },
            BusEvent::ReceiveError => Action::Discard(Discard::ReceiveError),
            BusEvent::Message(message) => match parse(message) {
                Ok(signal) => self.apply(signal),
                Err(reason) => Action::Discard(reason),
            },
        }
    }
}

} // verus!
