//! Signals on the bus: how a message is recognised and read.
//!
//! A message names a path, an interface and a member. Three signals are
//! handled; each has a body of a fixed number of fields of fixed shapes. A
//! message that is not one of them, or whose body has another form, is
//! discarded with the reason, and never stops the monitor.

use vstd::prelude::*;
use vstd::string::StringExecFns;
use crate::battery::battery_change;
use crate::battery::process_battery_device_properties;
use crate::battery::BatteryChange;
use crate::battery::POWER_DEVICE_INTERFACE;
use crate::bluetooth::battery_interface_level;
use crate::bluetooth::interface_facts;
use crate::bluetooth::interface_report;
use crate::bluetooth::process_bluetooth_battery_interface;
use crate::bluetooth::removed_interfaces;
use crate::bluetooth::removed_report;
use crate::bluetooth::Origin;
use crate::bluetooth::BATTERY_INTERFACE;
use crate::bluetooth::MEDIA_INTERFACE;
use crate::registry::InterfaceFacts;
use crate::registry::InterfaceReport;
use crate::registry::RemovedInterfaces;
use crate::value::same_text;
use crate::value::BusValue;
use crate::value::ShapeError;
use crate::value::ValueKind;

verus! {

/// The interface on which objects announce the interfaces they gain and lose.
pub const OBJECT_MANAGER_INTERFACE: &'static str = "org.freedesktop.DBus.ObjectManager";

/// The interface on which objects announce changed properties.
pub const PROPERTIES_INTERFACE: &'static str = "org.freedesktop.DBus.Properties";

/// The member of the signal for added interfaces.
pub const INTERFACES_ADDED: &'static str = "InterfacesAdded";

/// The member of the signal for removed interfaces.
pub const INTERFACES_REMOVED: &'static str = "InterfacesRemoved";

/// The member of the signal for changed properties.
pub const PROPERTIES_CHANGED: &'static str = "PropertiesChanged";

/// The signals that are handled.
#[derive(Clone, Copy, Debug, PartialEq, Eq, Structural)]
pub enum SignalKind {
    InterfacesAdded,
    PropertiesChanged,
    InterfacesRemoved,
}

/// One entry of the dispatch table: the messages it takes, and the signal
/// they are read as.
#[derive(Clone, Copy, Debug, PartialEq, Eq)]
pub struct Route {
    /// The path a message must name, or `None` where any path will do.
    pub path: Option<&'static str>,
    pub interface: &'static str,
    pub member: &'static str,
    pub kind: SignalKind,
}

impl Route {
    /// Whether this entry takes a message with these names.
    pub open spec fn takes(self, path: Seq<char>, interface: Seq<char>, member: Seq<char>) -> bool {
        &&& self.path matches Some(wanted) ==> wanted@ == path
        &&& self.interface@ == interface
        &&& self.member@ == member
    }

    /// Whether this entry takes a message with these names.
    pub fn accepts(&self, path: &str, interface: &str, member: &str) -> (taken: bool)
        ensures
            taken == self.takes(path@, interface@, member@),
    {
        let path_fits = match self.path {
            Some(wanted) => same_text(wanted, path),
            None => true,
        };
        path_fits && same_text(self.interface, interface) && same_text(self.member, member)
    }
}

/// The signal of the first entry of `routes` that takes a message with these
/// names.
pub open spec fn routed(
    routes: Seq<Route>,
    path: Seq<char>,
    interface: Seq<char>,
    member: Seq<char>,
) -> Option<SignalKind>
    decreases routes.len(),
{
    if routes.len() == 0 {
        None
    } else if routes[0].takes(path, interface, member) {
        Some(routes[0].kind)
    } else {
        routed(routes.drop_first(), path, interface, member)
    }
}

/// The dispatch table: the three signals, each on any path.
pub open spec fn signal_routes() -> Seq<Route> {
    seq![
        Route {
            path: None,
            interface: OBJECT_MANAGER_INTERFACE,
            member: INTERFACES_ADDED,
            kind: SignalKind::InterfacesAdded,
        },
        Route {
            path: None,
            interface: PROPERTIES_INTERFACE,
            member: PROPERTIES_CHANGED,
            kind: SignalKind::PropertiesChanged,
        },
        Route {
            path: None,
            interface: OBJECT_MANAGER_INTERFACE,
            member: INTERFACES_REMOVED,
            kind: SignalKind::InterfacesRemoved,
        },
    ]
}

/// The dispatch table.
pub fn dispatch_table() -> (routes: Vec<Route>)
    ensures
        routes@ == signal_routes(),
{
    let mut routes: Vec<Route> = Vec::new();
    routes.push(
        Route {
            path: None,
            interface: OBJECT_MANAGER_INTERFACE,
            member: INTERFACES_ADDED,
            kind: SignalKind::InterfacesAdded,
        },
    );
    routes.push(
        Route {
            path: None,
            interface: PROPERTIES_INTERFACE,
            member: PROPERTIES_CHANGED,
            kind: SignalKind::PropertiesChanged,
        },
    );
    routes.push(
        Route {
            path: None,
            interface: OBJECT_MANAGER_INTERFACE,
            member: INTERFACES_REMOVED,
            kind: SignalKind::InterfacesRemoved,
        },
    );
    assert(routes@ =~= signal_routes());
    routes
}

/// Finds the signal that a message with these names is read as.
pub fn find_route(routes: &Vec<Route>, path: &str, interface: &str, member: &str) -> (kind: Option<
    SignalKind,
>)
    ensures
        kind == routed(routes@, path@, interface@, member@),
{
    let mut i: usize = 0;
    assert(routes@.skip(0) =~= routes@);
    while i < routes.len()
        invariant
            i <= routes@.len(),
            routed(routes@, path@, interface@, member@) == routed(
                routes@.skip(i as int),
                path@,
                interface@,
                member@,
            ),
        decreases routes@.len() - i,
    {
        proof {
            let rest = routes@.skip(i as int);
            assert(rest[0] == routes@[i as int]);
            assert(rest.drop_first() =~= routes@.skip(i as int + 1));
        }
        if routes[i].accepts(path, interface, member) {
            return Some(routes[i].kind);
        }
        i += 1;
    }
    None
}

/// A message as it comes from the bus: the three names of its header, each of
/// which may be missing, and the fields of its body, or `None` where the body
/// could not be read as a structure.
#[derive(Debug, PartialEq, Eq)]
pub struct BusMessage {
    pub path: Option<String>,
    pub interface: Option<String>,
    pub member: Option<String>,
    pub body: Option<Vec<BusValue>>,
}

/// Why a message was discarded.
#[derive(Clone, Copy, Debug, PartialEq, Eq, Structural)]
pub enum Discard {
    /// The message could not be received.
    ReceiveError,
    /// The header names no path.
    MissingPath,
    /// The header names no member.
    MissingMember,
    /// The header names no interface.
    MissingInterface,
    /// No entry of the dispatch table takes the message.
    Unhandled,
    /// The body could not be read as a structure.
    UnreadableBody,
    /// The body has another number of fields than the signal has.
    FieldCount { expected: usize, found: usize },
    /// The field at `index` has another shape than the signal has there.
    FieldShape { index: usize, error: ShapeError },
    /// The properties that changed belong to an interface of no interest.
    IgnoredInterface,
}

/// A signal that was read from a message.
#[derive(Debug, Clone, PartialEq, Eq)]
pub enum Signal {
    /// The object at `path` gained interfaces.
    InterfacesAdded { path: String, facts: InterfaceFacts },
    /// The object at `path` lost interfaces.
    InterfacesRemoved { path: String, gone: RemovedInterfaces },
    /// Properties of the machine's battery changed.
    SystemBatteryChanged { change: BatteryChange },
    /// Properties of the battery of the peripheral at `path` changed.
    DeviceBatteryChanged { path: String, percentage: Option<u8> },
    /// Properties of the media control of the peripheral at `path` changed.
    DeviceMediaChanged { path: String },
}

/// A signal as plain values.
pub enum SignalView {
    InterfacesAdded { path: Seq<char>, report: InterfaceReport },
    InterfacesRemoved { path: Seq<char>, gone: RemovedInterfaces },
    SystemBatteryChanged { change: BatteryChange },
    DeviceBatteryChanged { path: Seq<char>, percentage: Option<u8> },
    DeviceMediaChanged { path: Seq<char> },
}

impl View for Signal {
    type V = SignalView;

    open spec fn view(&self) -> SignalView {
        match *self {
            Signal::InterfacesAdded { path, facts } => SignalView::InterfacesAdded {
                path: path@,
                report: facts@,
            },
            Signal::InterfacesRemoved { path, gone } => SignalView::InterfacesRemoved {
                path: path@,
                gone,
            },
            Signal::SystemBatteryChanged { change } => SignalView::SystemBatteryChanged { change },
            Signal::DeviceBatteryChanged { path, percentage } => SignalView::DeviceBatteryChanged {
                path: path@,
                percentage,
            },
            Signal::DeviceMediaChanged { path } => SignalView::DeviceMediaChanged { path: path@ },
        }
    }
}

impl SignalView {
    /// The battery levels in the signal are percentages.
    pub open spec fn wf(self) -> bool {
        match self {
            SignalView::InterfacesAdded { report, .. } => report.wf(),
            SignalView::InterfacesRemoved { .. } => true,
            SignalView::SystemBatteryChanged { change } => change.wf(),
            SignalView::DeviceBatteryChanged { percentage, .. } => percentage matches Some(level)
                ==> level <= 100,
            SignalView::DeviceMediaChanged { .. } => true,
        }
    }
}

/// The error for a body of `found` fields where the signal has `expected`.
pub open spec fn wrong_count(expected: usize, found: nat) -> Discard {
    Discard::FieldCount { expected, found: found as usize }
}

/// The error for a field that has not the shape `expected`.
pub open spec fn wrong_shape(fields: Seq<BusValue>, index: usize, expected: ValueKind) -> Discard {
    Discard::FieldShape { index, error: fields[index as int].mismatch(expected) }
}

/// What the body of an `InterfacesAdded` signal says: its two fields are an
/// object path and a dictionary from interface names to properties.
pub open spec fn parsed_added(fields: Seq<BusValue>) -> Result<SignalView, Discard> {
    if fields.len() != 2 {
        Err(wrong_count(2, fields.len()))
    } else {
        match fields[0] {
            BusValue::ObjectPath(path) => match fields[1] {
                BusValue::Dict(interfaces) => Ok(
                    SignalView::InterfacesAdded {
                        path: path@,
                        report: interface_report(interfaces@, Origin::Signal),
                    },
                ),
                _ => Err(wrong_shape(fields, 1, ValueKind::Dict)),
            },
            _ => Err(wrong_shape(fields, 0, ValueKind::ObjectPath)),
        }
    }
}

/// What the body of an `InterfacesRemoved` signal says: its two fields are an
/// object path and an array of interface names.
pub open spec fn parsed_removed(fields: Seq<BusValue>) -> Result<SignalView, Discard> {
    if fields.len() != 2 {
        Err(wrong_count(2, fields.len()))
    } else {
        match fields[0] {
            BusValue::ObjectPath(path) => match fields[1] {
                BusValue::Array(names) => Ok(
                    SignalView::InterfacesRemoved { path: path@, gone: removed_report(names@) },
                ),
                _ => Err(wrong_shape(fields, 1, ValueKind::Array)),
            },
            _ => Err(wrong_shape(fields, 0, ValueKind::ObjectPath)),
        }
    }
}

/// Whether changed properties of the interface `name` are of interest.
pub open spec fn is_watched_interface(name: Seq<char>) -> bool {
    name == POWER_DEVICE_INTERFACE@ || name == BATTERY_INTERFACE@ || name == MEDIA_INTERFACE@
}

/// What the body of a `PropertiesChanged` signal sent from `path` says: its
/// three fields are an interface name, a dictionary of the changed
/// properties, and a third that is not read. The interface decides what the
/// properties are read as.
pub open spec fn parsed_changed(path: Seq<char>, fields: Seq<BusValue>) -> Result<
    SignalView,
    Discard,
> {
    if fields.len() != 3 {
        Err(wrong_count(3, fields.len()))
    } else {
        match fields[0] {
            BusValue::Str(name) => if !is_watched_interface(name@) {
                Err(Discard::IgnoredInterface)
            } else {
                match fields[1] {
                    BusValue::Dict(props) => if name@ == POWER_DEVICE_INTERFACE@ {
                        Ok(SignalView::SystemBatteryChanged { change: battery_change(props@) })
                    } else if name@ == BATTERY_INTERFACE@ {
                        Ok(
                            SignalView::DeviceBatteryChanged {
                                path,
                                percentage: battery_interface_level(fields[1]),
                            },
                        )
                    } else {
                        Ok(SignalView::DeviceMediaChanged { path })
                    },
                    _ => Err(wrong_shape(fields, 1, ValueKind::Dict)),
                }
            },
            _ => Err(wrong_shape(fields, 0, ValueKind::Str)),
        }
    }
}

/// What a message says. The header is looked at first: path, then member,
/// then interface; then the dispatch table; then the body.
pub open spec fn parsed(message: BusMessage) -> Result<SignalView, Discard> {
    match (message.path, message.member, message.interface) {
        (None, _, _) => Err(Discard::MissingPath),
        (Some(_), None, _) => Err(Discard::MissingMember),
        (Some(_), Some(_), None) => Err(Discard::MissingInterface),
        (Some(path), Some(member), Some(interface)) => match routed(
            signal_routes(),
            path@,
            interface@,
            member@,
        ) {
            None => Err(Discard::Unhandled),
            Some(kind) => match message.body {
                None => Err(Discard::UnreadableBody),
                Some(fields) => match kind {
                    SignalKind::InterfacesAdded => parsed_added(fields@),
                    SignalKind::PropertiesChanged => parsed_changed(path@, fields@),
                    SignalKind::InterfacesRemoved => parsed_removed(fields@),
                },
            },
        },
    }
}

/// Reads the body of an `InterfacesAdded` signal.
pub fn parse_interfaces_added(fields: &Vec<BusValue>) -> (out: Result<Signal, Discard>)
    ensures
        match out {
            Ok(signal) => parsed_added(fields@) == Ok::<SignalView, Discard>(signal@) && signal@.wf(),
            Err(discard) => parsed_added(fields@) == Err::<SignalView, Discard>(discard),
        },
{
    if fields.len() != 2 {
        return Err(Discard::FieldCount { expected: 2, found: fields.len() });
    }
    let path = match fields[0].as_object_path() {
        Ok(path) => path,
        Err(error) => {
            return Err(Discard::FieldShape { index: 0, error });
        },
    };
    let interfaces = match fields[1].as_dict() {
        Ok(interfaces) => interfaces,
        Err(error) => {
            return Err(Discard::FieldShape { index: 1, error });
        },
    };
    Ok(
        Signal::InterfacesAdded {
            path: String::from_str(path),
            facts: interface_facts(interfaces, Origin::Signal),
        },
    )
}

/// Reads the body of an `InterfacesRemoved` signal.
pub fn parse_interfaces_removed(fields: &Vec<BusValue>) -> (out: Result<Signal, Discard>)
    ensures
        match out {
            Ok(signal) => parsed_removed(fields@) == Ok::<SignalView, Discard>(signal@)
                && signal@.wf(),
            Err(discard) => parsed_removed(fields@) == Err::<SignalView, Discard>(discard),
        },
{
    if fields.len() != 2 {
        return Err(Discard::FieldCount { expected: 2, found: fields.len() });
    }
    let path = match fields[0].as_object_path() {
        Ok(path) => path,
        Err(error) => {
            return Err(Discard::FieldShape { index: 0, error });
        },
    };
    let names = match fields[1].as_array() {
        Ok(names) => names,
        Err(error) => {
            return Err(Discard::FieldShape { index: 1, error });
        },
    };
    Ok(Signal::InterfacesRemoved { path: String::from_str(path), gone: removed_interfaces(names) })
}

/// Reads the body of a `PropertiesChanged` signal that was sent from `path`.
pub fn parse_properties_changed(path: &str, fields: &Vec<BusValue>) -> (out: Result<
    Signal,
    Discard,
>)
    ensures
        match out {
            Ok(signal) => parsed_changed(path@, fields@) == Ok::<SignalView, Discard>(signal@)
                && signal@.wf(),
            Err(discard) => parsed_changed(path@, fields@) == Err::<SignalView, Discard>(discard),
        },
{
    if fields.len() != 3 {
        return Err(Discard::FieldCount { expected: 3, found: fields.len() });
    }
    let name = match fields[0].as_text() {
        Ok(name) => name,
        Err(error) => {
            return Err(Discard::FieldShape { index: 0, error });
        },
    };
    let power = same_text(name, POWER_DEVICE_INTERFACE);
    let battery = same_text(name, BATTERY_INTERFACE);
    let media = same_text(name, MEDIA_INTERFACE);
    if !(power || battery || media) {
        return Err(Discard::IgnoredInterface);
    }
    let props = match fields[1].as_dict() {
        Ok(props) => props,
        Err(error) => {
            return Err(Discard::FieldShape { index: 1, error });
        },
    };
    if power {
        Ok(Signal::SystemBatteryChanged { change: process_battery_device_properties(props) })
    } else if battery {
        Ok(
            Signal::DeviceBatteryChanged {
                path: String::from_str(path),
                percentage: process_bluetooth_battery_interface(&fields[1]),
            },
        )
    } else {
        Ok(Signal::DeviceMediaChanged { path: String::from_str(path) })
    }
}

/// Reads a message.
pub fn parse(message: &BusMessage) -> (out: Result<Signal, Discard>)
    ensures
        match out {
            Ok(signal) => parsed(*message) == Ok::<SignalView, Discard>(signal@) && signal@.wf(),
            Err(discard) => parsed(*message) == Err::<SignalView, Discard>(discard),
        },
{
    let path = match &message.path {
        Some(path) => path.as_str(),
        None => {
            return Err(Discard::MissingPath);
        },
    };
    let member = match &message.member {
        Some(member) => member.as_str(),
        None => {
            return Err(Discard::MissingMember);
        },
    };
    let interface = match &message.interface {
        Some(interface) => interface.as_str(),
        None => {
            return Err(Discard::MissingInterface);
        },
    };
    let routes = dispatch_table();
    let kind = match find_route(&routes, path, interface, member) {
        Some(kind) => kind,
        None => {
            return Err(Discard::Unhandled);
        },
    };
    let fields = match &message.body {
        Some(fields) => fields,
        None => {
            return Err(Discard::UnreadableBody);
        },
    };
    match kind {
        SignalKind::InterfacesAdded => parse_interfaces_added(fields),
        SignalKind::PropertiesChanged => parse_properties_changed(path, fields),
        SignalKind::InterfacesRemoved => parse_interfaces_removed(fields),
    }
}

} // verus!
