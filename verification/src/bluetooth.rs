//! What bus values say of Bluetooth peripherals.
//!
//! A peripheral shows on the bus as an object with up to three interfaces of
//! interest: one with its name, one with its battery, one for media control.

use vstd::prelude::*;
use vstd::string::StringExecFns;
use crate::registry::InterfaceFacts;
use crate::registry::InterfaceReport;
use crate::registry::RemovedInterfaces;
use crate::value::dict_find;
use crate::value::dict_get;
use crate::value::lookup;
use crate::value::stored_under;
use crate::value::same_text;
use crate::value::BusValue;
use crate::value::DictEntry;

verus! {

/// The interface that carries a peripheral's name.
pub const DEVICE_INTERFACE: &'static str = "org.bluez.Device1";

/// The interface of a peripheral's battery.
pub const BATTERY_INTERFACE: &'static str = "org.bluez.Battery1";

/// The interface of a peripheral's media control.
pub const MEDIA_INTERFACE: &'static str = "org.bluez.MediaControl1";

/// The property that holds a battery level.
pub const PERCENTAGE_PROPERTY: &'static str = "Percentage";

/// The property that holds the name a peripheral gives itself.
pub const NAME_PROPERTY: &'static str = "Name";

/// The property that holds the name the user gave a peripheral.
pub const ALIAS_PROPERTY: &'static str = "Alias";

/// The battery level that a value gives: that of a byte up to 100.
pub open spec fn bluetooth_level(value: BusValue) -> Option<u8> {
    match value {
        BusValue::U8(level) => if level <= 100 {
            Some(level)
        } else {
            None
        },
        _ => None,
    }
}

/// Where a map of properties comes from. In a signal a property may come
/// wrapped as a variant, and one wrapper is taken off; the inventory lists
/// properties as they are, and nothing is taken off.
#[derive(Clone, Copy, Debug, PartialEq, Eq, Structural)]
pub enum Origin {
    Signal,
    Inventory,
}

/// What a dictionary of this origin holds under `key`.
pub open spec fn held(entries: Seq<DictEntry>, key: Seq<char>, origin: Origin) -> Option<BusValue> {
    match origin {
        Origin::Signal => lookup(entries, key),
        Origin::Inventory => stored_under(entries, key),
    }
}

/// The battery level that the properties of a battery interface give: that of
/// their `Percentage`, where the properties are a dictionary that has one.
pub open spec fn interface_level(interface: BusValue, origin: Origin) -> Option<u8> {
    match interface {
        BusValue::Dict(props) => match held(props@, PERCENTAGE_PROPERTY@, origin) {
            Some(value) => bluetooth_level(value),
            None => None,
        },
        _ => None,
    }
}

/// The battery level that the properties of a battery interface give in a
/// signal.
pub open spec fn battery_interface_level(interface: BusValue) -> Option<u8> {
    interface_level(interface, Origin::Signal)
}

/// The text that a value gives: that of a string.
pub open spec fn text_of(value: BusValue) -> Option<Seq<char>> {
    match value {
        BusValue::Str(text) => Some(text@),
        _ => None,
    }
}

/// The name that the properties of a device-info interface announce: their
/// `Name`, where it is a string.
pub open spec fn announced_name(props: Seq<DictEntry>, origin: Origin) -> Option<Seq<char>> {
    match held(props, NAME_PROPERTY@, origin) {
        Some(value) => text_of(value),
        None => None,
    }
}

/// The name that the properties of a device-info interface list: their
/// `Alias` where they have one, else their `Name`; none where the one taken
/// is no string.
pub open spec fn listed_name(props: Seq<DictEntry>, origin: Origin) -> Option<Seq<char>> {
    match held(props, ALIAS_PROPERTY@, origin) {
        Some(value) => text_of(value),
        None => announced_name(props, origin),
    }
}

/// The name that the properties of a device-info interface give: in a signal
/// the one they announce, in the inventory the one they list.
pub open spec fn name_given(props: Seq<DictEntry>, origin: Origin) -> Option<Seq<char>> {
    match origin {
        Origin::Signal => announced_name(props, origin),
        Origin::Inventory => listed_name(props, origin),
    }
}

/// What a map from interface names to properties reports. The device-info
/// interface counts where its properties are a dictionary. The battery and
/// the media control count where they are named at all.
pub open spec fn interface_report(interfaces: Seq<DictEntry>, origin: Origin) -> InterfaceReport {
    let device = held(interfaces, DEVICE_INTERFACE@, origin);
    let battery = held(interfaces, BATTERY_INTERFACE@, origin);
    InterfaceReport {
        device_info: device matches Some(BusValue::Dict(_)),
        name: match device {
            Some(BusValue::Dict(props)) => name_given(props@, origin),
            _ => None,
        },
        battery: battery is Some,
        percentage: match battery {
            Some(interface) => interface_level(interface, origin),
            None => None,
        },
        media: held(interfaces, MEDIA_INTERFACE@, origin) is Some,
    }
}

/// Whether `name` is among the strings of `names`.
pub open spec fn names_include(names: Seq<BusValue>, name: Seq<char>) -> bool {
    exists|i: int| 0 <= i < names.len() && text_of(#[trigger] names[i]) == Some(name)
}

/// Which of the interfaces of interest a list of removed interface names
/// holds. What is no string in the list is passed over.
pub open spec fn removed_report(names: Seq<BusValue>) -> RemovedInterfaces {
    RemovedInterfaces {
        device_info: names_include(names, DEVICE_INTERFACE@),
        battery: names_include(names, BATTERY_INTERFACE@),
        media: names_include(names, MEDIA_INTERFACE@),
    }
}

/// Reads a battery level from a value.
pub fn process_bluetooth_battery_percentage(value: &BusValue) -> (level: Option<u8>)
    ensures
        level == bluetooth_level(*value),
{
    match value.as_u8() {
        Ok(level) => if level <= 100 {
            Some(level)
        } else {
            None
        },
        Err(_) => None,
    }
}

/// Reads what a dictionary of this origin holds under `key`.
pub fn read<'a>(entries: &'a Vec<DictEntry>, key: &str, origin: Origin) -> (found: Option<
    &'a BusValue,
>)
    ensures
        match found {
            Some(value) => held(entries@, key@, origin) == Some(*value),
            None => held(entries@, key@, origin) is None,
        },
{
    match origin {
        Origin::Signal => dict_get(entries, key),
        Origin::Inventory => dict_find(entries, key),
    }
}

/// Reads a battery level from the properties of a battery interface.
pub fn read_interface_level(interface: &BusValue, origin: Origin) -> (level: Option<u8>)
    ensures
        level == interface_level(*interface, origin),
        level matches Some(l) ==> l <= 100,
{
    match interface.as_dict() {
        Ok(props) => match read(props, PERCENTAGE_PROPERTY, origin) {
            Some(value) => process_bluetooth_battery_percentage(value),
            None => None,
        },
        Err(_) => None,
    }
}

/// Reads a battery level from the properties of a battery interface that
/// came in a signal.
pub fn process_bluetooth_battery_interface(battery_interface_value: &BusValue) -> (level: Option<u8>)
    ensures
        level == battery_interface_level(*battery_interface_value),
        level matches Some(l) ==> l <= 100,
{
    read_interface_level(battery_interface_value, Origin::Signal)
}

/// A copy of the text that a value gives.
fn read_text(value: &BusValue) -> (text: Option<String>)
    ensures
        crate::registry::text_view(text) == text_of(*value),
{
    match value.as_text() {
        Ok(text) => Some(String::from_str(text)),
        Err(_) => None,
    }
}

/// Reads a peripheral's name from the properties of a device-info interface.
pub fn device_name(props: &Vec<DictEntry>, origin: Origin) -> (name: Option<String>)
    ensures
        crate::registry::text_view(name) == name_given(props@, origin),
{
    match origin {
        Origin::Inventory => match read(props, ALIAS_PROPERTY, origin) {
            Some(value) => {
                return read_text(value);
            },
            None => {},
        },
        Origin::Signal => {},
    }
    match read(props, NAME_PROPERTY, origin) {
        Some(value) => read_text(value),
        None => None,
    }
}

/// Reads what a map from interface names to properties reports.
pub fn interface_facts(interfaces: &Vec<DictEntry>, origin: Origin) -> (facts: InterfaceFacts)
    ensures
        facts@ == interface_report(interfaces@, origin),
        facts@.wf(),
{
    let mut facts = InterfaceFacts {
        device_info: false,
        name: None,
        battery: false,
        percentage: None,
        media: false,
    };
    match read(interfaces, DEVICE_INTERFACE, origin) {
        Some(device) => match device.as_dict() {
            Ok(props) => {
                facts.device_info = true;
                facts.name = device_name(props, origin);
            },
            Err(_) => {},
        },
        None => {},
    }
    match read(interfaces, BATTERY_INTERFACE, origin) {
        Some(battery) => {
            facts.battery = true;
            facts.percentage = read_interface_level(battery, origin);
        },
        None => {},
    }
    facts.media = read(interfaces, MEDIA_INTERFACE, origin).is_some();
    facts
}

/// Whether `name` is among the strings of `names`.
fn includes_name(names: &Vec<BusValue>, name: &str) -> (found: bool)
    ensures
        found == names_include(names@, name@),
{
    let mut i: usize = 0;
    while i < names.len()
        invariant
            i <= names@.len(),
            forall|j: int| 0 <= j < i ==> text_of(#[trigger] names@[j]) != Some(name@),
        decreases names@.len() - i,
    {
        let hit = match names[i].as_text() {
            Ok(text) => same_text(text, name),
            Err(_) => false,
        };
        if hit {
            assert(text_of(names@[i as int]) == Some(name@));
            return true;
        }
        i += 1;
    }
    false
}

/// Reads which interfaces of interest a list of removed interface names holds.
pub fn removed_interfaces(names: &Vec<BusValue>) -> (gone: RemovedInterfaces)
    ensures
        gone == removed_report(names@),
{
    RemovedInterfaces {
        device_info: includes_name(names, DEVICE_INTERFACE),
        battery: includes_name(names, BATTERY_INTERFACE),
        media: includes_name(names, MEDIA_INTERFACE),
    }
}

} // verus!
