use status_bar::battery::{
    process_battery_device_properties, process_battery_percentage, process_battery_state,
    BatteryChange, ChargingState, SystemBatteryState,
};
use status_bar::bluetooth::{
    device_name, interface_facts, process_bluetooth_battery_interface,
    process_bluetooth_battery_percentage, read, read_interface_level, removed_interfaces, Origin,
};
use status_bar::registry::{InterfaceFacts, RemovedInterfaces};
use status_bar::value::{
    characters, dict_find, dict_get, same_text, BusValue, DictEntry, ShapeError, ValueKind,
};

fn text(s: &str) -> BusValue {
    BusValue::Str(s.to_string())
}

fn entry(key: &str, value: BusValue) -> DictEntry {
    DictEntry { key: text(key), value }
}

fn variant(value: BusValue) -> BusValue {
    BusValue::Variant(Box::new(value))
}

#[test]
fn same_text_compares_characters() {
    assert!(same_text("org.bluez", "org.bluez"));
    assert!(!same_text("org.bluez", "org.bluex"));
    assert!(!same_text("org.bluez", "org.blue"));
    assert!(same_text("", ""));
    assert!(same_text("🔋é", "🔋é"));
    assert!(!same_text("é", "e"));
}

#[test]
fn kind_names_each_shape() {
    assert_eq!(BusValue::U8(1).kind(), ValueKind::U8);
    assert_eq!(BusValue::Bool(true).kind(), ValueKind::Bool);
    assert_eq!(BusValue::I16(-1).kind(), ValueKind::I16);
    assert_eq!(BusValue::U16(1).kind(), ValueKind::U16);
    assert_eq!(BusValue::I32(-1).kind(), ValueKind::I32);
    assert_eq!(BusValue::U32(1).kind(), ValueKind::U32);
    assert_eq!(BusValue::I64(-1).kind(), ValueKind::I64);
    assert_eq!(BusValue::U64(1).kind(), ValueKind::U64);
    assert_eq!(BusValue::Double(1).kind(), ValueKind::Double);
    assert_eq!(text("a").kind(), ValueKind::Str);
    assert_eq!(BusValue::Signature("s".to_string()).kind(), ValueKind::Signature);
    assert_eq!(BusValue::ObjectPath("/".to_string()).kind(), ValueKind::ObjectPath);
    assert_eq!(variant(BusValue::U8(1)).kind(), ValueKind::Variant);
    assert_eq!(BusValue::Array(vec![]).kind(), ValueKind::Array);
    assert_eq!(BusValue::Dict(vec![]).kind(), ValueKind::Dict);
    assert_eq!(BusValue::Structure(vec![]).kind(), ValueKind::Structure);
    assert_eq!(BusValue::Fd.kind(), ValueKind::Fd);
}

#[test]
fn conversions_take_their_own_shape_only() {
    assert_eq!(BusValue::U8(80).as_u8(), Ok(80));
    assert_eq!(
        BusValue::U32(80).as_u8(),
        Err(ShapeError { expected: ValueKind::U8, found: ValueKind::U32 })
    );
    assert_eq!(BusValue::U32(4).as_u32(), Ok(4));
    assert_eq!(
        BusValue::U8(4).as_u32(),
        Err(ShapeError { expected: ValueKind::U32, found: ValueKind::U8 })
    );
    assert_eq!(BusValue::Double(47).as_double(), Ok(47));
    assert_eq!(
        text("47").as_double(),
        Err(ShapeError { expected: ValueKind::Double, found: ValueKind::Str })
    );
    assert_eq!(text("Pixel").as_text(), Ok("Pixel"));
    assert_eq!(
        BusValue::ObjectPath("/d1".to_string()).as_text(),
        Err(ShapeError { expected: ValueKind::Str, found: ValueKind::ObjectPath })
    );
    assert_eq!(BusValue::ObjectPath("/d1".to_string()).as_object_path(), Ok("/d1"));
    assert_eq!(
        text("/d1").as_object_path(),
        Err(ShapeError { expected: ValueKind::ObjectPath, found: ValueKind::Str })
    );
    let dict = BusValue::Dict(vec![entry("a", BusValue::U8(1))]);
    assert_eq!(dict.as_dict().map(|entries| entries.len()), Ok(1));
    assert_eq!(
        dict.as_array(),
        Err(ShapeError { expected: ValueKind::Array, found: ValueKind::Dict })
    );
    let array = BusValue::Array(vec![BusValue::U8(1), BusValue::U8(2)]);
    assert_eq!(array.as_array().map(|items| items.len()), Ok(2));
    assert_eq!(
        array.as_dict(),
        Err(ShapeError { expected: ValueKind::Dict, found: ValueKind::Array })
    );
}

#[test]
fn unwrapped_takes_one_wrapper_off() {
    assert_eq!(variant(BusValue::U8(7)).unwrapped(), &BusValue::U8(7));
    assert_eq!(BusValue::U8(7).unwrapped(), &BusValue::U8(7));
    assert_eq!(variant(variant(BusValue::U8(7))).unwrapped(), &variant(BusValue::U8(7)));
}

#[test]
fn dict_get_finds_first_entry_under_a_text_key() {
    let entries = vec![
        DictEntry { key: BusValue::U8(1), value: BusValue::U8(0) },
        entry("Percentage", variant(BusValue::U8(80))),
        entry("Percentage", BusValue::U8(10)),
        entry("Name", text("Buds")),
    ];
    assert_eq!(dict_get(&entries, "Percentage"), Some(&BusValue::U8(80)));
    assert_eq!(dict_get(&entries, "Name"), Some(&text("Buds")));
    assert_eq!(dict_get(&entries, "Alias"), None);
    assert_eq!(dict_get(&Vec::new(), "Name"), None);
}

#[test]
fn bluetooth_percentage_is_a_byte_up_to_a_hundred() {
    assert_eq!(process_bluetooth_battery_percentage(&BusValue::U8(0)), Some(0));
    assert_eq!(process_bluetooth_battery_percentage(&BusValue::U8(100)), Some(100));
    assert_eq!(process_bluetooth_battery_percentage(&BusValue::U8(101)), None);
    assert_eq!(process_bluetooth_battery_percentage(&BusValue::U32(50)), None);
    assert_eq!(process_bluetooth_battery_percentage(&variant(BusValue::U8(50))), None);
}

#[test]
fn bluetooth_battery_interface_reads_its_percentage() {
    let with = BusValue::Dict(vec![entry("Percentage", variant(BusValue::U8(80)))]);
    assert_eq!(process_bluetooth_battery_interface(&with), Some(80));
    let without = BusValue::Dict(vec![entry("Source", text("HFP"))]);
    assert_eq!(process_bluetooth_battery_interface(&without), None);
    let wrong = BusValue::Dict(vec![entry("Percentage", text("80"))]);
    assert_eq!(process_bluetooth_battery_interface(&wrong), None);
    assert_eq!(process_bluetooth_battery_interface(&BusValue::U8(80)), None);
}

#[test]
fn device_name_prefers_alias_only_where_asked() {
    let props = vec![entry("Name", text("WH-1000XM4")), entry("Alias", text("Headphones"))];
    assert_eq!(device_name(&props, Origin::Inventory), Some("Headphones".to_string()));
    assert_eq!(device_name(&props, Origin::Signal), Some("WH-1000XM4".to_string()));
    let only_name = vec![entry("Name", text("WH-1000XM4"))];
    assert_eq!(device_name(&only_name, Origin::Inventory), Some("WH-1000XM4".to_string()));
    let odd_alias = vec![entry("Alias", BusValue::U8(1)), entry("Name", text("WH-1000XM4"))];
    assert_eq!(device_name(&odd_alias, Origin::Inventory), None);
    assert_eq!(device_name(&Vec::new(), Origin::Inventory), None);
    assert_eq!(device_name(&Vec::new(), Origin::Signal), None);
}

#[test]
fn interface_facts_reads_the_three_interfaces() {
    let interfaces = vec![
        entry("org.bluez.Device1", BusValue::Dict(vec![entry("Name", variant(text("Buds")))])),
        entry("org.bluez.Battery1", BusValue::Dict(vec![])),
        entry("org.bluez.MediaControl1", BusValue::Dict(vec![])),
        entry("org.freedesktop.DBus.Properties", BusValue::Dict(vec![])),
    ];
    assert_eq!(
        interface_facts(&interfaces, Origin::Signal),
        InterfaceFacts {
            device_info: true,
            name: Some("Buds".to_string()),
            battery: true,
            percentage: None,
            media: true,
        }
    );
    let odd = vec![
        entry("org.bluez.Device1", text("no properties")),
        entry("org.bluez.Battery1", text("no properties")),
    ];
    assert_eq!(
        interface_facts(&odd, Origin::Signal),
        InterfaceFacts { device_info: false, name: None, battery: true, percentage: None, media: false }
    );
    assert_eq!(
        interface_facts(&Vec::new(), Origin::Inventory),
        InterfaceFacts { device_info: false, name: None, battery: false, percentage: None, media: false }
    );
}

#[test]
fn removed_interfaces_passes_over_what_is_no_string() {
    let names = vec![
        BusValue::U8(1),
        text("org.bluez.MediaControl1"),
        text("org.freedesktop.UPower.Device"),
        text("org.bluez.Battery1"),
    ];
    assert_eq!(
        removed_interfaces(&names),
        RemovedInterfaces { device_info: false, battery: true, media: true }
    );
    assert_eq!(
        removed_interfaces(&vec![text("org.bluez.Device1")]),
        RemovedInterfaces { device_info: true, battery: false, media: false }
    );
    assert_eq!(
        removed_interfaces(&Vec::new()),
        RemovedInterfaces { device_info: false, battery: false, media: false }
    );
}

#[test]
fn battery_percentage_is_a_number_from_zero_to_a_hundred() {
    assert_eq!(process_battery_percentage(&BusValue::Double(0)), Some(0));
    assert_eq!(process_battery_percentage(&BusValue::Double(47)), Some(47));
    assert_eq!(process_battery_percentage(&BusValue::Double(100)), Some(100));
    assert_eq!(process_battery_percentage(&BusValue::Double(101)), None);
    assert_eq!(process_battery_percentage(&BusValue::Double(-1)), None);
    assert_eq!(process_battery_percentage(&BusValue::U8(47)), None);
}

#[test]
fn battery_state_follows_the_codes_of_the_power_service() {
    assert_eq!(process_battery_state(&BusValue::U32(0)), Some(ChargingState::Unknown));
    assert_eq!(process_battery_state(&BusValue::U32(1)), Some(ChargingState::Charging));
    assert_eq!(process_battery_state(&BusValue::U32(2)), Some(ChargingState::Discharging));
    assert_eq!(process_battery_state(&BusValue::U32(3)), Some(ChargingState::Empty));
    assert_eq!(process_battery_state(&BusValue::U32(4)), Some(ChargingState::FullyCharged));
    assert_eq!(process_battery_state(&BusValue::U32(5)), Some(ChargingState::PendingCharge));
    assert_eq!(process_battery_state(&BusValue::U32(6)), Some(ChargingState::PendingDischarge));
    assert_eq!(process_battery_state(&BusValue::U32(7)), Some(ChargingState::Unknown));
    assert_eq!(process_battery_state(&BusValue::U8(1)), None);
    assert_eq!(ChargingState::from_code(4), ChargingState::FullyCharged);
}

#[test]
fn battery_properties_give_what_they_hold() {
    let props = vec![
        entry("State", variant(BusValue::U32(1))),
        entry("Percentage", variant(BusValue::Double(93))),
    ];
    assert_eq!(
        process_battery_device_properties(&props),
        BatteryChange { percentage: Some(93), state: Some(ChargingState::Charging) }
    );
    let odd = vec![entry("State", text("charging")), entry("Percentage", BusValue::U8(93))];
    assert_eq!(
        process_battery_device_properties(&odd),
        BatteryChange { percentage: None, state: None }
    );
}

#[test]
fn battery_state_keeps_what_a_change_does_not_give() {
    let mut battery = SystemBatteryState::new();
    assert_eq!(
        battery,
        SystemBatteryState { percentage: None, charging_state: ChargingState::Unknown }
    );
    battery.apply(BatteryChange { percentage: Some(47), state: None });
    battery.apply(BatteryChange { percentage: None, state: Some(ChargingState::Discharging) });
    assert_eq!(
        battery,
        SystemBatteryState { percentage: Some(47), charging_state: ChargingState::Discharging }
    );
    battery.apply(BatteryChange { percentage: None, state: None });
    assert_eq!(battery.percentage, Some(47));
}

#[test]
fn dict_find_leaves_the_wrapper_on() {
    let entries = vec![
        entry("Percentage", variant(BusValue::U8(80))),
        entry("Name", text("Buds")),
    ];
    assert_eq!(dict_find(&entries, "Percentage"), Some(&variant(BusValue::U8(80))));
    assert_eq!(dict_find(&entries, "Name"), Some(&text("Buds")));
    assert_eq!(dict_find(&entries, "Alias"), None);
    assert_eq!(read(&entries, "Percentage", Origin::Inventory), Some(&variant(BusValue::U8(80))));
    assert_eq!(read(&entries, "Percentage", Origin::Signal), Some(&BusValue::U8(80)));
}

#[test]
fn inventory_properties_are_read_as_listed() {
    let wrapped = BusValue::Dict(vec![entry("Percentage", variant(BusValue::U8(80)))]);
    assert_eq!(read_interface_level(&wrapped, Origin::Signal), Some(80));
    assert_eq!(read_interface_level(&wrapped, Origin::Inventory), None);
    let plain = BusValue::Dict(vec![entry("Percentage", BusValue::U8(80))]);
    assert_eq!(read_interface_level(&plain, Origin::Inventory), Some(80));
    assert_eq!(read_interface_level(&plain, Origin::Signal), Some(80));
    let wrapped_name = vec![entry("Alias", variant(text("Headphones")))];
    assert_eq!(device_name(&wrapped_name, Origin::Inventory), None);
    let interfaces = vec![
        entry("org.bluez.Device1", BusValue::Dict(vec![entry("Alias", text("Headphones"))])),
        entry("org.bluez.Battery1", BusValue::Dict(vec![entry("Percentage", BusValue::U8(9))])),
    ];
    assert_eq!(
        interface_facts(&interfaces, Origin::Inventory),
        InterfaceFacts {
            device_info: true,
            name: Some("Headphones".to_string()),
            battery: true,
            percentage: Some(9),
            media: false,
        }
    );
    assert_eq!(
        interface_facts(&interfaces, Origin::Signal),
        InterfaceFacts {
            device_info: true,
            name: None,
            battery: true,
            percentage: Some(9),
            media: false,
        }
    );
}

#[test]
fn characters_are_those_of_the_text() {
    assert_eq!(characters("aé🔋"), vec!['a', 'é', '🔋']);
    assert_eq!(characters(""), Vec::<char>::new());
}
