use status_bar::battery::{BatteryChange, ChargingState};
use status_bar::monitor::{Action, BusEvent, BusMonitor, InitialTexts, ManagedObject};
use status_bar::registry::{InterfaceFacts, RemovedInterfaces};
use status_bar::signal::{
    dispatch_table, find_route, parse, parse_interfaces_added, parse_interfaces_removed,
    parse_properties_changed, BusMessage, Discard, Route, Signal, SignalKind,
};
use status_bar::value::{BusValue, DictEntry, ShapeError, ValueKind};

fn text(s: &str) -> BusValue {
    BusValue::Str(s.to_string())
}

fn entry(key: &str, value: BusValue) -> DictEntry {
    DictEntry { key: text(key), value }
}

fn message(path: &str, interface: &str, member: &str, body: Vec<BusValue>) -> BusMessage {
    BusMessage {
        path: Some(path.to_string()),
        interface: Some(interface.to_string()),
        member: Some(member.to_string()),
        body: Some(body),
    }
}

const MANAGER: &str = "org.freedesktop.DBus.ObjectManager";
const PROPERTIES: &str = "org.freedesktop.DBus.Properties";

#[test]
fn dispatch_table_has_the_three_signals() {
    let table = dispatch_table();
    assert_eq!(
        table,
        vec![
            Route {
                path: None,
                interface: MANAGER,
                member: "InterfacesAdded",
                kind: SignalKind::InterfacesAdded
            },
            Route {
                path: None,
                interface: PROPERTIES,
                member: "PropertiesChanged",
                kind: SignalKind::PropertiesChanged
            },
            Route {
                path: None,
                interface: MANAGER,
                member: "InterfacesRemoved",
                kind: SignalKind::InterfacesRemoved
            },
        ]
    );
    assert_eq!(
        find_route(&table, "/any", MANAGER, "InterfacesAdded"),
        Some(SignalKind::InterfacesAdded)
    );
    assert_eq!(
        find_route(&table, "/any", PROPERTIES, "PropertiesChanged"),
        Some(SignalKind::PropertiesChanged)
    );
    assert_eq!(
        find_route(&table, "/", MANAGER, "InterfacesRemoved"),
        Some(SignalKind::InterfacesRemoved)
    );
    assert_eq!(find_route(&table, "/", MANAGER, "PropertiesChanged"), None);
    assert_eq!(find_route(&table, "/", PROPERTIES, "InterfacesAdded"), None);
    assert_eq!(find_route(&Vec::new(), "/", MANAGER, "InterfacesAdded"), None);
}

#[test]
fn route_with_a_path_takes_that_path_only() {
    let route = Route {
        path: Some("/battery"),
        interface: PROPERTIES,
        member: "PropertiesChanged",
        kind: SignalKind::PropertiesChanged,
    };
    assert!(route.accepts("/battery", PROPERTIES, "PropertiesChanged"));
    assert!(!route.accepts("/other", PROPERTIES, "PropertiesChanged"));
    let first_wins = vec![
        route,
        Route {
            path: None,
            interface: PROPERTIES,
            member: "PropertiesChanged",
            kind: SignalKind::InterfacesAdded,
        },
    ];
    assert_eq!(
        find_route(&first_wins, "/battery", PROPERTIES, "PropertiesChanged"),
        Some(SignalKind::PropertiesChanged)
    );
    assert_eq!(
        find_route(&first_wins, "/other", PROPERTIES, "PropertiesChanged"),
        Some(SignalKind::InterfacesAdded)
    );
}

#[test]
fn header_is_read_path_first_then_member_then_interface() {
    let empty = BusMessage { path: None, interface: None, member: None, body: None };
    assert_eq!(parse(&empty), Err(Discard::MissingPath));
    let no_member =
        BusMessage { path: Some("/".to_string()), interface: None, member: None, body: None };
    assert_eq!(parse(&no_member), Err(Discard::MissingMember));
    let no_interface = BusMessage {
        path: Some("/".to_string()),
        interface: None,
        member: Some("InterfacesAdded".to_string()),
        body: None,
    };
    assert_eq!(parse(&no_interface), Err(Discard::MissingInterface));
    let unknown = message("/", "org.freedesktop.DBus", "NameOwnerChanged", vec![]);
    assert_eq!(parse(&unknown), Err(Discard::Unhandled));
    let unreadable = BusMessage {
        path: Some("/".to_string()),
        interface: Some(MANAGER.to_string()),
        member: Some("InterfacesAdded".to_string()),
        body: None,
    };
    assert_eq!(parse(&unreadable), Err(Discard::UnreadableBody));
}

#[test]
fn interfaces_added_has_a_path_and_a_dictionary() {
    assert_eq!(
        parse_interfaces_added(&vec![BusValue::ObjectPath("/d1".to_string())]),
        Err(Discard::FieldCount { expected: 2, found: 1 })
    );
    assert_eq!(
        parse_interfaces_added(&vec![text("/d1"), BusValue::Dict(vec![])]),
        Err(Discard::FieldShape {
            index: 0,
            error: ShapeError { expected: ValueKind::ObjectPath, found: ValueKind::Str }
        })
    );
    assert_eq!(
        parse_interfaces_added(&vec![BusValue::ObjectPath("/d1".to_string()), BusValue::U8(0)]),
        Err(Discard::FieldShape {
            index: 1,
            error: ShapeError { expected: ValueKind::Dict, found: ValueKind::U8 }
        })
    );
    let body = vec![
        BusValue::ObjectPath("/d1".to_string()),
        BusValue::Dict(vec![entry("org.bluez.MediaControl1", BusValue::Dict(vec![]))]),
    ];
    assert_eq!(
        parse_interfaces_added(&body),
        Ok(Signal::InterfacesAdded {
            path: "/d1".to_string(),
            facts: InterfaceFacts {
                device_info: false,
                name: None,
                battery: false,
                percentage: None,
                media: true
            },
        })
    );
    assert_eq!(
        parse(&message("/", MANAGER, "InterfacesAdded", vec![])),
        Err(Discard::FieldCount { expected: 2, found: 0 })
    );
}

#[test]
fn interfaces_removed_has_a_path_and_an_array() {
    assert_eq!(
        parse_interfaces_removed(&vec![]),
        Err(Discard::FieldCount { expected: 2, found: 0 })
    );
    assert_eq!(
        parse_interfaces_removed(&vec![BusValue::U32(1), BusValue::Array(vec![])]),
        Err(Discard::FieldShape {
            index: 0,
            error: ShapeError { expected: ValueKind::ObjectPath, found: ValueKind::U32 }
        })
    );
    assert_eq!(
        parse_interfaces_removed(&vec![
            BusValue::ObjectPath("/d1".to_string()),
            BusValue::Dict(vec![])
        ]),
        Err(Discard::FieldShape {
            index: 1,
            error: ShapeError { expected: ValueKind::Array, found: ValueKind::Dict }
        })
    );
    assert_eq!(
        parse(&message(
            "/",
            MANAGER,
            "InterfacesRemoved",
            vec![
                BusValue::ObjectPath("/d1".to_string()),
                BusValue::Array(vec![text("org.bluez.Device1")])
            ]
        )),
        Ok(Signal::InterfacesRemoved {
            path: "/d1".to_string(),
            gone: RemovedInterfaces { device_info: true, battery: false, media: false },
        })
    );
}

#[test]
fn properties_changed_is_read_by_its_interface() {
    assert_eq!(
        parse_properties_changed("/d1", &vec![text("org.bluez.Battery1"), BusValue::Dict(vec![])]),
        Err(Discard::FieldCount { expected: 3, found: 2 })
    );
    assert_eq!(
        parse_properties_changed(
            "/d1",
            &vec![BusValue::U8(1), BusValue::Dict(vec![]), BusValue::Array(vec![])]
        ),
        Err(Discard::FieldShape {
            index: 0,
            error: ShapeError { expected: ValueKind::Str, found: ValueKind::U8 }
        })
    );
    assert_eq!(
        parse_properties_changed(
            "/d1",
            &vec![text("org.bluez.Adapter1"), BusValue::U8(1), BusValue::Array(vec![])]
        ),
        Err(Discard::IgnoredInterface)
    );
    assert_eq!(
        parse_properties_changed(
            "/d1",
            &vec![text("org.bluez.MediaControl1"), BusValue::U8(1), BusValue::Array(vec![])]
        ),
        Err(Discard::FieldShape {
            index: 1,
            error: ShapeError { expected: ValueKind::Dict, found: ValueKind::U8 }
        })
    );
    assert_eq!(
        parse_properties_changed(
            "/d1",
            &vec![text("org.bluez.MediaControl1"), BusValue::Dict(vec![]), BusValue::Array(vec![])]
        ),
        Ok(Signal::DeviceMediaChanged { path: "/d1".to_string() })
    );
    assert_eq!(
        parse_properties_changed(
            "/d1",
            &vec![
                text("org.bluez.Battery1"),
                BusValue::Dict(vec![entry("Percentage", BusValue::U8(55))]),
                BusValue::Array(vec![])
            ]
        ),
        Ok(Signal::DeviceBatteryChanged { path: "/d1".to_string(), percentage: Some(55) })
    );
    assert_eq!(
        parse_properties_changed(
            "/bat",
            &vec![
                text("org.freedesktop.UPower.Device"),
                BusValue::Dict(vec![entry("State", BusValue::U32(4))]),
                BusValue::Array(vec![])
            ]
        ),
        Ok(Signal::SystemBatteryChanged {
            change: BatteryChange { percentage: None, state: Some(ChargingState::FullyCharged) }
        })
    );
}

#[test]
fn discarded_message_changes_nothing() {
    let mut monitor = BusMonitor::new();
    let before = monitor.clone();
    let action = monitor.step(&BusEvent::Message(message("/", "a.b", "C", vec![])));
    assert_eq!(action, Action::Discard(Discard::Unhandled));
    assert_eq!(monitor, before);
}

#[test]
fn added_interfaces_of_no_interest_publish_nothing() {
    let mut monitor = BusMonitor::new();
    let action = monitor.step(&BusEvent::Message(message(
        "/",
        MANAGER,
        "InterfacesAdded",
        vec![
            BusValue::ObjectPath("/org/bluez/hci0".to_string()),
            BusValue::Dict(vec![entry("org.bluez.Adapter1", BusValue::Dict(vec![]))]),
        ],
    )));
    assert_eq!(action, Action::Publish { battery_text: None, bluetooth_text: None });
    assert!(monitor.devices().is_empty());
}

#[test]
fn device_info_without_a_name_makes_no_record() {
    let mut monitor = BusMonitor::new();
    let action = monitor.step(&BusEvent::Message(message(
        "/",
        MANAGER,
        "InterfacesAdded",
        vec![
            BusValue::ObjectPath("/d1".to_string()),
            BusValue::Dict(vec![entry("org.bluez.Device1", BusValue::Dict(vec![]))]),
        ],
    )));
    assert_eq!(
        action,
        Action::Publish { battery_text: None, bluetooth_text: Some("No BT".to_string()) }
    );
    assert!(!monitor.devices().contains("/d1"));
}

#[test]
fn media_change_makes_a_record_and_publishes() {
    let mut monitor = BusMonitor::new();
    let action = monitor.apply(Signal::DeviceMediaChanged { path: "/d2".to_string() });
    assert_eq!(
        action,
        Action::Publish { battery_text: None, bluetooth_text: Some("No BT".to_string()) }
    );
    let device = monitor.devices().get("/d2").unwrap();
    assert!(device.has_media && !device.has_battery);
    assert_eq!(device.device_name, None);
}

#[test]
fn battery_change_on_a_known_record_sets_the_level_only() {
    let mut monitor = BusMonitor::new();
    monitor.apply(Signal::DeviceMediaChanged { path: "/d2".to_string() });
    let action = monitor
        .apply(Signal::DeviceBatteryChanged { path: "/d2".to_string(), percentage: Some(30) });
    assert_eq!(
        action,
        Action::Publish { battery_text: None, bluetooth_text: Some("D30".to_string()) }
    );
    let device = monitor.devices().get("/d2").unwrap();
    assert!(device.has_media && !device.has_battery);
    assert_eq!(device.battery_percentage, Some(30));
    monitor.apply(Signal::DeviceBatteryChanged { path: "/d2".to_string(), percentage: None });
    assert_eq!(monitor.devices().get("/d2").unwrap().battery_percentage, None);
}

#[test]
fn snapshot_seeds_the_registry_and_gives_both_texts() {
    let mut monitor = BusMonitor::new();
    let objects = vec![
        ManagedObject {
            path: "/org/bluez/hci0".to_string(),
            interfaces: vec![entry("org.bluez.Adapter1", BusValue::Dict(vec![]))],
        },
        ManagedObject {
            path: "/org/bluez/hci0/dev_1".to_string(),
            interfaces: vec![
                entry(
                    "org.bluez.Device1",
                    BusValue::Dict(vec![
                        entry("Name", text("WH-1000XM4")),
                        entry("Alias", text("Headphones")),
                    ]),
                ),
                entry(
                    "org.bluez.Battery1",
                    BusValue::Dict(vec![entry("Percentage", BusValue::U8(70))]),
                ),
                entry("org.bluez.MediaControl1", BusValue::Dict(vec![])),
            ],
        },
        ManagedObject {
            path: "/org/bluez/hci0/dev_2".to_string(),
            interfaces: vec![entry(
                "org.bluez.Battery1",
                BusValue::Dict(vec![entry("Percentage", BusValue::U8(5))]),
            )],
        },
    ];
    let texts =
        monitor.load_snapshot(Some(&BusValue::Double(88)), Some(&BusValue::U32(1)), &objects);
    assert_eq!(
        texts,
        InitialTexts { battery_text: "🔋 88%".to_string(), bluetooth_text: "H70 D5".to_string() }
    );
    assert_eq!(monitor.devices().len(), 2);
    assert_eq!(monitor.battery().charging_state, ChargingState::Charging);
    assert_eq!(
        monitor.devices().device(0).device_name,
        Some("Headphones".to_string())
    );
    assert_eq!(monitor.devices().position("/org/bluez/hci0/dev_2"), Some(1));
}

#[test]
fn snapshot_without_battery_or_objects_gives_the_empty_texts() {
    let mut monitor = BusMonitor::new();
    let texts = monitor.load_snapshot(None, None, &Vec::new());
    assert_eq!(
        texts,
        InitialTexts { battery_text: String::new(), bluetooth_text: "No BT".to_string() }
    );
    assert_eq!(monitor.battery().percentage, None);
    assert!(monitor.is_listening());
}

#[test]
fn derivation_gives_the_same_text_twice() {
    let mut monitor = BusMonitor::new();
    monitor.apply(Signal::DeviceBatteryChanged { path: "/a".to_string(), percentage: Some(9) });
    monitor.apply(Signal::DeviceBatteryChanged { path: "/b".to_string(), percentage: Some(100) });
    let first = monitor.bluetooth_text();
    let second = monitor.bluetooth_text();
    assert_eq!(first, "D9 D100");
    assert_eq!(first, second);
    assert_eq!(monitor.battery_text(), monitor.battery_text());
}
