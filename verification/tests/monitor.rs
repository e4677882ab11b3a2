use status_bar::monitor::{Action, BusEvent, BusMonitor};
use status_bar::registry::{BluetoothDevice, DeviceRegistry, InterfaceFacts, RemovedInterfaces};
use status_bar::signal::{BusMessage, Discard};
use status_bar::value::{BusValue, DictEntry};

fn text(s: &str) -> BusValue {
    BusValue::Str(s.to_string())
}

fn entry(key: &str, value: BusValue) -> DictEntry {
    DictEntry { key: text(key), value }
}

fn variant(value: BusValue) -> BusValue {
    BusValue::Variant(Box::new(value))
}

fn signal(path: &str, interface: &str, member: &str, body: Vec<BusValue>) -> BusEvent {
    BusEvent::Message(BusMessage {
        path: Some(path.to_string()),
        interface: Some(interface.to_string()),
        member: Some(member.to_string()),
        body: Some(body),
    })
}

fn added(path: &str, interfaces: Vec<DictEntry>) -> BusEvent {
    signal(
        "/",
        "org.freedesktop.DBus.ObjectManager",
        "InterfacesAdded",
        vec![BusValue::ObjectPath(path.to_string()), BusValue::Dict(interfaces)],
    )
}

fn removed(path: &str, names: &[&str]) -> BusEvent {
    signal(
        "/",
        "org.freedesktop.DBus.ObjectManager",
        "InterfacesRemoved",
        vec![
            BusValue::ObjectPath(path.to_string()),
            BusValue::Array(names.iter().map(|n| text(n)).collect()),
        ],
    )
}

fn changed(path: &str, interface: &str, props: Vec<DictEntry>) -> BusEvent {
    signal(
        path,
        "org.freedesktop.DBus.Properties",
        "PropertiesChanged",
        vec![text(interface), BusValue::Dict(props), BusValue::Array(vec![])],
    )
}

fn pixel_buds() -> BusEvent {
    added(
        "/d1",
        vec![
            entry(
                "org.bluez.Device1",
                BusValue::Dict(vec![entry("Name", variant(text("Pixel Buds")))]),
            ),
            entry(
                "org.bluez.Battery1",
                BusValue::Dict(vec![entry("Percentage", variant(BusValue::U8(80)))]),
            ),
        ],
    )
}

fn bluetooth_text(action: Action) -> String {
    match action {
        Action::Publish { bluetooth_text: Some(text), battery_text: None } => text,
        other => panic!("no Bluetooth text in {:?}", other),
    }
}

#[test]
fn empty_registry_shows_no_bt() {
    let monitor = BusMonitor::new();
    assert_eq!(monitor.bluetooth_text(), "No BT");
    let registry = DeviceRegistry::new();
    assert!(registry.is_empty());
    assert_eq!(status_bar::display::compute_bluetooth_display_string(&registry), "No BT");
}

#[test]
fn added_device_with_name_and_battery_shows_letter_and_level() {
    let mut monitor = BusMonitor::new();
    let action = monitor.step(&pixel_buds());
    assert_eq!(bluetooth_text(action), "P80");
    assert_eq!(monitor.devices().len(), 1);
    assert_eq!(
        monitor.devices().get("/d1"),
        Some(&BluetoothDevice {
            device_path: "/d1".to_string(),
            has_battery: true,
            has_media: false,
            battery_percentage: Some(80),
            device_name: Some("Pixel Buds".to_string()),
        })
    );
}

#[test]
fn battery_removed_keeps_name() {
    let mut monitor = BusMonitor::new();
    monitor.step(&pixel_buds());
    let action = monitor.step(&removed("/d1", &["org.bluez.Battery1"]));
    assert_eq!(bluetooth_text(action), "No BT");
    assert_eq!(
        monitor.devices().get("/d1"),
        Some(&BluetoothDevice {
            device_path: "/d1".to_string(),
            has_battery: false,
            has_media: false,
            battery_percentage: None,
            device_name: Some("Pixel Buds".to_string()),
        })
    );
}

#[test]
fn last_interface_removed_drops_record() {
    let mut monitor = BusMonitor::new();
    monitor.step(&pixel_buds());
    monitor.step(&removed("/d1", &["org.bluez.Battery1"]));
    let action = monitor.step(&removed("/d1", &["org.bluez.Device1"]));
    assert_eq!(bluetooth_text(action), "No BT");
    assert_eq!(monitor.devices().get("/d1"), None);
    assert!(monitor.devices().is_empty());
}

#[test]
fn battery_percentage_stays_without_new_value() {
    let mut monitor = BusMonitor::new();
    let action = monitor.step(&changed(
        "/org/freedesktop/UPower/devices/battery_BAT0",
        "org.freedesktop.UPower.Device",
        vec![entry("Percentage", variant(BusValue::Double(47)))],
    ));
    assert_eq!(
        action,
        Action::Publish { battery_text: Some("🔋 47%".to_string()), bluetooth_text: None }
    );
    assert_eq!(monitor.battery().percentage, Some(47));
    let action = monitor.step(&changed(
        "/org/freedesktop/UPower/devices/battery_BAT0",
        "org.freedesktop.UPower.Device",
        vec![entry("State", variant(BusValue::U32(2)))],
    ));
    assert_eq!(action, Action::Publish { battery_text: None, bluetooth_text: None });
    assert_eq!(monitor.battery().percentage, Some(47));
    assert_eq!(monitor.battery_text(), "🔋 47%");
}

#[test]
fn battery_change_at_unknown_path_makes_record() {
    let mut monitor = BusMonitor::new();
    let action = monitor.step(&changed(
        "/d9",
        "org.bluez.Battery1",
        vec![entry("Percentage", variant(BusValue::U8(60)))],
    ));
    assert_eq!(bluetooth_text(action), "D60");
    assert_eq!(
        monitor.devices().get("/d9"),
        Some(&BluetoothDevice {
            device_path: "/d9".to_string(),
            has_battery: true,
            has_media: false,
            battery_percentage: Some(60),
            device_name: None,
        })
    );
    let later = monitor.step(&added(
        "/d9",
        vec![entry(
            "org.bluez.Device1",
            BusValue::Dict(vec![entry("Name", variant(text("Keyboard")))]),
        )],
    ));
    assert_eq!(bluetooth_text(later), "K60");
}

#[test]
fn media_only_addition_keeps_name_and_battery() {
    let mut registry = DeviceRegistry::new();
    registry.interfaces_added(
        "/d1",
        InterfaceFacts {
            device_info: true,
            name: Some("Pixel Buds".to_string()),
            battery: true,
            percentage: Some(80),
            media: false,
        },
    );
    registry.interfaces_added(
        "/d1",
        InterfaceFacts { device_info: false, name: None, battery: false, percentage: None, media: true },
    );
    let device = registry.get("/d1").unwrap();
    assert_eq!(device.device_name.as_deref(), Some("Pixel Buds"));
    assert!(device.has_battery && device.has_media);
    assert_eq!(device.battery_percentage, Some(80));
}

#[test]
fn removing_every_interface_collects_the_record() {
    let mut registry = DeviceRegistry::new();
    registry.interfaces_added(
        "/d1",
        InterfaceFacts {
            device_info: true,
            name: Some("Pixel Buds".to_string()),
            battery: true,
            percentage: Some(80),
            media: true,
        },
    );
    registry.interfaces_removed(
        "/d1",
        RemovedInterfaces { device_info: true, battery: true, media: true },
    );
    assert!(!registry.contains("/d1"));
    assert_eq!(registry.len(), 0);
}

#[test]
fn stream_end_stops_the_monitor_for_good() {
    let mut monitor = BusMonitor::new();
    assert_eq!(monitor.step(&BusEvent::ReceiveError), Action::Discard(Discard::ReceiveError));
    assert!(monitor.is_listening());
    assert_eq!(monitor.step(&BusEvent::StreamEnded), Action::Stop);
    assert!(!monitor.is_listening());
    assert_eq!(monitor.step(&pixel_buds()), Action::Stop);
    assert!(monitor.devices().is_empty());
}

#[test]
fn removal_at_an_unknown_path_changes_nothing() {
    let mut monitor = BusMonitor::new();
    monitor.step(&pixel_buds());
    let before = monitor.clone();
    let action = monitor.step(&removed("/d7", &["org.bluez.Battery1", "org.bluez.Device1"]));
    assert_eq!(bluetooth_text(action), "P80");
    assert_eq!(monitor, before);
}

#[test]
fn no_record_is_ever_without_battery_media_and_name() {
    let mut monitor = BusMonitor::new();
    let events = vec![
        pixel_buds(),
        changed("/d2", "org.bluez.MediaControl1", vec![]),
        changed("/d3", "org.bluez.Battery1", vec![]),
        removed("/d1", &["org.bluez.Device1"]),
        removed("/d2", &["org.bluez.MediaControl1"]),
        added("/d4", vec![entry("org.bluez.Device1", BusValue::Dict(vec![]))]),
        removed("/d3", &["org.bluez.Battery1", "org.bluez.MediaControl1"]),
        removed("/d1", &["org.bluez.Battery1"]),
    ];
    for event in &events {
        monitor.step(event);
        let devices = monitor.devices();
        for index in 0..devices.len() {
            let device = devices.device(index);
            assert!(device.has_battery || device.has_media || device.device_name.is_some());
            assert_eq!(devices.position(&device.device_path), Some(index));
        }
    }
    assert!(monitor.devices().is_empty());
}
