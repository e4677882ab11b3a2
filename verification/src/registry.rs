//! The registry of Bluetooth peripherals.
//!
//! What is known of a peripheral arrives piece by piece: its name, its
//! battery and its media control are separate interfaces that come and go on
//! their own. A record is kept for an object path as long as at least one of
//! the three is known, and is dropped with the last of them. Records keep the
//! order in which their paths were first seen.

use vstd::prelude::*;
use crate::value::same_text;

verus! {

/// What is known of one peripheral, as plain values.
pub struct DeviceFacts {
    pub path: Seq<char>,
    pub has_battery: bool,
    pub has_media: bool,
    pub battery_percentage: Option<u8>,
    pub name: Option<Seq<char>>,
}

impl DeviceFacts {
    /// The record of a path of which nothing is known.
    pub open spec fn blank(path: Seq<char>) -> DeviceFacts {
        DeviceFacts {
            path,
            has_battery: false,
            has_media: false,
            battery_percentage: None,
            name: None,
        }
    }

    /// Whether anything is known that keeps the record in the registry.
    pub open spec fn is_known(self) -> bool {
        self.has_battery || self.has_media || self.name is Some
    }

    /// A battery level is a percentage.
    pub open spec fn wf(self) -> bool {
        self.battery_percentage matches Some(level) ==> level <= 100
    }
}

/// What one signal reports of the interfaces at a path, as plain values.
pub struct InterfaceReport {
    pub device_info: bool,
    pub name: Option<Seq<char>>,
    pub battery: bool,
    pub percentage: Option<u8>,
    pub media: bool,
}

impl InterfaceReport {
    /// A battery level is a percentage.
    pub open spec fn wf(self) -> bool {
        self.percentage matches Some(level) ==> level <= 100
    }
}

/// The characters of a text that may be absent.
pub open spec fn text_view(text: Option<String>) -> Option<Seq<char>> {
    match text {
        Some(t) => Some(t@),
        None => None,
    }
}

/// A peripheral as the registry keeps it.
#[derive(Debug, Clone, PartialEq, Eq)]
pub struct BluetoothDevice {
    pub device_path: String,
    pub has_battery: bool,
    pub has_media: bool,
    pub battery_percentage: Option<u8>,
    pub device_name: Option<String>,
}

impl View for BluetoothDevice {
    type V = DeviceFacts;

    open spec fn view(&self) -> DeviceFacts {
        DeviceFacts {
            path: self.device_path@,
            has_battery: self.has_battery,
            has_media: self.has_media,
            battery_percentage: self.battery_percentage,
            name: text_view(self.device_name),
        }
    }
}

impl BluetoothDevice {
    /// Whether anything is known that keeps the record in the registry.
    pub fn is_known(&self) -> (known: bool)
        ensures
            known == self@.is_known(),
    {
        self.has_battery || self.has_media || self.device_name.is_some()
    }
}

/// The interfaces that one signal reports at a path, and what they carry.
#[derive(Debug, Clone, PartialEq, Eq)]
pub struct InterfaceFacts {
    /// The device-info interface is among them.
    pub device_info: bool,
    /// The name that the device-info interface carries.
    pub name: Option<String>,
    /// The battery interface is among them.
    pub battery: bool,
    /// The level that the battery interface carries.
    pub percentage: Option<u8>,
    /// The media-control interface is among them.
    pub media: bool,
}

impl View for InterfaceFacts {
    type V = InterfaceReport;

    open spec fn view(&self) -> InterfaceReport {
        InterfaceReport {
            device_info: self.device_info,
            name: text_view(self.name),
            battery: self.battery,
            percentage: self.percentage,
            media: self.media,
        }
    }
}

/// The interfaces that a signal reports as gone from a path.
#[derive(Debug, Clone, Copy, PartialEq, Eq, Structural)]
pub struct RemovedInterfaces {
    pub device_info: bool,
    pub battery: bool,
    pub media: bool,
}

/// Whether a record for `path` is among `devs`.
pub open spec fn has_path(devs: Seq<DeviceFacts>, path: Seq<char>) -> bool {
    exists|i: int| 0 <= i < devs.len() && (#[trigger] devs[i]).path == path
}

/// Where the record for `path` stands among `devs`.
pub open spec fn position(devs: Seq<DeviceFacts>, path: Seq<char>) -> int {
    choose|i: int| 0 <= i < devs.len() && (#[trigger] devs[i]).path == path
}

/// The record for `path`, if there is one.
pub open spec fn record_at(devs: Seq<DeviceFacts>, path: Seq<char>) -> Option<DeviceFacts> {
    if has_path(devs, path) {
        Some(devs[position(devs, path)])
    } else {
        None
    }
}

/// No two records are for the same path.
pub open spec fn distinct_paths(devs: Seq<DeviceFacts>) -> bool {
    forall|i: int, j: int|
        0 <= i < j < devs.len() ==> (#[trigger] devs[i]).path != (#[trigger] devs[j]).path
}

/// The invariant of the registry: one record for a path, and none of which
/// nothing is known.
pub open spec fn registry_wf(devs: Seq<DeviceFacts>) -> bool {
    &&& distinct_paths(devs)
    &&& forall|i: int| 0 <= i < devs.len() ==> (#[trigger] devs[i]).is_known() && devs[i].wf()
}

/// `devs` with `rec` as the record for its path: in the place of the record
/// that was there, or behind the others if there was none; a record of which
/// nothing is known is not kept.
pub open spec fn stored(devs: Seq<DeviceFacts>, rec: DeviceFacts) -> Seq<DeviceFacts> {
    if has_path(devs, rec.path) {
        if rec.is_known() {
            devs.update(position(devs, rec.path), rec)
        } else {
            devs.remove(position(devs, rec.path))
        }
    } else if rec.is_known() {
        devs.push(rec)
    } else {
        devs
    }
}

/// The record for `path`, or a blank one.
pub open spec fn base_record(devs: Seq<DeviceFacts>, path: Seq<char>) -> DeviceFacts {
    match record_at(devs, path) {
        Some(rec) => rec,
        None => DeviceFacts::blank(path),
    }
}

/// A record with the reported interfaces merged in. An interface that is
/// reported sets what it carries, present or not; one that is not reported
/// leaves the record as it was.
pub open spec fn with_added(base: DeviceFacts, report: InterfaceReport) -> DeviceFacts {
    DeviceFacts {
        path: base.path,
        has_battery: base.has_battery || report.battery,
        has_media: base.has_media || report.media,
        battery_percentage: if report.battery {
            report.percentage
        } else {
            base.battery_percentage
        },
        name: if report.device_info {
            report.name
        } else {
            base.name
        },
    }
}

/// A record without what the interfaces that are gone carried.
pub open spec fn with_removed(base: DeviceFacts, gone: RemovedInterfaces) -> DeviceFacts {
    DeviceFacts {
        path: base.path,
        has_battery: base.has_battery && !gone.battery,
        has_media: base.has_media && !gone.media,
        battery_percentage: if gone.battery {
            None
        } else {
            base.battery_percentage
        },
        name: if gone.device_info {
            None
        } else {
            base.name
        },
    }
}

/// The registry after interfaces were added at `path`.
pub open spec fn after_interfaces_added(
    devs: Seq<DeviceFacts>,
    path: Seq<char>,
    report: InterfaceReport,
) -> Seq<DeviceFacts> {
    stored(devs, with_added(base_record(devs, path), report))
}

/// The registry after interfaces were removed at `path`; a path without a
/// record changes nothing.
pub open spec fn after_interfaces_removed(
    devs: Seq<DeviceFacts>,
    path: Seq<char>,
    gone: RemovedInterfaces,
) -> Seq<DeviceFacts> {
    match record_at(devs, path) {
        Some(rec) => stored(devs, with_removed(rec, gone)),
        None => devs,
    }
}

/// The registry after the battery at `path` reported a change: the level of
/// the record is what was reported; a path without a record gets one that has
/// a battery.
pub open spec fn after_battery_changed(
    devs: Seq<DeviceFacts>,
    path: Seq<char>,
    percentage: Option<u8>,
) -> Seq<DeviceFacts> {
    match record_at(devs, path) {
        Some(rec) => stored(devs, DeviceFacts { battery_percentage: percentage, ..rec }),
        None => stored(
            devs,
            DeviceFacts {
                has_battery: true,
                battery_percentage: percentage,
                ..DeviceFacts::blank(path)
            },
        ),
    }
}

/// The registry after the media control at `path` reported a change: the
/// record has media control; a path without a record gets one.
pub open spec fn after_media_changed(devs: Seq<DeviceFacts>, path: Seq<char>) -> Seq<DeviceFacts> {
    stored(devs, DeviceFacts { has_media: true, ..base_record(devs, path) })
}

/// In a registry the record for a path stands where that path is found.
pub proof fn lemma_position(devs: Seq<DeviceFacts>, path: Seq<char>, at: int)
    requires
        distinct_paths(devs),
        0 <= at < devs.len(),
        devs[at].path == path,
    ensures
        has_path(devs, path),
        position(devs, path) == at,
        record_at(devs, path) == Some(devs[at]),
{
    let found = position(devs, path);
    assert(0 <= found < devs.len() && devs[found].path == path);
    if found < at {
        assert(devs[found].path != devs[at].path);
    } else if at < found {
        assert(devs[at].path != devs[found].path);
    }
}

/// Storing a record keeps the invariant.
pub proof fn lemma_stored_wf(devs: Seq<DeviceFacts>, rec: DeviceFacts)
    requires
        registry_wf(devs),
        rec.wf(),
    ensures
        registry_wf(stored(devs, rec)),
{
    let out = stored(devs, rec);
    if has_path(devs, rec.path) {
        let at = position(devs, rec.path);
        if rec.is_known() {
            assert forall|i: int, j: int| 0 <= i < j < out.len() implies (#[trigger] out[i]).path != (
            #[trigger] out[j]).path by {
                assert(out[i].path == devs[i].path);
                assert(out[j].path == devs[j].path);
            }
        } else {
            assert forall|i: int| 0 <= i < out.len() implies out[i] == devs[if i < at {
                i
            } else {
                i + 1
            }] by {}
        }
    } else if rec.is_known() {
        assert forall|i: int| 0 <= i < devs.len() implies out[i] == devs[i] by {}
    }
}

/// After a record is stored, its path holds it if anything is known of it and
/// holds nothing otherwise; every other path holds what it held.
pub proof fn lemma_stored_records(devs: Seq<DeviceFacts>, rec: DeviceFacts, path: Seq<char>)
    requires
        registry_wf(devs),
        rec.wf(),
    ensures
        record_at(stored(devs, rec), path) == if path == rec.path {
            if rec.is_known() {
                Some(rec)
            } else {
                None
            }
        } else {
            record_at(devs, path)
        },
{
    let out = stored(devs, rec);
    lemma_stored_wf(devs, rec);
    if has_path(devs, rec.path) {
        let at = position(devs, rec.path);
        assert(0 <= at < devs.len() && devs[at].path == rec.path);
        if rec.is_known() {
            if path == rec.path {
                lemma_position(out, path, at);
            } else if has_path(devs, path) {
                let p = position(devs, path);
                assert(0 <= p < devs.len() && devs[p].path == path);
                assert(out[p] == devs[p]);
                lemma_position(out, path, p);
            } else {
                if has_path(out, path) {
                    let q = position(out, path);
                    assert(0 <= q < out.len() && out[q].path == path);
                    assert(out[q] == devs[q]);
                }
            }
        } else {
            if has_path(out, path) {
                let q = position(out, path);
                assert(0 <= q < out.len() && out[q].path == path);
                let a = if q < at { q } else { q + 1 };
                assert(out[q] == devs[a]);
                lemma_position(devs, path, a);
            } else if has_path(devs, path) && path != rec.path {
                let p = position(devs, path);
                assert(0 <= p < devs.len() && devs[p].path == path);
                let b = if p < at { p } else { p - 1 };
                assert(out[b] == devs[p]);
            }
        }
    } else if rec.is_known() {
        if path == rec.path {
            assert(out[devs.len() as int] == rec);
            lemma_position(out, path, devs.len() as int);
        } else if has_path(devs, path) {
            let p = position(devs, path);
            assert(0 <= p < devs.len() && devs[p].path == path);
            assert(out[p] == devs[p]);
            lemma_position(out, path, p);
        } else {
            if has_path(out, path) {
                let q = position(out, path);
                assert(0 <= q < out.len() && out[q].path == path);
                if q < devs.len() {
                    assert(out[q] == devs[q]);
                }
            }
        }
    }
}

/// The record that is found for a path is a record for that path.
pub proof fn lemma_record_path(devs: Seq<DeviceFacts>, path: Seq<char>)
    ensures
        record_at(devs, path) matches Some(rec) ==> rec.path == path,
        record_at(devs, path) is Some <==> has_path(devs, path),
        base_record(devs, path).path == path,
{
}

/// In a registry every record says something of its peripheral: it has a
/// battery, or media control, or a name.
pub proof fn lemma_records_known(devs: Seq<DeviceFacts>, path: Seq<char>)
    requires
        registry_wf(devs),
    ensures
        record_at(devs, path) matches Some(rec) ==> rec.is_known() && rec.wf(),
{
}

/// Added interfaces keep the invariant, and leave at the path the merged
/// record, or none if nothing is known of it; every other path holds what it
/// held.
pub proof fn lemma_interfaces_added(
    devs: Seq<DeviceFacts>,
    path: Seq<char>,
    report: InterfaceReport,
    other: Seq<char>,
)
    requires
        registry_wf(devs),
        report.wf(),
    ensures
        registry_wf(after_interfaces_added(devs, path, report)),
        record_at(after_interfaces_added(devs, path, report), path) == if with_added(
            base_record(devs, path),
            report,
        ).is_known() {
            Some(with_added(base_record(devs, path), report))
        } else {
            None
        },
        other != path ==> record_at(after_interfaces_added(devs, path, report), other)
            == record_at(devs, other),
{
    let rec = with_added(base_record(devs, path), report);
    lemma_record_path(devs, path);
    lemma_records_known(devs, path);
    lemma_stored_wf(devs, rec);
    lemma_stored_records(devs, rec, path);
    lemma_stored_records(devs, rec, other);
}

/// Removed interfaces keep the invariant, and leave at the path the cleared
/// record, or none if nothing is known of it any more; every other path holds
/// what it held.
pub proof fn lemma_interfaces_removed(
    devs: Seq<DeviceFacts>,
    path: Seq<char>,
    gone: RemovedInterfaces,
    other: Seq<char>,
)
    requires
        registry_wf(devs),
    ensures
        registry_wf(after_interfaces_removed(devs, path, gone)),
        record_at(after_interfaces_removed(devs, path, gone), path) == match record_at(
            devs,
            path,
        ) {
            Some(rec) => if with_removed(rec, gone).is_known() {
                Some(with_removed(rec, gone))
            } else {
                None
            },
            None => None,
        },
        other != path ==> record_at(after_interfaces_removed(devs, path, gone), other)
            == record_at(devs, other),
{
    lemma_record_path(devs, path);
    lemma_records_known(devs, path);
    match record_at(devs, path) {
        Some(rec) => {
            let cleared = with_removed(rec, gone);
            lemma_stored_wf(devs, cleared);
            lemma_stored_records(devs, cleared, path);
            lemma_stored_records(devs, cleared, other);
        },
        None => {},
    }
}

/// A changed battery keeps the invariant.
pub proof fn lemma_battery_changed(devs: Seq<DeviceFacts>, path: Seq<char>, percentage: Option<u8>)
    requires
        registry_wf(devs),
        percentage matches Some(level) ==> level <= 100,
    ensures
        registry_wf(after_battery_changed(devs, path, percentage)),
        record_at(after_battery_changed(devs, path, percentage), path) matches Some(rec)
            && rec.battery_percentage == percentage,
{
    lemma_record_path(devs, path);
    lemma_records_known(devs, path);
    match record_at(devs, path) {
        Some(rec) => {
            let changed = DeviceFacts { battery_percentage: percentage, ..rec };
            lemma_stored_wf(devs, changed);
            lemma_stored_records(devs, changed, path);
        },
        None => {
            let made = DeviceFacts {
                has_battery: true,
                battery_percentage: percentage,
                ..DeviceFacts::blank(path)
            };
            lemma_stored_wf(devs, made);
            lemma_stored_records(devs, made, path);
        },
    }
}

/// Changed media control keeps the invariant.
pub proof fn lemma_media_changed(devs: Seq<DeviceFacts>, path: Seq<char>)
    requires
        registry_wf(devs),
    ensures
        registry_wf(after_media_changed(devs, path)),
        record_at(after_media_changed(devs, path), path) == Some(
            DeviceFacts { has_media: true, ..base_record(devs, path) },
        ),
{
    lemma_record_path(devs, path);
    lemma_records_known(devs, path);
    let changed = DeviceFacts { has_media: true, ..base_record(devs, path) };
    lemma_stored_wf(devs, changed);
    lemma_stored_records(devs, changed, path);
}

/// Merging is monotone: where only the media-control interface is added to a
/// record, the record keeps its name, its battery and its battery level, and
/// has media control afterwards.
pub proof fn lemma_media_added_keeps_facts(devs: Seq<DeviceFacts>, path: Seq<char>)
    requires
        registry_wf(devs),
        has_path(devs, path),
    ensures
        ({
            let report = InterfaceReport {
                device_info: false,
                name: None,
                battery: false,
                percentage: None,
                media: true,
            };
            let before = record_at(devs, path)->Some_0;
            record_at(after_interfaces_added(devs, path, report), path) == Some(
                DeviceFacts { has_media: true, ..before },
            )
        }),
{
    let report = InterfaceReport {
        device_info: false,
        name: None,
        battery: false,
        percentage: None,
        media: true,
    };
    lemma_interfaces_added(devs, path, report, path);
}

/// Records are collected: where every interface that a record has is removed,
/// no record is left at its path.
pub proof fn lemma_removing_all_drops_record(
    devs: Seq<DeviceFacts>,
    path: Seq<char>,
    gone: RemovedInterfaces,
)
    requires
        registry_wf(devs),
        record_at(devs, path) matches Some(rec) ==> {
            &&& rec.name is Some ==> gone.device_info
            &&& rec.has_battery ==> gone.battery
            &&& rec.has_media ==> gone.media
        },
    ensures
        !has_path(after_interfaces_removed(devs, path, gone), path),
        record_at(after_interfaces_removed(devs, path, gone), path) is None,
{
    lemma_interfaces_removed(devs, path, gone, path);
    lemma_record_path(after_interfaces_removed(devs, path, gone), path);
}

/// A record is collected no sooner: where an interface that a record has is
/// not among those removed, the record stays.
pub proof fn lemma_removing_some_keeps_record(
    devs: Seq<DeviceFacts>,
    path: Seq<char>,
    gone: RemovedInterfaces,
)
    requires
        registry_wf(devs),
        record_at(devs, path) matches Some(rec) && {
            ||| rec.name is Some && !gone.device_info
            ||| rec.has_battery && !gone.battery
            ||| rec.has_media && !gone.media
        },
    ensures
        record_at(after_interfaces_removed(devs, path, gone), path) == Some(
            with_removed(record_at(devs, path)->Some_0, gone),
        ),
{
    lemma_interfaces_removed(devs, path, gone, path);
}

/// The registry: one record for each object path of which something is known.
#[derive(Debug, Clone, PartialEq, Eq)]
pub struct DeviceRegistry {
    devices: Vec<BluetoothDevice>,
}

impl View for DeviceRegistry {
    type V = Seq<DeviceFacts>;

    closed spec fn view(&self) -> Seq<DeviceFacts> {
        self.devices@.map_values(|d: BluetoothDevice| d@)
    }
}

impl DeviceRegistry {
    /// The invariant of the registry holds of this one.
    pub open spec fn wf(&self) -> bool {
        registry_wf(self@)
    }

    /// A registry without records.
    pub fn new() -> (registry: DeviceRegistry)
        ensures
            registry@ == Seq::<DeviceFacts>::empty(),
            registry.wf(),
    {
        let registry = DeviceRegistry { devices: Vec::new() };
        assert(registry@ =~= Seq::<DeviceFacts>::empty());
        registry
    }

    /// The number of records.
    pub fn len(&self) -> (n: usize)
        ensures
            n == self@.len(),
    {
        self.devices.len()
    }

    /// Whether there is no record.
    pub fn is_empty(&self) -> (empty: bool)
        ensures
            empty == (self@.len() == 0),
    {
        self.devices.len() == 0
    }

    /// The record that stands at `index`.
    pub fn device(&self, index: usize) -> (device: &BluetoothDevice)
        requires
            index < self@.len(),
        ensures
            device@ == self@[index as int],
    {
        &self.devices[index]
    }

    /// Where the record for `path` stands.
    pub fn position(&self, path: &str) -> (at: Option<usize>)
        requires
            self.wf(),
        ensures
            match at {
                Some(i) => has_path(self@, path@) && i == position(self@, path@),
                None => !has_path(self@, path@),
            },
    {
        let mut i: usize = 0;
        while i < self.devices.len()
            invariant
                self.wf(),
                i <= self.devices@.len(),
                self@.len() == self.devices@.len(),
                forall|j: int| 0 <= j < i ==> (#[trigger] self@[j]).path != path@,
            decreases self.devices@.len() - i,
        {
            if same_text(self.devices[i].device_path.as_str(), path) {
                proof {
                    assert(self@[i as int].path == path@);
                    lemma_position(self@, path@, i as int);
                }
                return Some(i);
            }
            i += 1;
        }
        None
    }

    /// Whether there is a record for `path`.
    pub fn contains(&self, path: &str) -> (found: bool)
        requires
            self.wf(),
        ensures
            found == has_path(self@, path@),
    {
        self.position(path).is_some()
    }

    /// The record for `path`.
    pub fn get(&self, path: &str) -> (found: Option<&BluetoothDevice>)
        requires
            self.wf(),
        ensures
            match found {
                Some(device) => record_at(self@, path@) == Some(device@),
                None => record_at(self@, path@) is None,
            },
    {
        match self.position(path) {
            Some(i) => Some(&self.devices[i]),
            None => None,
        }
    }

    /// Puts `rec` in the place `at` where its path was found, or behind the
    /// others if it was not found, and drops it if nothing is known of it.
    fn store(&mut self, at: Option<usize>, rec: BluetoothDevice)
        requires
            old(self).wf(),
            rec@.wf(),
            match at {
                Some(i) => has_path(old(self)@, rec@.path) && i == position(old(self)@, rec@.path),
                None => !has_path(old(self)@, rec@.path),
            },
        ensures
            final(self)@ == stored(old(self)@, rec@),
            final(self).wf(),
    {
        proof {
            lemma_stored_wf(self@, rec@);
        }
        let known = rec.is_known();
        match at {
            Some(i) => {
                assert(0 <= i < self@.len());
                if known {
                    self.devices.set(i, rec);
                    assert(self@ =~= old(self)@.update(i as int, rec@));
                } else {
                    self.devices.remove(i);
                    assert(self@ =~= old(self)@.remove(i as int));
                }
            },
            None => {
                if known {
                    self.devices.push(rec);
                    assert(self@ =~= old(self)@.push(rec@));
                }
            },
        }
    }

    /// A copy of the record at `at`, or a blank record for `path` if there is
    /// none.
    fn base(&self, at: Option<usize>, path: &str) -> (rec: BluetoothDevice)
        requires
            self.wf(),
            match at {
                Some(i) => has_path(self@, path@) && i == position(self@, path@),
                None => !has_path(self@, path@),
            },
        ensures
            rec@ == base_record(self@, path@),
            rec@.path == path@,
    {
        match at {
            Some(i) => {
                assert(0 <= i < self@.len());
                let found = &self.devices[i];
                BluetoothDevice {
                    device_path: found.device_path.clone(),
                    has_battery: found.has_battery,
                    has_media: found.has_media,
                    battery_percentage: found.battery_percentage,
                    device_name: match &found.device_name {
                        Some(name) => Some(name.clone()),
                        None => None,
                    },
                }
            },
            None => BluetoothDevice {
                device_path: String::from_str(path),
                has_battery: false,
                has_media: false,
                battery_percentage: None,
                device_name: None,
            },
        }
    }

    /// Merges the interfaces that were added at `path` into its record, which
    /// is made if there was none, and dropped if nothing is known of it
    /// afterwards.
    pub fn interfaces_added(&mut self, path: &str, facts: InterfaceFacts)
        requires
            old(self).wf(),
            facts@.wf(),
        ensures
            final(self)@ == after_interfaces_added(old(self)@, path@, facts@),
            final(self).wf(),
    {
        let at = self.position(path);
        let base = self.base(at, path);
        let merged = BluetoothDevice {
            device_path: base.device_path,
            has_battery: base.has_battery || facts.battery,
            has_media: base.has_media || facts.media,
            battery_percentage: if facts.battery {
                facts.percentage
            } else {
                base.battery_percentage
            },
            device_name: if facts.device_info {
                facts.name
            } else {
                base.device_name
            },
        };
        assert(merged@ == with_added(base_record(self@, path@), facts@));
        self.store(at, merged);
    }

    /// Clears in the record for `path` what the interfaces that are gone
    /// carried, and drops the record if nothing is known of it afterwards.
    /// A path without a record changes nothing.
    pub fn interfaces_removed(&mut self, path: &str, gone: RemovedInterfaces)
        requires
            old(self).wf(),
        ensures
            final(self)@ == after_interfaces_removed(old(self)@, path@, gone),
            final(self).wf(),
    {
        let at = self.position(path);
        if at.is_some() {
            let base = self.base(at, path);
            let cleared = BluetoothDevice {
                device_path: base.device_path,
                has_battery: base.has_battery && !gone.battery,
                has_media: base.has_media && !gone.media,
                battery_percentage: if gone.battery {
                    None
                } else {
                    base.battery_percentage
                },
                device_name: if gone.device_info {
                    None
                } else {
                    base.device_name
                },
            };
            assert(cleared@ == with_removed(base_record(self@, path@), gone));
            self.store(at, cleared);
        }
    }

    /// Sets the battery level of the record for `path` to what was reported.
    /// A path without a record gets one that has a battery.
    pub fn battery_changed(&mut self, path: &str, percentage: Option<u8>)
        requires
            old(self).wf(),
            percentage matches Some(level) ==> level <= 100,
        ensures
            final(self)@ == after_battery_changed(old(self)@, path@, percentage),
            final(self).wf(),
    {
        let at = self.position(path);
        let base = self.base(at, path);
        let changed = BluetoothDevice {
            device_path: base.device_path,
            has_battery: base.has_battery || at.is_none(),
            has_media: base.has_media,
            battery_percentage: percentage,
            device_name: base.device_name,
        };
        self.store(at, changed);
    }

    /// Notes that the record for `path` has media control. A path without a
    /// record gets one.
    pub fn media_changed(&mut self, path: &str)
        requires
            old(self).wf(),
        ensures
            final(self)@ == after_media_changed(old(self)@, path@),
            final(self).wf(),
    {
        let at = self.position(path);
        let base = self.base(at, path);
        let changed = BluetoothDevice {
            device_path: base.device_path,
            has_battery: base.has_battery,
            has_media: true,
            battery_percentage: base.battery_percentage,
            device_name: base.device_name,
        };
        self.store(at, changed);
    }
}

} // verus!
