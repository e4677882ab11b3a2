//! The battery of the machine itself.
//!
//! A machine without a battery is no fault: the level stays unknown and the
//! battery text stays empty.

use vstd::prelude::*;
use crate::value::dict_get;
use crate::value::lookup;
use crate::value::BusValue;
use crate::value::DictEntry;

verus! {

/// The interface of the power service's devices.
pub const POWER_DEVICE_INTERFACE: &'static str = "org.freedesktop.UPower.Device";

/// The property that holds the battery level.
pub const PERCENTAGE_PROPERTY: &'static str = "Percentage";

/// The property that holds the charging state.
pub const STATE_PROPERTY: &'static str = "State";

/// What the battery is doing.
#[derive(Clone, Copy, Debug, PartialEq, Eq, Structural)]
pub enum ChargingState {
    Unknown,
    Charging,
    Discharging,
    Empty,
    FullyCharged,
    PendingCharge,
    PendingDischarge,
}

impl ChargingState {
    /// The state that the power service numbers `code`; a number it does not
    /// use stands for an unknown state.
    pub open spec fn spec_from_code(code: u32) -> ChargingState {
        if code == 1 {
            ChargingState::Charging
        } else if code == 2 {
            ChargingState::Discharging
        } else if code == 3 {
            ChargingState::Empty
        } else if code == 4 {
            ChargingState::FullyCharged
        } else if code == 5 {
            ChargingState::PendingCharge
        } else if code == 6 {
            ChargingState::PendingDischarge
        } else {
            ChargingState::Unknown
        }
    }

    /// The state that the power service numbers `code`.
    #[verifier::when_used_as_spec(spec_from_code)]
    pub fn from_code(code: u32) -> (state: ChargingState)
        ensures
            state == ChargingState::spec_from_code(code),
    {
        match code {
            1 => ChargingState::Charging,
            2 => ChargingState::Discharging,
            3 => ChargingState::Empty,
            4 => ChargingState::FullyCharged,
            5 => ChargingState::PendingCharge,
            6 => ChargingState::PendingDischarge,
            _ => ChargingState::Unknown,
        }
    }
}

/// What a set of changed properties says of the battery: for each of the two
/// properties, the value it gives, if it gives one.
#[derive(Clone, Copy, Debug, PartialEq, Eq, Structural)]
pub struct BatteryChange {
    pub percentage: Option<u8>,
    pub state: Option<ChargingState>,
}

/// The battery as far as it is known.
#[derive(Clone, Copy, Debug, PartialEq, Eq, Structural)]
pub struct SystemBatteryState {
    pub percentage: Option<u8>,
    pub charging_state: ChargingState,
}

/// The battery level that a value gives: that of a number whose nearest
/// integer lies between 0 and 100.
pub open spec fn battery_level(value: BusValue) -> Option<u8> {
    match value {
        BusValue::Double(nearest) => if 0 <= nearest <= 100 {
            Some(nearest as u8)
        } else {
            None
        },
        _ => None,
    }
}

/// The charging state that a value gives: that of an unsigned 32-bit number.
pub open spec fn battery_state(value: BusValue) -> Option<ChargingState> {
    match value {
        BusValue::U32(code) => Some(ChargingState::spec_from_code(code)),
        _ => None,
    }
}

/// What a set of changed properties says of the battery.
pub open spec fn battery_change(props: Seq<DictEntry>) -> BatteryChange {
    BatteryChange {
        percentage: match lookup(props, PERCENTAGE_PROPERTY@) {
            Some(value) => battery_level(value),
            None => None,
        },
        state: match lookup(props, STATE_PROPERTY@) {
            Some(value) => battery_state(value),
            None => None,
        },
    }
}

impl BatteryChange {
    /// A battery level is a percentage.
    pub open spec fn wf(self) -> bool {
        self.percentage matches Some(level) ==> level <= 100
    }
}

impl SystemBatteryState {
    /// A battery level is a percentage.
    pub open spec fn wf(self) -> bool {
        self.percentage matches Some(level) ==> level <= 100
    }

    /// The battery after a change: what the change gives replaces what was
    /// known, and what it does not give stays.
    pub open spec fn changed(self, change: BatteryChange) -> SystemBatteryState {
        SystemBatteryState {
            percentage: match change.percentage {
                Some(level) => Some(level),
                None => self.percentage,
            },
            charging_state: match change.state {
                Some(state) => state,
                None => self.charging_state,
            },
        }
    }

    /// A battery of which nothing is known.
    pub open spec fn spec_new() -> SystemBatteryState {
        SystemBatteryState { percentage: None, charging_state: ChargingState::Unknown }
    }

    /// A battery of which nothing is known.
    #[verifier::when_used_as_spec(spec_new)]
    pub fn new() -> (state: SystemBatteryState)
        ensures
            state == SystemBatteryState::spec_new(),
            state.wf(),
    {
        SystemBatteryState { percentage: None, charging_state: ChargingState::Unknown }
    }

    /// Takes over what a change gives.
    pub fn apply(&mut self, change: BatteryChange)
        requires
            old(self).wf(),
            change.wf(),
        ensures
            *final(self) == old(self).changed(change),
            final(self).wf(),
    {
        match change.percentage {
            Some(level) => {
                self.percentage = Some(level);
            },
            None => {},
        }
        match change.state {
            Some(state) => {
                self.charging_state = state;
            },
            None => {},
        }
    }
}

/// Reads the battery level from a value.
pub fn process_battery_percentage(value: &BusValue) -> (level: Option<u8>)
    ensures
        level == battery_level(*value),
        level matches Some(l) ==> l <= 100,
{
    match value.as_double() {
        Ok(nearest) => if 0 <= nearest && nearest <= 100 {
            Some(nearest as u8)
        } else {
            None
        },
        Err(_) => None,
    }
}

/// Reads the charging state from a value.
pub fn process_battery_state(value: &BusValue) -> (state: Option<ChargingState>)
    ensures
        state == battery_state(*value),
{
    match value.as_u32() {
        Ok(code) => Some(ChargingState::from_code(code)),
        Err(_) => None,
    }
}

/// Reads what a set of changed properties says of the battery.
pub fn process_battery_device_properties(properties_dict: &Vec<DictEntry>) -> (change: BatteryChange)
    ensures
        change == battery_change(properties_dict@),
        change.wf(),
{
    let state = match dict_get(properties_dict, STATE_PROPERTY) {
        Some(value) => process_battery_state(value),
        None => None,
    };
    let percentage = match dict_get(properties_dict, PERCENTAGE_PROPERTY) {
        Some(value) => process_battery_percentage(value),
        None => None,
    };
    BatteryChange { percentage, state }
}

} // verus!
