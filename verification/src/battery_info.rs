//! The battery snapshot and the values it is made of.

use vstd::prelude::*;
use vstd::std_specs::convert::FromSpecImpl;
use crate::battery_info::battery_level::BatteryLevel;
use crate::battery_info::device_state::DeviceState;
use crate::battery_info::device_type::DeviceType;
use crate::battery_info::time_until::TimeUntil;
use crate::battery_info::warning_level::WarningLevel;
use crate::battery_interface::BatteryInterface;

pub mod battery_level;
pub mod device_state;
pub mod device_type;
pub mod time_until;
pub mod warning_level;

verus! {

/// The charge in percent, held as the bit pattern of a 64-bit IEEE 754
/// number. The bits are carried as they came; no range is enforced.
#[derive(Debug, Clone, Copy, PartialEq, Eq, Structural)]
pub struct Percentage(pub u64);

impl std::ops::Deref for Percentage {
    type Target = u64;

    /// The bit pattern of the percentage.
    fn deref(&self) -> (bits: &u64)
        ensures
            *bits == self.0,
    {
        &self.0
    }
}

impl From<u64> for Percentage {
    fn from(value: u64) -> (p: Self)
        ensures
            p == Percentage(value),
    {
        Self(value)
    }
}

impl FromSpecImpl<u64> for Percentage {
    open spec fn obeys_from_spec() -> bool {
        true
    }

    open spec fn from_spec(value: u64) -> Self {
        Percentage(value)
    }
}

/// Whether the device supplies power to the system.
#[derive(Debug, Clone, Copy, PartialEq, Eq, Structural)]
pub struct PowerSupply(pub bool);

impl std::ops::Deref for PowerSupply {
    type Target = bool;

    fn deref(&self) -> (on: &bool)
        ensures
            *on == self.0,
    {
        &self.0
    }
}

impl From<bool> for PowerSupply {
    fn from(value: bool) -> (p: Self)
        ensures
            p == PowerSupply(value),
    {
        Self(value)
    }
}

impl FromSpecImpl<bool> for PowerSupply {
    open spec fn obeys_from_spec() -> bool {
        true
    }

    open spec fn from_spec(value: bool) -> Self {
        PowerSupply(value)
    }
}

/// The name of a themed icon that shows the device's state. The name is
/// carried as it came.
#[derive(Debug, PartialEq, Eq)]
pub struct IconName(pub String);

impl Clone for IconName {
    fn clone(&self) -> (copy: Self)
        ensures
            copy == *self,
    {
        IconName(self.0.clone())
    }
}

impl std::ops::Deref for IconName {
    type Target = String;

    fn deref(&self) -> (name: &String)
        ensures
            *name == self.0,
    {
        &self.0
    }
}

impl From<String> for IconName {
    fn from(value: String) -> (name: Self)
        ensures
            name == IconName(value),
    {
        Self(value)
    }
}

impl FromSpecImpl<String> for IconName {
    open spec fn obeys_from_spec() -> bool {
        true
    }

    open spec fn from_spec(value: String) -> Self {
        IconName(value)
    }
}

/// One snapshot of a device. A field is `None` until its property has been
/// seen.
#[derive(Debug, PartialEq, Eq)]
pub struct BatteryInfo {
    pub device_type: Option<DeviceType>,
    pub device_state: Option<DeviceState>,
    pub percentage: Option<Percentage>,
    pub power_supply: Option<PowerSupply>,
    pub battery_level: Option<BatteryLevel>,
    pub icon_name: Option<IconName>,
    pub time_until: Option<TimeUntil>,
    pub warning_level: Option<WarningLevel>,
}

/// One field of a snapshot, with the value to store in it.
pub enum BatteryInfoProperties {
    DeviceType(DeviceType),
    DeviceState(DeviceState),
    Percentage(Percentage),
    PowerSupply(PowerSupply),
    BatteryLevel(BatteryLevel),
    IconName(IconName),
    TimeUntil(TimeUntil),
    WarningLevel(WarningLevel),
}

impl BatteryInfoProperties {
    /// The snapshot that storing this property in `info` gives: the
    /// property's own field holds the new value, the other seven are kept.
    pub open spec fn stored_in(self, info: BatteryInfo) -> BatteryInfo {
        match self {
            Self::DeviceType(v) => BatteryInfo { device_type: Some(v), ..info },
            Self::DeviceState(v) => BatteryInfo { device_state: Some(v), ..info },
            Self::Percentage(v) => BatteryInfo { percentage: Some(v), ..info },
            Self::PowerSupply(v) => BatteryInfo { power_supply: Some(v), ..info },
            Self::BatteryLevel(v) => BatteryInfo { battery_level: Some(v), ..info },
            Self::IconName(v) => BatteryInfo { icon_name: Some(v), ..info },
            Self::TimeUntil(v) => BatteryInfo { time_until: Some(v), ..info },
            Self::WarningLevel(v) => BatteryInfo { warning_level: Some(v), ..info },
        }
    }

    /// Stores the property in the snapshot behind the reference.
    pub fn insert_property_by_mut_ref(self, batt_info: &mut BatteryInfo)
        ensures
            *final(batt_info) == self.stored_in(*old(batt_info)),
    {
        match self {
            Self::DeviceType(device_type) => {
                batt_info.device_type = Some(device_type);
            },
            Self::DeviceState(device_state) => batt_info.device_state = Some(device_state),
            Self::Percentage(percentage) => batt_info.percentage = Some(percentage),
            Self::PowerSupply(power_supply) => batt_info.power_supply = Some(power_supply),
            Self::BatteryLevel(battery_level) => batt_info.battery_level = Some(battery_level),
            Self::IconName(icon_name) => batt_info.icon_name = Some(icon_name),
            Self::TimeUntil(time_until) => batt_info.time_until = Some(time_until),
            Self::WarningLevel(warning_level) => batt_info.warning_level = Some(warning_level),
        };
    }

    /// Stores the property in a snapshot taken by value and hands the
    /// snapshot back.
    pub fn insert_property(self, batt_info: BatteryInfo) -> (updated: BatteryInfo)
        ensures
            updated == self.stored_in(batt_info),
    {
        let mut batt_info = batt_info;
        self.insert_property_by_mut_ref(&mut batt_info);
        batt_info
    }
}

impl BatteryInfo {
    /// The snapshot in which nothing has been seen yet.
    pub open spec fn empty() -> BatteryInfo {
        BatteryInfo {
            device_type: None,
            device_state: None,
            percentage: None,
            power_supply: None,
            battery_level: None,
            icon_name: None,
            time_until: None,
            warning_level: None,
        }
    }

    pub fn new() -> (info: Self)
        ensures
            info == Self::empty(),
    {
        Self::default()
    }

    pub fn set_propertry(&mut self, prop: BatteryInfoProperties)
        ensures
            *final(self) == prop.stored_in(*old(self)),
    {
        prop.insert_property_by_mut_ref(self);
    }

    /// What is left of a source's answer when its error is dropped.
    pub open spec fn kept<E>(outcome: Result<BatteryInfo, E>) -> Option<BatteryInfo> {
        match outcome {
            Ok(info) => Some(info),
            Err(_) => None,
        }
    }

    /// Asks the source `T` once for a snapshot: the snapshot of its answer,
    /// or `None` where it answered with an error.
    pub fn get<T: BatteryInterface>() -> (info: Option<Self>)
        ensures
            exists|outcome: Result<BatteryInfo, T::Error>|
                call_ensures(T::battery_info, (), outcome) && info == #[trigger] Self::kept(
                    outcome,
                ),
    {
        let outcome = T::battery_info();
        assert(call_ensures(T::battery_info, (), outcome) && Self::kept(outcome) == outcome.ok());
        outcome.ok()
    }
}

impl Default for BatteryInfo {
    fn default() -> (info: Self)
        ensures
            info == Self::empty(),
    {
        Self {
            device_type: None,
            device_state: None,
            percentage: None,
            power_supply: None,
            battery_level: None,
            icon_name: None,
            time_until: None,
            warning_level: None,
        }
    }
}

} // verus!
