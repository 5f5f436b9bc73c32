//! The UPower service as a source of battery snapshots.

use vstd::prelude::*;
use crate::battery_info::battery_level::BatteryLevel;
use crate::battery_info::device_state::DeviceState;
use crate::battery_info::device_type::DeviceType;
use crate::battery_info::time_until::TimeUntil;
use crate::battery_info::warning_level::WarningLevel;
use crate::battery_info::BatteryInfo;
use crate::battery_info::BatteryInfoProperties;
use crate::battery_info::IconName;
use crate::battery_info::Percentage;
use crate::battery_info::PowerSupply;
use crate::battery_interface::upower::utils::handle_time;
use crate::battery_interface::upower::utils::reconcile;
use crate::device::Device;
use crate::device::IntoDevice;
use crate::device::ValidDevice;
use crate::dynamic_value::DynamicValue;
use crate::dynamic_value::ValueKind;
use crate::error::BatteryError;
use crate::text::same_text;

pub mod failure;
pub mod utils;

verus! {

/// The name under which the service is reached on the bus.
pub const SERVICE_NAME: &'static str = "org.freedesktop.UPower";

/// The object that lists the service's devices.
pub const ROOT_PATH: &'static str = "/org/freedesktop/UPower";

/// The interface through which the properties of an object are read.
pub const PROPERTIES_INTERFACE: &'static str = "org.freedesktop.DBus.Properties";

/// The interface whose properties describe one device.
pub const DEVICE_INTERFACE: &'static str = "org.freedesktop.UPower.Device";

/// The object that stands for all power sources taken together.
pub const DISPLAY_DEVICE_PATH: &'static str = "/org/freedesktop/UPower/devices/DisplayDevice";

/// The UPower service, as the source of property bags and device
/// identifiers.
pub struct UPower;

/// The number of segments that a path must exceed to name a device: those of
/// the service's own name, `org`, `freedesktop` and `UPower`.
pub const SERVICE_SEGMENTS: usize = 3;

/// How often `/` occurs in a path.
pub open spec fn slash_count(path: Seq<char>) -> nat
    decreases path.len(),
{
    if path.len() == 0 {
        0
    } else {
        slash_count(path.drop_last()) + if path.last() == '/' {
            1nat
        } else {
            0nat
        }
    }
}

/// The number of segments into which `/` divides a path. A path without `/`
/// is one segment, and a segment may be empty.
pub open spec fn segment_count(path: Seq<char>) -> nat {
    slash_count(path) + 1
}

/// Whether a path has the shape of a device identifier of this service: it
/// has more segments than the service's name.
pub open spec fn is_device_path(path: Seq<char>) -> bool {
    segment_count(path) > SERVICE_SEGMENTS
}

impl ValidDevice<String> for UPower {
    fn is_valid(value: &String) -> (ok: bool)
        ensures
            ok == is_device_path(value@),
    {
        broadcast use vstd::string::axiom_spec_iter;

        let mut segments: usize = 1;
        for c in it: value.as_str().chars()
            invariant
                it.seq() == value@,
                segments <= SERVICE_SEGMENTS + 1,
                segments <= SERVICE_SEGMENTS ==> segments == segment_count(
                    value@.take(it.index() as int),
                ),
                segments > SERVICE_SEGMENTS ==> segment_count(value@.take(it.index() as int))
                    > SERVICE_SEGMENTS,
        {
            proof {
                let n = it.index() as int;
                assert(value@.take(n + 1).drop_last() =~= value@.take(n));
                assert(value@.take(n + 1).last() == c);
            }
            if c == '/' && segments <= SERVICE_SEGMENTS {
                segments += 1;
            }
        }
        assert(value@.take(value@.len() as int) =~= value@);
        segments > SERVICE_SEGMENTS
    }
}

/// The error for a key whose value has another type than the key asks for.
pub open spec fn mismatch(key: String, value: DynamicValue, expected: ValueKind) -> BatteryError {
    BatteryError::TypeMismatch { key, observed_value: value, expected_type: expected }
}

/// The snapshot after one property has been taken into `info`.
///
/// A recognized key sets one field. `IconName` takes the text of whatever
/// value it holds. Each other recognized key asks for a value of one type,
/// and a value of another type is an error; the two countdown keys then go
/// through [`reconcile`]. Any other key leaves the snapshot as it is.
pub open spec fn decode_entry(info: BatteryInfo, key: String, value: DynamicValue) -> Result<
    BatteryInfo,
    BatteryError,
> {
    if key@ == "BatteryLevel"@ {
        match value {
            DynamicValue::Uint32(v, _) => Ok(
                BatteryInfo { battery_level: Some(BatteryLevel::decode(v)), ..info },
            ),
            _ => Err(mismatch(key, value, ValueKind::Uint32)),
        }
    } else if key@ == "IconName"@ {
        Ok(BatteryInfo { icon_name: Some(IconName(value.text())), ..info })
    } else if key@ == "Type"@ {
        match value {
            DynamicValue::Uint32(v, _) => Ok(
                BatteryInfo { device_type: Some(DeviceType::decode(v)), ..info },
            ),
            _ => Err(mismatch(key, value, ValueKind::Uint32)),
        }
    } else if key@ == "TimeToEmpty"@ || key@ == "TimeToFull"@ {
        match value {
            DynamicValue::Int64(v, _) => match reconcile(info.time_until, key@, v) {
                Ok(time_until) => Ok(BatteryInfo { time_until, ..info }),
                Err(e) => Err(e),
            },
            _ => Err(mismatch(key, value, ValueKind::Int64)),
        }
    } else if key@ == "Percentage"@ {
        match value {
            DynamicValue::Float64(bits, _) => Ok(
                BatteryInfo { percentage: Some(Percentage(bits)), ..info },
            ),
            _ => Err(mismatch(key, value, ValueKind::Float64)),
        }
    } else if key@ == "WarningLevel"@ {
        match value {
            DynamicValue::Uint32(v, _) => Ok(
                BatteryInfo { warning_level: Some(WarningLevel::decode(v)), ..info },
            ),
            _ => Err(mismatch(key, value, ValueKind::Uint32)),
        }
    } else if key@ == "State"@ {
        match value {
            DynamicValue::Uint32(v, _) => Ok(
                BatteryInfo { device_state: Some(DeviceState::decode(v)), ..info },
            ),
            _ => Err(mismatch(key, value, ValueKind::Uint32)),
        }
    } else if key@ == "PowerSupply"@ {
        match value {
            DynamicValue::Bool(v, _) => Ok(
                BatteryInfo { power_supply: Some(PowerSupply(v)), ..info },
            ),
            _ => Err(mismatch(key, value, ValueKind::Bool)),
        }
    } else {
        Ok(info)
    }
}

/// The snapshot after all of `entries` have been taken into `info` in their
/// order, or the error of the first entry that fails.
pub open spec fn decode_entries(info: BatteryInfo, entries: Seq<(String, DynamicValue)>) -> Result<
    BatteryInfo,
    BatteryError,
>
    decreases entries.len(),
{
    if entries.len() == 0 {
        Ok(info)
    } else {
        match decode_entry(info, entries[0].0, entries[0].1) {
            Ok(next) => decode_entries(next, entries.skip(1)),
            Err(e) => Err(e),
        }
    }
}

/// The type that a key asks of its value. `None` for `IconName`, which takes
/// a value of any type, and for a key that is not recognized.
pub open spec fn expected_kind(key: Seq<char>) -> Option<ValueKind> {
    if key == "BatteryLevel"@ {
        Some(ValueKind::Uint32)
    } else if key == "IconName"@ {
        None
    } else if key == "Type"@ {
        Some(ValueKind::Uint32)
    } else if key == "TimeToEmpty"@ || key == "TimeToFull"@ {
        Some(ValueKind::Int64)
    } else if key == "Percentage"@ {
        Some(ValueKind::Float64)
    } else if key == "WarningLevel"@ {
        Some(ValueKind::Uint32)
    } else if key == "State"@ {
        Some(ValueKind::Uint32)
    } else if key == "PowerSupply"@ {
        Some(ValueKind::Bool)
    } else {
        None
    }
}

/// Whether a key is one of those that set a field.
pub open spec fn is_recognized(key: Seq<char>) -> bool {
    key == "IconName"@ || expected_kind(key) is Some
}

/// A key that is not recognized is passed over: the snapshot stays as it is.
pub proof fn lemma_unrecognized_key_is_ignored(info: BatteryInfo, key: String, value: DynamicValue)
    requires
        !is_recognized(key@),
    ensures
        decode_entry(info, key, value) == Ok::<BatteryInfo, BatteryError>(info),
{
}

/// `IconName` never fails: whatever type its value has, the field is set to
/// the value's text.
pub proof fn lemma_icon_name_takes_any_value(info: BatteryInfo, key: String, value: DynamicValue)
    requires
        key@ == "IconName"@,
    ensures
        decode_entry(info, key, value) == Ok::<BatteryInfo, BatteryError>(
            BatteryInfo { icon_name: Some(IconName(value.text())), ..info },
        ),
{
    reveal_strlit("IconName");
    reveal_strlit("BatteryLevel");
    assert("IconName"@.len() == 8);
    assert("BatteryLevel"@.len() == 12);
}

/// A key whose value has another type than the key asks for is an error
/// that names the key, the value as it was seen and the type that was
/// expected.
pub proof fn lemma_wrong_type_is_reported(info: BatteryInfo, key: String, value: DynamicValue)
    requires
        expected_kind(key@) is Some,
        !value.has_kind(expected_kind(key@)->0),
    ensures
        decode_entry(info, key, value) == Err::<BatteryInfo, BatteryError>(
            mismatch(key, value, expected_kind(key@)->0),
        ),
{
}

/// Whether a key asks for a type that the value does not have.
pub open spec fn asks_another_type(key: Seq<char>, value: DynamicValue) -> bool {
    expected_kind(key) is Some && !value.has_kind(expected_kind(key)->0)
}

/// Whether an entry is a countdown that cannot be reconciled with the
/// countdown stored so far.
pub open spec fn is_refused_countdown(
    stored: Option<TimeUntil>,
    key: Seq<char>,
    value: DynamicValue,
) -> bool {
    expected_kind(key) == Some(ValueKind::Int64) && match value {
        DynamicValue::Int64(seconds, _) => reconcile(stored, key, seconds) is Err,
        _ => false,
    }
}

/// An entry fails in two ways and no other: its key asks for a type that
/// its value does not have, or it is a countdown that cannot be reconciled
/// with what the snapshot holds.
pub proof fn lemma_when_an_entry_fails(info: BatteryInfo, key: String, value: DynamicValue)
    ensures
        decode_entry(info, key, value) is Err <==> asks_another_type(key@, value)
            || is_refused_countdown(info.time_until, key@, value),
{
}

/// For a recognized key other than the two countdown keys the last write
/// wins: a value that the key takes always decodes, and what it sets
/// replaces what an earlier value under that key had set.
pub proof fn lemma_last_write_wins(
    info: BatteryInfo,
    key: String,
    earlier: DynamicValue,
    later: DynamicValue,
)
    requires
        is_recognized(key@),
        expected_kind(key@) != Some(ValueKind::Int64),
        expected_kind(key@) is Some ==> earlier.has_kind(expected_kind(key@)->0),
        expected_kind(key@) is Some ==> later.has_kind(expected_kind(key@)->0),
    ensures
        decode_entry(info, key, earlier) is Ok,
        decode_entry(decode_entry(info, key, earlier)->Ok_0, key, later) == decode_entry(
            info,
            key,
            later,
        ),
{
}

/// Decoding one bag after another is decoding the two as one: the second is
/// taken into what the first left, and an error in the first ends the pass
/// before the second is looked at.
pub proof fn lemma_decode_concat(
    info: BatteryInfo,
    first: Seq<(String, DynamicValue)>,
    second: Seq<(String, DynamicValue)>,
)
    ensures
        decode_entries(info, first + second) == (match decode_entries(info, first) {
            Ok(mid) => decode_entries(mid, second),
            Err(e) => Err(e),
        }),
    decreases first.len(),
{
    if first.len() == 0 {
        assert(first + second =~= second);
    } else {
        assert((first + second)[0] == first[0]);
        assert((first + second).skip(1) =~= first.skip(1) + second);
        match decode_entry(info, first[0].0, first[0].1) {
            Ok(next) => {
                lemma_decode_concat(next, first.skip(1), second);
            },
            Err(_) => {},
        }
    }
}

/// The first entry that fails ends the pass: whatever follows it in the bag,
/// the error is that entry's.
pub proof fn lemma_first_failure_ends_the_pass(
    info: BatteryInfo,
    before: Seq<(String, DynamicValue)>,
    after: Seq<(String, DynamicValue)>,
)
    requires
        decode_entries(info, before) is Err,
    ensures
        decode_entries(info, before + after) == decode_entries(info, before),
{
    lemma_decode_concat(info, before, after);
}

/// The number behind a key that asks for an unsigned 32-bit integer.
fn expect_u32(key: &String, value: &DynamicValue) -> (result: Result<u32, BatteryError>)
    ensures
        result == (match *value {
            DynamicValue::Uint32(v, _) => Ok::<u32, BatteryError>(v),
            _ => Err(mismatch(*key, *value, ValueKind::Uint32)),
        }),
{
    match value.as_u32() {
        Some(v) => Ok(v),
        None => Err(
            BatteryError::TypeMismatch {
                key: key.clone(),
                observed_value: value.clone(),
                expected_type: ValueKind::Uint32,
            },
        ),
    }
}

impl UPower {
    /// Takes one property into the snapshot. On an error the snapshot is
    /// left as it was.
    pub fn decode_property(
        key: &String,
        value: &DynamicValue,
        batt_info: &mut BatteryInfo,
    ) -> (result: Result<(), BatteryError>)
        ensures
            match decode_entry(*old(batt_info), *key, *value) {
                Ok(next) => result is Ok && *final(batt_info) == next,
                Err(e) => result == Err::<(), BatteryError>(e) && *final(batt_info) == *old(
                    batt_info,
                ),
            },
    {
        let k = key.as_str();
        if same_text(k, "BatteryLevel") {
            let code = expect_u32(key, value)?;
            batt_info.set_propertry(BatteryInfoProperties::BatteryLevel(BatteryLevel::from(code)));
        } else if same_text(k, "IconName") {
            batt_info.set_propertry(
                BatteryInfoProperties::IconName(IconName::from(value.to_text())),
            );
        } else if same_text(k, "Type") {
            let code = expect_u32(key, value)?;
            batt_info.set_propertry(BatteryInfoProperties::DeviceType(DeviceType::from(code)));
        } else if same_text(k, "TimeToEmpty") || same_text(k, "TimeToFull") {
            match value.as_i64() {
                Some(seconds) => {
                    return handle_time(k, seconds, batt_info);
                },
                None => {
                    return Err(
                        BatteryError::TypeMismatch {
                            key: key.clone(),
                            observed_value: value.clone(),
                            expected_type: ValueKind::Int64,
                        },
                    );
                },
            }
        } else if same_text(k, "Percentage") {
            match value.as_f64_bits() {
                Some(bits) => batt_info.set_propertry(
                    BatteryInfoProperties::Percentage(Percentage::from(bits)),
                ),
                None => {
                    return Err(
                        BatteryError::TypeMismatch {
                            key: key.clone(),
                            observed_value: value.clone(),
                            expected_type: ValueKind::Float64,
                        },
                    );
                },
            }
        } else if same_text(k, "WarningLevel") {
            let code = expect_u32(key, value)?;
            batt_info.set_propertry(BatteryInfoProperties::WarningLevel(WarningLevel::from(code)));
        } else if same_text(k, "State") {
            let code = expect_u32(key, value)?;
            batt_info.set_propertry(BatteryInfoProperties::DeviceState(DeviceState::from(code)));
        } else if same_text(k, "PowerSupply") {
            match value.as_bool() {
                Some(on) => batt_info.set_propertry(
                    BatteryInfoProperties::PowerSupply(PowerSupply::from(on)),
                ),
                None => {
                    return Err(
                        BatteryError::TypeMismatch {
                            key: key.clone(),
                            observed_value: value.clone(),
                            expected_type: ValueKind::Bool,
                        },
                    );
                },
            }
        }
        Ok(())
    }

    /// Tags each identifier that the service listed as a device of this
    /// service, in the order of the list.
    pub fn enumerate_devices(ids: Vec<String>) -> (devices: Vec<Device<String, UPower>>)
        ensures
            devices@.len() == ids@.len(),
            forall|i: int| 0 <= i < ids@.len() ==> (#[trigger] devices@[i])@ == ids@[i],
    {
        let mut devices: Vec<Device<String, UPower>> = Vec::new();
        for id in it: ids
            invariant
                devices@.len() == it.index(),
                forall|i: int| 0 <= i < devices@.len() ==> (#[trigger] devices@[i])@ == it.seq()[i],
        {
            devices.push(id.into_device::<UPower>());
        }
        devices
    }

    /// Builds one snapshot from a property bag, entry by entry. The first
    /// entry that fails ends the pass with its error, and nothing of the
    /// snapshot built so far is handed out.
    pub fn battery_info(props: &Vec<(String, DynamicValue)>) -> (result: Result<
        BatteryInfo,
        BatteryError,
    >)
        ensures
            result == decode_entries(BatteryInfo::empty(), props@),
    {
        let mut batt_info = BatteryInfo::default();
        let mut i: usize = 0;
        assert(props@.skip(0) =~= props@);
        while i < props.len()
            invariant
                i <= props.len(),
                decode_entries(BatteryInfo::empty(), props@) == decode_entries(
                    batt_info,
                    props@.skip(i as int),
                ),
            decreases props.len() - i,
        {
            let ghost rest = props@.skip(i as int);
            assert(rest[0] == props@[i as int]);
            assert(rest.skip(1) =~= props@.skip(i + 1));
            match Self::decode_property(&props[i].0, &props[i].1, &mut batt_info) {
                Ok(()) => {},
                Err(e) => {
                    return Err(e);
                },
            }
            i += 1;
        }
        assert(props@.skip(i as int).len() == 0);
        Ok(batt_info)
    }
}

} // verus!
