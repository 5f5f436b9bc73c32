use battery_status::battery_info::battery_level::BatteryLevel;
use battery_status::battery_info::device_state::DeviceState;
use battery_status::battery_info::device_type::DeviceType;
use battery_status::battery_info::time_until::TimeUntil;
use battery_status::battery_info::warning_level::WarningLevel;
use battery_status::battery_info::{
    BatteryInfo, BatteryInfoProperties, IconName, Percentage, PowerSupply,
};
use battery_status::battery_interface::upower::{
    UPower, DEVICE_INTERFACE, DISPLAY_DEVICE_PATH, PROPERTIES_INTERFACE, ROOT_PATH, SERVICE_NAME,
};
use battery_status::battery_interface::BatteryInterface;
use battery_status::device::ValidDevice;
use battery_status::dynamic_value::{DynamicValue, ValueKind};
use battery_status::error::BatteryError;

fn entry(key: &str, value: DynamicValue) -> (String, DynamicValue) {
    (key.to_string(), value)
}

fn text(value: &str) -> DynamicValue {
    DynamicValue::Str(value.to_string())
}

fn uint32(value: u32) -> DynamicValue {
    DynamicValue::Uint32(value, format!("uint32 {}", value))
}

fn int64(value: i64) -> DynamicValue {
    DynamicValue::Int64(value, format!("int64 {}", value))
}

fn float(value: f64) -> DynamicValue {
    DynamicValue::Float64(value.to_bits(), format!("{}", value))
}

fn boolean(value: bool) -> DynamicValue {
    DynamicValue::Bool(value, format!("{}", value))
}

fn other(shown: &str) -> DynamicValue {
    DynamicValue::Other(shown.to_string())
}

fn display_device_bag() -> Vec<(String, DynamicValue)> {
    vec![
        entry("Type", uint32(2)),
        entry("State", uint32(2)),
        entry("Percentage", float(11.0)),
        entry("PowerSupply", boolean(true)),
        entry("BatteryLevel", uint32(1)),
        entry("IconName", text("battery-low-symbolic")),
        entry("TimeToEmpty", int64(2844)),
        entry("WarningLevel", uint32(1)),
    ]
}

struct DisplayDevice;

impl BatteryInterface for DisplayDevice {
    type Error = BatteryError;

    fn battery_info() -> Result<BatteryInfo, BatteryError> {
        UPower::battery_info(&display_device_bag())
    }
}

struct Unreachable;

impl BatteryInterface for Unreachable {
    type Error = BatteryError;

    fn battery_info() -> Result<BatteryInfo, BatteryError> {
        Err(BatteryError::ConnectionUnavailable)
    }
}

#[test]
fn canoncial_use_case() {
    let batt_info = BatteryInfo::get::<DisplayDevice>();

    assert_eq!(batt_info.is_some(), true);

    let batt_info = batt_info.unwrap();

    let device_type = batt_info.device_type;
    let device_state = batt_info.device_state;
    let percentage = batt_info.percentage;
    let power_supply = batt_info.power_supply;
    let battery_level = batt_info.battery_level;
    let icon_name = batt_info.icon_name;
    let time_until = batt_info.time_until;
    let warning_level = batt_info.warning_level;

    assert_eq!(device_type.is_some(), true);
    assert_eq!(device_state.is_some(), true);
    assert_eq!(percentage.is_some(), true);
    assert_eq!(power_supply.is_some(), true);
    assert_eq!(battery_level.is_some(), true);
    assert_eq!(icon_name.is_some(), true);
    assert_eq!(time_until.is_some(), true);
    assert_eq!(warning_level.is_some(), true);
}

#[test]
fn get_drops_the_error_of_a_source_that_fails() {
    assert_eq!(BatteryInfo::get::<Unreachable>(), None);
}

#[test]
fn it_works() {
    let devices = UPower::enumerate_devices(vec![
        "/org/freedesktop/UPower/devices/line_power_AC".to_string(),
        "/org/freedesktop/UPower/devices/battery_BAT0".to_string(),
    ]);
    let values: Vec<&str> = devices.iter().map(|d| d.value().as_str()).collect();
    assert_eq!(
        values,
        vec![
            "/org/freedesktop/UPower/devices/line_power_AC",
            "/org/freedesktop/UPower/devices/battery_BAT0",
        ]
    );
    assert!(devices.iter().all(|d| d.is_valid()));
}

#[test]
fn percentage() {
    let batt_info = UPower::battery_info(&display_device_bag()).unwrap();

    assert_eq!(batt_info.percentage, Some(Percentage::from(11.0f64.to_bits())));
    assert_eq!(f64::from_bits(*batt_info.percentage.unwrap()), 11.0);
}

#[test]
fn battery_info() {
    let batt_info = UPower::battery_info(&display_device_bag());

    assert_eq!(
        batt_info,
        Ok(BatteryInfo {
            device_type: Some(DeviceType::Battery),
            device_state: Some(DeviceState::Discharging),
            percentage: Some(Percentage(11.0f64.to_bits())),
            power_supply: Some(PowerSupply(true)),
            battery_level: Some(BatteryLevel::NotApplicable),
            icon_name: Some(IconName("battery-low-symbolic".to_string())),
            time_until: Some(TimeUntil::Empty(2844)),
            warning_level: Some(WarningLevel::NoWarning),
        })
    );
}

#[test]
fn display_device() {
    assert_eq!(DISPLAY_DEVICE_PATH, "/org/freedesktop/UPower/devices/DisplayDevice");
    assert!(UPower::is_valid(&DISPLAY_DEVICE_PATH.to_string()));
}

#[test]
fn display_device_properties() {
    let names = [
        "BatteryLevel",
        "Capacity",
        "ChargeCycles",
        "Energy",
        "EnergyEmpty",
        "EnergyFull",
        "EnergyFullDesign",
        "EnergyRate",
        "HasHistory",
        "HasStatistics",
        "IconName",
        "IsPresent",
        "IsRechargeable",
        "Luminosity",
        "Model",
        "NativePath",
        "Online",
        "Percentage",
        "PowerSupply",
        "Serial",
        "State",
        "Technology",
        "Temperature",
        "TimeToEmpty",
        "TimeToFull",
        "Type",
        "UpdateTime",
        "Vendor",
        "Voltage",
        "WarningLevel",
    ];
    let bag: Vec<(String, DynamicValue)> = names
        .iter()
        .map(|name| {
            let value = match *name {
                "BatteryLevel" | "Type" | "State" | "WarningLevel" => uint32(1),
                "IconName" => text("battery-full-symbolic"),
                "Percentage" => float(100.0),
                "PowerSupply" => boolean(false),
                "TimeToEmpty" => int64(0),
                "TimeToFull" => int64(60),
                _ => other("[]"),
            };
            entry(name, value)
        })
        .collect();

    let batt_info = UPower::battery_info(&bag).unwrap();
    assert_eq!(
        batt_info,
        BatteryInfo {
            device_type: Some(DeviceType::LinePower),
            device_state: Some(DeviceState::Charging),
            percentage: Some(Percentage(100.0f64.to_bits())),
            power_supply: Some(PowerSupply(false)),
            battery_level: Some(BatteryLevel::NotApplicable),
            icon_name: Some(IconName("battery-full-symbolic".to_string())),
            time_until: Some(TimeUntil::Full(60)),
            warning_level: Some(WarningLevel::NoWarning),
        }
    );
}

#[test]
fn service_identifiers() {
    assert_eq!(SERVICE_NAME, "org.freedesktop.UPower");
    assert_eq!(ROOT_PATH, "/org/freedesktop/UPower");
    assert_eq!(PROPERTIES_INTERFACE, "org.freedesktop.DBus.Properties");
    assert_eq!(DEVICE_INTERFACE, "org.freedesktop.UPower.Device");
}

#[test]
fn an_empty_bag_gives_an_empty_snapshot() {
    assert_eq!(UPower::battery_info(&Vec::new()), Ok(BatteryInfo::new()));
    assert_eq!(
        BatteryInfo::new(),
        BatteryInfo {
            device_type: None,
            device_state: None,
            percentage: None,
            power_supply: None,
            battery_level: None,
            icon_name: None,
            time_until: None,
            warning_level: None,
        }
    );
}

#[test]
fn a_wrong_type_fails_the_whole_pass_and_names_the_key() {
    let bag = vec![
        entry("Type", uint32(2)),
        entry("Percentage", text("not-a-number")),
        entry("State", uint32(2)),
    ];
    assert_eq!(
        UPower::battery_info(&bag),
        Err(BatteryError::TypeMismatch {
            key: "Percentage".to_string(),
            observed_value: text("not-a-number"),
            expected_type: ValueKind::Float64,
        })
    );

    let only = vec![entry("Percentage", text("not-a-number"))];
    match UPower::battery_info(&only) {
        Err(BatteryError::TypeMismatch { key, .. }) => assert_eq!(key, "Percentage"),
        other => panic!("unexpected result: {:?}", other),
    }
}

#[test]
fn each_recognized_key_asks_for_its_type() {
    let cases = [
        ("Type", ValueKind::Uint32),
        ("State", ValueKind::Uint32),
        ("BatteryLevel", ValueKind::Uint32),
        ("WarningLevel", ValueKind::Uint32),
        ("Percentage", ValueKind::Float64),
        ("PowerSupply", ValueKind::Bool),
        ("TimeToEmpty", ValueKind::Int64),
        ("TimeToFull", ValueKind::Int64),
    ];
    for (key, expected) in cases {
        let mut batt_info = BatteryInfo::new();
        let result = UPower::decode_property(&key.to_string(), &other("[]"), &mut batt_info);
        assert_eq!(
            result,
            Err(BatteryError::TypeMismatch {
                key: key.to_string(),
                observed_value: other("[]"),
                expected_type: expected,
            })
        );
        assert_eq!(batt_info, BatteryInfo::new());
    }
    let mut batt_info = BatteryInfo::new();
    let seconds_as_u32 = UPower::decode_property(
        &"TimeToEmpty".to_string(),
        &uint32(5),
        &mut batt_info,
    );
    assert_eq!(
        seconds_as_u32,
        Err(BatteryError::TypeMismatch {
            key: "TimeToEmpty".to_string(),
            observed_value: uint32(5),
            expected_type: ValueKind::Int64,
        })
    );
}

#[test]
fn icon_name_takes_the_text_of_any_value() {
    let cases = [
        (text("battery-low-symbolic"), "battery-low-symbolic"),
        (text(""), ""),
        (uint32(5), "uint32 5"),
        (int64(-3), "int64 -3"),
        (float(11.0), "11"),
        (boolean(true), "true"),
        (other("['a', 'b']"), "['a', 'b']"),
    ];
    for (value, expected) in cases {
        let mut batt_info = BatteryInfo::new();
        let result = UPower::decode_property(&"IconName".to_string(), &value, &mut batt_info);
        assert_eq!(result, Ok(()));
        assert_eq!(
            batt_info,
            BatteryInfo {
                device_type: None,
                device_state: None,
                percentage: None,
                power_supply: None,
                battery_level: None,
                icon_name: Some(IconName(expected.to_string())),
                time_until: None,
                warning_level: None,
            }
        );
    }
    let bag = vec![
        entry("Type", uint32(2)),
        entry("IconName", uint32(7)),
        entry("State", uint32(2)),
    ];
    let batt_info = UPower::battery_info(&bag).unwrap();
    assert_eq!(*batt_info.icon_name.unwrap(), "uint32 7");
    assert_eq!(batt_info.device_state, Some(DeviceState::Discharging));
}

#[test]
fn only_wrong_types_and_countdown_conflicts_fail_a_bag() {
    let fine = vec![
        entry("Vendor", other("[]")),
        entry("IconName", other("[]")),
        entry("TimeToFull", int64(0)),
        entry("Type", uint32(99)),
        entry("TimeToEmpty", int64(7)),
    ];
    assert!(UPower::battery_info(&fine).is_ok());

    for key in ["Type", "State", "BatteryLevel", "WarningLevel"] {
        for value in [int64(1), float(1.0), boolean(true), text("1"), other("[]")] {
            assert!(UPower::battery_info(&vec![entry(key, value)]).is_err(), "{}", key);
        }
    }
    for value in [uint32(1), int64(1), boolean(true), text("1"), other("[]")] {
        assert!(UPower::battery_info(&vec![entry("Percentage", value)]).is_err());
    }
    for value in [uint32(1), int64(1), float(1.0), text("true"), other("[]")] {
        assert!(UPower::battery_info(&vec![entry("PowerSupply", value)]).is_err());
    }
    for key in ["TimeToEmpty", "TimeToFull"] {
        for value in [uint32(1), float(1.0), boolean(true), text("1"), other("[]")] {
            assert!(UPower::battery_info(&vec![entry(key, value)]).is_err(), "{}", key);
        }
    }
    for (to_empty, to_full) in [(0, 0), (5, 9)] {
        let bag = vec![entry("TimeToEmpty", int64(to_empty)), entry("TimeToFull", int64(to_full))];
        assert!(UPower::battery_info(&bag).is_err());
        let bag = vec![entry("TimeToFull", int64(to_full)), entry("TimeToEmpty", int64(to_empty))];
        assert!(UPower::battery_info(&bag).is_err());
    }
    for (to_empty, to_full) in [(0, 9), (5, 0)] {
        let bag = vec![entry("TimeToEmpty", int64(to_empty)), entry("TimeToFull", int64(to_full))];
        assert!(UPower::battery_info(&bag).is_ok());
        let bag = vec![entry("TimeToFull", int64(to_full)), entry("TimeToEmpty", int64(to_empty))];
        assert!(UPower::battery_info(&bag).is_ok());
    }
}

#[test]
fn unrecognized_keys_are_ignored() {
    let bag = vec![
        entry("Vendor", text("ACME")),
        entry("type", uint32(2)),
        entry("", other("[]")),
        entry("Percentage ", text("x")),
    ];
    assert_eq!(UPower::battery_info(&bag), Ok(BatteryInfo::new()));
}

#[test]
fn the_last_write_wins_for_plain_fields() {
    let bag = vec![
        entry("Type", uint32(2)),
        entry("IconName", text("first")),
        entry("Type", uint32(3)),
        entry("IconName", text("second")),
    ];
    let batt_info = UPower::battery_info(&bag).unwrap();
    assert_eq!(batt_info.device_type, Some(DeviceType::Ups));
    assert_eq!(*batt_info.icon_name.unwrap(), "second");
}

#[test]
fn countdown_errors_end_the_pass() {
    let twice = vec![
        entry("TimeToEmpty", int64(1000)),
        entry("TimeToEmpty", int64(1893)),
    ];
    assert_eq!(UPower::battery_info(&twice), Err(BatteryError::DuplicateTimeKey));
    let both_zero = vec![
        entry("TimeToEmpty", int64(0)),
        entry("Type", uint32(2)),
        entry("TimeToFull", int64(0)),
    ];
    assert_eq!(UPower::battery_info(&both_zero), Err(BatteryError::BothZero));
    let both_running = vec![
        entry("TimeToFull", int64(1000)),
        entry("TimeToEmpty", int64(999)),
    ];
    assert_eq!(UPower::battery_info(&both_running), Err(BatteryError::BothNonZero));
    let negative = vec![entry("TimeToFull", int64(-3))];
    assert_eq!(UPower::battery_info(&negative), Err(BatteryError::NegativeSeconds));
}

#[test]
fn codes_out_of_range_decode_to_unknown_fields() {
    let bag = vec![
        entry("Type", uint32(29)),
        entry("State", uint32(7)),
        entry("BatteryLevel", uint32(7)),
        entry("WarningLevel", uint32(6)),
    ];
    let batt_info = UPower::battery_info(&bag).unwrap();
    assert_eq!(batt_info.device_type, Some(DeviceType::Unknown));
    assert_eq!(batt_info.device_state, Some(DeviceState::Unknown));
    assert_eq!(batt_info.battery_level, Some(BatteryLevel::Unknown));
    assert_eq!(batt_info.warning_level, Some(WarningLevel::Unknown));
}

#[test]
fn properties_are_stored_in_their_own_field() {
    let mut batt_info = BatteryInfo::new();
    batt_info.set_propertry(BatteryInfoProperties::DeviceType(DeviceType::Mouse));
    batt_info.set_propertry(BatteryInfoProperties::PowerSupply(PowerSupply::from(false)));
    BatteryInfoProperties::TimeUntil(TimeUntil::Full(5)).insert_property_by_mut_ref(&mut batt_info);
    let batt_info = BatteryInfoProperties::Percentage(Percentage::from(50.0f64.to_bits()))
        .insert_property(batt_info);
    let batt_info =
        BatteryInfoProperties::DeviceState(DeviceState::Charging).insert_property(batt_info);
    let batt_info =
        BatteryInfoProperties::BatteryLevel(BatteryLevel::High).insert_property(batt_info);
    let batt_info =
        BatteryInfoProperties::WarningLevel(WarningLevel::Low).insert_property(batt_info);
    let batt_info = BatteryInfoProperties::IconName(IconName::from("icon".to_string()))
        .insert_property(batt_info);
    assert_eq!(
        batt_info,
        BatteryInfo {
            device_type: Some(DeviceType::Mouse),
            device_state: Some(DeviceState::Charging),
            percentage: Some(Percentage(50.0f64.to_bits())),
            power_supply: Some(PowerSupply(false)),
            battery_level: Some(BatteryLevel::High),
            icon_name: Some(IconName("icon".to_string())),
            time_until: Some(TimeUntil::Full(5)),
            warning_level: Some(WarningLevel::Low),
        }
    );
    assert_eq!(*batt_info.power_supply.unwrap(), false);
    assert_eq!(batt_info.icon_name.clone().unwrap(), IconName("icon".to_string()));
}

#[test]
fn dynamic_values_downcast_to_their_own_type_only() {
    let values = [
        uint32(7),
        int64(-7),
        float(1.5),
        boolean(true),
        text("seven"),
        other("[]"),
    ];
    let as_u32: Vec<Option<u32>> = values.iter().map(|v| v.as_u32()).collect();
    assert_eq!(as_u32, vec![Some(7), None, None, None, None, None]);
    let as_i64: Vec<Option<i64>> = values.iter().map(|v| v.as_i64()).collect();
    assert_eq!(as_i64, vec![None, Some(-7), None, None, None, None]);
    let as_bits: Vec<Option<u64>> = values.iter().map(|v| v.as_f64_bits()).collect();
    assert_eq!(as_bits, vec![None, None, Some(1.5f64.to_bits()), None, None, None]);
    let as_bool: Vec<Option<bool>> = values.iter().map(|v| v.as_bool()).collect();
    assert_eq!(as_bool, vec![None, None, None, Some(true), None, None]);
    let as_text: Vec<String> = values.iter().map(|v| v.to_text()).collect();
    assert_eq!(as_text, vec!["uint32 7", "int64 -7", "1.5", "true", "seven", "[]"]);
    for v in values.iter() {
        assert_eq!(v.clone(), *v);
    }
}

#[test]
fn device_paths_need_more_segments_than_the_service_name() {
    let valid = [
        "/org/freedesktop/UPower/devices/battery_BAT0",
        "/org/freedesktop/UPower",
        "a/b/c/d",
        "///",
        "/\u{e9}/\u{4e2d}/x",
    ];
    for path in valid {
        assert!(UPower::is_valid(&path.to_string()), "{}", path);
    }
    let invalid = ["", "battery", "/org/freedesktop", "a/b/c", "//", "org.freedesktop.UPower"];
    for path in invalid {
        assert!(!UPower::is_valid(&path.to_string()), "{}", path);
    }
}
