use battery_status::battery_info::battery_level::{BatteryLevel, BATTERY_LEVEL_MAX};
use battery_status::battery_info::device_state::{DeviceState, DEVICE_STATE_MAX};
use battery_status::battery_info::device_type::{DeviceType, DEVICE_TYPE_MAX};
use battery_status::battery_info::warning_level::{WarningLevel, WARNING_LEVEL_MAX};

fn collect_battery_levels() -> Vec<BatteryLevel> {
    let mut iter = BatteryLevel::iter_levels();
    let mut items = Vec::new();
    while let Some(item) = iter.next() {
        items.push(item);
    }
    items
}

fn collect_device_states() -> Vec<DeviceState> {
    let mut iter = DeviceState::iter_levels();
    let mut items = Vec::new();
    while let Some(item) = iter.next() {
        items.push(item);
    }
    items
}

fn collect_device_types() -> Vec<DeviceType> {
    let mut iter = DeviceType::iter_types();
    let mut items = Vec::new();
    while let Some(item) = iter.next() {
        items.push(item);
    }
    items
}

fn collect_warning_levels() -> Vec<WarningLevel> {
    let mut iter = WarningLevel::iter_levels();
    let mut items = Vec::new();
    while let Some(item) = iter.next() {
        items.push(item);
    }
    items
}

#[test]
fn verify_battery_level_enum() {
    let expected: Vec<BatteryLevel> = (0u32..=6u32).map(|i| i.into()).collect();
    assert_eq!(collect_battery_levels(), expected);

    let pairs: Vec<(u32, BatteryLevel)> =
        collect_battery_levels().into_iter().map(|t| t.into()).collect();
    assert_eq!(
        pairs,
        vec![
            (0, BatteryLevel::Unknown),
            (1, BatteryLevel::NotApplicable),
            (2, BatteryLevel::Low),
            (3, BatteryLevel::Critical),
            (4, BatteryLevel::Normal),
            (5, BatteryLevel::High),
            (6, BatteryLevel::Full),
        ]
    );
}

#[test]
fn verify_device_state_enum() {
    let expected: Vec<DeviceState> = (0u32..=6u32).map(|i| i.into()).collect();
    assert_eq!(collect_device_states(), expected);

    let pairs: Vec<(u32, DeviceState)> =
        collect_device_states().into_iter().map(|t| t.into()).collect();
    assert_eq!(
        pairs,
        vec![
            (0, DeviceState::Unknown),
            (1, DeviceState::Charging),
            (2, DeviceState::Discharging),
            (3, DeviceState::Empty),
            (4, DeviceState::FullyCharged),
            (5, DeviceState::PendingCharge),
            (6, DeviceState::PendingDischarge),
        ]
    );
}

#[test]
fn verify_device_type_enum() {
    let expected: Vec<DeviceType> = (0u32..=28u32).map(DeviceType::from).collect();
    assert_eq!(collect_device_types(), expected);

    let pairs: Vec<(u32, DeviceType)> =
        collect_device_types().into_iter().map(|t| t.into()).collect();
    assert_eq!(
        pairs,
        vec![
            (0, DeviceType::Unknown),
            (1, DeviceType::LinePower),
            (2, DeviceType::Battery),
            (3, DeviceType::Ups),
            (4, DeviceType::Monitor),
            (5, DeviceType::Mouse),
            (6, DeviceType::Keyboard),
            (7, DeviceType::Pda),
            (8, DeviceType::Phone),
            (9, DeviceType::MediaPlayer),
            (10, DeviceType::Tablet),
            (11, DeviceType::Computer),
            (12, DeviceType::GamingInput),
            (13, DeviceType::Pen),
            (14, DeviceType::Touchpad),
            (15, DeviceType::Modem),
            (16, DeviceType::Network),
            (17, DeviceType::Headset),
            (18, DeviceType::Speakers),
            (19, DeviceType::Headphones),
            (20, DeviceType::Video),
            (21, DeviceType::OtherAudio),
            (22, DeviceType::RemoteControl),
            (23, DeviceType::Printer),
            (24, DeviceType::Scanner),
            (25, DeviceType::Camera),
            (26, DeviceType::Wearable),
            (27, DeviceType::Toy),
            (28, DeviceType::BluetoothGenreic),
        ]
    );
}

#[test]
fn verify_warning_level_enum() {
    let expected: Vec<WarningLevel> = (0u32..=5u32).map(|i| i.into()).collect();
    assert_eq!(collect_warning_levels(), expected);

    let pairs: Vec<(u32, WarningLevel)> =
        collect_warning_levels().into_iter().map(|t| t.into()).collect();
    assert_eq!(
        pairs,
        vec![
            (0, WarningLevel::Unknown),
            (1, WarningLevel::NoWarning),
            (2, WarningLevel::Discharging),
            (3, WarningLevel::Low),
            (4, WarningLevel::Critical),
            (5, WarningLevel::Action),
        ]
    );
}

#[test]
fn codes_in_range_round_trip() {
    for c in 0..=BATTERY_LEVEL_MAX {
        assert_eq!(u32::from(BatteryLevel::from(c)), c);
    }
    for c in 0..=DEVICE_STATE_MAX {
        assert_eq!(u32::from(DeviceState::from(c)), c);
    }
    for c in 0..=DEVICE_TYPE_MAX {
        assert_eq!(u32::from(DeviceType::from(c)), c);
    }
    for c in 0..=WARNING_LEVEL_MAX {
        assert_eq!(u32::from(WarningLevel::from(c)), c);
    }
}

#[test]
fn codes_above_range_decode_to_unknown_and_encode_to_zero() {
    for c in [7u32, 8, 100, u32::MAX] {
        assert_eq!(BatteryLevel::from(c), BatteryLevel::Unknown);
        assert_eq!(u32::from(BatteryLevel::from(c)), 0);
        assert_ne!(u32::from(BatteryLevel::from(c)), c);
        assert_eq!(DeviceState::from(c), DeviceState::Unknown);
        assert_eq!(u32::from(DeviceState::from(c)), 0);
    }
    for c in [29u32, 30, 1000, u32::MAX] {
        assert_eq!(DeviceType::from(c), DeviceType::Unknown);
        assert_eq!(u32::from(DeviceType::from(c)), 0);
    }
    for c in [6u32, 7, 99, u32::MAX] {
        assert_eq!(WarningLevel::from(c), WarningLevel::Unknown);
        assert_eq!(u32::from(WarningLevel::from(c)), 0);
    }
}

#[test]
fn enumerate_yields_every_code_once_in_order() {
    let levels = BatteryLevel::enumerate();
    assert_eq!(levels.len(), 7);
    for (i, (code, level)) in levels.iter().enumerate() {
        assert_eq!(*code as usize, i);
        assert_eq!(u32::from(*level), *code);
    }
    let states = DeviceState::enumerate();
    assert_eq!(states.len(), 7);
    for (i, (code, state)) in states.iter().enumerate() {
        assert_eq!(*code as usize, i);
        assert_eq!(u32::from(*state), *code);
    }
    let types = DeviceType::enumerate();
    assert_eq!(types.len(), 29);
    for (i, (code, kind)) in types.iter().enumerate() {
        assert_eq!(*code as usize, i);
        assert_eq!(u32::from(*kind), *code);
    }
    let warnings = WarningLevel::enumerate();
    assert_eq!(warnings.len(), 6);
    for (i, (code, warning)) in warnings.iter().enumerate() {
        assert_eq!(*code as usize, i);
        assert_eq!(u32::from(*warning), *code);
    }
}

#[test]
fn enumeration_restarts_from_zero_and_stays_exhausted() {
    let mut first = DeviceState::iter_levels();
    assert_eq!(first.next(), Some(DeviceState::Unknown));
    assert_eq!(first.next(), Some(DeviceState::Charging));
    let mut second = DeviceState::iter_levels();
    assert_eq!(second.next(), Some(DeviceState::Unknown));
    for _ in 0..6 {
        assert!(second.next().is_some());
    }
    assert_eq!(second.next(), None);
    assert_eq!(second.next(), None);
}
