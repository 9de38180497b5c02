use mavlink_server::drivers::rest::autopilot::ardupilot::{
    firmware_type, flight_mode, vehicle_has_firmware, Capabilities, FirmwareType,
};
use mavlink_server::drivers::rest::autopilot::parameters::parameters;
use mavlink_server::drivers::rest::autopilot::{
    arducopter, arduplane, ardusub, param_id, string_from_param_id, AutoPilotType, ParameterType, VehicleType,
};

#[test]
fn enum_codes_round_trip() {
    for v in 0u8..=255 {
        assert_eq!(ParameterType::from_u8(v).code(), v);
        assert_eq!(AutoPilotType::from_u8(v).code(), v);
        assert_eq!(VehicleType::from_u8(v).code(), v);
    }
    assert_eq!(ParameterType::from_u8(9), ParameterType::Real32);
    assert_eq!(ParameterType::from_u8(11), ParameterType::Unknown(11));
    assert_eq!(AutoPilotType::from_u8(3), AutoPilotType::ArduPilotMega);
    assert_eq!(AutoPilotType::from_u8(12), AutoPilotType::Px4);
    assert_eq!(VehicleType::from_u8(2), VehicleType::Quadrotor);
    assert_eq!(VehicleType::from_u8(12), VehicleType::Submarine);
}

#[test]
fn custom_modes_round_trip_and_have_names() {
    for v in 0u32..300 {
        assert_eq!(arducopter::CustomMode::from_u32(v).code(), v);
        assert_eq!(arduplane::CustomMode::from_u32(v).code(), v);
        assert_eq!(ardusub::CustomMode::from_u32(v).code(), v);
    }
    assert_eq!(arducopter::CustomMode::from_u32(2).name(), "alt-hold");
    assert_eq!(arducopter::CustomMode::from_u32(255).name(), "pre-flight");
    assert_eq!(arducopter::CustomMode::from_u32(100).name(), "Unknown (100)");
    assert_eq!(arduplane::CustomMode::from_u32(0).name(), "manual");
    assert_eq!(ardusub::CustomMode::from_u32(0).name(), "stabilize");
}

#[test]
fn firmware_follows_the_vehicle_type() {
    assert_eq!(firmware_type(VehicleType::Submarine), FirmwareType::Submarine);
    assert_eq!(firmware_type(VehicleType::SurfaceBoat), FirmwareType::Rover);
    assert_eq!(firmware_type(VehicleType::FixedWing), FirmwareType::Plane);
    assert_eq!(firmware_type(VehicleType::Hexarotor), FirmwareType::Copter);
    assert!(vehicle_has_firmware(VehicleType::Quadrotor));
    assert!(!vehicle_has_firmware(VehicleType::Gcs));
    assert_eq!(FirmwareType::Submarine.name(), "Sub");
    assert_eq!(FirmwareType::from_name("Plane"), Some(FirmwareType::Plane));
    assert_eq!(FirmwareType::from_name("Submarine"), None);
}

#[test]
fn flight_modes_depend_on_firmware_and_flags() {
    assert_eq!(flight_mode(VehicleType::Gcs, 0, 4), Some("pre-flight".to_string()));
    assert_eq!(flight_mode(VehicleType::Quadrotor, 81, 4), Some("guided".to_string()));
    assert_eq!(flight_mode(VehicleType::FixedWing, 81, 0), Some("manual".to_string()));
    assert_eq!(flight_mode(VehicleType::Submarine, 81, 2), Some("alt-hold".to_string()));
    assert_eq!(flight_mode(VehicleType::GroundRover, 81, 0), None);
}

#[test]
fn capabilities_keep_known_bits() {
    assert_eq!(Capabilities::from_bits_truncate(u64::MAX).bits(), 0xF_FFFF);
    assert_eq!(Capabilities::from_bits_truncate(0x10_0020).bits(), 0x20);
}

#[test]
fn parameter_ids_are_padded_and_trimmed() {
    let id = param_id("SYSID_THISMAV");
    assert_eq!(&id[..13], b"SYSID_THISMAV");
    assert_eq!(&id[13..], &[0, 0, 0]);
    assert_eq!(string_from_param_id(&id), "SYSID_THISMAV");
    let long = param_id("ABCDEFGHIJKLMNOPQRS");
    assert_eq!(&long, b"ABCDEFGHIJKLMNOP");
    assert_eq!(string_from_param_id(&long), "ABCDEFGHIJKLMNOP");
    let mut odd = [0u8; 16];
    odd[0] = b'A';
    odd[1] = 0xFF;
    assert_eq!(string_from_param_id(&odd), "A\u{FFFD}");
}

#[test]
fn parameter_directories_group_versions_by_vehicle() {
    let names: Vec<String> =
        ["ArduCopter-4.5", "ArduPlane-4.4", "ArduCopter-4.4-beta", "README", "ArduSub-4.1"]
            .iter()
            .map(|s| s.to_string())
            .collect();
    let groups = parameters(&names);
    assert_eq!(
        groups,
        vec![
            ("ArduCopter".to_string(), vec!["4.5".to_string(), "4.4".to_string()]),
            ("ArduPlane".to_string(), vec!["4.4".to_string()]),
            ("ArduSub".to_string(), vec!["4.1".to_string()]),
        ]
    );
}

#[test]
fn vehicle_types_have_debug_names() {
    assert_eq!(VehicleType::Quadrotor.debug_name(), format!("{:?}", VehicleType::Quadrotor));
    assert_eq!(VehicleType::VtolReserved5.debug_name(), "VtolReserved5");
    assert_eq!(VehicleType::from_u8(200).debug_name(), format!("{:?}", VehicleType::from_u8(200)));
    assert_eq!(VehicleType::from_u8(200).debug_name(), "Unknown(200)");
}
