use vstd::prelude::*;

use super::{arducopter, arduplane, ardusub, VehicleType};
use crate::text::{decimal_chars, str_eq};

verus! {

/// The ArduPilot firmware that drives a vehicle.
#[derive(Debug, Clone, Copy, PartialEq, Eq, Structural)]
pub enum FirmwareType {
    Copter,
    Plane,
    Rover,
    Submarine,
}

impl FirmwareType {
    /// The name under which the firmware is shown.
    pub open spec fn spec_name(self) -> Seq<char> {
        match self {
            FirmwareType::Copter => "Copter"@,
            FirmwareType::Plane => "Plane"@,
            FirmwareType::Rover => "Rover"@,
            FirmwareType::Submarine => "Sub"@,
        }
    }

    /// The name under which the firmware is shown.
    pub fn name(&self) -> (r: &'static str)
        ensures
            r@ == self.spec_name(),
    {
        match self {
            FirmwareType::Copter => "Copter",
            FirmwareType::Plane => "Plane",
            FirmwareType::Rover => "Rover",
            FirmwareType::Submarine => "Sub",
        }
    }

    /// The firmware with the given name.
    pub fn from_name(s: &str) -> (r: Option<FirmwareType>)
        ensures
            r matches Some(f) ==> f.spec_name() == s@,
            (r is None) ==> forall|f: FirmwareType| #[trigger] f.spec_name() != s@,
    {
        proof {
            reveal_strlit("Copter");
            reveal_strlit("Plane");
            reveal_strlit("Rover");
            reveal_strlit("Sub");
        }
        if str_eq(s, "Copter") {
            Some(FirmwareType::Copter)
        } else if str_eq(s, "Plane") {
            Some(FirmwareType::Plane)
        } else if str_eq(s, "Rover") {
            Some(FirmwareType::Rover)
        } else if str_eq(s, "Sub") {
            Some(FirmwareType::Submarine)
        } else {
            proof {
                assert forall|f: FirmwareType| #[trigger] f.spec_name() != s@ by {
                    match f {
                        FirmwareType::Copter => {},
                        FirmwareType::Plane => {},
                        FirmwareType::Rover => {},
                        FirmwareType::Submarine => {},
                    }
                }
            }
            None
        }
    }
}

/// The vehicle types for which a firmware is known.
pub open spec fn has_firmware(vehicle_type: VehicleType) -> bool {
    match vehicle_type {
        VehicleType::Submarine | VehicleType::GroundRover | VehicleType::SurfaceBoat
        | VehicleType::FlappingWing | VehicleType::VtolTiltrotor | VehicleType::VtolTailsitterQuadrotor
        | VehicleType::VtolTailsitterDuorotor | VehicleType::FixedWing | VehicleType::Tricopter
        | VehicleType::Coaxial | VehicleType::Hexarotor | VehicleType::Helicopter
        | VehicleType::Octorotor | VehicleType::Dodecarotor | VehicleType::Quadrotor => true,
        _ => false,
    }
}

/// Checks whether a firmware drives the vehicle type.
pub fn vehicle_has_firmware(vehicle_type: VehicleType) -> (r: bool)
    ensures
        r == has_firmware(vehicle_type),
{
    match vehicle_type {
        VehicleType::Submarine | VehicleType::GroundRover | VehicleType::SurfaceBoat
        | VehicleType::FlappingWing | VehicleType::VtolTiltrotor | VehicleType::VtolTailsitterQuadrotor
        | VehicleType::VtolTailsitterDuorotor | VehicleType::FixedWing | VehicleType::Tricopter
        | VehicleType::Coaxial | VehicleType::Hexarotor | VehicleType::Helicopter
        | VehicleType::Octorotor | VehicleType::Dodecarotor | VehicleType::Quadrotor => true,
        _ => false,
    }
}

/// The firmware of a vehicle type.
pub open spec fn spec_firmware_type(vehicle_type: VehicleType) -> FirmwareType {
    match vehicle_type {
        VehicleType::Submarine => FirmwareType::Submarine,
        VehicleType::GroundRover | VehicleType::SurfaceBoat => FirmwareType::Rover,
        VehicleType::FlappingWing | VehicleType::VtolTiltrotor | VehicleType::VtolTailsitterQuadrotor
        | VehicleType::VtolTailsitterDuorotor | VehicleType::FixedWing => FirmwareType::Plane,
        _ => FirmwareType::Copter,
    }
}

/// The firmware that drives a vehicle type. Defined for submarines (Sub), ground rovers and
/// boats (Rover), fixed wings, flapping wings and tailsitter or tiltrotor VTOLs (Plane), and
/// multirotors and helicopters (Copter); no firmware drives the other types.
pub fn firmware_type(vehicle_type: VehicleType) -> (r: FirmwareType)
    requires
        has_firmware(vehicle_type),
    ensures
        r == spec_firmware_type(vehicle_type),
{
    match vehicle_type {
        VehicleType::Submarine => FirmwareType::Submarine,
        VehicleType::GroundRover | VehicleType::SurfaceBoat => FirmwareType::Rover,
        VehicleType::FlappingWing | VehicleType::VtolTiltrotor | VehicleType::VtolTailsitterQuadrotor
        | VehicleType::VtolTailsitterDuorotor | VehicleType::FixedWing => FirmwareType::Plane,
        _ => FirmwareType::Copter,
    }
}


/// The flight mode shown for an ArduPilot vehicle: `pre-flight` while no mode flag is set,
/// else the name of the custom mode in the firmware of the vehicle type. No mode names are
/// known here for Rover, which gives `None`.
pub open spec fn spec_flight_mode(vehicle_type: VehicleType, base_mode: u8, custom_mode: u32) -> Option<Seq<char>> {
    if base_mode == 0 {
        Some("pre-flight"@)
    } else {
        match spec_firmware_type(vehicle_type) {
            FirmwareType::Copter => Some(arducopter::CustomMode::spec_from_u32(custom_mode).spec_name()),
            FirmwareType::Plane => Some(arduplane::CustomMode::spec_from_u32(custom_mode).spec_name()),
            FirmwareType::Submarine => Some(ardusub::CustomMode::spec_from_u32(custom_mode).spec_name()),
            FirmwareType::Rover => None,
        }
    }
}

/// The flight mode of an ArduPilot vehicle from the mode flags and the custom mode of its
/// heartbeat. With mode flags set, the vehicle type must have a firmware.
pub fn flight_mode(vehicle_type: VehicleType, base_mode: u8, custom_mode: u32) -> (r: Option<String>)
    requires
        base_mode != 0 ==> has_firmware(vehicle_type),
    ensures
        match r {
            Some(m) => spec_flight_mode(vehicle_type, base_mode, custom_mode) == Some(m@),
            None => spec_flight_mode(vehicle_type, base_mode, custom_mode) is None,
        },
{
    if base_mode == 0 {
        return Some("pre-flight".to_string());
    }
    match firmware_type(vehicle_type) {
        FirmwareType::Copter => Some(arducopter::CustomMode::from_u32(custom_mode).name()),
        FirmwareType::Plane => Some(arduplane::CustomMode::from_u32(custom_mode).name()),
        FirmwareType::Submarine => Some(ardusub::CustomMode::from_u32(custom_mode).name()),
        FirmwareType::Rover => None,
    }
}

/// Every vehicle type an ArduPilot firmware drives, with that firmware.
pub proof fn lemma_firmware_of_vehicle_types()
    ensures
        spec_firmware_type(VehicleType::Tricopter) == FirmwareType::Copter,
        spec_firmware_type(VehicleType::Coaxial) == FirmwareType::Copter,
        spec_firmware_type(VehicleType::Hexarotor) == FirmwareType::Copter,
        spec_firmware_type(VehicleType::Helicopter) == FirmwareType::Copter,
        spec_firmware_type(VehicleType::Octorotor) == FirmwareType::Copter,
        spec_firmware_type(VehicleType::Dodecarotor) == FirmwareType::Copter,
        spec_firmware_type(VehicleType::Quadrotor) == FirmwareType::Copter,
        spec_firmware_type(VehicleType::FlappingWing) == FirmwareType::Plane,
        spec_firmware_type(VehicleType::VtolTiltrotor) == FirmwareType::Plane,
        spec_firmware_type(VehicleType::VtolTailsitterQuadrotor) == FirmwareType::Plane,
        spec_firmware_type(VehicleType::VtolTailsitterDuorotor) == FirmwareType::Plane,
        spec_firmware_type(VehicleType::FixedWing) == FirmwareType::Plane,
        spec_firmware_type(VehicleType::Submarine) == FirmwareType::Submarine,
        spec_firmware_type(VehicleType::GroundRover) == FirmwareType::Rover,
        spec_firmware_type(VehicleType::SurfaceBoat) == FirmwareType::Rover,
{
}

/// The custom modes of ArduCopter by wire value, with the kebab-case names they are shown under.
pub open spec fn arducopter_mode_names() -> Seq<(u32, Seq<char>)> {
    seq![(255u32, "pre-flight"@), (0u32, "stabilize"@), (1u32, "acro"@), (2u32, "alt-hold"@), (3u32, "auto"@), (4u32, "guided"@), (5u32, "loiter"@), (6u32, "rtl"@), (7u32, "circle"@), (9u32, "land"@), (11u32, "drift"@), (13u32, "sport"@), (14u32, "flip"@), (15u32, "auto-tune"@), (16u32, "pos-hold"@), (17u32, "brake"@), (18u32, "throw"@), (19u32, "avoid-adsb"@), (20u32, "guided-no-gps"@), (21u32, "smart-rtl"@), (22u32, "flow-hold"@), (23u32, "follow"@), (24u32, "zig-zag"@), (25u32, "system-id"@), (26u32, "auto-rotate"@), (27u32, "auto-rtl"@), (28u32, "turtle"@)]
}

/// With a mode flag set, a vehicle driven by ArduCopter shows the name its custom mode has in
/// that firmware's table, and `Unknown (<value>)` for a value the table does not hold.
pub proof fn lemma_arducopter_flight_modes(vehicle_type: VehicleType, base_mode: u8, custom_mode: u32)
    requires
        base_mode != 0,
        vehicle_type == VehicleType::Tricopter || vehicle_type == VehicleType::Coaxial || vehicle_type == VehicleType::Hexarotor || vehicle_type == VehicleType::Helicopter || vehicle_type == VehicleType::Octorotor || vehicle_type == VehicleType::Dodecarotor || vehicle_type == VehicleType::Quadrotor,
    ensures
        forall|i: int| 0 <= i < arducopter_mode_names().len() && #[trigger] arducopter_mode_names()[i].0 == custom_mode
            ==> spec_flight_mode(vehicle_type, base_mode, custom_mode) == Some(arducopter_mode_names()[i].1),
        (forall|i: int| 0 <= i < arducopter_mode_names().len() ==> #[trigger] arducopter_mode_names()[i].0 != custom_mode)
            ==> spec_flight_mode(vehicle_type, base_mode, custom_mode) == Some("Unknown ("@ + decimal_chars(custom_mode as nat) + ")"@),
{
    let t = arducopter_mode_names();
    assert forall|i: int| 0 <= i < t.len() && #[trigger] t[i].0 == custom_mode
        implies spec_flight_mode(vehicle_type, base_mode, custom_mode) == Some(t[i].1) by {
        if i == 0 { assert(t[i] == (255u32, "pre-flight"@)); }
        if i == 1 { assert(t[i] == (0u32, "stabilize"@)); }
        if i == 2 { assert(t[i] == (1u32, "acro"@)); }
        if i == 3 { assert(t[i] == (2u32, "alt-hold"@)); }
        if i == 4 { assert(t[i] == (3u32, "auto"@)); }
        if i == 5 { assert(t[i] == (4u32, "guided"@)); }
        if i == 6 { assert(t[i] == (5u32, "loiter"@)); }
        if i == 7 { assert(t[i] == (6u32, "rtl"@)); }
        if i == 8 { assert(t[i] == (7u32, "circle"@)); }
        if i == 9 { assert(t[i] == (9u32, "land"@)); }
        if i == 10 { assert(t[i] == (11u32, "drift"@)); }
        if i == 11 { assert(t[i] == (13u32, "sport"@)); }
        if i == 12 { assert(t[i] == (14u32, "flip"@)); }
        if i == 13 { assert(t[i] == (15u32, "auto-tune"@)); }
        if i == 14 { assert(t[i] == (16u32, "pos-hold"@)); }
        if i == 15 { assert(t[i] == (17u32, "brake"@)); }
        if i == 16 { assert(t[i] == (18u32, "throw"@)); }
        if i == 17 { assert(t[i] == (19u32, "avoid-adsb"@)); }
        if i == 18 { assert(t[i] == (20u32, "guided-no-gps"@)); }
        if i == 19 { assert(t[i] == (21u32, "smart-rtl"@)); }
        if i == 20 { assert(t[i] == (22u32, "flow-hold"@)); }
        if i == 21 { assert(t[i] == (23u32, "follow"@)); }
        if i == 22 { assert(t[i] == (24u32, "zig-zag"@)); }
        if i == 23 { assert(t[i] == (25u32, "system-id"@)); }
        if i == 24 { assert(t[i] == (26u32, "auto-rotate"@)); }
        if i == 25 { assert(t[i] == (27u32, "auto-rtl"@)); }
        if i == 26 { assert(t[i] == (28u32, "turtle"@)); }
    }
    if forall|i: int| 0 <= i < t.len() ==> #[trigger] t[i].0 != custom_mode {
        assert(t[0].0 != custom_mode);
        assert(t[1].0 != custom_mode);
        assert(t[2].0 != custom_mode);
        assert(t[3].0 != custom_mode);
        assert(t[4].0 != custom_mode);
        assert(t[5].0 != custom_mode);
        assert(t[6].0 != custom_mode);
        assert(t[7].0 != custom_mode);
        assert(t[8].0 != custom_mode);
        assert(t[9].0 != custom_mode);
        assert(t[10].0 != custom_mode);
        assert(t[11].0 != custom_mode);
        assert(t[12].0 != custom_mode);
        assert(t[13].0 != custom_mode);
        assert(t[14].0 != custom_mode);
        assert(t[15].0 != custom_mode);
        assert(t[16].0 != custom_mode);
        assert(t[17].0 != custom_mode);
        assert(t[18].0 != custom_mode);
        assert(t[19].0 != custom_mode);
        assert(t[20].0 != custom_mode);
        assert(t[21].0 != custom_mode);
        assert(t[22].0 != custom_mode);
        assert(t[23].0 != custom_mode);
        assert(t[24].0 != custom_mode);
        assert(t[25].0 != custom_mode);
        assert(t[26].0 != custom_mode);
    }
}

/// The custom modes of ArduPlane by wire value, with the kebab-case names they are shown under.
pub open spec fn arduplane_mode_names() -> Seq<(u32, Seq<char>)> {
    seq![(255u32, "pre-flight"@), (0u32, "manual"@), (1u32, "circle"@), (2u32, "stabilize"@), (3u32, "training"@), (4u32, "acro"@), (5u32, "fly-by-wire-a"@), (6u32, "fly-by-wire-b"@), (7u32, "cruise"@), (8u32, "auto-tune"@), (10u32, "auto"@), (11u32, "rtl"@), (12u32, "loiter"@), (13u32, "takeoff"@), (14u32, "avoid-adsb"@), (15u32, "guided"@), (16u32, "initialising"@), (17u32, "q-stabilize"@), (18u32, "q-hover"@), (19u32, "q-loiter"@), (20u32, "q-land"@), (21u32, "q-rtl"@), (22u32, "q-auto-tune"@), (23u32, "q-acro"@), (24u32, "thermal"@), (25u32, "loiter-alt-q-land"@)]
}

/// With a mode flag set, a vehicle driven by ArduPlane shows the name its custom mode has in
/// that firmware's table, and `Unknown (<value>)` for a value the table does not hold.
pub proof fn lemma_arduplane_flight_modes(vehicle_type: VehicleType, base_mode: u8, custom_mode: u32)
    requires
        base_mode != 0,
        vehicle_type == VehicleType::FlappingWing || vehicle_type == VehicleType::VtolTiltrotor || vehicle_type == VehicleType::VtolTailsitterQuadrotor || vehicle_type == VehicleType::VtolTailsitterDuorotor || vehicle_type == VehicleType::FixedWing,
    ensures
        forall|i: int| 0 <= i < arduplane_mode_names().len() && #[trigger] arduplane_mode_names()[i].0 == custom_mode
            ==> spec_flight_mode(vehicle_type, base_mode, custom_mode) == Some(arduplane_mode_names()[i].1),
        (forall|i: int| 0 <= i < arduplane_mode_names().len() ==> #[trigger] arduplane_mode_names()[i].0 != custom_mode)
            ==> spec_flight_mode(vehicle_type, base_mode, custom_mode) == Some("Unknown ("@ + decimal_chars(custom_mode as nat) + ")"@),
{
    let t = arduplane_mode_names();
    assert forall|i: int| 0 <= i < t.len() && #[trigger] t[i].0 == custom_mode
        implies spec_flight_mode(vehicle_type, base_mode, custom_mode) == Some(t[i].1) by {
        if i == 0 { assert(t[i] == (255u32, "pre-flight"@)); }
        if i == 1 { assert(t[i] == (0u32, "manual"@)); }
        if i == 2 { assert(t[i] == (1u32, "circle"@)); }
        if i == 3 { assert(t[i] == (2u32, "stabilize"@)); }
        if i == 4 { assert(t[i] == (3u32, "training"@)); }
        if i == 5 { assert(t[i] == (4u32, "acro"@)); }
        if i == 6 { assert(t[i] == (5u32, "fly-by-wire-a"@)); }
        if i == 7 { assert(t[i] == (6u32, "fly-by-wire-b"@)); }
        if i == 8 { assert(t[i] == (7u32, "cruise"@)); }
        if i == 9 { assert(t[i] == (8u32, "auto-tune"@)); }
        if i == 10 { assert(t[i] == (10u32, "auto"@)); }
        if i == 11 { assert(t[i] == (11u32, "rtl"@)); }
        if i == 12 { assert(t[i] == (12u32, "loiter"@)); }
        if i == 13 { assert(t[i] == (13u32, "takeoff"@)); }
        if i == 14 { assert(t[i] == (14u32, "avoid-adsb"@)); }
        if i == 15 { assert(t[i] == (15u32, "guided"@)); }
        if i == 16 { assert(t[i] == (16u32, "initialising"@)); }
        if i == 17 { assert(t[i] == (17u32, "q-stabilize"@)); }
        if i == 18 { assert(t[i] == (18u32, "q-hover"@)); }
        if i == 19 { assert(t[i] == (19u32, "q-loiter"@)); }
        if i == 20 { assert(t[i] == (20u32, "q-land"@)); }
        if i == 21 { assert(t[i] == (21u32, "q-rtl"@)); }
        if i == 22 { assert(t[i] == (22u32, "q-auto-tune"@)); }
        if i == 23 { assert(t[i] == (23u32, "q-acro"@)); }
        if i == 24 { assert(t[i] == (24u32, "thermal"@)); }
        if i == 25 { assert(t[i] == (25u32, "loiter-alt-q-land"@)); }
    }
    if forall|i: int| 0 <= i < t.len() ==> #[trigger] t[i].0 != custom_mode {
        assert(t[0].0 != custom_mode);
        assert(t[1].0 != custom_mode);
        assert(t[2].0 != custom_mode);
        assert(t[3].0 != custom_mode);
        assert(t[4].0 != custom_mode);
        assert(t[5].0 != custom_mode);
        assert(t[6].0 != custom_mode);
        assert(t[7].0 != custom_mode);
        assert(t[8].0 != custom_mode);
        assert(t[9].0 != custom_mode);
        assert(t[10].0 != custom_mode);
        assert(t[11].0 != custom_mode);
        assert(t[12].0 != custom_mode);
        assert(t[13].0 != custom_mode);
        assert(t[14].0 != custom_mode);
        assert(t[15].0 != custom_mode);
        assert(t[16].0 != custom_mode);
        assert(t[17].0 != custom_mode);
        assert(t[18].0 != custom_mode);
        assert(t[19].0 != custom_mode);
        assert(t[20].0 != custom_mode);
        assert(t[21].0 != custom_mode);
        assert(t[22].0 != custom_mode);
        assert(t[23].0 != custom_mode);
        assert(t[24].0 != custom_mode);
        assert(t[25].0 != custom_mode);
    }
}

/// The custom modes of ArduSub by wire value, with the kebab-case names they are shown under.
pub open spec fn ardusub_mode_names() -> Seq<(u32, Seq<char>)> {
    seq![(255u32, "pre-flight"@), (0u32, "stabilize"@), (1u32, "acro"@), (2u32, "alt-hold"@), (3u32, "auto"@), (4u32, "guided"@), (7u32, "circle"@), (9u32, "surface"@), (16u32, "pos-hold"@), (19u32, "manual"@), (20u32, "motor-detect"@), (21u32, "surf-trak"@)]
}

/// With a mode flag set, a vehicle driven by ArduSub shows the name its custom mode has in
/// that firmware's table, and `Unknown (<value>)` for a value the table does not hold.
pub proof fn lemma_ardusub_flight_modes(vehicle_type: VehicleType, base_mode: u8, custom_mode: u32)
    requires
        base_mode != 0,
        vehicle_type == VehicleType::Submarine,
    ensures
        forall|i: int| 0 <= i < ardusub_mode_names().len() && #[trigger] ardusub_mode_names()[i].0 == custom_mode
            ==> spec_flight_mode(vehicle_type, base_mode, custom_mode) == Some(ardusub_mode_names()[i].1),
        (forall|i: int| 0 <= i < ardusub_mode_names().len() ==> #[trigger] ardusub_mode_names()[i].0 != custom_mode)
            ==> spec_flight_mode(vehicle_type, base_mode, custom_mode) == Some("Unknown ("@ + decimal_chars(custom_mode as nat) + ")"@),
{
    let t = ardusub_mode_names();
    assert forall|i: int| 0 <= i < t.len() && #[trigger] t[i].0 == custom_mode
        implies spec_flight_mode(vehicle_type, base_mode, custom_mode) == Some(t[i].1) by {
        if i == 0 { assert(t[i] == (255u32, "pre-flight"@)); }
        if i == 1 { assert(t[i] == (0u32, "stabilize"@)); }
        if i == 2 { assert(t[i] == (1u32, "acro"@)); }
        if i == 3 { assert(t[i] == (2u32, "alt-hold"@)); }
        if i == 4 { assert(t[i] == (3u32, "auto"@)); }
        if i == 5 { assert(t[i] == (4u32, "guided"@)); }
        if i == 6 { assert(t[i] == (7u32, "circle"@)); }
        if i == 7 { assert(t[i] == (9u32, "surface"@)); }
        if i == 8 { assert(t[i] == (16u32, "pos-hold"@)); }
        if i == 9 { assert(t[i] == (19u32, "manual"@)); }
        if i == 10 { assert(t[i] == (20u32, "motor-detect"@)); }
        if i == 11 { assert(t[i] == (21u32, "surf-trak"@)); }
    }
    if forall|i: int| 0 <= i < t.len() ==> #[trigger] t[i].0 != custom_mode {
        assert(t[0].0 != custom_mode);
        assert(t[1].0 != custom_mode);
        assert(t[2].0 != custom_mode);
        assert(t[3].0 != custom_mode);
        assert(t[4].0 != custom_mode);
        assert(t[5].0 != custom_mode);
        assert(t[6].0 != custom_mode);
        assert(t[7].0 != custom_mode);
        assert(t[8].0 != custom_mode);
        assert(t[9].0 != custom_mode);
        assert(t[10].0 != custom_mode);
        assert(t[11].0 != custom_mode);
    }
}

/// The capability bits that an autopilot can announce.
pub const ALL_CAPABILITIES: u64 = 0xF_FFFF;

/// The optional capabilities that an autopilot announces, one bit each.
#[derive(Debug, Clone, Copy, PartialEq, Eq, Structural)]
pub struct Capabilities {
    bits: u64,
}

impl Capabilities {
    pub closed spec fn spec_bits(self) -> u64 {
        self.bits
    }

    /// The capabilities of these bits; bits of no known capability are dropped.
    pub fn from_bits_truncate(bits: u64) -> (r: Capabilities)
        ensures
            r.spec_bits() == bits & ALL_CAPABILITIES,
    {
        Capabilities { bits: bits & ALL_CAPABILITIES }
    }

    /// The bits of the capabilities.
    pub fn bits(&self) -> (r: u64)
        ensures
            r == self.spec_bits(),
    {
        self.bits
    }
}

} // verus!
