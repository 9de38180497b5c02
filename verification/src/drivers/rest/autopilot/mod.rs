pub mod arducopter;
pub mod ardupilot;
pub mod arduplane;
pub mod ardusub;
pub mod parameters;

use vstd::prelude::*;

use vstd::string::StringSliceAdditionalSpecFns;

use crate::text::{append_decimal, append_str, decimal_chars, spec_utf8_lossy, utf8_lossy};

verus! {

/// Types of parameter values (`MAV_PARAM_TYPE`).
#[derive(Debug, Clone, Copy, PartialEq, Eq, Structural)]
pub enum ParameterType {
    /// 8-bit unsigned integer
    Uint8,
    /// 8-bit signed integer
    Int8,
    /// 16-bit unsigned integer
    Uint16,
    /// 16-bit signed integer
    Int16,
    /// 32-bit unsigned integer
    Uint32,
    /// 32-bit signed integer
    Int32,
    /// 64-bit unsigned integer
    Uint64,
    /// 64-bit signed integer
    Int64,
    /// 32-bit floating-point
    Real32,
    /// 64-bit floating-point
    Real64,
    /// A value this list does not define.
    Unknown(u8),
}

impl ParameterType {
    /// The variant for a wire value; `Unknown` keeps any other value.
    pub open spec fn spec_from_u8(value: u8) -> ParameterType {
        if value == 1 {
            ParameterType::Uint8
        } else if value == 2 {
            ParameterType::Int8
        } else if value == 3 {
            ParameterType::Uint16
        } else if value == 4 {
            ParameterType::Int16
        } else if value == 5 {
            ParameterType::Uint32
        } else if value == 6 {
            ParameterType::Int32
        } else if value == 7 {
            ParameterType::Uint64
        } else if value == 8 {
            ParameterType::Int64
        } else if value == 9 {
            ParameterType::Real32
        } else if value == 10 {
            ParameterType::Real64
        } else {
            ParameterType::Unknown(value)
        }
    }

    /// The variant for a wire value; `Unknown` keeps any other value.
    pub fn from_u8(value: u8) -> (r: ParameterType)
        ensures
            r == Self::spec_from_u8(value),
    {
        match value {
            1 => ParameterType::Uint8,
            2 => ParameterType::Int8,
            3 => ParameterType::Uint16,
            4 => ParameterType::Int16,
            5 => ParameterType::Uint32,
            6 => ParameterType::Int32,
            7 => ParameterType::Uint64,
            8 => ParameterType::Int64,
            9 => ParameterType::Real32,
            10 => ParameterType::Real64,
            _ => ParameterType::Unknown(value),
        }
    }

    /// The wire value of the variant.
    pub open spec fn spec_code(self) -> u8 {
        match self {
            ParameterType::Uint8 => 1,
            ParameterType::Int8 => 2,
            ParameterType::Uint16 => 3,
            ParameterType::Int16 => 4,
            ParameterType::Uint32 => 5,
            ParameterType::Int32 => 6,
            ParameterType::Uint64 => 7,
            ParameterType::Int64 => 8,
            ParameterType::Real32 => 9,
            ParameterType::Real64 => 10,
            ParameterType::Unknown(value) => value,
        }
    }

    /// The wire value of the variant.
    pub fn code(&self) -> (r: u8)
        ensures
            r == self.spec_code(),
    {
        match self {
            ParameterType::Uint8 => 1,
            ParameterType::Int8 => 2,
            ParameterType::Uint16 => 3,
            ParameterType::Int16 => 4,
            ParameterType::Uint32 => 5,
            ParameterType::Int32 => 6,
            ParameterType::Uint64 => 7,
            ParameterType::Int64 => 8,
            ParameterType::Real32 => 9,
            ParameterType::Real64 => 10,
            ParameterType::Unknown(value) => *value,
        }
    }
}

/// Reading back the wire value of the variant read from any value gives that value.
pub proof fn lemma_parametertype_code_roundtrip(value: u8)
    ensures
        ParameterType::spec_from_u8(value).spec_code() == value,
{
}

/// Every known variant is read back from its own wire value.
pub proof fn lemma_parametertype_known_roundtrip(m: ParameterType)
    requires
        !(m is Unknown),
    ensures
        ParameterType::spec_from_u8(m.spec_code()) == m,
{
}

/// Autopilot kinds (`MAV_AUTOPILOT`).
#[derive(Debug, Clone, Copy, PartialEq, Eq, Structural)]
pub enum AutoPilotType {
    /// Generic autopilot, full support for everything
    Generic,
    /// Reserved for future use
    Reserved,
    /// SLUGS autopilot, http://slugsuav.soe.ucsc.edu
    Slugs,
    /// ArduPilot - Plane/Copter/Rover/Sub/Tracker, https://ardupilot.org
    ArduPilotMega,
    /// OpenPilot, http://openpilot.org
    OpenPilot,
    /// Generic autopilot only supporting simple waypoints
    GenericWaypointsOnly,
    /// Generic autopilot supporting waypoints and other simple navigation commands
    GenericWaypointsAndSimpleNavigation,
    /// Generic autopilot supporting the full mission command set
    GenericMissionFull,
    /// No valid autopilot, e.g. a GCS or other MAVLink component
    Invalid,
    /// PPZ UAV - http://nongnu.org/paparazzi
    Ppz,
    /// UAV Dev Board
    Udb,
    /// FlexiPilot
    Fp,
    /// PX4 Autopilot - http://px4.io/
    Px4,
    /// SMACCMPilot - http://smaccmpilot.org
    SmaccmPilot,
    /// AutoQuad -- http://autoquad.org
    AutoQuad,
    /// Armazila -- http://armazila.com
    Armazila,
    /// Aerob -- http://aerob.ru
    Aerob,
    /// ASLUAV autopilot -- http://www.asl.ethz.ch
    Asluav,
    /// SmartAP Autopilot - http://sky-drones.com
    SmartAp,
    /// AirRails - http://uaventure.com
    AirRails,
    /// Fusion Reflex - https://fusion.engineering
    ReflexFusion,
    /// A value this list does not define.
    Unknown(u8),
}

impl AutoPilotType {
    /// The variant for a wire value; `Unknown` keeps any other value.
    pub open spec fn spec_from_u8(value: u8) -> AutoPilotType {
        if value == 0 {
            AutoPilotType::Generic
        } else if value == 1 {
            AutoPilotType::Reserved
        } else if value == 2 {
            AutoPilotType::Slugs
        } else if value == 3 {
            AutoPilotType::ArduPilotMega
        } else if value == 4 {
            AutoPilotType::OpenPilot
        } else if value == 5 {
            AutoPilotType::GenericWaypointsOnly
        } else if value == 6 {
            AutoPilotType::GenericWaypointsAndSimpleNavigation
        } else if value == 7 {
            AutoPilotType::GenericMissionFull
        } else if value == 8 {
            AutoPilotType::Invalid
        } else if value == 9 {
            AutoPilotType::Ppz
        } else if value == 10 {
            AutoPilotType::Udb
        } else if value == 11 {
            AutoPilotType::Fp
        } else if value == 12 {
            AutoPilotType::Px4
        } else if value == 13 {
            AutoPilotType::SmaccmPilot
        } else if value == 14 {
            AutoPilotType::AutoQuad
        } else if value == 15 {
            AutoPilotType::Armazila
        } else if value == 16 {
            AutoPilotType::Aerob
        } else if value == 17 {
            AutoPilotType::Asluav
        } else if value == 18 {
            AutoPilotType::SmartAp
        } else if value == 19 {
            AutoPilotType::AirRails
        } else if value == 20 {
            AutoPilotType::ReflexFusion
        } else {
            AutoPilotType::Unknown(value)
        }
    }

    /// The variant for a wire value; `Unknown` keeps any other value.
    pub fn from_u8(value: u8) -> (r: AutoPilotType)
        ensures
            r == Self::spec_from_u8(value),
    {
        match value {
            0 => AutoPilotType::Generic,
            1 => AutoPilotType::Reserved,
            2 => AutoPilotType::Slugs,
            3 => AutoPilotType::ArduPilotMega,
            4 => AutoPilotType::OpenPilot,
            5 => AutoPilotType::GenericWaypointsOnly,
            6 => AutoPilotType::GenericWaypointsAndSimpleNavigation,
            7 => AutoPilotType::GenericMissionFull,
            8 => AutoPilotType::Invalid,
            9 => AutoPilotType::Ppz,
            10 => AutoPilotType::Udb,
            11 => AutoPilotType::Fp,
            12 => AutoPilotType::Px4,
            13 => AutoPilotType::SmaccmPilot,
            14 => AutoPilotType::AutoQuad,
            15 => AutoPilotType::Armazila,
            16 => AutoPilotType::Aerob,
            17 => AutoPilotType::Asluav,
            18 => AutoPilotType::SmartAp,
            19 => AutoPilotType::AirRails,
            20 => AutoPilotType::ReflexFusion,
            _ => AutoPilotType::Unknown(value),
        }
    }

    /// The wire value of the variant.
    pub open spec fn spec_code(self) -> u8 {
        match self {
            AutoPilotType::Generic => 0,
            AutoPilotType::Reserved => 1,
            AutoPilotType::Slugs => 2,
            AutoPilotType::ArduPilotMega => 3,
            AutoPilotType::OpenPilot => 4,
            AutoPilotType::GenericWaypointsOnly => 5,
            AutoPilotType::GenericWaypointsAndSimpleNavigation => 6,
            AutoPilotType::GenericMissionFull => 7,
            AutoPilotType::Invalid => 8,
            AutoPilotType::Ppz => 9,
            AutoPilotType::Udb => 10,
            AutoPilotType::Fp => 11,
            AutoPilotType::Px4 => 12,
            AutoPilotType::SmaccmPilot => 13,
            AutoPilotType::AutoQuad => 14,
            AutoPilotType::Armazila => 15,
            AutoPilotType::Aerob => 16,
            AutoPilotType::Asluav => 17,
            AutoPilotType::SmartAp => 18,
            AutoPilotType::AirRails => 19,
            AutoPilotType::ReflexFusion => 20,
            AutoPilotType::Unknown(value) => value,
        }
    }

    /// The wire value of the variant.
    pub fn code(&self) -> (r: u8)
        ensures
            r == self.spec_code(),
    {
        match self {
            AutoPilotType::Generic => 0,
            AutoPilotType::Reserved => 1,
            AutoPilotType::Slugs => 2,
            AutoPilotType::ArduPilotMega => 3,
            AutoPilotType::OpenPilot => 4,
            AutoPilotType::GenericWaypointsOnly => 5,
            AutoPilotType::GenericWaypointsAndSimpleNavigation => 6,
            AutoPilotType::GenericMissionFull => 7,
            AutoPilotType::Invalid => 8,
            AutoPilotType::Ppz => 9,
            AutoPilotType::Udb => 10,
            AutoPilotType::Fp => 11,
            AutoPilotType::Px4 => 12,
            AutoPilotType::SmaccmPilot => 13,
            AutoPilotType::AutoQuad => 14,
            AutoPilotType::Armazila => 15,
            AutoPilotType::Aerob => 16,
            AutoPilotType::Asluav => 17,
            AutoPilotType::SmartAp => 18,
            AutoPilotType::AirRails => 19,
            AutoPilotType::ReflexFusion => 20,
            AutoPilotType::Unknown(value) => *value,
        }
    }
}

/// Reading back the wire value of the variant read from any value gives that value.
pub proof fn lemma_autopilottype_code_roundtrip(value: u8)
    ensures
        AutoPilotType::spec_from_u8(value).spec_code() == value,
{
}

/// Every known variant is read back from its own wire value.
pub proof fn lemma_autopilottype_known_roundtrip(m: AutoPilotType)
    requires
        !(m is Unknown),
    ensures
        AutoPilotType::spec_from_u8(m.spec_code()) == m,
{
}

/// Vehicle kinds (`MAV_TYPE`).
#[derive(Debug, Clone, Copy, PartialEq, Eq, Structural)]
pub enum VehicleType {
    /// Generic micro air vehicle
    Generic,
    /// Fixed wing aircraft
    FixedWing,
    /// Quadrotor
    Quadrotor,
    /// Coaxial helicopter
    Coaxial,
    /// Normal helicopter with tail rotor
    Helicopter,
    /// Ground installation
    AntennaTracker,
    /// Operator control unit / ground control station
    Gcs,
    /// Airship, controlled
    Airship,
    /// Free balloon, uncontrolled
    FreeBalloon,
    /// Rocket
    Rocket,
    /// Ground rover
    GroundRover,
    /// Surface vessel, boat, ship
    SurfaceBoat,
    /// Submarine
    Submarine,
    /// Hexarotor
    Hexarotor,
    /// Octorotor
    Octorotor,
    /// Tricopter
    Tricopter,
    /// Flapping wing
    FlappingWing,
    /// Kite
    Kite,
    /// Onboard companion controller
    OnboardController,
    /// Two-rotor Tailsitter VTOL that additionally uses control surfaces in vertical operation
    VtolTailsitterDuorotor,
    /// Quad-rotor Tailsitter VTOL using a V-shaped quad config in vertical operation
    VtolTailsitterQuadrotor,
    /// Tiltrotor VTOL. Fuselage and wings stay horizontal in all flight phases. Can tilt rotors for cruise thrust
    VtolTiltrotor,
    /// VTOL with separate fixed rotors for hover and cruise flight
    VtolFixedrotor,
    /// Tailsitter VTOL. Fuselage and wings orientation changes depending on flight phase
    VtolTailsitter,
    /// Tiltwing VTOL. Wing and engines can tilt between vertical and horizontal
    VtolTiltwing,
    /// VTOL reserved 5
    VtolReserved5,
    /// Gimbal
    Gimbal,
    /// ADSB system
    Adsb,
    /// Steerable, nonrigid airfoil
    Parafoil,
    /// Dodecarotor
    Dodecarotor,
    /// Camera
    Camera,
    /// Charging station
    ChargingStation,
    /// FLARM collision avoidance system
    Flarm,
    /// Servo
    Servo,
    /// Open Drone ID
    Odid,
    /// Decarotor
    Decarotor,
    /// Battery
    Battery,
    /// Parachute
    Parachute,
    /// Log
    Log,
    /// OSD
    Osd,
    /// IMU
    Imu,
    /// GPS
    Gps,
    /// Winch
    Winch,
    /// Generic multirotor that does not fit a specific type or is unknown
    GenericMultirotor,
    /// Illuminator (external light source like torch/searchlight)
    Illuminator,
    /// A value this list does not define.
    Unknown(u8),
}

impl VehicleType {
    /// The variant for a wire value; `Unknown` keeps any other value.
    pub open spec fn spec_from_u8(value: u8) -> VehicleType {
        if value == 0 {
            VehicleType::Generic
        } else if value == 1 {
            VehicleType::FixedWing
        } else if value == 2 {
            VehicleType::Quadrotor
        } else if value == 3 {
            VehicleType::Coaxial
        } else if value == 4 {
            VehicleType::Helicopter
        } else if value == 5 {
            VehicleType::AntennaTracker
        } else if value == 6 {
            VehicleType::Gcs
        } else if value == 7 {
            VehicleType::Airship
        } else if value == 8 {
            VehicleType::FreeBalloon
        } else if value == 9 {
            VehicleType::Rocket
        } else if value == 10 {
            VehicleType::GroundRover
        } else if value == 11 {
            VehicleType::SurfaceBoat
        } else if value == 12 {
            VehicleType::Submarine
        } else if value == 13 {
            VehicleType::Hexarotor
        } else if value == 14 {
            VehicleType::Octorotor
        } else if value == 15 {
            VehicleType::Tricopter
        } else if value == 16 {
            VehicleType::FlappingWing
        } else if value == 17 {
            VehicleType::Kite
        } else if value == 18 {
            VehicleType::OnboardController
        } else if value == 19 {
            VehicleType::VtolTailsitterDuorotor
        } else if value == 20 {
            VehicleType::VtolTailsitterQuadrotor
        } else if value == 21 {
            VehicleType::VtolTiltrotor
        } else if value == 22 {
            VehicleType::VtolFixedrotor
        } else if value == 23 {
            VehicleType::VtolTailsitter
        } else if value == 24 {
            VehicleType::VtolTiltwing
        } else if value == 25 {
            VehicleType::VtolReserved5
        } else if value == 26 {
            VehicleType::Gimbal
        } else if value == 27 {
            VehicleType::Adsb
        } else if value == 28 {
            VehicleType::Parafoil
        } else if value == 29 {
            VehicleType::Dodecarotor
        } else if value == 30 {
            VehicleType::Camera
        } else if value == 31 {
            VehicleType::ChargingStation
        } else if value == 32 {
            VehicleType::Flarm
        } else if value == 33 {
            VehicleType::Servo
        } else if value == 34 {
            VehicleType::Odid
        } else if value == 35 {
            VehicleType::Decarotor
        } else if value == 36 {
            VehicleType::Battery
        } else if value == 37 {
            VehicleType::Parachute
        } else if value == 38 {
            VehicleType::Log
        } else if value == 39 {
            VehicleType::Osd
        } else if value == 40 {
            VehicleType::Imu
        } else if value == 41 {
            VehicleType::Gps
        } else if value == 42 {
            VehicleType::Winch
        } else if value == 43 {
            VehicleType::GenericMultirotor
        } else if value == 44 {
            VehicleType::Illuminator
        } else {
            VehicleType::Unknown(value)
        }
    }

    /// The variant for a wire value; `Unknown` keeps any other value.
    pub fn from_u8(value: u8) -> (r: VehicleType)
        ensures
            r == Self::spec_from_u8(value),
    {
        match value {
            0 => VehicleType::Generic,
            1 => VehicleType::FixedWing,
            2 => VehicleType::Quadrotor,
            3 => VehicleType::Coaxial,
            4 => VehicleType::Helicopter,
            5 => VehicleType::AntennaTracker,
            6 => VehicleType::Gcs,
            7 => VehicleType::Airship,
            8 => VehicleType::FreeBalloon,
            9 => VehicleType::Rocket,
            10 => VehicleType::GroundRover,
            11 => VehicleType::SurfaceBoat,
            12 => VehicleType::Submarine,
            13 => VehicleType::Hexarotor,
            14 => VehicleType::Octorotor,
            15 => VehicleType::Tricopter,
            16 => VehicleType::FlappingWing,
            17 => VehicleType::Kite,
            18 => VehicleType::OnboardController,
            19 => VehicleType::VtolTailsitterDuorotor,
            20 => VehicleType::VtolTailsitterQuadrotor,
            21 => VehicleType::VtolTiltrotor,
            22 => VehicleType::VtolFixedrotor,
            23 => VehicleType::VtolTailsitter,
            24 => VehicleType::VtolTiltwing,
            25 => VehicleType::VtolReserved5,
            26 => VehicleType::Gimbal,
            27 => VehicleType::Adsb,
            28 => VehicleType::Parafoil,
            29 => VehicleType::Dodecarotor,
            30 => VehicleType::Camera,
            31 => VehicleType::ChargingStation,
            32 => VehicleType::Flarm,
            33 => VehicleType::Servo,
            34 => VehicleType::Odid,
            35 => VehicleType::Decarotor,
            36 => VehicleType::Battery,
            37 => VehicleType::Parachute,
            38 => VehicleType::Log,
            39 => VehicleType::Osd,
            40 => VehicleType::Imu,
            41 => VehicleType::Gps,
            42 => VehicleType::Winch,
            43 => VehicleType::GenericMultirotor,
            44 => VehicleType::Illuminator,
            _ => VehicleType::Unknown(value),
        }
    }

    /// The wire value of the variant.
    pub open spec fn spec_code(self) -> u8 {
        match self {
            VehicleType::Generic => 0,
            VehicleType::FixedWing => 1,
            VehicleType::Quadrotor => 2,
            VehicleType::Coaxial => 3,
            VehicleType::Helicopter => 4,
            VehicleType::AntennaTracker => 5,
            VehicleType::Gcs => 6,
            VehicleType::Airship => 7,
            VehicleType::FreeBalloon => 8,
            VehicleType::Rocket => 9,
            VehicleType::GroundRover => 10,
            VehicleType::SurfaceBoat => 11,
            VehicleType::Submarine => 12,
            VehicleType::Hexarotor => 13,
            VehicleType::Octorotor => 14,
            VehicleType::Tricopter => 15,
            VehicleType::FlappingWing => 16,
            VehicleType::Kite => 17,
            VehicleType::OnboardController => 18,
            VehicleType::VtolTailsitterDuorotor => 19,
            VehicleType::VtolTailsitterQuadrotor => 20,
            VehicleType::VtolTiltrotor => 21,
            VehicleType::VtolFixedrotor => 22,
            VehicleType::VtolTailsitter => 23,
            VehicleType::VtolTiltwing => 24,
            VehicleType::VtolReserved5 => 25,
            VehicleType::Gimbal => 26,
            VehicleType::Adsb => 27,
            VehicleType::Parafoil => 28,
            VehicleType::Dodecarotor => 29,
            VehicleType::Camera => 30,
            VehicleType::ChargingStation => 31,
            VehicleType::Flarm => 32,
            VehicleType::Servo => 33,
            VehicleType::Odid => 34,
            VehicleType::Decarotor => 35,
            VehicleType::Battery => 36,
            VehicleType::Parachute => 37,
            VehicleType::Log => 38,
            VehicleType::Osd => 39,
            VehicleType::Imu => 40,
            VehicleType::Gps => 41,
            VehicleType::Winch => 42,
            VehicleType::GenericMultirotor => 43,
            VehicleType::Illuminator => 44,
            VehicleType::Unknown(value) => value,
        }
    }

    /// The wire value of the variant.
    pub fn code(&self) -> (r: u8)
        ensures
            r == self.spec_code(),
    {
        match self {
            VehicleType::Generic => 0,
            VehicleType::FixedWing => 1,
            VehicleType::Quadrotor => 2,
            VehicleType::Coaxial => 3,
            VehicleType::Helicopter => 4,
            VehicleType::AntennaTracker => 5,
            VehicleType::Gcs => 6,
            VehicleType::Airship => 7,
            VehicleType::FreeBalloon => 8,
            VehicleType::Rocket => 9,
            VehicleType::GroundRover => 10,
            VehicleType::SurfaceBoat => 11,
            VehicleType::Submarine => 12,
            VehicleType::Hexarotor => 13,
            VehicleType::Octorotor => 14,
            VehicleType::Tricopter => 15,
            VehicleType::FlappingWing => 16,
            VehicleType::Kite => 17,
            VehicleType::OnboardController => 18,
            VehicleType::VtolTailsitterDuorotor => 19,
            VehicleType::VtolTailsitterQuadrotor => 20,
            VehicleType::VtolTiltrotor => 21,
            VehicleType::VtolFixedrotor => 22,
            VehicleType::VtolTailsitter => 23,
            VehicleType::VtolTiltwing => 24,
            VehicleType::VtolReserved5 => 25,
            VehicleType::Gimbal => 26,
            VehicleType::Adsb => 27,
            VehicleType::Parafoil => 28,
            VehicleType::Dodecarotor => 29,
            VehicleType::Camera => 30,
            VehicleType::ChargingStation => 31,
            VehicleType::Flarm => 32,
            VehicleType::Servo => 33,
            VehicleType::Odid => 34,
            VehicleType::Decarotor => 35,
            VehicleType::Battery => 36,
            VehicleType::Parachute => 37,
            VehicleType::Log => 38,
            VehicleType::Osd => 39,
            VehicleType::Imu => 40,
            VehicleType::Gps => 41,
            VehicleType::Winch => 42,
            VehicleType::GenericMultirotor => 43,
            VehicleType::Illuminator => 44,
            VehicleType::Unknown(value) => *value,
        }
    }
}

/// Reading back the wire value of the variant read from any value gives that value.
pub proof fn lemma_vehicletype_code_roundtrip(value: u8)
    ensures
        VehicleType::spec_from_u8(value).spec_code() == value,
{
}

/// Every known variant is read back from its own wire value.
pub proof fn lemma_vehicletype_known_roundtrip(m: VehicleType)
    requires
        !(m is Unknown),
    ensures
        VehicleType::spec_from_u8(m.spec_code()) == m,
{
}


impl VehicleType {
    /// The name of the variant, as the debug format writes it: `Unknown(<value>)` for a value
    /// this list does not define.
    pub open spec fn spec_debug_name(self) -> Seq<char> {
        match self {
            VehicleType::Generic => "Generic"@,
            VehicleType::FixedWing => "FixedWing"@,
            VehicleType::Quadrotor => "Quadrotor"@,
            VehicleType::Coaxial => "Coaxial"@,
            VehicleType::Helicopter => "Helicopter"@,
            VehicleType::AntennaTracker => "AntennaTracker"@,
            VehicleType::Gcs => "Gcs"@,
            VehicleType::Airship => "Airship"@,
            VehicleType::FreeBalloon => "FreeBalloon"@,
            VehicleType::Rocket => "Rocket"@,
            VehicleType::GroundRover => "GroundRover"@,
            VehicleType::SurfaceBoat => "SurfaceBoat"@,
            VehicleType::Submarine => "Submarine"@,
            VehicleType::Hexarotor => "Hexarotor"@,
            VehicleType::Octorotor => "Octorotor"@,
            VehicleType::Tricopter => "Tricopter"@,
            VehicleType::FlappingWing => "FlappingWing"@,
            VehicleType::Kite => "Kite"@,
            VehicleType::OnboardController => "OnboardController"@,
            VehicleType::VtolTailsitterDuorotor => "VtolTailsitterDuorotor"@,
            VehicleType::VtolTailsitterQuadrotor => "VtolTailsitterQuadrotor"@,
            VehicleType::VtolTiltrotor => "VtolTiltrotor"@,
            VehicleType::VtolFixedrotor => "VtolFixedrotor"@,
            VehicleType::VtolTailsitter => "VtolTailsitter"@,
            VehicleType::VtolTiltwing => "VtolTiltwing"@,
            VehicleType::VtolReserved5 => "VtolReserved5"@,
            VehicleType::Gimbal => "Gimbal"@,
            VehicleType::Adsb => "Adsb"@,
            VehicleType::Parafoil => "Parafoil"@,
            VehicleType::Dodecarotor => "Dodecarotor"@,
            VehicleType::Camera => "Camera"@,
            VehicleType::ChargingStation => "ChargingStation"@,
            VehicleType::Flarm => "Flarm"@,
            VehicleType::Servo => "Servo"@,
            VehicleType::Odid => "Odid"@,
            VehicleType::Decarotor => "Decarotor"@,
            VehicleType::Battery => "Battery"@,
            VehicleType::Parachute => "Parachute"@,
            VehicleType::Log => "Log"@,
            VehicleType::Osd => "Osd"@,
            VehicleType::Imu => "Imu"@,
            VehicleType::Gps => "Gps"@,
            VehicleType::Winch => "Winch"@,
            VehicleType::GenericMultirotor => "GenericMultirotor"@,
            VehicleType::Illuminator => "Illuminator"@,
            VehicleType::Unknown(value) => "Unknown("@ + decimal_chars(value as nat) + ")"@,
        }
    }

    /// The name of the variant, as the debug format writes it.
    pub fn debug_name(&self) -> (r: String)
        ensures
            r@ == self.spec_debug_name(),
    {
        match self {
            VehicleType::Generic => "Generic".to_string(),
            VehicleType::FixedWing => "FixedWing".to_string(),
            VehicleType::Quadrotor => "Quadrotor".to_string(),
            VehicleType::Coaxial => "Coaxial".to_string(),
            VehicleType::Helicopter => "Helicopter".to_string(),
            VehicleType::AntennaTracker => "AntennaTracker".to_string(),
            VehicleType::Gcs => "Gcs".to_string(),
            VehicleType::Airship => "Airship".to_string(),
            VehicleType::FreeBalloon => "FreeBalloon".to_string(),
            VehicleType::Rocket => "Rocket".to_string(),
            VehicleType::GroundRover => "GroundRover".to_string(),
            VehicleType::SurfaceBoat => "SurfaceBoat".to_string(),
            VehicleType::Submarine => "Submarine".to_string(),
            VehicleType::Hexarotor => "Hexarotor".to_string(),
            VehicleType::Octorotor => "Octorotor".to_string(),
            VehicleType::Tricopter => "Tricopter".to_string(),
            VehicleType::FlappingWing => "FlappingWing".to_string(),
            VehicleType::Kite => "Kite".to_string(),
            VehicleType::OnboardController => "OnboardController".to_string(),
            VehicleType::VtolTailsitterDuorotor => "VtolTailsitterDuorotor".to_string(),
            VehicleType::VtolTailsitterQuadrotor => "VtolTailsitterQuadrotor".to_string(),
            VehicleType::VtolTiltrotor => "VtolTiltrotor".to_string(),
            VehicleType::VtolFixedrotor => "VtolFixedrotor".to_string(),
            VehicleType::VtolTailsitter => "VtolTailsitter".to_string(),
            VehicleType::VtolTiltwing => "VtolTiltwing".to_string(),
            VehicleType::VtolReserved5 => "VtolReserved5".to_string(),
            VehicleType::Gimbal => "Gimbal".to_string(),
            VehicleType::Adsb => "Adsb".to_string(),
            VehicleType::Parafoil => "Parafoil".to_string(),
            VehicleType::Dodecarotor => "Dodecarotor".to_string(),
            VehicleType::Camera => "Camera".to_string(),
            VehicleType::ChargingStation => "ChargingStation".to_string(),
            VehicleType::Flarm => "Flarm".to_string(),
            VehicleType::Servo => "Servo".to_string(),
            VehicleType::Odid => "Odid".to_string(),
            VehicleType::Decarotor => "Decarotor".to_string(),
            VehicleType::Battery => "Battery".to_string(),
            VehicleType::Parachute => "Parachute".to_string(),
            VehicleType::Log => "Log".to_string(),
            VehicleType::Osd => "Osd".to_string(),
            VehicleType::Imu => "Imu".to_string(),
            VehicleType::Gps => "Gps".to_string(),
            VehicleType::Winch => "Winch".to_string(),
            VehicleType::GenericMultirotor => "GenericMultirotor".to_string(),
            VehicleType::Illuminator => "Illuminator".to_string(),
            VehicleType::Unknown(value) => {
                let mut s = "Unknown(".to_string();
                append_decimal(&mut s, *value as u64);
                append_str(&mut s, ")");
                s
            },
        }
    }
}

/// The text without its trailing NUL characters.
pub open spec fn trim_trailing_nuls(s: Seq<char>) -> Seq<char>
    decreases s.len(),
{
    if s.len() > 0 && s.last() == '\0' {
        trim_trailing_nuls(s.drop_last())
    } else {
        s
    }
}

/// The name in a parameter id: the bytes decoded as UTF-8 (invalid sequences replaced),
/// without the NUL padding at the end.
pub fn string_from_param_id(param_id: &[u8; 16]) -> (r: String)
    ensures
        r@ == trim_trailing_nuls(spec_utf8_lossy(param_id@)),
{
    let bytes = param_id.as_slice();
    proof {
        broadcast use vstd::array::group_array_axioms;
        assert(bytes@ == param_id@);
    }
    let text = utf8_lossy(bytes);
    let s = text.as_str();
    let mut end = s.unicode_len();
    assert(s@.subrange(0, end as int) =~= s@);
    while end > 0 && s.get_char(end - 1) == '\0'
        invariant
            end <= s@.len(),
            trim_trailing_nuls(s@.subrange(0, end as int)) == trim_trailing_nuls(spec_utf8_lossy(param_id@)),
        decreases end,
    {
        assert(s@.subrange(0, end as int).drop_last() =~= s@.subrange(0, end - 1));
        end = end - 1;
    }
    assert(s@.subrange(0, end as int).len() == 0 || s@.subrange(0, end as int).last() != '\0');
    s.substring_char(0, end).to_string()
}

/// The 16-byte id of a parameter name: its first 16 bytes, padded with zeros.
pub open spec fn spec_param_id(name: Seq<u8>) -> Seq<u8> {
    Seq::new(16, |i: int| if i < name.len() { name[i] } else { 0u8 })
}

/// The 16-byte id under which a parameter with this name is sent.
pub fn param_id(name: &str) -> (r: [u8; 16])
    ensures
        r@ == spec_param_id(name.spec_bytes()),
{
    let bytes = name.as_bytes();
    let len = if bytes.len() < 16 { bytes.len() } else { 16 };
    let mut buffer = [0u8; 16];
    let mut i: usize = 0;
    while i < len
        invariant
            bytes@ == name.spec_bytes(),
            len <= 16,
            len <= bytes@.len(),
            len == 16 || len == bytes@.len(),
            i <= len,
            buffer@.len() == 16,
            forall|k: int| 0 <= k < i ==> buffer@[k] == bytes@[k],
            forall|k: int| i <= k < 16 ==> buffer@[k] == 0,
        decreases len - i,
    {
        buffer[i] = bytes[i];
        i = i + 1;
    }
    assert(buffer@ =~= spec_param_id(name.spec_bytes()));
    buffer
}

} // verus!
