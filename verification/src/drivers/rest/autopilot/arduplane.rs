use vstd::prelude::*;

use crate::text::{append_decimal, append_str, decimal_chars};

verus! {

/// Flight modes of ArduPlane.
#[derive(Debug, Clone, Copy, PartialEq, Eq, Structural)]
pub enum CustomMode {
    /// Mode not set by vehicle yet
    PreFlight,
    /// Manual control
    Manual,
    /// Automatic circular flight with automatic throttle
    Circle,
    /// Manual airframe angle with manual throttle
    Stabilize,
    /// Training mode
    Training,
    /// Manual body-frame angular rate with manual throttle
    Acro,
    /// Fly-By-Wire A mode
    FlyByWireA,
    /// Fly-By-Wire B mode
    FlyByWireB,
    /// Cruise mode
    Cruise,
    /// Automatically tune the vehicle's roll and pitch gains
    AutoTune,
    /// Fully automatic waypoint control using mission commands
    Auto,
    /// Automatic return to launching point
    Rtl,
    /// Automatic horizontal acceleration with automatic throttle
    Loiter,
    /// Automatic takeoff
    Takeoff,
    /// Automatic avoidance of obstacles in the macro scale - e.g. full-sized aircraft
    AvoidAdsb,
    /// Fully automatic fly to coordinate or fly at velocity/direction using GCS immediate commands
    Guided,
    /// System is initializing
    Initialising,
    /// QuadPlane VTOL mode - stabilize
    QStabilize,
    /// QuadPlane VTOL mode - hover
    QHover,
    /// QuadPlane VTOL mode - loiter
    QLoiter,
    /// QuadPlane VTOL mode - land
    QLand,
    /// QuadPlane VTOL mode - RTL
    QRtl,
    /// QuadPlane VTOL mode - autotune
    QAutoTune,
    /// QuadPlane VTOL mode - acro
    QAcro,
    /// Thermal soaring mode
    Thermal,
    /// Loiter to altitude then QLAND
    LoiterAltQLand,
    /// A mode this firmware does not define.
    Unknown(u32),
}

impl CustomMode {
    /// The variant for a wire value; `Unknown` keeps any other value.
    pub open spec fn spec_from_u32(value: u32) -> CustomMode {
        if value == 255 {
            CustomMode::PreFlight
        } else if value == 0 {
            CustomMode::Manual
        } else if value == 1 {
            CustomMode::Circle
        } else if value == 2 {
            CustomMode::Stabilize
        } else if value == 3 {
            CustomMode::Training
        } else if value == 4 {
            CustomMode::Acro
        } else if value == 5 {
            CustomMode::FlyByWireA
        } else if value == 6 {
            CustomMode::FlyByWireB
        } else if value == 7 {
            CustomMode::Cruise
        } else if value == 8 {
            CustomMode::AutoTune
        } else if value == 10 {
            CustomMode::Auto
        } else if value == 11 {
            CustomMode::Rtl
        } else if value == 12 {
            CustomMode::Loiter
        } else if value == 13 {
            CustomMode::Takeoff
        } else if value == 14 {
            CustomMode::AvoidAdsb
        } else if value == 15 {
            CustomMode::Guided
        } else if value == 16 {
            CustomMode::Initialising
        } else if value == 17 {
            CustomMode::QStabilize
        } else if value == 18 {
            CustomMode::QHover
        } else if value == 19 {
            CustomMode::QLoiter
        } else if value == 20 {
            CustomMode::QLand
        } else if value == 21 {
            CustomMode::QRtl
        } else if value == 22 {
            CustomMode::QAutoTune
        } else if value == 23 {
            CustomMode::QAcro
        } else if value == 24 {
            CustomMode::Thermal
        } else if value == 25 {
            CustomMode::LoiterAltQLand
        } else {
            CustomMode::Unknown(value)
        }
    }

    /// The variant for a wire value; `Unknown` keeps any other value.
    pub fn from_u32(value: u32) -> (r: CustomMode)
        ensures
            r == Self::spec_from_u32(value),
    {
        match value {
            255 => CustomMode::PreFlight,
            0 => CustomMode::Manual,
            1 => CustomMode::Circle,
            2 => CustomMode::Stabilize,
            3 => CustomMode::Training,
            4 => CustomMode::Acro,
            5 => CustomMode::FlyByWireA,
            6 => CustomMode::FlyByWireB,
            7 => CustomMode::Cruise,
            8 => CustomMode::AutoTune,
            10 => CustomMode::Auto,
            11 => CustomMode::Rtl,
            12 => CustomMode::Loiter,
            13 => CustomMode::Takeoff,
            14 => CustomMode::AvoidAdsb,
            15 => CustomMode::Guided,
            16 => CustomMode::Initialising,
            17 => CustomMode::QStabilize,
            18 => CustomMode::QHover,
            19 => CustomMode::QLoiter,
            20 => CustomMode::QLand,
            21 => CustomMode::QRtl,
            22 => CustomMode::QAutoTune,
            23 => CustomMode::QAcro,
            24 => CustomMode::Thermal,
            25 => CustomMode::LoiterAltQLand,
            _ => CustomMode::Unknown(value),
        }
    }

    /// The wire value of the variant.
    pub open spec fn spec_code(self) -> u32 {
        match self {
            CustomMode::PreFlight => 255,
            CustomMode::Manual => 0,
            CustomMode::Circle => 1,
            CustomMode::Stabilize => 2,
            CustomMode::Training => 3,
            CustomMode::Acro => 4,
            CustomMode::FlyByWireA => 5,
            CustomMode::FlyByWireB => 6,
            CustomMode::Cruise => 7,
            CustomMode::AutoTune => 8,
            CustomMode::Auto => 10,
            CustomMode::Rtl => 11,
            CustomMode::Loiter => 12,
            CustomMode::Takeoff => 13,
            CustomMode::AvoidAdsb => 14,
            CustomMode::Guided => 15,
            CustomMode::Initialising => 16,
            CustomMode::QStabilize => 17,
            CustomMode::QHover => 18,
            CustomMode::QLoiter => 19,
            CustomMode::QLand => 20,
            CustomMode::QRtl => 21,
            CustomMode::QAutoTune => 22,
            CustomMode::QAcro => 23,
            CustomMode::Thermal => 24,
            CustomMode::LoiterAltQLand => 25,
            CustomMode::Unknown(value) => value,
        }
    }

    /// The wire value of the variant.
    pub fn code(&self) -> (r: u32)
        ensures
            r == self.spec_code(),
    {
        match self {
            CustomMode::PreFlight => 255,
            CustomMode::Manual => 0,
            CustomMode::Circle => 1,
            CustomMode::Stabilize => 2,
            CustomMode::Training => 3,
            CustomMode::Acro => 4,
            CustomMode::FlyByWireA => 5,
            CustomMode::FlyByWireB => 6,
            CustomMode::Cruise => 7,
            CustomMode::AutoTune => 8,
            CustomMode::Auto => 10,
            CustomMode::Rtl => 11,
            CustomMode::Loiter => 12,
            CustomMode::Takeoff => 13,
            CustomMode::AvoidAdsb => 14,
            CustomMode::Guided => 15,
            CustomMode::Initialising => 16,
            CustomMode::QStabilize => 17,
            CustomMode::QHover => 18,
            CustomMode::QLoiter => 19,
            CustomMode::QLand => 20,
            CustomMode::QRtl => 21,
            CustomMode::QAutoTune => 22,
            CustomMode::QAcro => 23,
            CustomMode::Thermal => 24,
            CustomMode::LoiterAltQLand => 25,
            CustomMode::Unknown(value) => *value,
        }
    }

    /// The kebab-case name of a known mode.
    pub open spec fn spec_name(self) -> Seq<char> {
        match self {
            CustomMode::PreFlight => "pre-flight"@,
            CustomMode::Manual => "manual"@,
            CustomMode::Circle => "circle"@,
            CustomMode::Stabilize => "stabilize"@,
            CustomMode::Training => "training"@,
            CustomMode::Acro => "acro"@,
            CustomMode::FlyByWireA => "fly-by-wire-a"@,
            CustomMode::FlyByWireB => "fly-by-wire-b"@,
            CustomMode::Cruise => "cruise"@,
            CustomMode::AutoTune => "auto-tune"@,
            CustomMode::Auto => "auto"@,
            CustomMode::Rtl => "rtl"@,
            CustomMode::Loiter => "loiter"@,
            CustomMode::Takeoff => "takeoff"@,
            CustomMode::AvoidAdsb => "avoid-adsb"@,
            CustomMode::Guided => "guided"@,
            CustomMode::Initialising => "initialising"@,
            CustomMode::QStabilize => "q-stabilize"@,
            CustomMode::QHover => "q-hover"@,
            CustomMode::QLoiter => "q-loiter"@,
            CustomMode::QLand => "q-land"@,
            CustomMode::QRtl => "q-rtl"@,
            CustomMode::QAutoTune => "q-auto-tune"@,
            CustomMode::QAcro => "q-acro"@,
            CustomMode::Thermal => "thermal"@,
            CustomMode::LoiterAltQLand => "loiter-alt-q-land"@,
            CustomMode::Unknown(value) => "Unknown ("@ + decimal_chars(value as nat) + ")"@,
        }
    }

    /// The name of the mode: kebab-case for a known mode, `Unknown (<value>)` otherwise.
    pub fn name(&self) -> (r: String)
        ensures
            r@ == self.spec_name(),
    {
        match self {
            CustomMode::PreFlight => "pre-flight".to_string(),
            CustomMode::Manual => "manual".to_string(),
            CustomMode::Circle => "circle".to_string(),
            CustomMode::Stabilize => "stabilize".to_string(),
            CustomMode::Training => "training".to_string(),
            CustomMode::Acro => "acro".to_string(),
            CustomMode::FlyByWireA => "fly-by-wire-a".to_string(),
            CustomMode::FlyByWireB => "fly-by-wire-b".to_string(),
            CustomMode::Cruise => "cruise".to_string(),
            CustomMode::AutoTune => "auto-tune".to_string(),
            CustomMode::Auto => "auto".to_string(),
            CustomMode::Rtl => "rtl".to_string(),
            CustomMode::Loiter => "loiter".to_string(),
            CustomMode::Takeoff => "takeoff".to_string(),
            CustomMode::AvoidAdsb => "avoid-adsb".to_string(),
            CustomMode::Guided => "guided".to_string(),
            CustomMode::Initialising => "initialising".to_string(),
            CustomMode::QStabilize => "q-stabilize".to_string(),
            CustomMode::QHover => "q-hover".to_string(),
            CustomMode::QLoiter => "q-loiter".to_string(),
            CustomMode::QLand => "q-land".to_string(),
            CustomMode::QRtl => "q-rtl".to_string(),
            CustomMode::QAutoTune => "q-auto-tune".to_string(),
            CustomMode::QAcro => "q-acro".to_string(),
            CustomMode::Thermal => "thermal".to_string(),
            CustomMode::LoiterAltQLand => "loiter-alt-q-land".to_string(),
            CustomMode::Unknown(value) => {
                let mut s = "Unknown (".to_string();
                append_decimal(&mut s, *value as u64);
                append_str(&mut s, ")");
                s
            },
        }
    }
}

/// Reading back the wire value of the variant read from any value gives that value.
pub proof fn lemma_custommode_code_roundtrip(value: u32)
    ensures
        CustomMode::spec_from_u32(value).spec_code() == value,
{
}

/// Every known variant is read back from its own wire value.
pub proof fn lemma_custommode_known_roundtrip(m: CustomMode)
    requires
        !(m is Unknown),
    ensures
        CustomMode::spec_from_u32(m.spec_code()) == m,
{
}

} // verus!
