use vstd::prelude::*;

use crate::text::{append_decimal, append_str, decimal_chars};

verus! {

/// Flight modes of ArduSub.
#[derive(Debug, Clone, Copy, PartialEq, Eq, Structural)]
pub enum CustomMode {
    /// Mode not set by vehicle yet
    PreFlight,
    /// Manual angle with manual depth/throttle
    Stabilize,
    /// Manual body-frame angular rate with manual depth/throttle
    Acro,
    /// Manual angle with automatic depth/throttle
    AltHold,
    /// Fully automatic waypoint control using mission commands
    Auto,
    /// Fully automatic fly to coordinate or fly at velocity/direction using GCS immediate commands
    Guided,
    /// Automatic circular flight with automatic throttle
    Circle,
    /// Automatically return to surface, pilot maintains horizontal control
    Surface,
    /// Automatic position hold with manual override, with automatic throttle
    PosHold,
    /// Pass-through input with no stabilization
    Manual,
    /// Automatically detect motors orientation
    MotorDetect,
    /// Manual angle with automatic depth/throttle (from rangefinder altitude)
    SurfTrak,
    /// A mode this firmware does not define.
    Unknown(u32),
}

impl CustomMode {
    /// The variant for a wire value; `Unknown` keeps any other value.
    pub open spec fn spec_from_u32(value: u32) -> CustomMode {
        if value == 255 {
            CustomMode::PreFlight
        } else if value == 0 {
            CustomMode::Stabilize
        } else if value == 1 {
            CustomMode::Acro
        } else if value == 2 {
            CustomMode::AltHold
        } else if value == 3 {
            CustomMode::Auto
        } else if value == 4 {
            CustomMode::Guided
        } else if value == 7 {
            CustomMode::Circle
        } else if value == 9 {
            CustomMode::Surface
        } else if value == 16 {
            CustomMode::PosHold
        } else if value == 19 {
            CustomMode::Manual
        } else if value == 20 {
            CustomMode::MotorDetect
        } else if value == 21 {
            CustomMode::SurfTrak
        } else {
            CustomMode::Unknown(value)
        }
    }

    /// The variant for a wire value; `Unknown` keeps any other value.
    pub fn from_u32(value: u32) -> (r: CustomMode)
        ensures
            r == Self::spec_from_u32(value),
    {
        match value {
            255 => CustomMode::PreFlight,
            0 => CustomMode::Stabilize,
            1 => CustomMode::Acro,
            2 => CustomMode::AltHold,
            3 => CustomMode::Auto,
            4 => CustomMode::Guided,
            7 => CustomMode::Circle,
            9 => CustomMode::Surface,
            16 => CustomMode::PosHold,
            19 => CustomMode::Manual,
            20 => CustomMode::MotorDetect,
            21 => CustomMode::SurfTrak,
            _ => CustomMode::Unknown(value),
        }
    }

    /// The wire value of the variant.
    pub open spec fn spec_code(self) -> u32 {
        match self {
            CustomMode::PreFlight => 255,
            CustomMode::Stabilize => 0,
            CustomMode::Acro => 1,
            CustomMode::AltHold => 2,
            CustomMode::Auto => 3,
            CustomMode::Guided => 4,
            CustomMode::Circle => 7,
            CustomMode::Surface => 9,
            CustomMode::PosHold => 16,
            CustomMode::Manual => 19,
            CustomMode::MotorDetect => 20,
            CustomMode::SurfTrak => 21,
            CustomMode::Unknown(value) => value,
        }
    }

    /// The wire value of the variant.
    pub fn code(&self) -> (r: u32)
        ensures
            r == self.spec_code(),
    {
        match self {
            CustomMode::PreFlight => 255,
            CustomMode::Stabilize => 0,
            CustomMode::Acro => 1,
            CustomMode::AltHold => 2,
            CustomMode::Auto => 3,
            CustomMode::Guided => 4,
            CustomMode::Circle => 7,
            CustomMode::Surface => 9,
            CustomMode::PosHold => 16,
            CustomMode::Manual => 19,
            CustomMode::MotorDetect => 20,
            CustomMode::SurfTrak => 21,
            CustomMode::Unknown(value) => *value,
        }
    }

    /// The kebab-case name of a known mode.
    pub open spec fn spec_name(self) -> Seq<char> {
        match self {
            CustomMode::PreFlight => "pre-flight"@,
            CustomMode::Stabilize => "stabilize"@,
            CustomMode::Acro => "acro"@,
            CustomMode::AltHold => "alt-hold"@,
            CustomMode::Auto => "auto"@,
            CustomMode::Guided => "guided"@,
            CustomMode::Circle => "circle"@,
            CustomMode::Surface => "surface"@,
            CustomMode::PosHold => "pos-hold"@,
            CustomMode::Manual => "manual"@,
            CustomMode::MotorDetect => "motor-detect"@,
            CustomMode::SurfTrak => "surf-trak"@,
            CustomMode::Unknown(value) => "Unknown ("@ + decimal_chars(value as nat) + ")"@,
        }
    }

    /// The name of the mode: kebab-case for a known mode, `Unknown (<value>)` otherwise.
    pub fn name(&self) -> (r: String)
        ensures
            r@ == self.spec_name(),
    {
        match self {
            CustomMode::PreFlight => "pre-flight".to_string(),
            CustomMode::Stabilize => "stabilize".to_string(),
            CustomMode::Acro => "acro".to_string(),
            CustomMode::AltHold => "alt-hold".to_string(),
            CustomMode::Auto => "auto".to_string(),
            CustomMode::Guided => "guided".to_string(),
            CustomMode::Circle => "circle".to_string(),
            CustomMode::Surface => "surface".to_string(),
            CustomMode::PosHold => "pos-hold".to_string(),
            CustomMode::Manual => "manual".to_string(),
            CustomMode::MotorDetect => "motor-detect".to_string(),
            CustomMode::SurfTrak => "surf-trak".to_string(),
            CustomMode::Unknown(value) => {
                let mut s = "Unknown (".to_string();
                append_decimal(&mut s, *value as u64);
                append_str(&mut s, ")");
                s
            },
        }
    }
}

/// Reading back the wire value of the variant read from any value gives that value.
pub proof fn lemma_custommode_code_roundtrip(value: u32)
    ensures
        CustomMode::spec_from_u32(value).spec_code() == value,
{
}

/// Every known variant is read back from its own wire value.
pub proof fn lemma_custommode_known_roundtrip(m: CustomMode)
    requires
        !(m is Unknown),
    ensures
        CustomMode::spec_from_u32(m.spec_code()) == m,
{
}

} // verus!
