use vstd::prelude::*;

use crate::text::{append_decimal, append_str, decimal_chars};

verus! {

/// Flight modes of ArduCopter.
#[derive(Debug, Clone, Copy, PartialEq, Eq, Structural)]
pub enum CustomMode {
    /// Mode not set by vehicle yet
    PreFlight,
    /// Manual airframe angle with manual throttle
    Stabilize,
    /// Manual body-frame angular rate with manual throttle
    Acro,
    /// Manual airframe angle with automatic throttle
    AltHold,
    /// Fully automatic waypoint control using mission commands
    Auto,
    /// Fully automatic fly to coordinate or fly at velocity/direction using GCS immediate commands
    Guided,
    /// Automatic horizontal acceleration with automatic throttle
    Loiter,
    /// Automatic return to launching point
    Rtl,
    /// Automatic circular flight with automatic throttle
    Circle,
    /// Automatic landing with horizontal position control
    Land,
    /// Semi-autonomous position, yaw and throttle control
    Drift,
    /// Manual earth-frame angular rate control with manual throttle
    Sport,
    /// Automatically flip the vehicle on the roll axis
    Flip,
    /// Automatically tune the vehicle's roll and pitch gains
    AutoTune,
    /// Automatic position hold with manual override, with automatic throttle
    PosHold,
    /// Full-brake using inertial/GPS system, no pilot input
    Brake,
    /// Throw to launch mode using inertial/GPS system, no pilot input
    Throw,
    /// Automatic avoidance of obstacles in the macro scale - e.g. full-sized aircraft
    AvoidAdsb,
    /// Guided mode but only accepts attitude and altitude
    GuidedNoGps,
    /// Smart_Rtl returns to home by retracing its steps
    SmartRtl,
    /// Flowhold holds position with optical flow without rangefinder
    FlowHold,
    /// Follow attempts to follow another vehicle or ground station
    Follow,
    /// Zigzag mode is able to fly in a zigzag manner with predefined point A and point B
    ZigZag,
    /// System ID mode produces automated system identification signals in the controllers
    SystemId,
    /// Autonomous autorotation
    AutoRotate,
    /// Auto will report as this mode if entered to perform a DO_LAND_START Landing sequence
    AutoRtl,
    /// Flip over after crash
    Turtle,
    /// A mode this firmware does not define.
    Unknown(u32),
}

impl CustomMode {
    /// The variant for a wire value; `Unknown` keeps any other value.
    pub open spec fn spec_from_u32(value: u32) -> CustomMode {
        if value == 255 {
            CustomMode::PreFlight
        } else if value == 0 {
            CustomMode::Stabilize
        } else if value == 1 {
            CustomMode::Acro
        } else if value == 2 {
            CustomMode::AltHold
        } else if value == 3 {
            CustomMode::Auto
        } else if value == 4 {
            CustomMode::Guided
        } else if value == 5 {
            CustomMode::Loiter
        } else if value == 6 {
            CustomMode::Rtl
        } else if value == 7 {
            CustomMode::Circle
        } else if value == 9 {
            CustomMode::Land
        } else if value == 11 {
            CustomMode::Drift
        } else if value == 13 {
            CustomMode::Sport
        } else if value == 14 {
            CustomMode::Flip
        } else if value == 15 {
            CustomMode::AutoTune
        } else if value == 16 {
            CustomMode::PosHold
        } else if value == 17 {
            CustomMode::Brake
        } else if value == 18 {
            CustomMode::Throw
        } else if value == 19 {
            CustomMode::AvoidAdsb
        } else if value == 20 {
            CustomMode::GuidedNoGps
        } else if value == 21 {
            CustomMode::SmartRtl
        } else if value == 22 {
            CustomMode::FlowHold
        } else if value == 23 {
            CustomMode::Follow
        } else if value == 24 {
            CustomMode::ZigZag
        } else if value == 25 {
            CustomMode::SystemId
        } else if value == 26 {
            CustomMode::AutoRotate
        } else if value == 27 {
            CustomMode::AutoRtl
        } else if value == 28 {
            CustomMode::Turtle
        } else {
            CustomMode::Unknown(value)
        }
    }

    /// The variant for a wire value; `Unknown` keeps any other value.
    pub fn from_u32(value: u32) -> (r: CustomMode)
        ensures
            r == Self::spec_from_u32(value),
    {
        match value {
            255 => CustomMode::PreFlight,
            0 => CustomMode::Stabilize,
            1 => CustomMode::Acro,
            2 => CustomMode::AltHold,
            3 => CustomMode::Auto,
            4 => CustomMode::Guided,
            5 => CustomMode::Loiter,
            6 => CustomMode::Rtl,
            7 => CustomMode::Circle,
            9 => CustomMode::Land,
            11 => CustomMode::Drift,
            13 => CustomMode::Sport,
            14 => CustomMode::Flip,
            15 => CustomMode::AutoTune,
            16 => CustomMode::PosHold,
            17 => CustomMode::Brake,
            18 => CustomMode::Throw,
            19 => CustomMode::AvoidAdsb,
            20 => CustomMode::GuidedNoGps,
            21 => CustomMode::SmartRtl,
            22 => CustomMode::FlowHold,
            23 => CustomMode::Follow,
            24 => CustomMode::ZigZag,
            25 => CustomMode::SystemId,
            26 => CustomMode::AutoRotate,
            27 => CustomMode::AutoRtl,
            28 => CustomMode::Turtle,
            _ => CustomMode::Unknown(value),
        }
    }

    /// The wire value of the variant.
    pub open spec fn spec_code(self) -> u32 {
        match self {
            CustomMode::PreFlight => 255,
            CustomMode::Stabilize => 0,
            CustomMode::Acro => 1,
            CustomMode::AltHold => 2,
            CustomMode::Auto => 3,
            CustomMode::Guided => 4,
            CustomMode::Loiter => 5,
            CustomMode::Rtl => 6,
            CustomMode::Circle => 7,
            CustomMode::Land => 9,
            CustomMode::Drift => 11,
            CustomMode::Sport => 13,
            CustomMode::Flip => 14,
            CustomMode::AutoTune => 15,
            CustomMode::PosHold => 16,
            CustomMode::Brake => 17,
            CustomMode::Throw => 18,
            CustomMode::AvoidAdsb => 19,
            CustomMode::GuidedNoGps => 20,
            CustomMode::SmartRtl => 21,
            CustomMode::FlowHold => 22,
            CustomMode::Follow => 23,
            CustomMode::ZigZag => 24,
            CustomMode::SystemId => 25,
            CustomMode::AutoRotate => 26,
            CustomMode::AutoRtl => 27,
            CustomMode::Turtle => 28,
            CustomMode::Unknown(value) => value,
        }
    }

    /// The wire value of the variant.
    pub fn code(&self) -> (r: u32)
        ensures
            r == self.spec_code(),
    {
        match self {
            CustomMode::PreFlight => 255,
            CustomMode::Stabilize => 0,
            CustomMode::Acro => 1,
            CustomMode::AltHold => 2,
            CustomMode::Auto => 3,
            CustomMode::Guided => 4,
            CustomMode::Loiter => 5,
            CustomMode::Rtl => 6,
            CustomMode::Circle => 7,
            CustomMode::Land => 9,
            CustomMode::Drift => 11,
            CustomMode::Sport => 13,
            CustomMode::Flip => 14,
            CustomMode::AutoTune => 15,
            CustomMode::PosHold => 16,
            CustomMode::Brake => 17,
            CustomMode::Throw => 18,
            CustomMode::AvoidAdsb => 19,
            CustomMode::GuidedNoGps => 20,
            CustomMode::SmartRtl => 21,
            CustomMode::FlowHold => 22,
            CustomMode::Follow => 23,
            CustomMode::ZigZag => 24,
            CustomMode::SystemId => 25,
            CustomMode::AutoRotate => 26,
            CustomMode::AutoRtl => 27,
            CustomMode::Turtle => 28,
            CustomMode::Unknown(value) => *value,
        }
    }

    /// The kebab-case name of a known mode.
    pub open spec fn spec_name(self) -> Seq<char> {
        match self {
            CustomMode::PreFlight => "pre-flight"@,
            CustomMode::Stabilize => "stabilize"@,
            CustomMode::Acro => "acro"@,
            CustomMode::AltHold => "alt-hold"@,
            CustomMode::Auto => "auto"@,
            CustomMode::Guided => "guided"@,
            CustomMode::Loiter => "loiter"@,
            CustomMode::Rtl => "rtl"@,
            CustomMode::Circle => "circle"@,
            CustomMode::Land => "land"@,
            CustomMode::Drift => "drift"@,
            CustomMode::Sport => "sport"@,
            CustomMode::Flip => "flip"@,
            CustomMode::AutoTune => "auto-tune"@,
            CustomMode::PosHold => "pos-hold"@,
            CustomMode::Brake => "brake"@,
            CustomMode::Throw => "throw"@,
            CustomMode::AvoidAdsb => "avoid-adsb"@,
            CustomMode::GuidedNoGps => "guided-no-gps"@,
            CustomMode::SmartRtl => "smart-rtl"@,
            CustomMode::FlowHold => "flow-hold"@,
            CustomMode::Follow => "follow"@,
            CustomMode::ZigZag => "zig-zag"@,
            CustomMode::SystemId => "system-id"@,
            CustomMode::AutoRotate => "auto-rotate"@,
            CustomMode::AutoRtl => "auto-rtl"@,
            CustomMode::Turtle => "turtle"@,
            CustomMode::Unknown(value) => "Unknown ("@ + decimal_chars(value as nat) + ")"@,
        }
    }

    /// The name of the mode: kebab-case for a known mode, `Unknown (<value>)` otherwise.
    pub fn name(&self) -> (r: String)
        ensures
            r@ == self.spec_name(),
    {
        match self {
            CustomMode::PreFlight => "pre-flight".to_string(),
            CustomMode::Stabilize => "stabilize".to_string(),
            CustomMode::Acro => "acro".to_string(),
            CustomMode::AltHold => "alt-hold".to_string(),
            CustomMode::Auto => "auto".to_string(),
            CustomMode::Guided => "guided".to_string(),
            CustomMode::Loiter => "loiter".to_string(),
            CustomMode::Rtl => "rtl".to_string(),
            CustomMode::Circle => "circle".to_string(),
            CustomMode::Land => "land".to_string(),
            CustomMode::Drift => "drift".to_string(),
            CustomMode::Sport => "sport".to_string(),
            CustomMode::Flip => "flip".to_string(),
            CustomMode::AutoTune => "auto-tune".to_string(),
            CustomMode::PosHold => "pos-hold".to_string(),
            CustomMode::Brake => "brake".to_string(),
            CustomMode::Throw => "throw".to_string(),
            CustomMode::AvoidAdsb => "avoid-adsb".to_string(),
            CustomMode::GuidedNoGps => "guided-no-gps".to_string(),
            CustomMode::SmartRtl => "smart-rtl".to_string(),
            CustomMode::FlowHold => "flow-hold".to_string(),
            CustomMode::Follow => "follow".to_string(),
            CustomMode::ZigZag => "zig-zag".to_string(),
            CustomMode::SystemId => "system-id".to_string(),
            CustomMode::AutoRotate => "auto-rotate".to_string(),
            CustomMode::AutoRtl => "auto-rtl".to_string(),
            CustomMode::Turtle => "turtle".to_string(),
            CustomMode::Unknown(value) => {
                let mut s = "Unknown (".to_string();
                append_decimal(&mut s, *value as u64);
                append_str(&mut s, ")");
                s
            },
        }
    }
}

/// Reading back the wire value of the variant read from any value gives that value.
pub proof fn lemma_custommode_code_roundtrip(value: u32)
    ensures
        CustomMode::spec_from_u32(value).spec_code() == value,
{
}

/// Every known variant is read back from its own wire value.
pub proof fn lemma_custommode_known_roundtrip(m: CustomMode)
    requires
        !(m is Unknown),
    ensures
        CustomMode::spec_from_u32(m.spec_code()) == m,
{
}

} // verus!
