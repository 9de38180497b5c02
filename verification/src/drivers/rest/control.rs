use vstd::prelude::*;

use super::autopilot::ardupilot::{
    firmware_type, flight_mode, has_firmware, vehicle_has_firmware, spec_firmware_type, spec_flight_mode, Capabilities, FirmwareType,
    ALL_CAPABILITIES,
};
use super::autopilot::{AutoPilotType, VehicleType};
use crate::mav::{autopilot_component_id, safety_armed_flag};
use crate::text::{append_decimal, decimal_chars, push_char};

verus! {

/// The vehicle addressed when a request names none.
pub const DEFAULT_VEHICLE_ID: u8 = 1;

/// The second parameter of an arming command that overrides the preflight checks (when
/// arming) or disarms in flight.
pub const FORCE_ARMING_MAGIC: u16 = 21196;

/// The id of the `AUTOPILOT_VERSION` message, which a version request asks for.
pub const AUTOPILOT_VERSION_MESSAGE_ID: u16 = 148;

/// The id of the autopilot component, which every vehicle has.
pub open spec fn autopilot_component() -> u8 {
    1
}

/// The commands this module sends.
#[derive(Clone, Copy, Debug, PartialEq, Eq, Structural)]
pub enum CommandKind {
    /// `MAV_CMD_COMPONENT_ARM_DISARM`.
    ComponentArmDisarm,
    /// `MAV_CMD_REQUEST_MESSAGE`.
    RequestMessage,
}

/// A `COMMAND_LONG` whose first two parameters are whole numbers; the others are zero.
#[derive(Clone, Copy, Debug, PartialEq, Eq, Structural)]
pub struct CommandLong {
    pub command: CommandKind,
    pub target_system: u8,
    pub target_component: u8,
    pub param1: u16,
    pub param2: u16,
}

/// The vehicle and component a request addresses: vehicle 1 and its autopilot unless named.
pub open spec fn spec_target(vehicle_id: Option<u8>, component_id: Option<u8>) -> (u8, u8) {
    (
        match vehicle_id { Some(v) => v, None => DEFAULT_VEHICLE_ID },
        match component_id { Some(c) => c, None => autopilot_component() },
    )
}

/// The vehicle and component a request addresses.
pub fn target(vehicle_id: Option<u8>, component_id: Option<u8>) -> (r: (u8, u8))
    ensures
        r == spec_target(vehicle_id, component_id),
{
    let vehicle_id = match vehicle_id {
        Some(v) => v,
        None => DEFAULT_VEHICLE_ID,
    };
    let component_id = match component_id {
        Some(c) => c,
        None => autopilot_component_id(),
    };
    (vehicle_id, component_id)
}

/// The command that arms (`arm`) or disarms a component: the first parameter is 1 to arm
/// and 0 to disarm, the second the forcing value when forced (not by default) and 0 else.
pub fn generic_arming(vehicle_id: Option<u8>, component_id: Option<u8>, force: Option<bool>, arm: bool) -> (r: CommandLong)
    ensures
        r.command == CommandKind::ComponentArmDisarm,
        (r.target_system, r.target_component) == spec_target(vehicle_id, component_id),
        r.param1 == (if arm { 1u16 } else { 0u16 }),
        r.param2 == (if force == Some(true) { FORCE_ARMING_MAGIC } else { 0u16 }),
{
    let (target_system, target_component) = target(vehicle_id, component_id);
    let force = match force {
        Some(f) => f,
        None => false,
    };
    CommandLong {
        command: CommandKind::ComponentArmDisarm,
        target_system,
        target_component,
        param1: if arm { 1 } else { 0 },
        param2: if force { FORCE_ARMING_MAGIC } else { 0 },
    }
}

/// The command that arms a component.
pub fn arm(vehicle_id: Option<u8>, component_id: Option<u8>, force: Option<bool>) -> (r: CommandLong)
    ensures
        r.command == CommandKind::ComponentArmDisarm,
        (r.target_system, r.target_component) == spec_target(vehicle_id, component_id),
        r.param1 == 1,
        r.param2 == (if force == Some(true) { FORCE_ARMING_MAGIC } else { 0u16 }),
{
    generic_arming(vehicle_id, component_id, force, true)
}

/// The command that disarms a component.
pub fn disarm(vehicle_id: Option<u8>, component_id: Option<u8>, force: Option<bool>) -> (r: CommandLong)
    ensures
        r.command == CommandKind::ComponentArmDisarm,
        (r.target_system, r.target_component) == spec_target(vehicle_id, component_id),
        r.param1 == 0,
        r.param2 == (if force == Some(true) { FORCE_ARMING_MAGIC } else { 0u16 }),
{
    generic_arming(vehicle_id, component_id, force, false)
}

/// The command that asks a component for its `AUTOPILOT_VERSION`.
pub fn version_request(vehicle_id: u8, component_id: u8) -> (r: CommandLong)
    ensures
        r == (CommandLong {
            command: CommandKind::RequestMessage,
            target_system: vehicle_id,
            target_component: component_id,
            param1: AUTOPILOT_VERSION_MESSAGE_ID,
            param2: 0,
        }),
{
    CommandLong {
        command: CommandKind::RequestMessage,
        target_system: vehicle_id,
        target_component: component_id,
        param1: AUTOPILOT_VERSION_MESSAGE_ID,
        param2: 0,
    }
}

/// Whether a message with this header comes from the awaited vehicle and component.
pub fn is_from(vehicle_id: u8, component_id: u8, header_system_id: u8, header_component_id: u8) -> (r: bool)
    ensures
        r == (header_system_id == vehicle_id && header_component_id == component_id),
{
    header_system_id == vehicle_id && header_component_id == component_id
}

/// The version of the firmware and the capabilities that an autopilot announces.
#[derive(Clone, Copy, Debug, PartialEq, Eq, Structural)]
pub struct Version {
    pub capabilities: Capabilities,
    pub major: u64,
    pub minor: u64,
    pub patch: u64,
}

/// A [`Version`] with the capabilities as bits.
pub struct VersionView {
    pub capabilities: u64,
    pub major: u64,
    pub minor: u64,
    pub patch: u64,
}

impl View for Version {
    type V = VersionView;

    open spec fn view(&self) -> VersionView {
        VersionView {
            capabilities: self.capabilities.spec_bits(),
            major: self.major,
            minor: self.minor,
            patch: self.patch,
        }
    }
}

/// The version announced in an `AUTOPILOT_VERSION`: major, minor and patch are the highest
/// three bytes of the firmware version; unknown capability bits are dropped.
pub open spec fn spec_announced_version(flight_sw_version: u32, capability_bits: u64) -> VersionView {
    VersionView {
        capabilities: capability_bits & ALL_CAPABILITIES,
        major: ((flight_sw_version >> 24u32) & 0xffu32) as u64,
        minor: ((flight_sw_version >> 16u32) & 0xffu32) as u64,
        patch: ((flight_sw_version >> 8u32) & 0xffu32) as u64,
    }
}

/// The autopilot component of a vehicle, as heartbeats and version announcements make it known.
#[derive(Debug)]
pub struct VehicleComponent {
    pub component_id: u8,
    pub armed: bool,
    pub autopilot: Option<AutoPilotType>,
    pub vehicle_type: Option<VehicleType>,
    pub mode: String,
    pub version: Option<Version>,
    pub firmware_type: Option<FirmwareType>,
}

/// A [`VehicleComponent`] as values.
pub struct VehicleComponentView {
    pub component_id: u8,
    pub armed: bool,
    pub autopilot: Option<AutoPilotType>,
    pub vehicle_type: Option<VehicleType>,
    pub mode: Seq<char>,
    pub version: Option<VersionView>,
    pub firmware_type: Option<FirmwareType>,
}

impl View for VehicleComponent {
    type V = VehicleComponentView;

    open spec fn view(&self) -> VehicleComponentView {
        VehicleComponentView {
            component_id: self.component_id,
            armed: self.armed,
            autopilot: self.autopilot,
            vehicle_type: self.vehicle_type,
            mode: self.mode@,
            version: match self.version {
                Some(v) => Some(v@),
                None => None,
            },
            firmware_type: self.firmware_type,
        }
    }
}

/// An autopilot (component 1) of which nothing is known yet.
pub open spec fn unknown_autopilot() -> VehicleComponentView {
    VehicleComponentView {
        component_id: autopilot_component(),
        armed: false,
        autopilot: None,
        vehicle_type: None,
        mode: Seq::empty(),
        version: None,
        firmware_type: None,
    }
}

impl VehicleComponent {
    /// An autopilot of which nothing is known yet.
    pub fn new() -> (r: VehicleComponent)
        ensures
            r@ == unknown_autopilot(),
    {
        VehicleComponent {
            component_id: autopilot_component_id(),
            armed: false,
            autopilot: None,
            vehicle_type: None,
            mode: String::new(),
            version: None,
            firmware_type: None,
        }
    }

    /// A copy with the same view.
    pub fn duplicate(&self) -> (r: VehicleComponent)
        ensures
            r@ == self@,
    {
        VehicleComponent {
            component_id: self.component_id,
            armed: self.armed,
            autopilot: self.autopilot,
            vehicle_type: self.vehicle_type,
            mode: self.mode.clone(),
            version: self.version,
            firmware_type: self.firmware_type,
        }
    }
}

/// A vehicle and what is known of its autopilot.
#[derive(Debug)]
pub struct Vehicle {
    pub vehicle_id: u8,
    pub autopilot: VehicleComponent,
}

/// A [`Vehicle`] as values.
pub struct VehicleView {
    pub vehicle_id: u8,
    pub autopilot: VehicleComponentView,
}

impl View for Vehicle {
    type V = VehicleView;

    open spec fn view(&self) -> VehicleView {
        VehicleView { vehicle_id: self.vehicle_id, autopilot: self.autopilot@ }
    }
}

/// What a vehicle learns from a message of its autopilot.
#[derive(Clone, Copy, Debug)]
pub enum VehicleMessage {
    /// A `HEARTBEAT`: mode flags, custom mode, autopilot kind and vehicle type.
    Heartbeat { base_mode: u8, custom_mode: u32, autopilot: u8, mavtype: u8 },
    /// An `AUTOPILOT_VERSION`: the firmware version and the capability bits.
    AutopilotVersion { flight_sw_version: u32, capabilities: u64 },
    /// An attitude, a position or a parameter value, which the caller keeps.
    Telemetry,
    /// Any other message.
    Other,
}

/// The parameters to load after a version announcement: those of this firmware at this
/// `<major>.<minor>` version.
#[derive(Debug)]
pub struct ParameterReload {
    pub firmware: FirmwareType,
    pub version_major_minor: String,
}

/// What the caller has to do after a message: publish the vehicle (`updated`), ask the
/// autopilot for its version, or load the parameter descriptions and ask for the parameters.
#[derive(Debug)]
pub struct VehicleUpdate {
    pub updated: bool,
    pub request_version: bool,
    pub reload_parameters: Option<ParameterReload>,
}

/// [`VehicleUpdate`] as values.
pub struct VehicleUpdateView {
    pub updated: bool,
    pub request_version: bool,
    pub reload_parameters: Option<(FirmwareType, Seq<char>)>,
}

impl View for VehicleUpdate {
    type V = VehicleUpdateView;

    open spec fn view(&self) -> VehicleUpdateView {
        VehicleUpdateView {
            updated: self.updated,
            request_version: self.request_version,
            reload_parameters: match self.reload_parameters {
                Some(p) => Some((p.firmware, p.version_major_minor@)),
                None => None,
            },
        }
    }
}

/// The `<major>.<minor>` text of a version.
pub open spec fn major_minor(major: u64, minor: u64) -> Seq<char> {
    decimal_chars(major as nat) + "."@ + decimal_chars(minor as nat)
}

/// Whether a message with this header is the vehicle's: its own autopilot sent it.
pub open spec fn addressed(v: VehicleView, system_id: u8, component_id: u8) -> bool {
    system_id == v.vehicle_id && component_id == autopilot_component()
}

/// The messages a vehicle can take: a heartbeat of an ArduPilot autopilot with mode flags set
/// must name a vehicle type that a firmware drives, and a version announcement must come
/// after a heartbeat that named such a type.
pub open spec fn message_accepted(v: VehicleView, system_id: u8, component_id: u8, message: VehicleMessage) -> bool {
    addressed(v, system_id, component_id) ==> match message {
        VehicleMessage::Heartbeat { base_mode, autopilot, mavtype, .. } =>
            (AutoPilotType::spec_from_u8(autopilot) == AutoPilotType::ArduPilotMega && base_mode != 0)
                ==> has_firmware(VehicleType::spec_from_u8(mavtype)),
        VehicleMessage::AutopilotVersion { .. } => match v.autopilot.vehicle_type {
            Some(t) => has_firmware(t),
            None => false,
        },
        _ => true,
    }
}

/// The autopilot after a heartbeat: armed when the safety-armed flag (128) is set, with the
/// autopilot kind and vehicle type named; an ArduPilot autopilot also shows its flight mode.
pub open spec fn spec_heartbeat(c: VehicleComponentView, base_mode: u8, custom_mode: u32, autopilot: u8, mavtype: u8) -> VehicleComponentView {
    let kind = AutoPilotType::spec_from_u8(autopilot);
    let vehicle_type = VehicleType::spec_from_u8(mavtype);
    VehicleComponentView {
        component_id: c.component_id,
        armed: (base_mode & 128u8) == 128u8,
        autopilot: Some(kind),
        vehicle_type: Some(vehicle_type),
        mode: if kind == AutoPilotType::ArduPilotMega {
            match spec_flight_mode(vehicle_type, base_mode, custom_mode) {
                Some(m) => m,
                None => c.mode,
            }
        } else {
            c.mode
        },
        version: c.version,
        firmware_type: c.firmware_type,
    }
}

/// Whether a version announcement is news: the first one, or one whose version or firmware
/// differs from the known ones.
pub open spec fn version_changed(c: VehicleComponentView, v: VersionView, firmware: FirmwareType) -> bool {
    match c.version {
        None => true,
        Some(known) => known.major != v.major || known.minor != v.minor || known.patch != v.patch
            || c.firmware_type != Some(firmware),
    }
}

/// The autopilot and the parameters to reload after a version announcement: news is taken
/// and reloads the parameters of the firmware at that version; anything else is ignored.
pub open spec fn spec_version_announced(c: VehicleComponentView, flight_sw_version: u32, capability_bits: u64) -> (VehicleComponentView, Option<(FirmwareType, Seq<char>)>) {
    let v = spec_announced_version(flight_sw_version, capability_bits);
    let firmware = spec_firmware_type(c.vehicle_type->0);
    if version_changed(c, v, firmware) {
        (
            VehicleComponentView {
                component_id: c.component_id,
                armed: c.armed,
                autopilot: c.autopilot,
                vehicle_type: c.vehicle_type,
                mode: c.mode,
                version: Some(v),
                firmware_type: Some(firmware),
            },
            Some((firmware, major_minor(v.major, v.minor))),
        )
    } else {
        (c, None)
    }
}

/// The vehicle after a message, and what the caller has to do. Messages of other vehicles or
/// components change nothing; telemetry only marks the vehicle updated.
pub open spec fn spec_vehicle_update(v: VehicleView, system_id: u8, component_id: u8, message: VehicleMessage) -> (VehicleView, VehicleUpdateView) {
    let nothing = VehicleUpdateView { updated: false, request_version: false, reload_parameters: None };
    if !addressed(v, system_id, component_id) {
        (v, nothing)
    } else {
        match message {
            VehicleMessage::Heartbeat { base_mode, custom_mode, autopilot, mavtype } => (
                VehicleView { vehicle_id: v.vehicle_id, autopilot: spec_heartbeat(v.autopilot, base_mode, custom_mode, autopilot, mavtype) },
                VehicleUpdateView { updated: true, request_version: v.autopilot.version is None, reload_parameters: None },
            ),
            VehicleMessage::AutopilotVersion { flight_sw_version, capabilities } => {
                let (c, reload) = spec_version_announced(v.autopilot, flight_sw_version, capabilities);
                (
                    VehicleView { vehicle_id: v.vehicle_id, autopilot: c },
                    VehicleUpdateView { updated: true, request_version: false, reload_parameters: reload },
                )
            },
            VehicleMessage::Telemetry => (v, VehicleUpdateView { updated: true, request_version: false, reload_parameters: None }),
            VehicleMessage::Other => (v, nothing),
        }
    }
}

impl Vehicle {
    /// A vehicle of which nothing is known but its id.
    pub fn new(vehicle_id: u8) -> (r: Vehicle)
        ensures
            r@ == (VehicleView { vehicle_id, autopilot: unknown_autopilot() }),
    {
        Vehicle { vehicle_id, autopilot: VehicleComponent::new() }
    }

    /// A copy with the same view.
    pub fn duplicate(&self) -> (r: Vehicle)
        ensures
            r@ == self@,
    {
        Vehicle { vehicle_id: self.vehicle_id, autopilot: self.autopilot.duplicate() }
    }

    /// Checks whether the vehicle can take a message.
    pub fn accepts(&self, system_id: u8, component_id: u8, message: VehicleMessage) -> (r: bool)
        ensures
            r == message_accepted(self@, system_id, component_id, message),
    {
        if system_id != self.vehicle_id || component_id != autopilot_component_id() {
            return true;
        }
        match message {
            VehicleMessage::Heartbeat { base_mode, autopilot, mavtype, .. } => {
                let kind = AutoPilotType::from_u8(autopilot);
                !(kind == AutoPilotType::ArduPilotMega && base_mode != 0) || vehicle_has_firmware(VehicleType::from_u8(mavtype))
            },
            VehicleMessage::AutopilotVersion { .. } => match self.autopilot.vehicle_type {
                Some(t) => vehicle_has_firmware(t),
                None => false,
            },
            _ => true,
        }
    }

    /// Takes what a message of the vehicle's autopilot tells, and says what the caller has
    /// to do next.
    pub fn update(&mut self, system_id: u8, component_id: u8, message: VehicleMessage) -> (r: VehicleUpdate)
        requires
            message_accepted(old(self)@, system_id, component_id, message),
        ensures
            (final(self)@, r@) == spec_vehicle_update(old(self)@, system_id, component_id, message),
    {
        let nothing = VehicleUpdate { updated: false, request_version: false, reload_parameters: None };
        if system_id != self.vehicle_id || component_id != autopilot_component_id() {
            return nothing;
        }
        match message {
            VehicleMessage::Heartbeat { base_mode, custom_mode, autopilot, mavtype } => {
                let flag = safety_armed_flag();
                let kind = AutoPilotType::from_u8(autopilot);
                let vehicle_type = VehicleType::from_u8(mavtype);
                self.autopilot.armed = (base_mode & flag) == flag;
                self.autopilot.autopilot = Some(kind);
                self.autopilot.vehicle_type = Some(vehicle_type);
                if kind == AutoPilotType::ArduPilotMega {
                    match flight_mode(vehicle_type, base_mode, custom_mode) {
                        Some(m) => {
                            self.autopilot.mode = m;
                        },
                        None => {},
                    }
                }
                VehicleUpdate {
                    updated: true,
                    request_version: self.autopilot.version.is_none(),
                    reload_parameters: None,
                }
            },
            VehicleMessage::AutopilotVersion { flight_sw_version, capabilities } => {
                let reload = self.autopilot.take_version(flight_sw_version, capabilities);
                VehicleUpdate { updated: true, request_version: false, reload_parameters: reload }
            },
            VehicleMessage::Telemetry => VehicleUpdate { updated: true, request_version: false, reload_parameters: None },
            VehicleMessage::Other => nothing,
        }
    }
}

impl VehicleComponent {
    /// Takes a version announcement where it is news; says which parameters to reload.
    fn take_version(&mut self, flight_sw_version: u32, capability_bits: u64) -> (r: Option<ParameterReload>)
        requires
            old(self).vehicle_type is Some,
            has_firmware(old(self).vehicle_type->0),
        ensures
            (final(self)@, match r {
                Some(p) => Some((p.firmware, p.version_major_minor@)),
                None => None,
            }) == spec_version_announced(old(self)@, flight_sw_version, capability_bits),
    {
        let major = ((flight_sw_version >> 24u32) & 0xffu32) as u64;
        let minor = ((flight_sw_version >> 16u32) & 0xffu32) as u64;
        let patch = ((flight_sw_version >> 8u32) & 0xffu32) as u64;
        let version = Version { capabilities: Capabilities::from_bits_truncate(capability_bits), major, minor, patch };
        let vehicle_type = match self.vehicle_type {
            Some(t) => t,
            None => {
                return None;
            },
        };
        let firmware = firmware_type(vehicle_type);
        let changed = match self.version {
            None => true,
            Some(known) => known.major != major || known.minor != minor || known.patch != patch || match self.firmware_type {
                Some(f) => f != firmware,
                None => true,
            },
        };
        if !changed {
            return None;
        }
        self.version = Some(version);
        self.firmware_type = Some(firmware);
        let mut text = String::new();
        append_decimal(&mut text, major);
        push_char(&mut text, '.');
        append_decimal(&mut text, minor);
        proof {
            reveal_strlit(".");
            assert(text@ =~= major_minor(major, minor));
        }
        Some(ParameterReload { firmware, version_major_minor: text })
    }
}


/// A message of another vehicle or of another component changes nothing and asks for nothing.
pub proof fn lemma_foreign_message_ignored(v: VehicleView, system_id: u8, component_id: u8, message: VehicleMessage)
    requires
        system_id != v.vehicle_id || component_id != autopilot_component(),
    ensures
        spec_vehicle_update(v, system_id, component_id, message).0 == v,
        !spec_vehicle_update(v, system_id, component_id, message).1.updated,
        !spec_vehicle_update(v, system_id, component_id, message).1.request_version,
        spec_vehicle_update(v, system_id, component_id, message).1.reload_parameters is None,
{
}

/// Announcing the same version twice reloads the parameters at most once: the second
/// announcement leaves the vehicle as it is and asks for nothing more.
pub proof fn lemma_version_announcement_idempotent(v: VehicleView, flight_sw_version: u32, capabilities: u64)
    requires
        message_accepted(v, v.vehicle_id, autopilot_component(), VehicleMessage::AutopilotVersion { flight_sw_version, capabilities }),
    ensures
        ({
            let message = VehicleMessage::AutopilotVersion { flight_sw_version, capabilities };
            let (once, _) = spec_vehicle_update(v, v.vehicle_id, autopilot_component(), message);
            let (twice, second) = spec_vehicle_update(once, once.vehicle_id, autopilot_component(), message);
            twice == once && second.reload_parameters is None
        }),
{
}

/// After a heartbeat the vehicle is armed exactly when the heartbeat carries the safety-armed
/// flag, and the next version announcement is asked for while no version is known.
pub proof fn lemma_heartbeat_sets_armed(v: VehicleView, base_mode: u8, custom_mode: u32, autopilot: u8, mavtype: u8)
    ensures
        ({
            let message = VehicleMessage::Heartbeat { base_mode, custom_mode, autopilot, mavtype };
            let (after, update) = spec_vehicle_update(v, v.vehicle_id, autopilot_component(), message);
            &&& after.autopilot.armed == ((base_mode & 128u8) == 128u8)
            &&& update.request_version == (v.autopilot.version is None)
            &&& after.autopilot.version == v.autopilot.version
        }),
{
}

/// Vehicle updates are published at most 16 times a second: at least `1000 / 16` (62)
/// milliseconds after the last one of the component.
pub const PUBLISH_INTERVAL_US: u64 = 62_000;

/// When a component's vehicle state was last published.
#[derive(Debug, Clone, Copy)]
pub struct PublishLimiter {
    pub last_update_us: u64,
}

impl PublishLimiter {
    /// A component first seen at `now_us`.
    pub fn new(now_us: u64) -> (r: PublishLimiter)
        ensures
            r.last_update_us == now_us,
    {
        PublishLimiter { last_update_us: now_us }
    }

    /// The vehicle changed at `now_us`: it is published when more than the interval passed
    /// since the last publication (a clock reading before it counts as no time), which then
    /// becomes `now_us`.
    pub fn on_update(&mut self, now_us: u64) -> (publish: bool)
        ensures
            publish == ((if now_us >= old(self).last_update_us { now_us - old(self).last_update_us } else { 0 }) > PUBLISH_INTERVAL_US),
            final(self).last_update_us == if publish { now_us } else { old(self).last_update_us },
    {
        if now_us.saturating_sub(self.last_update_us) > PUBLISH_INTERVAL_US {
            self.last_update_us = now_us;
            true
        } else {
            false
        }
    }
}

} // verus!
