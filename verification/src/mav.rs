use vstd::prelude::*;

verus! {

/// `MAV_COMP_ID_AUTOPILOT1` of the `mavlink` crate's `ardupilotmega` dialect, whose
/// definition gives it the value 1.
#[verifier::external_body]
pub(crate) fn autopilot_component_id() -> (r: u8)
    ensures
        r == 1,
{
    mavlink::ardupilotmega::MavComponent::MAV_COMP_ID_AUTOPILOT1 as u8
}

/// `MAV_COMP_ID_USER42` of the `mavlink` crate's `ardupilotmega` dialect, whose definition
/// gives it the value 66.
#[verifier::external_body]
pub(crate) fn user42_component_id() -> (r: u8)
    ensures
        r == 66,
{
    mavlink::ardupilotmega::MavComponent::MAV_COMP_ID_USER42 as u8
}

/// The message id of `HEARTBEAT` (`HEARTBEAT_DATA::ID` of the `mavlink` crate), 0 by definition.
#[verifier::external_body]
pub(crate) fn heartbeat_message_id() -> (r: u32)
    ensures
        r == 0,
{
    <mavlink::ardupilotmega::HEARTBEAT_DATA as mavlink::MessageData>::ID
}

/// The bits of `MAV_MODE_FLAG_SAFETY_ARMED` of the `mavlink` crate, 128 by definition.
#[verifier::external_body]
pub(crate) fn safety_armed_flag() -> (r: u8)
    ensures
        r == 128,
{
    mavlink::ardupilotmega::MavModeFlag::MAV_MODE_FLAG_SAFETY_ARMED.bits()
}

} // verus!
