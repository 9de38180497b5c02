use vstd::prelude::*;

use crate::text::str_eq;

verus! {

/// What a driver's reader produced.
#[derive(Clone, Copy, Debug, PartialEq, Eq, Structural)]
pub enum ReadEvent {
    /// A packet was decoded.
    Packet,
    /// Bytes came that do not decode to a packet.
    DecodeError,
    /// The connection failed.
    IoError,
    /// The stream ended.
    EndOfStream,
}

/// What a driver's receive task does next.
#[derive(Clone, Copy, Debug, PartialEq, Eq, Structural)]
pub enum ReceiveAction {
    /// Hand the packet to the hub.
    Forward,
    /// Drop what came and read on.
    Skip,
    /// End the task.
    Stop,
}

/// The receive task hands decoded packets to the hub, skips what does not decode, and ends
/// with the connection or the stream.
pub fn on_read(event: ReadEvent) -> (r: ReceiveAction)
    ensures
        r == match event {
            ReadEvent::Packet => ReceiveAction::Forward,
            ReadEvent::DecodeError => ReceiveAction::Skip,
            ReadEvent::IoError | ReadEvent::EndOfStream => ReceiveAction::Stop,
        },
{
    match event {
        ReadEvent::Packet => ReceiveAction::Forward,
        ReadEvent::DecodeError => ReceiveAction::Skip,
        ReadEvent::IoError | ReadEvent::EndOfStream => ReceiveAction::Stop,
    }
}

/// What a driver's send task got from the hub.
#[derive(Clone, Debug)]
pub enum HubEvent {
    /// A message that came in through the driver or endpoint named `origin`.
    Message { origin: String },
    /// The hub closed its channel.
    Closed,
    /// The task fell behind and messages were lost.
    Lagged,
}

/// What a driver's send task does next.
#[derive(Clone, Copy, Debug, PartialEq, Eq, Structural)]
pub enum SendAction {
    /// Send the message out.
    Send,
    /// Leave the message and wait for the next.
    Skip,
    /// End the task.
    Stop,
}

/// The send task sends every message out except those that came in through the same
/// endpoint (no loopback); it goes on after falling behind and ends when the hub closes.
pub fn on_hub_event(identifier: &str, event: &HubEvent) -> (r: SendAction)
    ensures
        r == match event {
            HubEvent::Message { origin } => if origin@ == identifier@ { SendAction::Skip } else { SendAction::Send },
            HubEvent::Closed => SendAction::Stop,
            HubEvent::Lagged => SendAction::Skip,
        },
{
    match event {
        HubEvent::Message { origin } => if str_eq(origin.as_str(), identifier) {
            SendAction::Skip
        } else {
            SendAction::Send
        },
        HubEvent::Closed => SendAction::Stop,
        HubEvent::Lagged => SendAction::Skip,
    }
}

/// How sending a message out failed.
#[derive(Clone, Copy, Debug, PartialEq, Eq, Structural)]
pub enum SendFailure {
    /// The peer refused the datagram (a UDP peer that is not listening).
    ConnectionRefused,
    /// Any other failure.
    Other,
}

/// After a failed send, a UDP task goes on when the peer refused the datagram, since the
/// peer may start listening later; every other failure, and any failure of a stream, ends it.
pub fn continue_after_send_failure(datagram: bool, failure: SendFailure) -> (r: bool)
    ensures
        r == (datagram && failure == SendFailure::ConnectionRefused),
{
    datagram && failure == SendFailure::ConnectionRefused
}

} // verus!
