pub mod fake;
pub mod file;
pub mod query;
pub mod registry;
pub mod rest;
pub mod serial;
pub mod tasks;
pub mod tcp;
pub mod tlog;
pub mod udp;
pub mod udp_clients;
pub mod websocket;
pub mod zenoh;

use vstd::prelude::*;

use crate::endpoint_url::{opt_view, UrlView};
use crate::text::str_eq;

verus! {

/// The kinds of drivers that endpoints can create.
#[derive(Clone, Copy, Debug, PartialEq, Eq, Structural)]
pub enum Type {
    FakeSink,
    FakeSource,
    Serial,
    TlogWriter,
    TlogReader,
    TcpClient,
    TcpServer,
    UdpClient,
    UdpServer,
    Zenoh,
}

/// Which way messages flow through a driver.
#[derive(Copy, Clone, Debug, PartialEq, Eq, Structural)]
pub enum Direction {
    Both,
    Receiver,
    Sender,
}

impl Direction {
    /// The default direction: both ways.
    pub fn default() -> (r: Direction)
        ensures
            r == Direction::Both,
    {
        Direction::Both
    }

    /// Whether the driver only receives.
    pub fn receive_only(&self) -> (r: bool)
        ensures
            r == (*self == Direction::Receiver),
    {
        *self == Direction::Receiver
    }

    /// Whether the driver only sends.
    pub fn send_only(&self) -> (r: bool)
        ensures
            r == (*self == Direction::Sender),
    {
        *self == Direction::Sender
    }

    /// Whether the driver receives messages.
    pub fn can_receive(&self) -> (r: bool)
        ensures
            r == (*self == Direction::Receiver || *self == Direction::Both),
    {
        *self == Direction::Receiver || *self == Direction::Both
    }

    /// Whether the driver sends messages.
    pub fn can_send(&self) -> (r: bool)
        ensures
            r == (*self == Direction::Sender || *self == Direction::Both),
    {
        *self == Direction::Sender || *self == Direction::Both
    }

    /// The direction named in snake case: `both`, `receiver` or `sender`.
    pub open spec fn spec_parse(s: Seq<char>) -> Option<Direction> {
        if s == "both"@ {
            Some(Direction::Both)
        } else if s == "receiver"@ {
            Some(Direction::Receiver)
        } else if s == "sender"@ {
            Some(Direction::Sender)
        } else {
            None
        }
    }

    /// Reads a direction named in snake case: `both`, `receiver` or `sender`.
    pub fn parse(s: &str) -> (r: Option<Direction>)
        ensures
            r == Self::spec_parse(s@),
    {
        if str_eq(s, "both") {
            Some(Direction::Both)
        } else if str_eq(s, "receiver") {
            Some(Direction::Receiver)
        } else if str_eq(s, "sender") {
            Some(Direction::Sender)
        } else {
            None
        }
    }
}

/// A driver never only receives and only sends at once, and it can always send or receive.
pub proof fn lemma_direction_capabilities(d: Direction)
    ensures
        !(d == Direction::Receiver && d == Direction::Sender),
        (d == Direction::Receiver || d == Direction::Both) || (d == Direction::Sender || d == Direction::Both),
        (d == Direction::Receiver) ==> !(d == Direction::Sender || d == Direction::Both),
        (d == Direction::Sender) ==> !(d == Direction::Receiver || d == Direction::Both),
{
}

/// When a tlog file is created.
#[derive(Clone, Copy, Debug, PartialEq, Eq, Structural)]
pub enum FileCreationCondition {
    /// Once the vehicle with this origin arms; a missing system id is learned from the first arming.
    WhileArmed { system_id: Option<u8>, component_id: u8 },
    /// Right away.
    Always,
}

/// A driver to build, as an endpoint describes it.
#[derive(Clone, Debug, PartialEq, Eq)]
pub enum EndpointSpec {
    TlogWriter { path: String, condition: FileCreationCondition },
    TlogReader { path: String },
    Serial { port_name: String, baud_rate: u32 },
    TcpClient { address: String },
    TcpServer { address: String },
    UdpClient { address: String, direction: Direction },
    UdpServer { address: String, direction: Direction },
    FakeSink { query: Option<String> },
    FakeSource { query: Option<String> },
    Zenoh,
    ZenohRaw,
    WebSocketClient { address: String, scheme: String, direction: Direction },
    FileClient { path: String },
    FileServer { host: String },
    Rest { name: String },
}

/// An [`EndpointSpec`] with its strings as characters.
pub enum EndpointSpecView {
    TlogWriter { path: Seq<char>, condition: FileCreationCondition },
    TlogReader { path: Seq<char> },
    Serial { port_name: Seq<char>, baud_rate: u32 },
    TcpClient { address: Seq<char> },
    TcpServer { address: Seq<char> },
    UdpClient { address: Seq<char>, direction: Direction },
    UdpServer { address: Seq<char>, direction: Direction },
    FakeSink { query: Option<Seq<char>> },
    FakeSource { query: Option<Seq<char>> },
    Zenoh,
    ZenohRaw,
    WebSocketClient { address: Seq<char>, scheme: Seq<char>, direction: Direction },
    FileClient { path: Seq<char> },
    FileServer { host: Seq<char> },
    Rest { name: Seq<char> },
}

impl View for EndpointSpec {
    type V = EndpointSpecView;

    open spec fn view(&self) -> EndpointSpecView {
        match self {
            EndpointSpec::TlogWriter { path, condition } => EndpointSpecView::TlogWriter { path: path@, condition: *condition },
            EndpointSpec::TlogReader { path } => EndpointSpecView::TlogReader { path: path@ },
            EndpointSpec::Serial { port_name, baud_rate } => EndpointSpecView::Serial { port_name: port_name@, baud_rate: *baud_rate },
            EndpointSpec::TcpClient { address } => EndpointSpecView::TcpClient { address: address@ },
            EndpointSpec::TcpServer { address } => EndpointSpecView::TcpServer { address: address@ },
            EndpointSpec::UdpClient { address, direction } => EndpointSpecView::UdpClient { address: address@, direction: *direction },
            EndpointSpec::UdpServer { address, direction } => EndpointSpecView::UdpServer { address: address@, direction: *direction },
            EndpointSpec::FakeSink { query } => EndpointSpecView::FakeSink { query: opt_view(*query) },
            EndpointSpec::FakeSource { query } => EndpointSpecView::FakeSource { query: opt_view(*query) },
            EndpointSpec::Zenoh => EndpointSpecView::Zenoh,
            EndpointSpec::ZenohRaw => EndpointSpecView::ZenohRaw,
            EndpointSpec::WebSocketClient { address, scheme, direction } => EndpointSpecView::WebSocketClient { address: address@, scheme: scheme@, direction: *direction },
            EndpointSpec::FileClient { path } => EndpointSpecView::FileClient { path: path@ },
            EndpointSpec::FileServer { host } => EndpointSpecView::FileServer { host: host@ },
            EndpointSpec::Rest { name } => EndpointSpecView::Rest { name: name@ },
        }
    }
}

impl EndpointSpec {
    /// A copy with the same view.
    pub fn duplicate(&self) -> (r: EndpointSpec)
        ensures
            r@ == self@,
    {
        match self {
            EndpointSpec::TlogWriter { path, condition } => EndpointSpec::TlogWriter { path: path.clone(), condition: *condition },
            EndpointSpec::TlogReader { path } => EndpointSpec::TlogReader { path: path.clone() },
            EndpointSpec::Serial { port_name, baud_rate } => EndpointSpec::Serial { port_name: port_name.clone(), baud_rate: *baud_rate },
            EndpointSpec::TcpClient { address } => EndpointSpec::TcpClient { address: address.clone() },
            EndpointSpec::TcpServer { address } => EndpointSpec::TcpServer { address: address.clone() },
            EndpointSpec::UdpClient { address, direction } => EndpointSpec::UdpClient { address: address.clone(), direction: *direction },
            EndpointSpec::UdpServer { address, direction } => EndpointSpec::UdpServer { address: address.clone(), direction: *direction },
            EndpointSpec::FakeSink { query } => EndpointSpec::FakeSink { query: clone_opt(query) },
            EndpointSpec::FakeSource { query } => EndpointSpec::FakeSource { query: clone_opt(query) },
            EndpointSpec::Zenoh => EndpointSpec::Zenoh,
            EndpointSpec::ZenohRaw => EndpointSpec::ZenohRaw,
            EndpointSpec::WebSocketClient { address, scheme, direction } => EndpointSpec::WebSocketClient {
                address: address.clone(),
                scheme: scheme.clone(),
                direction: *direction,
            },
            EndpointSpec::FileClient { path } => EndpointSpec::FileClient { path: path.clone() },
            EndpointSpec::FileServer { host } => EndpointSpec::FileServer { host: host.clone() },
            EndpointSpec::Rest { name } => EndpointSpec::Rest { name: name.clone() },
        }
    }
}

/// A copy of an optional string.
fn clone_opt(s: &Option<String>) -> (r: Option<String>)
    ensures
        opt_view(r) == opt_view(*s),
{
    match s {
        Some(t) => Some(t.clone()),
        None => None,
    }
}

/// The characters of each string.
pub open spec fn strs_view(v: Seq<&str>) -> Seq<Seq<char>> {
    v.map_values(|s: &str| s@)
}

/// The legacy `<scheme>:<arg1>[:<arg2>]` description of an endpoint, tied to a driver type.
#[derive(Debug, Clone)]
pub struct DriverDescriptionLegacy {
    pub typ: Type,
    pub arg1: String,
    pub arg2: Option<String>,
}

} // verus!
pub mod endpoints;
