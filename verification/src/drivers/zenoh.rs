use vstd::prelude::*;

use super::udp::has_host_and_port;
use super::{strs_view, EndpointSpec, EndpointSpecView};
use crate::endpoint_url::{EndpointUrl, UrlView};
use crate::text::{append_decimal, append_str, decimal_chars};

verus! {

/// The topic a message from `system_id`/`component_id` named `message_name` is published
/// under: `mavlink/<system id>/<component id>/<message name>`.
pub open spec fn spec_message_topic(system_id: u8, component_id: u8, message_name: Seq<char>) -> Seq<char> {
    "mavlink/"@ + decimal_chars(system_id as nat) + "/"@ + decimal_chars(component_id as nat) + "/"@ + message_name
}

/// Builds the topic of a message; see [`spec_message_topic`].
pub fn message_topic(system_id: u8, component_id: u8, message_name: &str) -> (r: String)
    ensures
        r@ == spec_message_topic(system_id, component_id, message_name@),
{
    let mut topic = String::new();
    append_str(&mut topic, "mavlink/");
    append_decimal(&mut topic, system_id as u64);
    append_str(&mut topic, "/");
    append_decimal(&mut topic, component_id as u64);
    append_str(&mut topic, "/");
    append_str(&mut topic, message_name);
    topic
}

/// The topic of one field of a message: `<message topic>/<field name>`.
pub fn field_topic(message_topic: &str, field_name: &str) -> (r: String)
    ensures
        r@ == message_topic@ + "/"@ + field_name@,
{
    let mut topic = String::new();
    append_str(&mut topic, message_topic);
    append_str(&mut topic, "/");
    append_str(&mut topic, field_name);
    topic
}

/// Endpoints of Zenoh drivers that carry MAVLink as JSON.
pub struct ZenohInfo;

impl ZenohInfo {
    pub fn name(&self) -> (r: &'static str)
        ensures
            r@ == "Zenoh"@,
    {
        "Zenoh"
    }

    pub open spec fn spec_valid_schemes() -> Seq<Seq<char>> {
        seq!["zenoh"@]
    }

    pub fn valid_schemes(&self) -> (r: Vec<&'static str>)
        ensures
            strs_view(r@) == Self::spec_valid_schemes(),
    {
        let r = vec!["zenoh"];
        assert(strs_view(r@) =~= Self::spec_valid_schemes());
        r
    }

    pub fn cli_example_legacy(&self) -> (r: Vec<String>)
        ensures
            r@.len() == 1,
            r@[0]@ == "zenoh:<IP>:<PORT>"@,
    {
        vec!["zenoh:<IP>:<PORT>".to_string()]
    }

    /// The driver a URL describes; the URL must name a host and a port, which the driver
    /// itself does not use.
    pub open spec fn spec_create(u: UrlView) -> Option<EndpointSpecView> {
        Some(EndpointSpecView::Zenoh)
    }

    pub fn create_endpoint_from_url(&self, url: &EndpointUrl) -> (r: Option<EndpointSpec>)
        requires
            has_host_and_port(url@),
        ensures
            match r {
                Some(s) => Self::spec_create(url@) == Some(s@),
                None => Self::spec_create(url@) is None,
            },
    {
        Some(EndpointSpec::Zenoh)
    }
}

/// Endpoints of Zenoh drivers that carry raw MAVLink bytes.
pub struct ZenohRawInfo;

impl ZenohRawInfo {
    pub fn name(&self) -> (r: &'static str)
        ensures
            r@ == "ZenohRaw"@,
    {
        "ZenohRaw"
    }

    pub open spec fn spec_valid_schemes() -> Seq<Seq<char>> {
        seq!["zenohraw"@]
    }

    pub fn valid_schemes(&self) -> (r: Vec<&'static str>)
        ensures
            strs_view(r@) == Self::spec_valid_schemes(),
    {
        let r = vec!["zenohraw"];
        assert(strs_view(r@) =~= Self::spec_valid_schemes());
        r
    }

    pub fn cli_example_legacy(&self) -> (r: Vec<String>)
        ensures
            r@.len() == 1,
            r@[0]@ == "zenohraw:<IP>:<PORT>"@,
    {
        vec!["zenohraw:<IP>:<PORT>".to_string()]
    }

    /// The driver a URL describes; the URL must name a host and a port, which the driver
    /// itself does not use.
    pub open spec fn spec_create(u: UrlView) -> Option<EndpointSpecView> {
        Some(EndpointSpecView::ZenohRaw)
    }

    pub fn create_endpoint_from_url(&self, url: &EndpointUrl) -> (r: Option<EndpointSpec>)
        requires
            has_host_and_port(url@),
        ensures
            match r {
                Some(s) => Self::spec_create(url@) == Some(s@),
                None => Self::spec_create(url@) is None,
            },
    {
        Some(EndpointSpec::ZenohRaw)
    }
}

} // verus!
