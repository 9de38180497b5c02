use vstd::prelude::*;

use super::query::{first_direction, query_direction};
use super::{strs_view, Direction, EndpointSpec, EndpointSpecView};
use crate::endpoint_url::{EndpointUrl, UrlView};
use crate::text::{decimal_chars, host_port};

verus! {

/// The `<host>:<port>` address of a URL that has both.
pub open spec fn url_address(u: UrlView) -> Seq<char> {
    u.host->0 + ":"@ + decimal_chars(u.port->0 as nat)
}

/// Whether a URL has a host and a port.
pub open spec fn has_host_and_port(u: UrlView) -> bool {
    u.host is Some && u.port is Some
}

/// The direction a URL asks for; both ways when it names none.
pub open spec fn url_direction(u: UrlView) -> Direction {
    match first_direction(u.query_pairs) {
        Some(d) => d,
        None => Direction::Both,
    }
}

/// Reads the `<host>:<port>` address of a URL that has both.
pub fn address_of(url: &EndpointUrl) -> (r: String)
    requires
        has_host_and_port(url@),
    ensures
        r@ == url_address(url@),
{
    let host = match url.host() {
        Some(h) => h.as_str(),
        None => "",
    };
    let port = match url.port() {
        Some(p) => p,
        None => 0,
    };
    host_port(host, port)
}

/// Reads the direction a URL asks for; both ways when it names none.
pub fn direction_of(url: &EndpointUrl) -> (r: Direction)
    ensures
        r == url_direction(url@),
{
    match query_direction(url.query_pairs()) {
        Some(d) => d,
        None => Direction::Both,
    }
}

/// Endpoints of UDP client drivers.
pub struct UdpClientInfo;

impl UdpClientInfo {
    pub fn name(&self) -> (r: &'static str)
        ensures
            r@ == "UdpClient"@,
    {
        "UdpClient"
    }

    pub open spec fn spec_valid_schemes() -> Seq<Seq<char>> {
        seq!["udpclient"@, "udpout"@, "udpc"@]
    }

    pub fn valid_schemes(&self) -> (r: Vec<&'static str>)
        ensures
            strs_view(r@) == Self::spec_valid_schemes(),
    {
        let r = vec!["udpclient", "udpout", "udpc"];
        assert(strs_view(r@) =~= Self::spec_valid_schemes());
        r
    }

    pub fn cli_example_legacy(&self) -> (r: Vec<String>)
        ensures
            r@.len() == 3,
            r@[0]@ == "udpclient:<IP>:<PORT>"@,
            r@[1]@ == "udpclient:0.0.0.0:14550"@,
            r@[2]@ == "udpout:192.168.2.1:14660"@,
    {
        vec!["udpclient:<IP>:<PORT>".to_string(), "udpclient:0.0.0.0:14550".to_string(), "udpout:192.168.2.1:14660".to_string()]
    }

    /// The driver a URL describes: a client to `<host>:<port>` in the direction the query
    /// names (both by default); none for a receive-only client, since a UDP client must send
    /// before it can receive.
    pub open spec fn spec_create(u: UrlView) -> Option<EndpointSpecView> {
        if url_direction(u) == Direction::Receiver {
            None
        } else {
            Some(EndpointSpecView::UdpClient { address: url_address(u), direction: url_direction(u) })
        }
    }

    pub fn create_endpoint_from_url(&self, url: &EndpointUrl) -> (r: Option<EndpointSpec>)
        requires
            has_host_and_port(url@),
        ensures
            match r {
                Some(s) => Self::spec_create(url@) == Some(s@),
                None => Self::spec_create(url@) is None,
            },
    {
        let address = address_of(url);
        let direction = direction_of(url);
        if direction.receive_only() {
            return None;
        }
        Some(EndpointSpec::UdpClient { address, direction })
    }
}

/// Endpoints of UDP server drivers.
pub struct UdpServerInfo;

impl UdpServerInfo {
    pub fn name(&self) -> (r: &'static str)
        ensures
            r@ == "UdpServer"@,
    {
        "UdpServer"
    }

    pub open spec fn spec_valid_schemes() -> Seq<Seq<char>> {
        seq!["udpserver"@, "udpin"@, "udps"@]
    }

    pub fn valid_schemes(&self) -> (r: Vec<&'static str>)
        ensures
            strs_view(r@) == Self::spec_valid_schemes(),
    {
        let r = vec!["udpserver", "udpin", "udps"];
        assert(strs_view(r@) =~= Self::spec_valid_schemes());
        r
    }

    pub fn cli_example_legacy(&self) -> (r: Vec<String>)
        ensures
            r@.len() == 3,
            r@[0]@ == "udpserver:<IP>:<PORT>"@,
            r@[1]@ == "udpserver:0.0.0.0:14550"@,
            r@[2]@ == "udpin:127.0.0.1:14660"@,
    {
        vec!["udpserver:<IP>:<PORT>".to_string(), "udpserver:0.0.0.0:14550".to_string(), "udpin:127.0.0.1:14660".to_string()]
    }

    /// The driver a URL describes: a server on `<host>:<port>` in the direction the query
    /// names, both by default.
    pub open spec fn spec_create(u: UrlView) -> Option<EndpointSpecView> {
        Some(EndpointSpecView::UdpServer { address: url_address(u), direction: url_direction(u) })
    }

    pub fn create_endpoint_from_url(&self, url: &EndpointUrl) -> (r: Option<EndpointSpec>)
        requires
            has_host_and_port(url@),
        ensures
            match r {
                Some(s) => Self::spec_create(url@) == Some(s@),
                None => Self::spec_create(url@) is None,
            },
    {
        let address = address_of(url);
        let direction = direction_of(url);
        Some(EndpointSpec::UdpServer { address, direction })
    }
}

} // verus!
