use vstd::prelude::*;

use super::udp::{address_of, direction_of, has_host_and_port, url_address, url_direction};
use super::{strs_view, EndpointSpec, EndpointSpecView};
use crate::endpoint_url::{EndpointUrl, UrlView};

verus! {

/// Whether `s` ends with `client`.
pub open spec fn ends_with_client(s: Seq<char>) -> bool {
    s.len() >= 6 && s.subrange(s.len() - 6, s.len() as int) == "client"@
}

/// Endpoints of WebSocket client drivers.
pub struct WebSocketClientInfo;

impl WebSocketClientInfo {
    pub fn name(&self) -> (r: &'static str)
        ensures
            r@ == "WsClient"@,
    {
        "WsClient"
    }

    pub open spec fn spec_valid_schemes() -> Seq<Seq<char>> {
        seq!["wsclient"@, "wssclient"@]
    }

    pub fn valid_schemes(&self) -> (r: Vec<&'static str>)
        ensures
            strs_view(r@) == Self::spec_valid_schemes(),
    {
        let r = vec!["wsclient", "wssclient"];
        assert(strs_view(r@) =~= Self::spec_valid_schemes());
        r
    }

    pub fn cli_example_legacy(&self) -> (r: Vec<String>)
        ensures
            r@.len() == 3,
            r@[0]@ == "wsclient:<HOST>:<PORT>"@,
            r@[1]@ == "wsclient:0.0.0.0:9988"@,
            r@[2]@ == "wsclient:192.168.1.100:9000"@,
    {
        vec![
            "wsclient:<HOST>:<PORT>".to_string(),
            "wsclient:0.0.0.0:9988".to_string(),
            "wsclient:192.168.1.100:9000".to_string(),
        ]
    }

    /// Whether the driver can be built from a URL: its scheme ends with `client` and it has a
    /// host and a port.
    pub open spec fn url_complete(u: UrlView) -> bool {
        ends_with_client(u.scheme) && has_host_and_port(u)
    }

    /// The driver a URL describes: a client to `<host>:<port>` with the scheme stripped of
    /// its `client` suffix (`ws` or `wss`), in the direction the query names, both by default.
    pub open spec fn spec_create(u: UrlView) -> Option<EndpointSpecView> {
        Some(EndpointSpecView::WebSocketClient {
            address: url_address(u),
            scheme: u.scheme.subrange(0, u.scheme.len() - 6),
            direction: url_direction(u),
        })
    }

    pub fn create_endpoint_from_url(&self, url: &EndpointUrl) -> (r: Option<EndpointSpec>)
        requires
            Self::url_complete(url@),
        ensures
            match r {
                Some(s) => Self::spec_create(url@) == Some(s@),
                None => Self::spec_create(url@) is None,
            },
    {
        let full = url.scheme().as_str();
        let n = full.unicode_len();
        let scheme = full.substring_char(0, n - 6).to_string();
        let address = address_of(url);
        let direction = direction_of(url);
        Some(EndpointSpec::WebSocketClient { address, scheme, direction })
    }
}

} // verus!
