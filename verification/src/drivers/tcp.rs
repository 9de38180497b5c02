use vstd::prelude::*;

use super::udp::{address_of, has_host_and_port, url_address};
use super::{strs_view, EndpointSpec, EndpointSpecView};
use crate::endpoint_url::{EndpointUrl, UrlView};

verus! {

/// Endpoints of TCP client drivers.
pub struct TcpClientInfo;

impl TcpClientInfo {
    pub fn name(&self) -> (r: &'static str)
        ensures
            r@ == "TcpClient"@,
    {
        "TcpClient"
    }

    pub open spec fn spec_valid_schemes() -> Seq<Seq<char>> {
        seq!["tcpc"@, "tcpclient"@]
    }

    pub fn valid_schemes(&self) -> (r: Vec<&'static str>)
        ensures
            strs_view(r@) == Self::spec_valid_schemes(),
    {
        let r = vec!["tcpc", "tcpclient"];
        assert(strs_view(r@) =~= Self::spec_valid_schemes());
        r
    }

    pub fn cli_example_legacy(&self) -> (r: Vec<String>)
        ensures
            r@.len() == 3,
            r@[0]@ == "tcpc:<IP>:<PORT>"@,
            r@[1]@ == "tcpc:0.0.0.0:14550"@,
            r@[2]@ == "tcpclient:127.0.0.1:14660"@,
    {
        vec!["tcpc:<IP>:<PORT>".to_string(), "tcpc:0.0.0.0:14550".to_string(), "tcpclient:127.0.0.1:14660".to_string()]
    }

    /// The driver a URL describes: a client to `<host>:<port>`.
    pub open spec fn spec_create(u: UrlView) -> Option<EndpointSpecView> {
        Some(EndpointSpecView::TcpClient { address: url_address(u) })
    }

    pub fn create_endpoint_from_url(&self, url: &EndpointUrl) -> (r: Option<EndpointSpec>)
        requires
            has_host_and_port(url@),
        ensures
            match r {
                Some(s) => Self::spec_create(url@) == Some(s@),
                None => Self::spec_create(url@) is None,
            },
    {
        Some(EndpointSpec::TcpClient { address: address_of(url) })
    }
}

/// Endpoints of TCP server drivers.
pub struct TcpServerInfo;

impl TcpServerInfo {
    pub fn name(&self) -> (r: &'static str)
        ensures
            r@ == "TcpServer"@,
    {
        "TcpServer"
    }

    pub open spec fn spec_valid_schemes() -> Seq<Seq<char>> {
        seq!["tcps"@, "tcpserver"@]
    }

    pub fn valid_schemes(&self) -> (r: Vec<&'static str>)
        ensures
            strs_view(r@) == Self::spec_valid_schemes(),
    {
        let r = vec!["tcps", "tcpserver"];
        assert(strs_view(r@) =~= Self::spec_valid_schemes());
        r
    }

    pub fn cli_example_legacy(&self) -> (r: Vec<String>)
        ensures
            r@.len() == 4,
            r@[0]@ == "tcps:<IP?>:<PORT>"@,
            r@[1]@ == "tcps:14550"@,
            r@[2]@ == "tcps:0.0.0.0:14550"@,
            r@[3]@ == "tcpserver:127.0.0.1:14660"@,
    {
        vec![
            "tcps:<IP?>:<PORT>".to_string(),
            "tcps:14550".to_string(),
            "tcps:0.0.0.0:14550".to_string(),
            "tcpserver:127.0.0.1:14660".to_string(),
        ]
    }

    /// The driver a URL describes: a server on `<host>:<port>`.
    pub open spec fn spec_create(u: UrlView) -> Option<EndpointSpecView> {
        Some(EndpointSpecView::TcpServer { address: url_address(u) })
    }

    pub fn create_endpoint_from_url(&self, url: &EndpointUrl) -> (r: Option<EndpointSpec>)
        requires
            has_host_and_port(url@),
        ensures
            match r {
                Some(s) => Self::spec_create(url@) == Some(s@),
                None => Self::spec_create(url@) is None,
            },
    {
        Some(EndpointSpec::TcpServer { address: address_of(url) })
    }
}

} // verus!
