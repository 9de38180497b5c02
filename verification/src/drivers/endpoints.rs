use vstd::prelude::*;

use super::fake::{FakeSinkInfo, FakeSourceInfo};
use super::file::{FileClientInfo, FileServerExt};
use super::rest::RestInfo;
use super::serial::SerialInfo;
use super::tcp::{TcpClientInfo, TcpServerInfo};
use super::tlog::{TlogReaderInfo, TlogWriterInfo};
use super::udp::{has_host_and_port, UdpClientInfo, UdpServerInfo};
use super::websocket::{ends_with_client, WebSocketClientInfo};
use super::zenoh::{ZenohInfo, ZenohRawInfo};
use super::{strs_view, DriverDescriptionLegacy, EndpointSpec, EndpointSpecView, Type};
use crate::endpoint_url::{
    parse_url, spec_url_append_pair, spec_url_parse, spec_url_set_port, url_append_pair, url_set_port,
    EndpointUrl, UrlView,
};
use crate::text::{
    concat_str, decimal_chars, decimal_digits, next_char_index, parse_u16_str, spec_parse_u16_str, str_eq,
    string_views,
};

verus! {

/// The endpoint kinds: each knows its schemes and how to build its driver from a URL.
#[derive(Clone, Copy, Debug, PartialEq, Eq, Structural)]
pub enum DriverKind {
    TlogWriter,
    TlogReader,
    Serial,
    TcpClient,
    TcpServer,
    UdpClient,
    UdpServer,
    FakeSink,
    FakeSource,
    Zenoh,
    ZenohRaw,
    WebSocketClient,
    Rest,
    FileClient,
    FileServer,
}

/// Why a legacy description gives no URL.
#[derive(Clone, Copy, Debug, PartialEq, Eq, Structural)]
pub enum LegacyUrlError {
    /// The endpoint kind has no scheme.
    NoDefaultScheme,
    /// `<scheme>://<host>` is no URL.
    InvalidUrl,
}

impl DriverKind {
    pub open spec fn spec_valid_schemes(self) -> Seq<Seq<char>> {
        match self {
            DriverKind::TlogWriter => TlogWriterInfo::spec_valid_schemes(),
            DriverKind::TlogReader => TlogReaderInfo::spec_valid_schemes(),
            DriverKind::Serial => SerialInfo::spec_valid_schemes(),
            DriverKind::TcpClient => TcpClientInfo::spec_valid_schemes(),
            DriverKind::TcpServer => TcpServerInfo::spec_valid_schemes(),
            DriverKind::UdpClient => UdpClientInfo::spec_valid_schemes(),
            DriverKind::UdpServer => UdpServerInfo::spec_valid_schemes(),
            DriverKind::FakeSink => FakeSinkInfo::spec_valid_schemes(),
            DriverKind::FakeSource => FakeSourceInfo::spec_valid_schemes(),
            DriverKind::Zenoh => ZenohInfo::spec_valid_schemes(),
            DriverKind::ZenohRaw => ZenohRawInfo::spec_valid_schemes(),
            DriverKind::WebSocketClient => WebSocketClientInfo::spec_valid_schemes(),
            DriverKind::Rest => RestInfo::spec_valid_schemes(),
            DriverKind::FileClient => FileClientInfo::spec_valid_schemes(),
            DriverKind::FileServer => FileServerExt::spec_valid_schemes(),
        }
    }

    /// The schemes that select this kind of endpoint.
    pub fn valid_schemes(&self) -> (r: Vec<&'static str>)
        ensures
            strs_view(r@) == self.spec_valid_schemes(),
    {
        match self {
            DriverKind::TlogWriter => TlogWriterInfo.valid_schemes(),
            DriverKind::TlogReader => TlogReaderInfo.valid_schemes(),
            DriverKind::Serial => SerialInfo.valid_schemes(),
            DriverKind::TcpClient => TcpClientInfo.valid_schemes(),
            DriverKind::TcpServer => TcpServerInfo.valid_schemes(),
            DriverKind::UdpClient => UdpClientInfo.valid_schemes(),
            DriverKind::UdpServer => UdpServerInfo.valid_schemes(),
            DriverKind::FakeSink => FakeSinkInfo.valid_schemes(),
            DriverKind::FakeSource => FakeSourceInfo.valid_schemes(),
            DriverKind::Zenoh => ZenohInfo.valid_schemes(),
            DriverKind::ZenohRaw => ZenohRawInfo.valid_schemes(),
            DriverKind::WebSocketClient => WebSocketClientInfo.valid_schemes(),
            DriverKind::Rest => RestInfo.valid_schemes(),
            DriverKind::FileClient => FileClientInfo.valid_schemes(),
            DriverKind::FileServer => FileServerExt.valid_schemes(),
        }
    }

    /// The name of the kind of driver.
    pub open spec fn spec_name(self) -> Seq<char> {
        match self {
            DriverKind::TlogWriter => "TlogWriter"@,
            DriverKind::TlogReader => "TlogReader"@,
            DriverKind::Serial => "Serial"@,
            DriverKind::TcpClient => "TcpClient"@,
            DriverKind::TcpServer => "TcpServer"@,
            DriverKind::UdpClient => "UdpClient"@,
            DriverKind::UdpServer => "UdpServer"@,
            DriverKind::FakeSink => "FakeSink"@,
            DriverKind::FakeSource => "FakeSource"@,
            DriverKind::Zenoh => "Zenoh"@,
            DriverKind::ZenohRaw => "ZenohRaw"@,
            DriverKind::WebSocketClient => "WsClient"@,
            DriverKind::Rest => "Rest"@,
            DriverKind::FileClient => "FileClient"@,
            DriverKind::FileServer => "FileServer"@,
        }
    }

    /// The name of the kind of driver.
    pub fn name(&self) -> (r: &'static str)
        ensures
            r@ == self.spec_name(),
    {
        match self {
            DriverKind::TlogWriter => TlogWriterInfo.name(),
            DriverKind::TlogReader => TlogReaderInfo.name(),
            DriverKind::Serial => SerialInfo.name(),
            DriverKind::TcpClient => TcpClientInfo.name(),
            DriverKind::TcpServer => TcpServerInfo.name(),
            DriverKind::UdpClient => UdpClientInfo.name(),
            DriverKind::UdpServer => UdpServerInfo.name(),
            DriverKind::FakeSink => FakeSinkInfo.name(),
            DriverKind::FakeSource => FakeSourceInfo.name(),
            DriverKind::Zenoh => ZenohInfo.name(),
            DriverKind::ZenohRaw => ZenohRawInfo.name(),
            DriverKind::WebSocketClient => WebSocketClientInfo.name(),
            DriverKind::Rest => RestInfo.name(),
            DriverKind::FileClient => FileClientInfo.name(),
            DriverKind::FileServer => "FileServer",
        }
    }

    /// The legacy entries the help shows for this kind of endpoint.
    pub open spec fn spec_cli_example_legacy(self) -> Seq<Seq<char>> {
        match self {
            DriverKind::TlogWriter => seq!["tlogwriter:<FILE>"@, "tlogwriter:<TLOGS_OUTPUT_DIR>"@,
                "tlogwriter:/tmp/potato.tlog"@, "tlogwriter:/tmp/tlogs_output_dir/"@,
                "tlogwriter:<tmp/tlogs_output_dir>/?when=always"@,
                "tlogwriter:<tmp/tlogs_output_dir>/?when=while_armed"@],
            DriverKind::TlogReader => seq!["tlogreader:<FILE>"@, "tlogreader:/tmp/potato.tlog"@],
            DriverKind::TcpClient => seq!["tcpc:<IP>:<PORT>"@, "tcpc:0.0.0.0:14550"@, "tcpclient:127.0.0.1:14660"@],
            DriverKind::TcpServer => seq!["tcps:<IP?>:<PORT>"@, "tcps:14550"@, "tcps:0.0.0.0:14550"@,
                "tcpserver:127.0.0.1:14660"@],
            DriverKind::UdpClient => seq!["udpclient:<IP>:<PORT>"@, "udpclient:0.0.0.0:14550"@, "udpout:192.168.2.1:14660"@],
            DriverKind::UdpServer => seq!["udpserver:<IP>:<PORT>"@, "udpserver:0.0.0.0:14550"@, "udpin:127.0.0.1:14660"@],
            DriverKind::FakeSink => seq!["fakesink:<MODE>"@, "fakesink:debug"@],
            DriverKind::FakeSource => seq!["fakesource:<MODE>"@, "fakesource:heartbeat"@],
            DriverKind::Zenoh => seq!["zenoh:<IP>:<PORT>"@],
            DriverKind::ZenohRaw => seq!["zenohraw:<IP>:<PORT>"@],
            DriverKind::WebSocketClient => seq!["wsclient:<HOST>:<PORT>"@, "wsclient:0.0.0.0:9988"@, "wsclient:192.168.1.100:9000"@],
            DriverKind::FileClient => seq!["fileclient:<FILE>"@, "fileclient:/tmp/potato.tlog"@],
            DriverKind::Serial | DriverKind::Rest | DriverKind::FileServer => Seq::empty(),
        }
    }

    /// The legacy entries the help shows for this kind of endpoint.
    pub fn cli_example_legacy(&self) -> (r: Vec<String>)
        ensures
            string_views(r@) == self.spec_cli_example_legacy(),
    {
        let r = match self {
            DriverKind::TlogWriter => TlogWriterInfo.cli_example_legacy(),
            DriverKind::TlogReader => TlogReaderInfo.cli_example_legacy(),
            DriverKind::TcpClient => TcpClientInfo.cli_example_legacy(),
            DriverKind::TcpServer => TcpServerInfo.cli_example_legacy(),
            DriverKind::UdpClient => UdpClientInfo.cli_example_legacy(),
            DriverKind::UdpServer => UdpServerInfo.cli_example_legacy(),
            DriverKind::FakeSink => FakeSinkInfo.cli_example_legacy(),
            DriverKind::FakeSource => FakeSourceInfo.cli_example_legacy(),
            DriverKind::Zenoh => ZenohInfo.cli_example_legacy(),
            DriverKind::ZenohRaw => ZenohRawInfo.cli_example_legacy(),
            DriverKind::WebSocketClient => WebSocketClientInfo.cli_example_legacy(),
            DriverKind::FileClient => FileClientInfo.cli_example_legacy(),
            DriverKind::Serial | DriverKind::Rest | DriverKind::FileServer => Vec::new(),
        };
        assert(string_views(r@) =~= self.spec_cli_example_legacy());
        r
    }

    /// Whether the driver can be built from the URL without failing: some kinds need a host
    /// and a port (and the WebSocket client a scheme ending in `client`).
    pub open spec fn url_complete(self, u: UrlView) -> bool {
        match self {
            DriverKind::TcpClient | DriverKind::TcpServer | DriverKind::UdpClient | DriverKind::UdpServer
            | DriverKind::Zenoh | DriverKind::ZenohRaw => has_host_and_port(u),
            DriverKind::WebSocketClient => WebSocketClientInfo::url_complete(u),
            DriverKind::FileServer => u.host is Some,
            _ => true,
        }
    }

    /// Checks whether the driver can be built from the URL without failing.
    pub fn is_url_complete(&self, url: &EndpointUrl) -> (r: bool)
        ensures
            r == self.url_complete(url@),
    {
        let has_host = url.host().is_some();
        let has_port = url.port().is_some();
        match self {
            DriverKind::TcpClient | DriverKind::TcpServer | DriverKind::UdpClient | DriverKind::UdpServer
            | DriverKind::Zenoh | DriverKind::ZenohRaw => has_host && has_port,
            DriverKind::WebSocketClient => {
                let s = url.scheme().as_str();
                let n = s.unicode_len();
                proof {
                    reveal_strlit("client");
                }
                n >= 6 && str_eq(s.substring_char(n - 6, n), "client") && has_host && has_port
            },
            DriverKind::FileServer => has_host,
            _ => true,
        }
    }

    /// The driver that this kind builds from a URL, if any.
    pub open spec fn spec_create(self, u: UrlView) -> Option<EndpointSpecView> {
        match self {
            DriverKind::TlogWriter => TlogWriterInfo::spec_create(u),
            DriverKind::TlogReader => TlogReaderInfo::spec_create(u),
            DriverKind::Serial => SerialInfo::spec_create(u),
            DriverKind::TcpClient => TcpClientInfo::spec_create(u),
            DriverKind::TcpServer => TcpServerInfo::spec_create(u),
            DriverKind::UdpClient => UdpClientInfo::spec_create(u),
            DriverKind::UdpServer => UdpServerInfo::spec_create(u),
            DriverKind::FakeSink => FakeSinkInfo::spec_create(u),
            DriverKind::FakeSource => FakeSourceInfo::spec_create(u),
            DriverKind::Zenoh => ZenohInfo::spec_create(u),
            DriverKind::ZenohRaw => ZenohRawInfo::spec_create(u),
            DriverKind::WebSocketClient => WebSocketClientInfo::spec_create(u),
            DriverKind::Rest => RestInfo::spec_create(u),
            DriverKind::FileClient => FileClientInfo::spec_create(u),
            DriverKind::FileServer => FileServerExt::spec_create(u),
        }
    }

    /// Builds the description of the driver that a URL selects.
    pub fn create_endpoint_from_url(&self, url: &EndpointUrl) -> (r: Option<EndpointSpec>)
        requires
            self.url_complete(url@),
        ensures
            match r {
                Some(s) => self.spec_create(url@) == Some(s@),
                None => self.spec_create(url@) is None,
            },
    {
        match self {
            DriverKind::TlogWriter => TlogWriterInfo.create_endpoint_from_url(url),
            DriverKind::TlogReader => TlogReaderInfo.create_endpoint_from_url(url),
            DriverKind::Serial => SerialInfo.create_endpoint_from_url(url),
            DriverKind::TcpClient => TcpClientInfo.create_endpoint_from_url(url),
            DriverKind::TcpServer => TcpServerInfo.create_endpoint_from_url(url),
            DriverKind::UdpClient => UdpClientInfo.create_endpoint_from_url(url),
            DriverKind::UdpServer => UdpServerInfo.create_endpoint_from_url(url),
            DriverKind::FakeSink => FakeSinkInfo.create_endpoint_from_url(url),
            DriverKind::FakeSource => FakeSourceInfo.create_endpoint_from_url(url),
            DriverKind::Zenoh => ZenohInfo.create_endpoint_from_url(url),
            DriverKind::ZenohRaw => ZenohRawInfo.create_endpoint_from_url(url),
            DriverKind::WebSocketClient => WebSocketClientInfo.create_endpoint_from_url(url),
            DriverKind::Rest => RestInfo.create_endpoint_from_url(url),
            DriverKind::FileClient => FileClientInfo.create_endpoint_from_url(url),
            DriverKind::FileServer => FileServerExt.create_endpoint_from_url(url),
        }
    }

    /// The scheme used for legacy descriptions: the first valid one.
    pub open spec fn spec_default_scheme(self) -> Option<Seq<char>> {
        if self.spec_valid_schemes().len() > 0 { Some(self.spec_valid_schemes()[0]) } else { None }
    }

    /// The URL of a legacy `<scheme>:<arg1>[:<arg2>]` description: `<scheme>://<host>` with
    /// the port in the URL, or in an `arg2` query pair when the URL cannot carry one.
    pub open spec fn spec_url_from_legacy(self, arg1: Seq<char>, arg2: Option<Seq<char>>) -> Result<UrlView, LegacyUrlError> {
        match self.spec_default_scheme() {
            None => Err(LegacyUrlError::NoDefaultScheme),
            Some(scheme) => {
                let (host, port, argument) = legacy_target(arg1, arg2);
                match spec_url_parse(scheme + "://"@ + host) {
                    None => Err(LegacyUrlError::InvalidUrl),
                    Some(u) => {
                        let (u1, arg) = match port {
                            Some(p) => if set_port_refused(u) {
                                (u, if argument is None { Some(decimal_chars(p as nat)) } else { argument })
                            } else {
                                (spec_url_set_port(u, p), argument)
                            },
                            None => (u, argument),
                        };
                        Ok(match arg {
                            Some(a) => spec_url_append_pair(u1, "arg2"@, a),
                            None => u1,
                        })
                    },
                }
            },
        }
    }

    /// The URL of a legacy description. A first argument that is a port number stands for
    /// `0.0.0.0:<port>`; otherwise it is the host and a numeric second argument the port. An
    /// argument that is no port, such as a baud rate, goes into an `arg2` query pair.
    pub fn url_from_legacy(&self, legacy: &DriverDescriptionLegacy) -> (r: Result<EndpointUrl, LegacyUrlError>)
        ensures
            match (r, self.spec_url_from_legacy(legacy.arg1@, crate::endpoint_url::opt_view(legacy.arg2))) {
                (Ok(u), Ok(v)) => u@ == v,
                (Err(e), Err(f)) => e == f,
                _ => false,
            },
    {
        let schemes = self.valid_schemes();
        if schemes.len() == 0 {
            return Err(LegacyUrlError::NoDefaultScheme);
        }
        let scheme = schemes[0];
        let ghost arg2_view = crate::endpoint_url::opt_view(legacy.arg2);
        let (host, port, argument): (String, Option<u16>, Option<String>) = match parse_u16_str(legacy.arg1.as_str()) {
            Some(n) => ("0.0.0.0".to_string(), Some(n), None),
            None => match &legacy.arg2 {
                Some(a) => match parse_u16_str(a.as_str()) {
                    Some(n) => (legacy.arg1.clone(), Some(n), None),
                    None => (legacy.arg1.clone(), None, Some(a.clone())),
                },
                None => (legacy.arg1.clone(), None, None),
            },
        };
        assert(host@ == legacy_target(legacy.arg1@, arg2_view).0);
        assert(port == legacy_target(legacy.arg1@, arg2_view).1);
        assert(crate::endpoint_url::opt_view(argument) == legacy_target(legacy.arg1@, arg2_view).2);
        let text = concat_str(concat_str(scheme, "://").as_str(), host.as_str());
        let url = match parse_url(text.as_str()) {
            Some(u) => u,
            None => return Err(LegacyUrlError::InvalidUrl),
        };
        let (url, argument) = match port {
            Some(p) => match url_set_port(url, p) {
                Ok(u) => (u, argument),
                Err(u) => {
                    let argument = match argument {
                        None => {
                            let digits = decimal_digits(p as u64);
                            Some(chars_to_string(&digits))
                        },
                        Some(a) => Some(a),
                    };
                    (u, argument)
                },
            },
            None => (url, argument),
        };
        match argument {
            Some(a) => Ok(url_append_pair(url, "arg2", a.as_str())),
            None => Ok(url),
        }
    }

    /// The URL of a legacy description whose argument names a file: `<scheme>://<path>`,
    /// with the path already made absolute; the extra argument is ignored.
    pub open spec fn spec_url_from_file_path(self, path: Seq<char>) -> Result<UrlView, LegacyUrlError> {
        match self.spec_default_scheme() {
            None => Err(LegacyUrlError::NoDefaultScheme),
            Some(scheme) => match spec_url_parse(scheme + "://"@ + path) {
                None => Err(LegacyUrlError::InvalidUrl),
                Some(u) => Ok(u),
            },
        }
    }

    /// The URL of a legacy description of a file server or a tlog reader, from the absolute
    /// path of the file that its first argument names.
    pub fn url_from_file_path(&self, path: &str) -> (r: Result<EndpointUrl, LegacyUrlError>)
        ensures
            match (r, self.spec_url_from_file_path(path@)) {
                (Ok(u), Ok(v)) => u@ == v,
                (Err(e), Err(f)) => e == f,
                _ => false,
            },
    {
        let schemes = self.valid_schemes();
        if schemes.len() == 0 {
            return Err(LegacyUrlError::NoDefaultScheme);
        }
        let text = concat_str(concat_str(schemes[0], "://").as_str(), path);
        match parse_url(text.as_str()) {
            Some(u) => Ok(u),
            None => Err(LegacyUrlError::InvalidUrl),
        }
    }
}

/// Builds a string from characters.
pub fn chars_to_string(chars: &Vec<char>) -> (r: String)
    ensures
        r@ == chars@,
{
    let mut s = String::new();
    let mut i: usize = 0;
    while i < chars.len()
        invariant
            0 <= i <= chars@.len(),
            s@ == chars@.subrange(0, i as int),
        decreases chars@.len() - i,
    {
        crate::text::push_char(&mut s, chars[i]);
        i = i + 1;
        assert(s@ =~= chars@.subrange(0, i as int));
    }
    assert(chars@.subrange(0, chars@.len() as int) =~= chars@);
    s
}

/// Whether `url::Url::set_port` refuses a port for this URL.
pub open spec fn set_port_refused(u: UrlView) -> bool {
    u.host is None || u.host == Some(Seq::<char>::empty()) || u.scheme == "file"@
}

/// Host, port and extra argument of a legacy description.
pub open spec fn legacy_target(arg1: Seq<char>, arg2: Option<Seq<char>>) -> (Seq<char>, Option<u16>, Option<Seq<char>>) {
    match spec_parse_u16_str(arg1) {
        Some(n) => ("0.0.0.0"@, Some(n), None),
        None => match arg2 {
            Some(a) => match spec_parse_u16_str(a) {
                Some(n) => (arg1, Some(n), None),
                None => (arg1, None, Some(a)),
            },
            None => (arg1, None, None),
        },
    }
}

} // verus!
