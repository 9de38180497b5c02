use vstd::prelude::*;

use super::query::{first_baud_rate, query_baud_rate};
use super::{strs_view, EndpointSpec, EndpointSpecView};
use crate::endpoint_url::{EndpointUrl, UrlView};

verus! {

/// Baud rate used when the endpoint names none; common among flight controllers.
pub const DEFAULT_BAUD_RATE: u32 = 115200;

/// Endpoints of serial port drivers.
pub struct SerialInfo;

impl SerialInfo {
    pub fn name(&self) -> (r: &'static str)
        ensures
            r@ == "Serial"@,
    {
        "Serial"
    }

    pub open spec fn spec_valid_schemes() -> Seq<Seq<char>> {
        seq!["serial"@]
    }

    pub fn valid_schemes(&self) -> (r: Vec<&'static str>)
        ensures
            strs_view(r@) == Self::spec_valid_schemes(),
    {
        let r = vec!["serial"];
        assert(strs_view(r@) =~= Self::spec_valid_schemes());
        r
    }

    /// The driver a URL describes: the port named by the path, at the baud rate of the first
    /// `baudrate` or `arg2` pair with a valid value, 115200 by default.
    pub open spec fn spec_create(u: UrlView) -> Option<EndpointSpecView> {
        let baud_rate = match first_baud_rate(u.query_pairs) {
            Some(b) => b,
            None => DEFAULT_BAUD_RATE,
        };
        Some(EndpointSpecView::Serial { port_name: u.path, baud_rate })
    }

    pub fn create_endpoint_from_url(&self, url: &EndpointUrl) -> (r: Option<EndpointSpec>)
        ensures
            match r {
                Some(s) => Self::spec_create(url@) == Some(s@),
                None => Self::spec_create(url@) is None,
            },
    {
        let baud_rate = match query_baud_rate(url.query_pairs()) {
            Some(b) => b,
            None => DEFAULT_BAUD_RATE,
        };
        Some(EndpointSpec::Serial { port_name: url.path().clone(), baud_rate })
    }
}

} // verus!
