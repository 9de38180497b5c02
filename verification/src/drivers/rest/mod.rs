pub mod vehicle_logs;
pub mod mavftp;
pub mod autopilot;
pub mod control;
pub mod data;
pub mod downloads;

use vstd::prelude::*;

use super::{strs_view, EndpointSpec, EndpointSpecView};
use crate::endpoint_url::{EndpointUrl, UrlView};

verus! {

/// The REST API, which no endpoint creates: it is always added.
pub struct RestInfo;

impl RestInfo {
    pub fn name(&self) -> (r: &'static str)
        ensures
            r@ == "Rest"@,
    {
        "Rest"
    }

    pub open spec fn spec_valid_schemes() -> Seq<Seq<char>> {
        Seq::empty()
    }

    pub fn valid_schemes(&self) -> (r: Vec<&'static str>)
        ensures
            strs_view(r@) == Self::spec_valid_schemes(),
    {
        let r: Vec<&'static str> = Vec::new();
        assert(strs_view(r@) =~= Self::spec_valid_schemes());
        r
    }

    pub fn cli_example_legacy(&self) -> (r: Vec<String>)
        ensures
            r@.len() == 0,
    {
        Vec::new()
    }

    pub open spec fn spec_create(u: UrlView) -> Option<EndpointSpecView> {
        None
    }

    pub fn create_endpoint_from_url(&self, url: &EndpointUrl) -> (r: Option<EndpointSpec>)
        ensures
            r is None,
    {
        None
    }
}

} // verus!
