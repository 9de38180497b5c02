use vstd::prelude::*;

use super::{strs_view, EndpointSpec, EndpointSpecView};
use crate::endpoint_url::{EndpointUrl, UrlView};
use crate::mav::{heartbeat_message_id, user42_component_id};

verus! {

/// Endpoints of drivers that consume messages without a device.
pub struct FakeSinkInfo;

impl FakeSinkInfo {
    pub fn name(&self) -> (r: &'static str)
        ensures
            r@ == "FakeSink"@,
    {
        "FakeSink"
    }

    pub open spec fn spec_valid_schemes() -> Seq<Seq<char>> {
        seq!["fakesink"@, "fakeclient"@, "fakec"@]
    }

    pub fn valid_schemes(&self) -> (r: Vec<&'static str>)
        ensures
            strs_view(r@) == Self::spec_valid_schemes(),
    {
        let r = vec!["fakesink", "fakeclient", "fakec"];
        assert(strs_view(r@) =~= Self::spec_valid_schemes());
        r
    }

    pub fn cli_example_legacy(&self) -> (r: Vec<String>)
        ensures
            r@.len() == 2,
            r@[0]@ == "fakesink:<MODE>"@,
            r@[1]@ == "fakesink:debug"@,
    {
        vec!["fakesink:<MODE>".to_string(), "fakesink:debug".to_string()]
    }

    /// The driver a URL describes; its parameters are read from the query of the URL.
    pub open spec fn spec_create(u: UrlView) -> Option<EndpointSpecView> {
        Some(EndpointSpecView::FakeSink { query: u.query })
    }

    pub fn create_endpoint_from_url(&self, url: &EndpointUrl) -> (r: Option<EndpointSpec>)
        ensures
            match r {
                Some(s) => Self::spec_create(url@) == Some(s@),
                None => Self::spec_create(url@) is None,
            },
    {
        Some(EndpointSpec::FakeSink { query: url.query().clone() })
    }
}

/// Parameters of a fake sink.
#[derive(Debug, Clone)]
pub struct FakeSinkParams {
    pub name: String,
    pub print_as_bytes: bool,
    pub print_as_json: bool,
    pub force_parse: bool,
}

impl FakeSinkParams {
    /// The default parameters under a given name: print messages as JSON only.
    pub fn new_default(name: String) -> (p: FakeSinkParams)
        ensures
            p.name@ == name@,
            !p.print_as_bytes,
            p.print_as_json,
            !p.force_parse,
    {
        FakeSinkParams { name, print_as_bytes: false, print_as_json: true, force_parse: false }
    }
}

/// Endpoints of drivers that produce messages without a device.
pub struct FakeSourceInfo;

impl FakeSourceInfo {
    pub fn name(&self) -> (r: &'static str)
        ensures
            r@ == "FakeSource"@,
    {
        "FakeSource"
    }

    pub open spec fn spec_valid_schemes() -> Seq<Seq<char>> {
        seq!["fakesource"@, "fakeserver"@, "fakesrc"@, "fakes"@]
    }

    pub fn valid_schemes(&self) -> (r: Vec<&'static str>)
        ensures
            strs_view(r@) == Self::spec_valid_schemes(),
    {
        let r = vec!["fakesource", "fakeserver", "fakesrc", "fakes"];
        assert(strs_view(r@) =~= Self::spec_valid_schemes());
        r
    }

    pub fn cli_example_legacy(&self) -> (r: Vec<String>)
        ensures
            r@.len() == 2,
            r@[0]@ == "fakesource:<MODE>"@,
            r@[1]@ == "fakesource:heartbeat"@,
    {
        vec!["fakesource:<MODE>".to_string(), "fakesource:heartbeat".to_string()]
    }

    /// The driver a URL describes; its parameters are read from the query of the URL.
    pub open spec fn spec_create(u: UrlView) -> Option<EndpointSpecView> {
        Some(EndpointSpecView::FakeSource { query: u.query })
    }

    pub fn create_endpoint_from_url(&self, url: &EndpointUrl) -> (r: Option<EndpointSpec>)
        ensures
            match r {
                Some(s) => Self::spec_create(url@) == Some(s@),
                None => Self::spec_create(url@) is None,
            },
    {
        Some(EndpointSpec::FakeSource { query: url.query().clone() })
    }
}

/// Parameters of a fake source.
#[derive(Debug, Clone)]
pub struct FakeSourceParams {
    pub name: String,
    pub period_us: u64,
    pub system_id: u8,
    pub component_id: u8,
    pub message_id: u32,
}

impl FakeSourceParams {
    /// The default parameters under a given name: a heartbeat every second from system 42,
    /// component `MAV_COMP_ID_USER42`.
    pub fn new_default(name: String) -> (p: FakeSourceParams)
        ensures
            p.name@ == name@,
            p.period_us == 1_000_000,
            p.system_id == 42,
            p.component_id == 66,
            p.message_id == 0,
    {
        FakeSourceParams {
            name,
            period_us: 1_000_000,
            system_id: 42,
            component_id: user42_component_id(),
            message_id: heartbeat_message_id(),
        }
    }
}

/// The pacing of a fake source's generator: when the last message went out and the
/// sequence number of the next one.
pub struct FakeGenerator {
    pub prev_us: u64,
    pub sequence: u8,
}

impl FakeGenerator {
    /// A generator started at `now_us`, whose first message has sequence number 0.
    pub fn new(now_us: u64) -> (g: FakeGenerator)
        ensures
            g.prev_us == now_us,
            g.sequence == 0,
    {
        FakeGenerator { prev_us: now_us, sequence: 0 }
    }

    /// Whether a message is due at `now_us`: more than `period_us` passed since the last one
    /// (a clock reading before it counts as no time). When one is due, `now_us` becomes the
    /// time of the last message.
    pub fn due(&mut self, now_us: u64, period_us: u64) -> (r: bool)
        ensures
            r == ((if now_us >= old(self).prev_us { now_us - old(self).prev_us } else { 0 }) > period_us),
            final(self).prev_us == if r { now_us } else { old(self).prev_us },
            final(self).sequence == old(self).sequence,
    {
        if now_us.saturating_sub(self.prev_us) > period_us {
            self.prev_us = now_us;
            true
        } else {
            false
        }
    }

    /// A message went out with the current sequence number: the next one gets the
    /// following number, wrapping after 255.
    pub fn sent(&mut self) -> (r: u8)
        ensures
            r == old(self).sequence,
            final(self).sequence == (old(self).sequence + 1) % 256,
            final(self).prev_us == old(self).prev_us,
    {
        let r = self.sequence;
        self.sequence = self.sequence.wrapping_add(1);
        r
    }
}

} // verus!
