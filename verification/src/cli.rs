use vstd::prelude::*;

use crate::drivers::registry::{create_driver_from_entry, entry_accepted, spec_endpoints, spec_entry_outcome};
use crate::drivers::{EndpointSpec, EndpointSpecView};
use crate::text::{append_str, string_views};

verus! {

/// The settings that the command line gives.
pub struct Args {
    /// The endpoints to serve, as their entries describe them.
    pub endpoints: Vec<EndpointSpec>,
    /// Whether all log categories go up to Debug.
    pub verbose: bool,
    /// Whether all log categories go up to Trace in the log file.
    pub enable_tracing_level_log_file: bool,
    /// Where the logs are stored.
    pub log_path: Option<String>,
    /// Whether stream requests are disabled.
    pub streamreq_disable: bool,
    /// Seconds after which an inactive UDP client is dropped; negative for never.
    pub udp_server_timeout: i16,
    /// The MAVLink system id of this service.
    pub mavlink_system_id: u8,
    /// The MAVLink component id of this service.
    pub mavlink_component_id: u8,
    /// Whether a burst of heartbeats wakes the autopilot up at start.
    pub send_initial_heartbeats: bool,
    /// The MAVLink version of the heartbeats sent.
    pub mavlink_version: u8,
    /// The REST API version served without a version prefix.
    pub default_api_version: u8,
    /// Whether the service may start without endpoints.
    pub allow_no_endpoints: bool,
}

/// Parses one endpoint entry of the command line into the driver it describes.
pub fn endpoints_parser(entry: &str) -> (r: Result<EndpointSpec, String>)
    requires
        entry_accepted(entry@),
    ensures
        match (r, spec_entry_outcome(entry@)) {
            (Ok(s), Some(Ok(v))) => s@ == v,
            (Err(m), Some(Err(w))) => m@ == w,
            _ => false,
        },
{
    create_driver_from_entry(entry)
}

/// Whether the verbosity parameter was used.
pub fn is_verbose(args: &Args) -> (r: bool)
    ensures
        r == args.verbose,
{
    args.verbose
}

/// Whether trace logs go to the log file.
pub fn is_tracing(args: &Args) -> (r: bool)
    ensures
        r == args.enable_tracing_level_log_file,
{
    args.enable_tracing_level_log_file
}

/// The timeout of inactive UDP clients in seconds; `None` where it is negative (never).
pub fn udp_server_timeout(args: &Args) -> (r: Option<u64>)
    ensures
        r == (if args.udp_server_timeout < 0 { None } else { Some(args.udp_server_timeout as u64) }),
{
    let seconds = args.udp_server_timeout;
    if seconds < 0 {
        return None;
    }
    Some(seconds as u64)
}

/// The MAVLink system id of this service.
pub fn mavlink_system_id(args: &Args) -> (r: u8)
    ensures
        r == args.mavlink_system_id,
{
    args.mavlink_system_id
}

/// The MAVLink component id of this service.
pub fn mavlink_component_id(args: &Args) -> (r: u8)
    ensures
        r == args.mavlink_component_id,
{
    args.mavlink_component_id
}

/// Whether a burst of heartbeats is sent at start.
pub fn send_initial_heartbeats(args: &Args) -> (r: bool)
    ensures
        r == args.send_initial_heartbeats,
{
    args.send_initial_heartbeats
}

/// The MAVLink version of the heartbeats sent.
pub fn mavlink_version(args: &Args) -> (r: u8)
    ensures
        r == args.mavlink_version,
{
    args.mavlink_version
}

/// The REST API version served without a prefix.
pub fn default_api_version(args: &Args) -> (r: u8)
    ensures
        r == args.default_api_version,
{
    args.default_api_version
}

/// The name of the REST API endpoint that is always served.
pub open spec fn default_rest_name() -> Seq<char> {
    "Rest (default)"@
}

/// The endpoints to serve: those of the command line, then the REST API.
pub fn endpoints(args: &Args) -> (r: Vec<EndpointSpec>)
    ensures
        r@.len() == args.endpoints@.len() + 1,
        forall|i: int| 0 <= i < args.endpoints@.len() ==> #[trigger] r@[i]@ == args.endpoints@[i]@,
        r@[args.endpoints@.len() as int]@ == (EndpointSpecView::Rest { name: default_rest_name() }),
{
    let mut r: Vec<EndpointSpec> = Vec::new();
    let mut i: usize = 0;
    while i < args.endpoints.len()
        invariant
            i <= args.endpoints@.len(),
            r@.len() == i,
            forall|k: int| 0 <= k < i ==> #[trigger] r@[k]@ == args.endpoints@[k]@,
        decreases args.endpoints@.len() - i,
    {
        r.push(args.endpoints[i].duplicate());
        i = i + 1;
    }
    proof {
        reveal_strlit("Rest (default)");
    }
    r.push(EndpointSpec::Rest { name: "Rest (default)".to_string() });
    r
}


/// The texts one after the other with `sep` between them.
pub open spec fn spec_join(texts: Seq<Seq<char>>, sep: Seq<char>) -> Seq<char>
    decreases texts.len(),
{
    if texts.len() == 0 {
        Seq::empty()
    } else if texts.len() == 1 {
        texts[0]
    } else {
        spec_join(texts.drop_last(), sep) + sep + texts.last()
    }
}

/// Joins the texts with `sep` between them.
pub fn join(texts: &Vec<String>, sep: &str) -> (r: String)
    ensures
        r@ == spec_join(string_views(texts@), sep@),
{
    let mut r = String::new();
    let mut i: usize = 0;
    while i < texts.len()
        invariant
            i <= texts@.len(),
            r@ == spec_join(string_views(texts@).take(i as int), sep@),
        decreases texts@.len() - i,
    {
        let ghost before = r@;
        if i > 0 {
            append_str(&mut r, sep);
        }
        append_str(&mut r, texts[i].as_str());
        proof {
            let t = string_views(texts@);
            assert(t.take(i as int + 1).drop_last() =~= t.take(i as int));
            assert(t.take(i as int + 1).last() == texts@[i as int]@);
            if i == 0 {
                assert(before =~= Seq::<char>::empty());
                assert(r@ =~= spec_join(t.take(1), sep@));
            } else {
                assert(r@ =~= spec_join(t.take(i as int + 1), sep@));
            }
        }
        i = i + 1;
    }
    proof {
        assert(string_views(texts@).take(texts@.len() as int) =~= string_views(texts@));
    }
    r
}

/// What the help shows of one endpoint kind: its name, schemes and examples.
pub struct EndpointHelp {
    pub name: String,
    pub schemes: Vec<String>,
    pub legacy_examples: Vec<String>,
    pub url_examples: Vec<String>,
}

/// What the help shows of one endpoint kind, as values: name, schemes, legacy examples and
/// URL examples.
pub type HelpView = (Seq<char>, Seq<Seq<char>>, Seq<Seq<char>>, Seq<Seq<char>>);

/// The values of a help section.
pub open spec fn help_view(e: EndpointHelp) -> HelpView {
    (e.name@, string_views(e.schemes@), string_views(e.legacy_examples@), string_views(e.url_examples@))
}

/// The help section of one endpoint kind: the name and the schemes, the legacy examples,
/// then the URL examples, each list on lines of its own.
pub open spec fn spec_endpoint_help(e: HelpView) -> Seq<char> {
    e.0 + "\t "@ + spec_join(e.1, ","@)
        + "\n\t legacy: "@ + spec_join(e.2, "\n\t\t "@)
        + "\n\t    url: "@ + spec_join(e.3, "\n\t\t "@) + "\n"@
}

/// The help of the sections, after the opening sentence.
pub open spec fn spec_endpoints_help(sections: Seq<HelpView>) -> Seq<char>
    decreases sections.len(),
{
    if sections.len() == 0 {
        "Space-separated list of endpoints."@
    } else {
        spec_endpoints_help(sections.drop_last()) + "\n"@ + spec_endpoint_help(sections.last())
    }
}

/// The help sections of the accepted endpoint kinds, in the order they are tried, each with
/// the URL examples given for it.
pub open spec fn spec_help_sections(url_examples: Seq<Seq<Seq<char>>>) -> Seq<HelpView> {
    Seq::new(spec_endpoints().len(), |k: int| {
        let kind = spec_endpoints()[k].driver_ext;
        (kind.spec_name(), kind.spec_valid_schemes(), kind.spec_cli_example_legacy(), url_examples[k])
    })
}

/// The help section of each accepted endpoint kind, given the URL examples of each.
pub fn endpoint_help_sections(url_examples: Vec<Vec<String>>) -> (r: Vec<EndpointHelp>)
    requires
        url_examples@.len() == spec_endpoints().len(),
    ensures
        r@.map_values(|e: EndpointHelp| help_view(e))
            == spec_help_sections(url_examples@.map_values(|u: Vec<String>| string_views(u@))),
{
    let kinds = crate::drivers::registry::endpoints();
    let mut urls = url_examples;
    let ghost all_urls = urls@.map_values(|u: Vec<String>| string_views(u@));
    let mut r: Vec<EndpointHelp> = Vec::new();
    let mut k: usize = 0;
    while k < kinds.len()
        invariant
            kinds@ == spec_endpoints(),
            k <= kinds@.len(),
            urls@.len() == kinds@.len(),
            forall|j: int| k <= j < urls@.len() ==> string_views((#[trigger] urls@[j])@) == all_urls[j],
            all_urls.len() == kinds@.len(),
            r@.len() == k,
            forall|j: int| 0 <= j < k ==> help_view(#[trigger] r@[j]) == spec_help_sections(all_urls)[j],
        decreases kinds@.len() - k,
    {
        let kind = kinds[k].driver_ext;
        let names = kind.valid_schemes();
        let mut schemes: Vec<String> = Vec::new();
        let mut i: usize = 0;
        while i < names.len()
            invariant
                i <= names@.len(),
                schemes@.len() == i,
                forall|j: int| 0 <= j < i ==> (#[trigger] schemes@[j])@ == names@[j]@,
            decreases names@.len() - i,
        {
            schemes.push(names[i].to_string());
            i = i + 1;
        }
        proof {
            assert(string_views(schemes@) =~= crate::drivers::strs_view(names@));
        }
        let mut examples: Vec<String> = Vec::new();
        std::mem::swap(&mut examples, &mut urls[k]);
        r.push(EndpointHelp {
            name: kind.name().to_string(),
            schemes,
            legacy_examples: kind.cli_example_legacy(),
            url_examples: examples,
        });
        proof {
            assert(help_view(r@[k as int]) == spec_help_sections(all_urls)[k as int]);
        }
        k = k + 1;
    }
    proof {
        assert(r@.map_values(|e: EndpointHelp| help_view(e)) =~= spec_help_sections(all_urls));
    }
    r
}

/// The long help of the endpoints argument, given the URL examples of each accepted kind.
pub fn endpoints_help(url_examples: Vec<Vec<String>>) -> (r: String)
    requires
        url_examples@.len() == spec_endpoints().len(),
    ensures
        r@ == spec_endpoints_help(spec_help_sections(url_examples@.map_values(|u: Vec<String>| string_views(u@)))),
{
    let sections = endpoint_help_sections(url_examples);
    build_endpoints_help(&sections)
}

/// The long help of the endpoints argument: an opening sentence, then a section per kind.
pub fn build_endpoints_help(sections: &Vec<EndpointHelp>) -> (r: String)
    ensures
        r@ == spec_endpoints_help(sections@.map_values(|e: EndpointHelp| help_view(e))),
{
    let mut help = String::new();
    append_str(&mut help, "Space-separated list of endpoints.");
    let mut i: usize = 0;
    while i < sections.len()
        invariant
            i <= sections@.len(),
            help@ == spec_endpoints_help(sections@.take(i as int).map_values(|e: EndpointHelp| help_view(e))),
        decreases sections@.len() - i,
    {
        let e = &sections[i];
        append_str(&mut help, "\n");
        append_str(&mut help, e.name.as_str());
        append_str(&mut help, "\t ");
        let schemes = join(&e.schemes, ",");
        append_str(&mut help, schemes.as_str());
        append_str(&mut help, "\n\t legacy: ");
        let legacy = join(&e.legacy_examples, "\n\t\t ");
        append_str(&mut help, legacy.as_str());
        append_str(&mut help, "\n\t    url: ");
        let urls = join(&e.url_examples, "\n\t\t ");
        append_str(&mut help, urls.as_str());
        append_str(&mut help, "\n");
        proof {
            let before = sections@.take(i as int).map_values(|e: EndpointHelp| help_view(e));
            let after = sections@.take(i as int + 1).map_values(|e: EndpointHelp| help_view(e));
            assert(after.drop_last() =~= before);
            assert(after.last() == help_view(sections@[i as int]));
            assert(help@ =~= spec_endpoints_help(after));
        }
        i = i + 1;
    }
    proof {
        assert(sections@.take(sections@.len() as int) =~= sections@);
    }
    help
}

} // verus!
