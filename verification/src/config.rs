//! The fixed configuration of the trace pipeline and of the listener: the
//! collector endpoint, the per-attempt export timeout, the resource
//! descriptor attached to every span, and the listen address.

use vstd::prelude::*;
use vstd::string::StringExecFns;

verus! {

/// Where the exporter sends finished spans.
pub open spec fn collector_endpoint() -> Seq<char> {
    "http://localhost:4317"@
}

/// How many seconds one export attempt may take before it is given up.
pub open spec fn export_timeout_secs() -> int {
    5
}

/// The key of the single resource attribute.
pub open spec fn service_name_key() -> Seq<char> {
    "service.name"@
}

/// The value of the single resource attribute.
pub open spec fn service_name() -> Seq<char> {
    "h2-poll-traces"@
}

/// The fixed resource descriptor: one attribute naming the service. It is
/// attached to every span the pipeline records.
pub open spec fn fixed_resource() -> Seq<(Seq<char>, Seq<char>)> {
    seq![(service_name_key(), service_name())]
}

/// The mathematical values of a list of key-value attributes.
pub open spec fn attrs_view(a: Seq<(String, String)>) -> Seq<(Seq<char>, Seq<char>)> {
    a.map_values(|p: (String, String)| (p.0@, p.1@))
}

/// Build the fixed resource descriptor as plain values: the single
/// `service.name` attribute.
pub fn resource_attributes() -> (r: Vec<(String, String)>)
    ensures
        attrs_view(r@) == fixed_resource(),
{
    let mut r: Vec<(String, String)> = Vec::new();
    r.push((String::from_str("service.name"), String::from_str("h2-poll-traces")));
    proof {
        assert(attrs_view(r@) =~= fixed_resource());
    }
    r
}

/// The mathematical value of a pipeline configuration.
#[verifier::ext_equal]
pub struct ConfigView {
    pub endpoint: Seq<char>,
    pub timeout_secs: int,
    pub resource: Seq<(Seq<char>, Seq<char>)>,
    pub filter_by_level: bool,
}

impl ConfigView {
    /// The one configuration the program runs with: fixed endpoint, fixed
    /// timeout, fixed resource, and no span-level filtering (deliberately
    /// left out, as the condition under demonstration).
    pub open spec fn wf(&self) -> bool {
        &&& self.endpoint == collector_endpoint()
        &&& self.timeout_secs == export_timeout_secs()
        &&& self.resource == fixed_resource()
        &&& !self.filter_by_level
    }
}

/// The trace pipeline's configuration: collector endpoint, export timeout,
/// resource descriptor, and whether spans are filtered by severity level
/// before they reach the batching layer.
pub struct TraceConfig {
    pub endpoint: String,
    pub timeout_secs: u64,
    pub resource: Vec<(String, String)>,
    pub filter_by_level: bool,
}

impl View for TraceConfig {
    type V = ConfigView;

    open spec fn view(&self) -> ConfigView {
        ConfigView {
            endpoint: self.endpoint@,
            timeout_secs: self.timeout_secs as int,
            resource: attrs_view(self.resource@),
            filter_by_level: self.filter_by_level,
        }
    }
}

impl TraceConfig {
    /// Build the fixed configuration: collector on `http://localhost:4317`,
    /// a five second export timeout, the single `service.name` resource
    /// attribute, and no severity filtering.
    pub fn otlp_batch() -> (c: TraceConfig)
        ensures
            c@.wf(),
    {
        TraceConfig {
            endpoint: String::from_str("http://localhost:4317"),
            timeout_secs: 5,
            resource: resource_attributes(),
            filter_by_level: false,
        }
    }
}

/// The fixed local listen address: loopback, port 9898.
pub struct ListenAddr {
    pub octets: (u8, u8, u8, u8),
    pub port: u16,
}

/// The address the server binds.
pub fn server_addr() -> (a: ListenAddr)
    ensures
        a.octets == (127u8, 0u8, 0u8, 1u8),
        a.port == 9898,
{
    ListenAddr { octets: (127, 0, 0, 1), port: 9898 }
}

} // verus!
