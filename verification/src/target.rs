use vstd::prelude::*;

verus! {

/// The mathematical shape of a `Target`: each component as a sequence of
/// characters.
pub struct TargetView {
    pub scheme: Option<Seq<char>>,
    pub host: Option<Seq<char>>,
    pub port: Option<u16>,
    pub path: Seq<char>,
    pub query: Option<Seq<char>>,
}

/// A parsed request target: the components of a URI that the connector and
/// the redirect policies read.
///
/// Equality is structural over the parsed components — scheme, host, port,
/// path and query — which is exactly the comparison redirect loop detection
/// uses. No normalization happens here: two spellings of one location are
/// equal only if the parser already normalized them.
#[derive(Debug, Clone)]
pub struct Target {
    scheme: Option<String>,
    host: Option<String>,
    port: Option<u16>,
    path: String,
    query: Option<String>,
}

impl View for Target {
    type V = TargetView;

    closed spec fn view(&self) -> TargetView {
        TargetView {
            scheme: self.scheme.deep_view(),
            host: self.host.deep_view(),
            port: self.port,
            path: self.path@,
            query: self.query.deep_view(),
        }
    }
}

impl DeepView for Target {
    type V = TargetView;

    open spec fn deep_view(&self) -> TargetView {
        self.view()
    }
}

impl Target {
    /// Assemble a target from its already-parsed components.
    pub fn new(
        scheme: Option<String>,
        host: Option<String>,
        port: Option<u16>,
        path: String,
        query: Option<String>,
    ) -> (r: Target)
        ensures
            r@ == (TargetView {
                scheme: scheme.deep_view(),
                host: host.deep_view(),
                port: port,
                path: path@,
                query: query.deep_view(),
            }),
    {
        Target { scheme, host, port, path, query }
    }

    /// The scheme component, if the target has one.
    pub fn scheme(&self) -> (r: &Option<String>)
        ensures
            r.deep_view() == self@.scheme,
    {
        &self.scheme
    }

    /// The host component, if the target has one.
    pub fn host(&self) -> (r: &Option<String>)
        ensures
            r.deep_view() == self@.host,
    {
        &self.host
    }

    /// The port component, if the target names one.
    pub fn port(&self) -> (r: Option<u16>)
        ensures
            r == self@.port,
    {
        self.port
    }

    /// The path component.
    pub fn path(&self) -> (r: &String)
        ensures
            r@ == self@.path,
    {
        &self.path
    }

    /// The query component, if the target has one.
    pub fn query(&self) -> (r: &Option<String>)
        ensures
            r.deep_view() == self@.query,
    {
        &self.query
    }
}

/// Structural equality of two optional strings, by their character
/// sequences.
fn opt_string_eq(a: &Option<String>, b: &Option<String>) -> (r: bool)
    ensures
        r == (a.deep_view() == b.deep_view()),
{
    match (a, b) {
        (Some(x), Some(y)) => *x == *y,
        (None, None) => true,
        _ => false,
    }
}

/// Structural equality of two optional ports.
fn opt_port_eq(a: &Option<u16>, b: &Option<u16>) -> (r: bool)
    ensures
        r == (*a == *b),
{
    match (a, b) {
        (Some(x), Some(y)) => *x == *y,
        (None, None) => true,
        _ => false,
    }
}

impl PartialEq for Target {
    /// Exact structural comparison of the parsed components.
    fn eq(&self, other: &Target) -> (r: bool) {
        opt_string_eq(&self.scheme, &other.scheme) && opt_string_eq(&self.host, &other.host)
            && opt_port_eq(&self.port, &other.port) && self.path == other.path
            && opt_string_eq(&self.query, &other.query)
    }
}

impl vstd::std_specs::cmp::PartialEqSpecImpl for Target {
    open spec fn obeys_eq_spec() -> bool {
        true
    }

    open spec fn eq_spec(&self, other: &Target) -> bool {
        self@ == other@
    }
}

} // verus!
