use vstd::prelude::*;

verus! {

#[verifier::external_type_specification]
#[verifier::external_body]
pub struct ExUrl(url::Url);

/// What the logic reads of a parsed URL.
pub struct UrlView {
    pub scheme: Seq<char>,
    pub host: Option<Seq<char>>,
    pub port: Option<u16>,
    pub path: Seq<char>,
    pub query: Option<Seq<char>>,
    pub query_pairs: Seq<(Seq<char>, Seq<char>)>,
    pub serialization: Seq<char>,
}

/// A parsed URL: the `url::Url` itself, carried for later edits, and the parts the logic reads.
pub struct EndpointUrl {
    inner: url::Url,
    scheme: String,
    host: Option<String>,
    port: Option<u16>,
    path: String,
    query: Option<String>,
    query_pairs: Vec<(String, String)>,
    serialization: String,
}

impl EndpointUrl {
    /// Parses a URL; `None` where the text is no URL.
    pub fn parse(input: &str) -> (r: Option<EndpointUrl>)
        ensures
            match r {
                Some(u) => spec_url_parse(input@) == Some(u@),
                None => spec_url_parse(input@) is None,
            },
    {
        parse_url(input)
    }

    /// The scheme.
    pub fn scheme(&self) -> (r: &String)
        ensures
            r@ == self@.scheme,
    {
        &self.scheme
    }

    /// The host, as `host_str` gives it.
    pub fn host(&self) -> (r: &Option<String>)
        ensures
            opt_view(*r) == self@.host,
    {
        &self.host
    }

    /// The explicit port.
    pub fn port(&self) -> (r: Option<u16>)
        ensures
            r == self@.port,
    {
        self.port
    }

    /// The path.
    pub fn path(&self) -> (r: &String)
        ensures
            r@ == self@.path,
    {
        &self.path
    }

    /// The raw query.
    pub fn query(&self) -> (r: &Option<String>)
        ensures
            opt_view(*r) == self@.query,
    {
        &self.query
    }

    /// The decoded query pairs, in order.
    pub fn query_pairs(&self) -> (r: &Vec<(String, String)>)
        ensures
            pairs_view(r@) == self@.query_pairs,
    {
        &self.query_pairs
    }

    /// The serialization of the URL.
    pub fn as_str(&self) -> (r: &str)
        ensures
            r@ == self@.serialization,
    {
        self.serialization.as_str()
    }
}

/// The characters of an optional string.
pub open spec fn opt_view(s: Option<String>) -> Option<Seq<char>> {
    match s {
        Some(s) => Some(s@),
        None => None,
    }
}

/// The characters of each key and value.
pub open spec fn pairs_view(pairs: Seq<(String, String)>) -> Seq<(Seq<char>, Seq<char>)> {
    pairs.map_values(|p: (String, String)| (p.0@, p.1@))
}

impl View for EndpointUrl {
    type V = UrlView;

    closed spec fn view(&self) -> UrlView {
        UrlView {
            scheme: self.scheme@,
            host: opt_view(self.host),
            port: self.port,
            path: self.path@,
            query: opt_view(self.query),
            query_pairs: pairs_view(self.query_pairs@),
            serialization: self.serialization@,
        }
    }
}

/// What `url::Url::parse` gives for this input: `None` when the input is no URL.
pub uninterp spec fn spec_url_parse(input: Seq<char>) -> Option<UrlView>;

/// What `url::Url::set_port` leaves of the URL when it accepts the port.
pub uninterp spec fn spec_url_set_port(url: UrlView, port: u16) -> UrlView;

/// What appending a query pair with `url::Url::query_pairs_mut().append_pair` leaves of the URL.
pub uninterp spec fn spec_url_append_pair(url: UrlView, key: Seq<char>, value: Seq<char>) -> UrlView;

/// Parses a URL with `url::Url::parse` and reads its scheme, host (`host_str`), port, path,
/// query, decoded query pairs and serialization. The contract names the result, a function
/// of the input alone.
#[verifier::external_body]
pub(crate) fn parse_url(input: &str) -> (r: Option<EndpointUrl>)
    ensures
        match r {
            Some(u) => spec_url_parse(input@) == Some(u@),
            None => spec_url_parse(input@) is None,
        },
{
    let u = url::Url::parse(input).ok()?;
    Some(EndpointUrl {
        scheme: u.scheme().to_string(),
        host: u.host_str().map(|h| h.to_string()),
        port: u.port(),
        path: u.path().to_string(),
        query: u.query().map(|q| q.to_string()),
        query_pairs: u.query_pairs().map(|(k, v)| (k.into_owned(), v.into_owned())).collect(),
        serialization: u.as_str().to_string(),
        inner: u,
    })
}

/// Sets the port with `url::Url::set_port(Some(port))`. As its source shows, it refuses,
/// leaving the URL as it was, exactly when the URL has no host, an empty host, or the `file`
/// scheme. An accepted port leaves scheme, host, path and query as they were; the port it
/// reports (none for the scheme's default port) and the serialization are named, not stated.
#[verifier::external_body]
pub(crate) fn url_set_port(url: EndpointUrl, port: u16) -> (r: Result<EndpointUrl, EndpointUrl>)
    ensures
        (r is Err) <==> (url@.host is None || url@.host == Some(Seq::<char>::empty()) || url@.scheme == "file"@),
        match r {
            Ok(u) => {
                &&& u@ == spec_url_set_port(url@, port)
                &&& u@.scheme == url@.scheme
                &&& u@.host == url@.host
                &&& u@.path == url@.path
                &&& u@.query == url@.query
                &&& u@.query_pairs == url@.query_pairs
            },
            Err(u) => u@ == url@,
        },
{
    let mut u = url.inner;
    if u.set_port(Some(port)).is_err() {
        return Err(EndpointUrl { inner: u, ..url });
    }
    Ok(EndpointUrl {
        port: u.port(),
        serialization: u.as_str().to_string(),
        inner: u,
        ..url
    })
}

/// Appends a `key=value` pair to the query with `url::Url::query_pairs_mut().append_pair`
/// and reads the URL again. As the sources of `url` and `form_urlencoded` show, the pair is
/// form-encoded after the existing query, separated by `&` when that query is not empty, so
/// the decoded pairs gain `(key, value)` at their end; scheme, host, port and path stay as
/// they were. The query text and the serialization are named, not stated.
#[verifier::external_body]
pub(crate) fn url_append_pair(url: EndpointUrl, key: &str, value: &str) -> (r: EndpointUrl)
    ensures
        r@ == spec_url_append_pair(url@, key@, value@),
        r@.scheme == url@.scheme,
        r@.host == url@.host,
        r@.port == url@.port,
        r@.path == url@.path,
        r@.query is Some,
        r@.query_pairs == url@.query_pairs.push((key@, value@)),
{
    let mut u = url.inner;
    u.query_pairs_mut().append_pair(key, value);
    EndpointUrl {
        query: u.query().map(|q| q.to_string()),
        query_pairs: u.query_pairs().map(|(k, v)| (k.into_owned(), v.into_owned())).collect(),
        serialization: u.as_str().to_string(),
        inner: u,
        ..url
    }
}

} // verus!
