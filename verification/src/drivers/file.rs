use vstd::prelude::*;

use super::{strs_view, EndpointSpec, EndpointSpecView};
use crate::endpoint_url::{EndpointUrl, UrlView};

verus! {

/// A driver that writes the messages it receives to a file.
pub struct FileClient {
    pub path: String,
}

/// Builds a [`FileClient`].
pub struct FileClientBuilder(pub FileClient);

impl FileClientBuilder {
    /// The client being built.
    pub fn build(self) -> (r: FileClient)
        ensures
            r.path@ == self.0.path@,
    {
        self.0
    }
}

impl FileClient {
    /// A client that writes to `path`.
    pub fn new(path: String) -> (r: FileClientBuilder)
        ensures
            r.0.path@ == path@,
    {
        FileClientBuilder(FileClient { path })
    }
}

/// A driver that replays the messages of a file.
pub struct FileServer {
    pub path: String,
}

impl FileServer {
    /// A server that replays `path`.
    pub fn new(path: String) -> (r: FileServer)
        ensures
            r.path@ == path@,
    {
        FileServer { path }
    }

    /// A server that replays the file at `file_path`; this never fails.
    pub fn try_new(file_path: &str) -> (r: Result<FileServer, ()>)
        ensures
            r matches Ok(s) && s.path@ == file_path@,
    {
        Ok(FileServer { path: file_path.to_string() })
    }
}

/// Endpoints of file writing drivers.
pub struct FileClientInfo;

impl FileClientInfo {
    pub fn name(&self) -> (r: &'static str)
        ensures
            r@ == "FileClient"@,
    {
        "FileClient"
    }

    pub open spec fn spec_valid_schemes() -> Seq<Seq<char>> {
        seq!["fileclient"@, "filewriter"@, "filec"@]
    }

    pub fn valid_schemes(&self) -> (r: Vec<&'static str>)
        ensures
            strs_view(r@) == Self::spec_valid_schemes(),
    {
        let r = vec!["fileclient", "filewriter", "filec"];
        assert(strs_view(r@) =~= Self::spec_valid_schemes());
        r
    }

    pub fn cli_example_legacy(&self) -> (r: Vec<String>)
        ensures
            r@.len() == 2,
            r@[0]@ == "fileclient:<FILE>"@,
            r@[1]@ == "fileclient:/tmp/potato.tlog"@,
    {
        vec!["fileclient:<FILE>".to_string(), "fileclient:/tmp/potato.tlog".to_string()]
    }

    /// The driver a URL describes: writes to the path of the URL.
    pub open spec fn spec_create(u: UrlView) -> Option<EndpointSpecView> {
        Some(EndpointSpecView::FileClient { path: u.path })
    }

    pub fn create_endpoint_from_url(&self, url: &EndpointUrl) -> (r: Option<EndpointSpec>)
        ensures
            match r {
                Some(s) => Self::spec_create(url@) == Some(s@),
                None => Self::spec_create(url@) is None,
            },
    {
        Some(EndpointSpec::FileClient { path: url.path().clone() })
    }
}

/// Endpoints of file replaying drivers.
pub struct FileServerExt;

impl FileServerExt {
    pub open spec fn spec_valid_schemes() -> Seq<Seq<char>> {
        seq!["filesource"@, "fileserver"@, "files"@]
    }

    pub fn valid_schemes(&self) -> (r: Vec<&'static str>)
        ensures
            strs_view(r@) == Self::spec_valid_schemes(),
    {
        let r = vec!["filesource", "fileserver", "files"];
        assert(strs_view(r@) =~= Self::spec_valid_schemes());
        r
    }

    /// The driver a URL describes: replays the file named by the host of the URL (made
    /// absolute by the program around the library).
    pub open spec fn spec_create(u: UrlView) -> Option<EndpointSpecView> {
        Some(EndpointSpecView::FileServer { host: u.host->0 })
    }

    pub fn create_endpoint_from_url(&self, url: &EndpointUrl) -> (r: Option<EndpointSpec>)
        requires
            url@.host is Some,
        ensures
            match r {
                Some(s) => Self::spec_create(url@) == Some(s@),
                None => Self::spec_create(url@) is None,
            },
    {
        let host = match url.host() {
            Some(h) => h.clone(),
            None => String::new(),
        };
        Some(EndpointSpec::FileServer { host })
    }
}

} // verus!
