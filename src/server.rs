use vstd::prelude::*;
use vstd::string::*;
use crate::release::Catalog;
use crate::text::{replace_all, replaced};

verus! {

/// The file name of the update manifest, the one asset whose text is rewritten.
pub open spec fn manifest_name() -> Seq<char> {
    "latest.json"@
}

/// What a request for a file name leads to.
pub enum Route {
    /// The name is not in the catalog.
    NotFound,
    /// The update manifest, at this authenticated location.
    Manifest(String),
    /// Any other asset, at this authenticated location.
    Asset(String),
}

/// What the upstream fetch of a routed asset gave.
pub enum Fetched {
    /// The body, read as text.
    Text(String),
    /// The body, as raw bytes.
    Bytes(Vec<u8>),
    /// The fetch failed.
    Failed,
}

/// The answer to a request.
pub enum Reply {
    /// The file name is unknown.
    NotFound,
    /// A text body.
    Text(String),
    /// A binary body.
    Bytes(Vec<u8>),
    /// The asset is known, but fetching it upstream failed.
    UpstreamFailed,
}

/// What every request of one running server shares, fixed when it starts.
pub struct Snapshot {
    /// The release assets by file name.
    pub catalog: Catalog,
    /// The upstream prefix of the public download URLs.
    pub download_url_base: String,
    /// The URL under which this server is reached.
    pub local_base_url: String,
}

impl Snapshot {
    /// Routes a request for `filename`: unknown names are not found, the
    /// manifest is told apart from the other assets.
    pub fn route(&self, filename: &str) -> (r: Route)
        ensures
            r is NotFound <==> !self.catalog@.contains_key(filename@),
            r matches Route::Manifest(u) ==> filename@ == manifest_name() && u@
                == self.catalog@[filename@],
            r matches Route::Asset(u) ==> filename@ != manifest_name() && u@
                == self.catalog@[filename@],
    {
        match self.catalog.lookup(filename) {
            None => Route::NotFound,
            Some(url) => {
                if String::from_str(filename) == String::from_str("latest.json") {
                    Route::Manifest(url.clone())
                } else {
                    Route::Asset(url.clone())
                }
            },
        }
    }

    /// The manifest text with every occurrence of the upstream download base
    /// replaced by this server's base URL.
    pub fn rewrite_manifest(&self, text: &str) -> (r: String)
        ensures
            r@ == replaced(text@, self.download_url_base@, self.local_base_url@),
    {
        replace_all(text, self.download_url_base.as_str(), self.local_base_url.as_str())
    }

    /// Answers a routed request from what the upstream fetch gave: the
    /// manifest's text is rewritten, any other body passes through as it came.
    pub fn reply(&self, route: &Route, fetched: Fetched) -> (r: Reply)
        ensures
            route is NotFound ==> r is NotFound,
            !(route is NotFound) && fetched is Failed ==> r is UpstreamFailed,
            route is Manifest ==> (fetched matches Fetched::Text(t) ==> r matches Reply::Text(o)
                && o@ == replaced(t@, self.download_url_base@, self.local_base_url@)),
            route is Asset ==> (fetched matches Fetched::Text(t) ==> r == Reply::Text(t)),
            !(route is NotFound) ==> (fetched matches Fetched::Bytes(b) ==> r == Reply::Bytes(b)),
    {
        match route {
            Route::NotFound => Reply::NotFound,
            Route::Manifest(_) => match fetched {
                Fetched::Text(t) => Reply::Text(self.rewrite_manifest(t.as_str())),
                Fetched::Bytes(b) => Reply::Bytes(b),
                Fetched::Failed => Reply::UpstreamFailed,
            },
            Route::Asset(_) => match fetched {
                Fetched::Text(t) => Reply::Text(t),
                Fetched::Bytes(b) => Reply::Bytes(b),
                Fetched::Failed => Reply::UpstreamFailed,
            },
        }
    }
}

} // verus!
