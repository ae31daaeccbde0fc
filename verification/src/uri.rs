//! A structural URI: optional scheme, host and port, and optional ordered
//! path and query segment lists. A response location is a restricted form of
//! this with no scheme, host or port.

use vstd::prelude::*;

verus! {

/// Mathematical value of a URI.
#[verifier::ext_equal]
pub struct UriV {
    pub scheme: Option<Seq<char>>,
    pub host: Option<Seq<char>>,
    pub port: Option<u16>,
    pub path: Option<Seq<Seq<char>>>,
    pub query: Option<Seq<Seq<char>>>,
}

/// The mathematical value of an optional string.
pub open spec fn str_opt_view(o: Option<String>) -> Option<Seq<char>> {
    match o {
        Some(s) => Some(s@),
        None => None,
    }
}

/// The mathematical value of a segment list.
pub open spec fn segs_view(s: Seq<String>) -> Seq<Seq<char>> {
    s.map_values(|x: String| x@)
}

/// The mathematical value of an optional segment list.
pub open spec fn segs_opt_view(o: Option<Vec<String>>) -> Option<Seq<Seq<char>>> {
    match o {
        Some(v) => Some(segs_view(v@)),
        None => None,
    }
}

/// A URI, held as plain parts.
#[derive(Clone, Debug, PartialEq, Eq)]
pub struct CoapUri {
    scheme: Option<String>,
    host: Option<String>,
    port: Option<u16>,
    path: Option<Vec<String>>,
    query: Option<Vec<String>>,
}

impl View for CoapUri {
    type V = UriV;

    closed spec fn view(&self) -> UriV {
        UriV {
            scheme: str_opt_view(self.scheme),
            host: str_opt_view(self.host),
            port: self.port,
            path: segs_opt_view(self.path),
            query: segs_opt_view(self.query),
        }
    }
}

impl CoapUri {
    /// A URI assembled from its parts.
    pub fn new(
        scheme: Option<String>,
        host: Option<String>,
        port: Option<u16>,
        path: Option<Vec<String>>,
        query: Option<Vec<String>>,
    ) -> (r: CoapUri)
        ensures
            r@ == (UriV {
                scheme: str_opt_view(scheme),
                host: str_opt_view(host),
                port: port,
                path: segs_opt_view(path),
                query: segs_opt_view(query),
            }),
    {
        CoapUri { scheme, host, port, path, query }
    }

    /// The scheme, if one is present.
    pub fn scheme(&self) -> (r: &Option<String>)
        ensures
            str_opt_view(*r) == self@.scheme,
    {
        &self.scheme
    }

    /// The host, if one is present.
    pub fn host(&self) -> (r: &Option<String>)
        ensures
            str_opt_view(*r) == self@.host,
    {
        &self.host
    }

    /// The port, if one is present.
    pub fn port(&self) -> (r: Option<u16>)
        ensures
            r == self@.port,
    {
        self.port
    }

    /// The path segments, if any are present.
    pub fn path(&self) -> (r: &Option<Vec<String>>)
        ensures
            segs_opt_view(*r) == self@.path,
    {
        &self.path
    }

    /// The query segments, if any are present.
    pub fn query(&self) -> (r: &Option<Vec<String>>)
        ensures
            segs_opt_view(*r) == self@.query,
    {
        &self.query
    }

    /// Takes the path segments out of the URI, leaving none behind.
    pub fn drain_path(&mut self) -> (r: Option<Vec<String>>)
        ensures
            segs_opt_view(r) == old(self)@.path,
            final(self)@ == (UriV { path: None, ..old(self)@ }),
    {
        let r = self.path.take();
        r
    }

    /// Takes the query segments out of the URI, leaving none behind.
    pub fn drain_query(&mut self) -> (r: Option<Vec<String>>)
        ensures
            segs_opt_view(r) == old(self)@.query,
            final(self)@ == (UriV { query: None, ..old(self)@ }),
    {
        let r = self.query.take();
        r
    }
}

} // verus!
