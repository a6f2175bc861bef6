//! Target resources: the parsed form of a requested URL, as far as the
//! orchestration logic reads it (host, optional port, percent-encoded path).

use vstd::prelude::*;

verus! {

/// One requested resource: where to connect and which path to ask for.
/// The path is kept as percent-encoded ASCII bytes, exactly as the URL
/// carries it on the wire.
#[derive(Debug)]
pub struct Resource {
    /// The host the resource lives on.
    pub host: String,
    /// The port named in the URL, if any; `effective_port` applies the
    /// harness default.
    pub port: Option<u16>,
    /// The resource path, exactly as the URL carries it.
    pub path: Vec<u8>,
}

/// The mathematical value of a `Resource`.
pub struct ResourceView {
    pub host: Seq<char>,
    pub port: Option<u16>,
    pub path: Seq<u8>,
}

impl View for Resource {
    type V = ResourceView;

    open spec fn view(&self) -> ResourceView {
        ResourceView { host: self.host@, port: self.port, path: self.path@ }
    }
}

impl Clone for Resource {
    fn clone(&self) -> (r: Self)
        ensures
            r@ == self@,
    {
        Resource { host: self.host.clone(), port: self.port, path: self.path.clone() }
    }
}

/// The port a client dials when the URL names none.
pub const DEFAULT_PORT: u16 = 4433;

/// Whether `url::Url::parse` accepts the string as an absolute URL that
/// names a host.
pub uninterp spec fn url_accepted(s: Seq<char>) -> bool;

/// The host component `url::Url::host_str` returns for an accepted URL.
pub uninterp spec fn url_host_of(s: Seq<char>) -> Seq<char>;

/// The explicit port `url::Url::port` returns for an accepted URL, absent
/// when the URL names none (or names its scheme's default).
pub uninterp spec fn url_port_of(s: Seq<char>) -> Option<u16>;

/// The percent-encoded path `url::Url::path` returns for an accepted URL.
pub uninterp spec fn url_path_of(s: Seq<char>) -> Seq<u8>;

/// The value an accepted URL parses to.
pub open spec fn resource_of_url(s: Seq<char>) -> ResourceView {
    ResourceView { host: url_host_of(s), port: url_port_of(s), path: url_path_of(s) }
}

/// Relies on `url::Url::parse` and the accessors `Url::host_str`,
/// `Url::port` and `Url::path`: each is a pure function of the input
/// string alone.  A string that does not parse as an absolute URL, or
/// whose URL names no host, yields `None`.
#[verifier::external_body]
fn parse_url(s: &str) -> (r: Option<Resource>)
    ensures
        (r is Some) == url_accepted(s@),
        r matches Some(res) ==> res@.host == url_host_of(s@) && res@.port == url_port_of(s@)
            && res@.path == url_path_of(s@),
{
    match url::Url::parse(s) {
        Ok(u) => {
            let host = match u.host_str() {
                Some(h) => h.to_owned(),
                None => return None,
            };
            Some(Resource { host, port: u.port(), path: u.path().as_bytes().to_vec() })
        },
        Err(_) => None,
    }
}

/// The string values of a list of URL strings.
pub open spec fn views_of(urls: Seq<String>) -> Seq<Seq<char>> {
    urls.map_values(|u: String| u@)
}

/// The resources a list of URL strings parses to: accepted URLs in input
/// order, strings the parser refuses silently dropped.
pub open spec fn spec_request_list(urls: Seq<Seq<char>>) -> Seq<ResourceView>
    decreases urls.len(),
{
    if urls.len() == 0 {
        Seq::empty()
    } else {
        let rest = spec_request_list(urls.drop_last());
        if url_accepted(urls.last()) {
            rest.push(resource_of_url(urls.last()))
        } else {
            rest
        }
    }
}

/// Parses the requested URL strings into resources, keeping input order and
/// dropping strings that are not absolute URLs with a host.
pub fn parse_request_list(urls: &Vec<String>) -> (rs: Vec<Resource>)
    ensures
        rs@.map_values(|r: Resource| r@) == spec_request_list(views_of(urls@)),
{
    let ghost all = views_of(urls@);
    let mut rs: Vec<Resource> = Vec::new();
    let mut i: usize = 0;
    while i < urls.len()
        invariant
            i <= urls.len(),
            all == views_of(urls@),
            rs@.map_values(|r: Resource| r@) == spec_request_list(all.take(i as int)),
        decreases urls.len() - i,
    {
        let ghost prev = rs@.map_values(|r: Resource| r@);
        match parse_url(urls[i].as_str()) {
            Some(res) => {
                rs.push(res);
            },
            None => {},
        }
        proof {
            assert(all.take(i + 1).drop_last() =~= all.take(i as int));
            assert(all.take(i + 1).last() == urls@[i as int]@);
            assert(rs@.map_values(|r: Resource| r@) =~= spec_request_list(all.take(i + 1)));
        }
        i = i + 1;
    }
    proof {
        assert(all.take(urls@.len() as int) =~= all);
    }
    rs
}

/// The port this resource is dialed on: the URL's own port, or the harness
/// default when the URL names none.
pub open spec fn spec_effective_port(r: ResourceView) -> u16 {
    match r.port {
        Some(p) => p,
        None => DEFAULT_PORT,
    }
}

/// Returns the port to dial for this resource.
pub fn effective_port(r: &Resource) -> (p: u16)
    ensures
        p == spec_effective_port(r@),
{
    match r.port {
        Some(p) => p,
        None => DEFAULT_PORT,
    }
}

/// The last segment of a path: the bytes after the final slash, empty when
/// the path ends in a slash or is empty.  Downloaded payloads are persisted
/// under this name.
pub open spec fn spec_file_name(path: Seq<u8>) -> Seq<u8>
    decreases path.len(),
{
    if path.len() == 0 {
        Seq::empty()
    } else if path.last() == 47u8 {
        Seq::empty()
    } else {
        spec_file_name(path.drop_last()).push(path.last())
    }
}

/// The last path segment equals the suffix that follows the final slash.
proof fn lemma_file_name_is_suffix(path: Seq<u8>, k: int)
    requires
        0 <= k <= path.len(),
        forall|j: int| k <= j < path.len() ==> path[j] != 47u8,
        k == 0 || path[k - 1] == 47u8,
    ensures
        spec_file_name(path) == path.subrange(k, path.len() as int),
    decreases path.len(),
{
    if path.len() == k {
        if k == 0 {
        } else {
            assert(path.last() == path[k - 1]);
        }
        assert(path.subrange(k, path.len() as int) =~= Seq::empty());
    } else {
        lemma_file_name_is_suffix(path.drop_last(), k);
        assert(spec_file_name(path) == path.drop_last().subrange(
            k,
            path.len() - 1,
        ).push(path.last()));
        assert(path.subrange(k, path.len() as int) =~= path.drop_last().subrange(
            k,
            path.len() - 1,
        ).push(path.last()));
    }
}

/// Returns the name a downloaded resource is persisted under: the last
/// segment of its path.
pub fn file_name_of(path: &Vec<u8>) -> (name: Vec<u8>)
    ensures
        name@ == spec_file_name(path@),
{
    let mut start: usize = path.len();
    while start > 0 && path[start - 1] != 47u8
        invariant
            start <= path.len(),
            forall|j: int| start <= j < path@.len() ==> path@[j] != 47u8,
        decreases start,
    {
        start = start - 1;
    }
    proof {
        lemma_file_name_is_suffix(path@, start as int);
    }
    let mut name: Vec<u8> = Vec::new();
    let mut i: usize = start;
    while i < path.len()
        invariant
            start <= i <= path.len(),
            name@ == path@.subrange(start as int, i as int),
        decreases path.len() - i,
    {
        name.push(path[i]);
        proof {
            assert(name@ =~= path@.subrange(start as int, i + 1));
        }
        i = i + 1;
    }
    name
}

} // verus!
