//! How long cached values live, the key a request is cached under, and when
//! a response is served from or written to the cache.
use vstd::prelude::*;
use crate::text::{chars_of, concat, from_chars, owned, replace, replace_all, same_text};

verus! {

/// How long a cached value lives.
#[derive(Clone, Copy, Debug, PartialEq, Eq, Structural)]
pub enum Expiration {
    /// The value never expires.
    Never,
    /// As long as the configured cache TTL.
    Global,
    /// A month.
    Month,
    /// A day.
    Day,
}

/// Seconds in a day.
pub const DAY_SECS: u64 = 86400;

/// Seconds in a month of 30 days.
pub const MONTH_SECS: u64 = 2592000;

/// The seconds a value lives, `None` for ever; `cache_ttl` is the
/// configured TTL.
pub open spec fn expiration_secs(e: Expiration, cache_ttl: u64) -> Option<u64> {
    match e {
        Expiration::Never => None,
        Expiration::Global => Some(cache_ttl),
        Expiration::Month => Some(MONTH_SECS),
        Expiration::Day => Some(DAY_SECS),
    }
}

impl Expiration {
    /// The seconds a value lives (see `expiration_secs`).
    pub fn as_duration(&self, cache_ttl: u64) -> (r: Option<u64>)
        ensures
            r == expiration_secs(*self, cache_ttl),
    {
        match self {
            Expiration::Never => None,
            Expiration::Global => Some(cache_ttl),
            Expiration::Month => Some(30 * 24 * 60 * 60),
            Expiration::Day => Some(60 * 60 * 24),
        }
    }
}

/// Whether a value written now is kept at all: one that lives zero seconds
/// expires at once, so a cache TTL of 0 turns caching off for values of
/// `Global` expiration.
pub open spec fn kept(e: Expiration, cache_ttl: u64) -> bool {
    expiration_secs(e, cache_ttl) != Some(0u64)
}

/// Whether to write a value of expiration `expiration` (see `kept`).
pub fn keeps(expiration: Expiration, cache_ttl: u64) -> (r: bool)
    ensures
        r == kept(expiration, cache_ttl),
{
    match expiration.as_duration(cache_ttl) {
        Some(secs) => secs != 0,
        None => true,
    }
}

/// A value to write to the cache.
#[derive(Clone, Debug)]
pub struct CacheWrite<V> {
    pub key: String,
    pub value: V,
    pub expiration: Expiration,
}

/// The expiry of values in the global cache: each lives as its expiration
/// says.
#[derive(Clone, Copy, Debug, Default)]
pub struct CacheExpiry;

impl CacheExpiry {
    /// The seconds a value just written lives.
    pub fn expire_after_create(&self, expiration: Expiration, cache_ttl: u64) -> (r: Option<u64>)
        ensures
            r == expiration_secs(expiration, cache_ttl),
    {
        expiration.as_duration(cache_ttl)
    }
}

/// The parts of a request the cache key is made of.
#[derive(Clone, Debug)]
pub struct RequestParts {
    pub scheme: Option<String>,
    pub authority: Option<String>,
    /// The local address as written by the server, such as
    /// `socket://127.0.0.1:80`.
    pub local_addr: String,
    pub path: String,
    pub query: Option<String>,
    pub method: String,
    /// The first media type the request accepts, if any.
    pub first_accept: Option<String>,
    /// The headers, with lower-case names, in order.
    pub headers: Vec<(String, String)>,
}

/// Which parts of a request make its cache key.
#[derive(Clone, Debug)]
pub struct RequestIssuer {
    pub use_scheme: bool,
    pub use_authority: bool,
    pub use_local_addr: bool,
    pub use_path: bool,
    pub path_strip_last_segment: bool,
    pub use_query: bool,
    pub use_method: bool,
    pub use_mime: bool,
    /// Header names, in lower case.
    pub use_headers: Vec<String>,
}

pub open spec fn header_names(v: Seq<String>) -> Seq<Seq<char>> {
    v.map_values(|s: String| s@)
}

pub open spec fn pairs_of(hs: Seq<(String, String)>) -> Seq<(Seq<char>, Seq<char>)> {
    hs.map_values(|h: (String, String)| (h.0@, h.1@))
}

/// The value of the first header called `name`.
pub open spec fn first_header(hs: Seq<(Seq<char>, Seq<char>)>, name: Seq<char>) -> Option<Seq<char>>
    decreases hs.len(),
{
    if hs.len() == 0 {
        None
    } else if hs[0].0 == name {
        Some(hs[0].1)
    } else {
        first_header(hs.drop_first(), name)
    }
}

pub open spec fn opt_or_empty(o: Option<String>) -> Seq<char> {
    match o {
        Some(s) => s@,
        None => Seq::empty(),
    }
}

/// The part of the key for the chosen headers the request has: `::`, the
/// name (for `accept` the first accepted media type), `:`, the value.
pub open spec fn headers_key(names: Seq<Seq<char>>, hs: Seq<(Seq<char>, Seq<char>)>, first_accept: Option<String>) -> Seq<char>
    decreases names.len(),
{
    if names.len() == 0 {
        Seq::empty()
    } else {
        let before = headers_key(names.drop_last(), hs, first_accept);
        let name = names.last();
        match first_header(hs, name) {
            None => before,
            Some(v) => before + "::"@ + (if name == "accept"@ {
                opt_or_empty(first_accept)
            } else {
                name
            }) + ":"@ + v,
        }
    }
}

/// The cache key of a request: the parts the issuer uses, in a fixed
/// order, then the chosen headers.
pub open spec fn cache_key(i: RequestIssuer, r: RequestParts) -> Seq<char> {
    key_head(i, r) + key_headers(i, r)
}

/// The chosen headers of a request, as part of its key.
pub open spec fn key_headers(i: RequestIssuer, r: RequestParts) -> Seq<char> {
    if i.use_headers@.len() > 0 && r.headers@.len() > 0 {
        "|headers::"@ + headers_key(header_names(i.use_headers@), pairs_of(r.headers@), r.first_accept)
    } else {
        Seq::empty()
    }
}

pub open spec fn scheme_part(i: RequestIssuer, r: RequestParts) -> Seq<char> {
    if i.use_scheme && r.scheme is Some {
        r.scheme->0@ + "://"@
    } else {
        Seq::empty()
    }
}

pub open spec fn authority_part(i: RequestIssuer, r: RequestParts) -> Seq<char> {
    if i.use_authority && r.authority is Some {
        r.authority->0@
    } else {
        Seq::empty()
    }
}

pub open spec fn local_part(i: RequestIssuer, r: RequestParts) -> Seq<char> {
    if i.use_local_addr {
        replace_all(r.local_addr@, "socket://"@, ""@)
    } else {
        Seq::empty()
    }
}

/// A path without its last `/`-separated segment: the text before its last
/// `/`, empty when it has none.
pub open spec fn strip_last_segment(p: Seq<char>) -> Seq<char>
    decreases p.len(),
{
    if p.len() == 0 {
        p
    } else if p.last() == '/' {
        p.drop_last()
    } else {
        strip_last_segment(p.drop_last())
    }
}

/// The path as part of the key; its last segment, which may carry a token,
/// is left out when the issuer strips it.
pub open spec fn path_part(i: RequestIssuer, r: RequestParts) -> Seq<char> {
    if i.use_path {
        if i.path_strip_last_segment {
            strip_last_segment(r.path@)
        } else {
            r.path@
        }
    } else {
        Seq::empty()
    }
}

/// A path without its last segment (see `strip_last_segment`).
pub fn without_last_segment(p: &str) -> (r: String)
    ensures
        r@ == strip_last_segment(p@),
{
    let cs = chars_of(p);
    let mut n: usize = cs.len();
    assert(cs@.take(n as int) =~= cs@);
    while n > 0 && cs[n - 1] != '/'
        invariant
            n <= cs@.len(),
            strip_last_segment(cs@) == strip_last_segment(cs@.take(n as int)),
        decreases n,
    {
        assert(cs@.take(n as int).drop_last() =~= cs@.take(n - 1));
        n = n - 1;
    }
    let mut out: Vec<char> = Vec::new();
    if n > 0 {
        assert(cs@.take(n as int).drop_last() =~= cs@.take(n - 1));
        let end = n - 1;
        let mut i: usize = 0;
        while i < end
            invariant
                i <= end,
                end < cs@.len(),
                out@ =~= cs@.take(i as int),
            decreases end - i,
        {
            out.push(cs[i]);
            assert(cs@.take(i + 1) =~= cs@.take(i as int).push(cs@[i as int]));
            i = i + 1;
        }
    } else {
        assert(cs@.take(0) =~= Seq::<char>::empty());
    }
    from_chars(&out)
}

pub open spec fn query_part(i: RequestIssuer, r: RequestParts) -> Seq<char> {
    if i.use_query && r.query is Some {
        "?"@ + r.query->0@
    } else {
        Seq::empty()
    }
}

pub open spec fn method_part(i: RequestIssuer, r: RequestParts) -> Seq<char> {
    if i.use_method {
        "|method::"@ + r.method@
    } else {
        Seq::empty()
    }
}

pub open spec fn mime_part(i: RequestIssuer, r: RequestParts) -> Seq<char> {
    if i.use_mime && r.first_accept is Some {
        "|mime::"@ + r.first_accept->0@
    } else {
        Seq::empty()
    }
}

/// The parts of a request before its headers, as part of its key: scheme
/// and `://`, authority, local address, path, `?` and query, method, first
/// accepted media type, as the issuer uses them.
pub open spec fn key_head(i: RequestIssuer, r: RequestParts) -> Seq<char> {
    scheme_part(i, r) + authority_part(i, r) + local_part(i, r) + path_part(i, r) + query_part(i, r)
        + method_part(i, r) + mime_part(i, r)
}

fn find_header(hs: &Vec<(String, String)>, name: &str) -> (r: Option<String>)
    ensures
        match r {
            Some(v) => first_header(pairs_of(hs@), name@) == Some(v@),
            None => first_header(pairs_of(hs@), name@) is None,
        },
{
    let ghost ps = pairs_of(hs@);
    let mut i: usize = 0;
    assert(ps.skip(0) == ps);
    while i < hs.len()
        invariant
            i <= hs@.len(),
            ps == pairs_of(hs@),
            first_header(ps, name@) == first_header(ps.skip(i as int), name@),
        decreases hs.len() - i,
    {
        proof {
            assert(ps.skip(i as int)[0] == ps[i as int]);
            assert(ps.skip(i as int).drop_first() == ps.skip(i + 1));
        }
        if same_text(hs[i].0.as_str(), name) {
            return Some(hs[i].1.clone());
        }
        i = i + 1;
    }
    assert(ps.skip(i as int).len() == 0);
    None
}

impl Default for RequestIssuer {
    /// The issuer of `RequestIssuer::new`.
    fn default() -> (r: RequestIssuer)
        ensures
            r.use_scheme && r.use_authority && !r.use_local_addr && r.use_path && !r.path_strip_last_segment
                && r.use_query && r.use_method && !r.use_mime && r.use_headers@.len() == 0,
    {
        RequestIssuer::new()
    }
}

impl RequestIssuer {
    /// Keys from scheme, authority, path, query and method.
    pub fn new() -> (r: RequestIssuer)
        ensures
            r.use_scheme && r.use_authority && !r.use_local_addr && r.use_path && !r.path_strip_last_segment
                && r.use_query && r.use_method && !r.use_mime && r.use_headers@.len() == 0,
    {
        RequestIssuer {
            use_scheme: true,
            use_authority: true,
            use_local_addr: false,
            use_path: true,
            path_strip_last_segment: false,
            use_query: true,
            use_method: true,
            use_mime: false,
            use_headers: Vec::new(),
        }
    }

    /// The keys for Plex requests: as `new`, and the headers `accept`,
    /// `accept-encoding`, the token, the language and the client
    /// identifier.
    pub fn with_plex_defaults() -> (r: RequestIssuer)
        ensures
            r.use_scheme && r.use_authority && !r.use_local_addr && r.use_path && !r.path_strip_last_segment
                && r.use_query && r.use_method && !r.use_mime,
            header_names(r.use_headers@) == seq![
                "accept"@,
                "accept-encoding"@,
                "x-plex-token"@,
                "x-plex-language"@,
                "x-plex-client-identifier"@,
            ],
    {
        let mut h: Vec<String> = Vec::new();
        h.push(owned("accept"));
        h.push(owned("accept-encoding"));
        h.push(owned(crate::headers::PLEX_TOKEN));
        h.push(owned(crate::headers::PLEX_LANGUAGE));
        h.push(owned(crate::headers::PLEX_CLIENT_IDENTIFIER));
        assert(header_names(h@) =~= seq![
            "accept"@,
            "accept-encoding"@,
            "x-plex-token"@,
            "x-plex-language"@,
            "x-plex-client-identifier"@,
        ]);
        RequestIssuer {
            use_scheme: true,
            use_authority: true,
            use_local_addr: false,
            use_path: true,
            path_strip_last_segment: false,
            use_query: true,
            use_method: true,
            use_mime: false,
            use_headers: h,
        }
    }

    /// Whether the scheme is part of the key.
    pub fn use_scheme(self, value: bool) -> (r: RequestIssuer)
        ensures
            r == (RequestIssuer { use_scheme: value, ..self }),
    {
        RequestIssuer { use_scheme: value, ..self }
    }

    /// Whether the authority is part of the key.
    pub fn use_authority(self, value: bool) -> (r: RequestIssuer)
        ensures
            r == (RequestIssuer { use_authority: value, ..self }),
    {
        RequestIssuer { use_authority: value, ..self }
    }

    /// Whether the local address is part of the key.
    pub fn use_local_addr(self, value: bool) -> (r: RequestIssuer)
        ensures
            r == (RequestIssuer { use_local_addr: value, ..self }),
    {
        RequestIssuer { use_local_addr: value, ..self }
    }

    /// Whether the path is part of the key.
    pub fn use_path(self, value: bool) -> (r: RequestIssuer)
        ensures
            r == (RequestIssuer { use_path: value, ..self }),
    {
        RequestIssuer { use_path: value, ..self }
    }

    /// Whether the query is part of the key.
    pub fn use_query(self, value: bool) -> (r: RequestIssuer)
        ensures
            r == (RequestIssuer { use_query: value, ..self }),
    {
        RequestIssuer { use_query: value, ..self }
    }

    /// Whether the method is part of the key.
    pub fn use_method(self, value: bool) -> (r: RequestIssuer)
        ensures
            r == (RequestIssuer { use_method: value, ..self }),
    {
        RequestIssuer { use_method: value, ..self }
    }

    /// The headers that are part of the key.
    pub fn use_headers(self, value: Vec<String>) -> (r: RequestIssuer)
        ensures
            r == (RequestIssuer { use_headers: value, ..self }),
    {
        RequestIssuer { use_headers: value, ..self }
    }

    /// Whether the last segment of the path, which may carry a token, is
    /// left out of the key.
    pub fn path_strip_last_segment(self, value: bool) -> (r: RequestIssuer)
        ensures
            r == (RequestIssuer { path_strip_last_segment: value, ..self }),
    {
        RequestIssuer { path_strip_last_segment: value, ..self }
    }

    /// The cache key of a request (see `cache_key`).
    pub fn issue(&self, req: &RequestParts) -> (r: String)
        ensures
            r@ == cache_key(*self, *req),
    {
        let head = self.issue_head(req);
        let tail = self.issue_headers(req);
        concat(head.as_str(), tail.as_str())
    }

    fn issue_head(&self, req: &RequestParts) -> (r: String)
        ensures
            r@ == key_head(*self, *req),
    {
        let scheme = match &req.scheme {
            Some(s) => if self.use_scheme {
                concat(s.as_str(), "://")
            } else {
                String::new()
            },
            None => String::new(),
        };
        let authority = match &req.authority {
            Some(a) => if self.use_authority {
                a.clone()
            } else {
                String::new()
            },
            None => String::new(),
        };
        let local = if self.use_local_addr {
            replace(req.local_addr.as_str(), "socket://", "")
        } else {
            String::new()
        };
        let path = if self.use_path {
            if self.path_strip_last_segment {
                without_last_segment(req.path.as_str())
            } else {
                req.path.clone()
            }
        } else {
            String::new()
        };
        let query = match &req.query {
            Some(q) => if self.use_query {
                concat("?", q.as_str())
            } else {
                String::new()
            },
            None => String::new(),
        };
        let method = if self.use_method {
            concat("|method::", req.method.as_str())
        } else {
            String::new()
        };
        let mime = match &req.first_accept {
            Some(m) => if self.use_mime {
                concat("|mime::", m.as_str())
            } else {
                String::new()
            },
            None => String::new(),
        };
        let k = concat(scheme.as_str(), authority.as_str());
        let k = concat(k.as_str(), local.as_str());
        let k = concat(k.as_str(), path.as_str());
        let k = concat(k.as_str(), query.as_str());
        let k = concat(k.as_str(), method.as_str());
        concat(k.as_str(), mime.as_str())
    }

    fn issue_headers(&self, req: &RequestParts) -> (r: String)
        ensures
            r@ == key_headers(*self, *req),
    {
        if self.use_headers.len() == 0 || req.headers.len() == 0 {
            return String::new();
        }
        let mut key = owned("|headers::");
        let ghost base = key@;
        let ghost names = header_names(self.use_headers@);
        let mut i: usize = 0;
        assert(names.take(0) =~= Seq::<Seq<char>>::empty());
        while i < self.use_headers.len()
            invariant
                i <= self.use_headers@.len(),
                names == header_names(self.use_headers@),
                key@ == base + headers_key(names.take(i as int), pairs_of(req.headers@), req.first_accept),
            decreases self.use_headers.len() - i,
        {
            proof {
                assert(names.take(i + 1).drop_last() == names.take(i as int));
                assert(names.take(i + 1).last() == self.use_headers@[i as int]@);
            }
            let name = &self.use_headers[i];
            match find_header(&req.headers, name.as_str()) {
                Some(v) => {
                    let ghost k0 = key@;
                    key = concat(key.as_str(), "::");
                    if same_text(name.as_str(), "accept") {
                        match &req.first_accept {
                            Some(m) => key = concat(key.as_str(), m.as_str()),
                            None => {},
                        }
                    } else {
                        key = concat(key.as_str(), name.as_str());
                    }
                    key = concat(key.as_str(), ":");
                    key = concat(key.as_str(), v.as_str());
                    assert(key@ =~= k0 + "::"@ + (if name@ == "accept"@ {
                        opt_or_empty(req.first_accept)
                    } else {
                        name@
                    }) + ":"@ + v@);
                },
                None => {},
            }
            i = i + 1;
        }
        assert(names.take(i as int) == names);
        key
    }
}

/// Responses of methods other than GET are not cached.
pub fn skips_method(method: &str) -> (r: bool)
    ensures
        r == (method@ != "GET"@),
{
    !same_text(method, "GET")
}

/// What the cache does with a request.
#[derive(Clone, Copy, Debug, PartialEq, Eq, Structural)]
pub enum CacheAction {
    /// Leave the request to the handlers.
    Pass,
    /// Answer with the cached response and skip the handlers.
    Respond,
    /// Call the handlers, then try to cache their response.
    CallAndStore,
}

/// The cache passes over skipped requests and those without key, answers
/// from a cached entry, and otherwise calls the handlers and stores.
pub fn cache_action(skipped: bool, has_key: bool, cached: bool) -> (r: CacheAction)
    ensures
        (skipped || !has_key) ==> r == CacheAction::Pass,
        (!skipped && has_key && cached) ==> r == CacheAction::Respond,
        (!skipped && has_key && !cached) ==> r == CacheAction::CallAndStore,
{
    if skipped || !has_key {
        CacheAction::Pass
    } else if cached {
        CacheAction::Respond
    } else {
        CacheAction::CallAndStore
    }
}

/// A response is stored when its body is neither a stream nor an error.
pub fn should_store(is_stream: bool, is_error: bool) -> (r: bool)
    ensures
        r == (!is_stream && !is_error),
{
    !is_stream && !is_error
}

} // verus!
