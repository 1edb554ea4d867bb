//! What the proxy sends to Plex: the headers a client's identity becomes,
//! the paths of the requests it makes, and how their answers are kept.
use vstd::prelude::*;
use crate::artwork::first_cover_art;
use crate::cache::{CacheWrite, Expiration};
use crate::config::Config;
use crate::models::{MetaData, Platform, PlexContext};
use crate::text::{concat, i64_text, int_text, owned, same_text, opt_text};
use crate::transform::library_interleave::{retain_unwatched, unwatched_pred};

verus! {

/// A header as a name and a value.
pub type Header = (String, String);

pub open spec fn headers_view(hs: Seq<Header>) -> Seq<(Seq<char>, Seq<char>)> {
    hs.map_values(|h: Header| (h.0@, h.1@))
}

/// The name a platform goes by in headers.
pub open spec fn platform_name(p: Platform) -> Seq<char> {
    match p {
        Platform::Android => "Android"@,
        Platform::Ios => "iOS"@,
        Platform::Safari => "Safari"@,
        Platform::Chrome => "Chrome"@,
        Platform::Roku => "Roku"@,
        Platform::TvOS => "tvOS"@,
        Platform::Generic => "Generic"@,
    }
}

/// The name a platform goes by in headers (see `platform_name`).
pub fn platform_to_string(p: Platform) -> (r: String)
    ensures
        r@ == platform_name(p),
{
    match p {
        Platform::Android => owned("Android"),
        Platform::Ios => owned("iOS"),
        Platform::Safari => owned("Safari"),
        Platform::Chrome => owned("Chrome"),
        Platform::Roku => owned("Roku"),
        Platform::TvOS => owned("tvOS"),
        Platform::Generic => owned("Generic"),
    }
}

/// The headers a client's identity becomes, in order, each with the value
/// the client sent (the platform always, JSON and English always).
pub open spec fn identity_headers(c: PlexContext) -> Seq<(Seq<char>, Option<Seq<char>>)> {
    seq![
        ("X-Plex-Token"@, opt_text(c.token)),
        ("X-Plex-Platform"@, Some(platform_name(c.platform))),
        ("X-Plex-Client-Identifier"@, opt_text(c.client_identifier)),
        ("X-Plex-Session-Id"@, opt_text(c.session_id)),
        ("X-Plex-Playback-Session-Id"@, opt_text(c.playback_session_id)),
        ("X-Plex-Product"@, opt_text(c.product)),
        ("X-Plex-Playback-Id"@, opt_text(c.playback_id)),
        ("X-Plex-Platform-Version"@, opt_text(c.platform_version)),
        ("X-Plex-Version"@, opt_text(c.version)),
        ("X-Plex-Features"@, opt_text(c.features)),
        ("X-Plex-Model"@, opt_text(c.model)),
        ("X-Plex-Device"@, opt_text(c.device)),
        ("X-Plex-Device-Name"@, opt_text(c.device_name)),
        ("X-Plex-Drm"@, opt_text(c.drm)),
        ("X-Plex-Text-Format"@, opt_text(c.text_format)),
        ("X-Plex-Http-Pipeline"@, opt_text(c.http_pipeline)),
        ("X-Plex-Provider-Version"@, opt_text(c.provider_version)),
        ("X-Plex-Device-Screen-Resolution"@, opt_text(c.screen_resolution_original)),
        ("X-Plex-Client-Capabilities"@, opt_text(c.client_capabilities)),
        ("X-Forwarded-For"@, opt_text(c.forwarded_for)),
        ("X-Real-Ip"@, opt_text(c.real_ip)),
        ("accept"@, Some("application/json"@)),
        ("accept-language"@, Some("en-US"@)),
    ]
}

/// The headers that have a value, in order.
pub open spec fn present(hs: Seq<(Seq<char>, Option<Seq<char>>)>) -> Seq<(Seq<char>, Seq<char>)>
    decreases hs.len(),
{
    if hs.len() == 0 {
        Seq::empty()
    } else {
        let rest = present(hs.drop_last());
        match hs.last().1 {
            Some(v) => rest.push((hs.last().0, v)),
            None => rest,
        }
    }
}

/// What the proxy needs to talk to Plex for a client: the client's
/// identity, the Plex host, and the headers sent with every request.
#[derive(Debug)]
pub struct PlexClient {
    pub context: PlexContext,
    pub host: String,
    pub default_headers: Vec<Header>,
}

/// Why a request cannot be answered.
#[derive(Clone, Copy, Debug, PartialEq, Eq, Structural)]
pub enum ClientError {
    /// Plex does not know what was asked for.
    NotFound,
    /// Plex answered with an unexpected status.
    UnexpectedStatus,
}

fn push_header(hs: &mut Vec<Header>, name: &str, value: &Option<String>)
    ensures
        headers_view(final(hs)@) == match *value {
            Some(v) => headers_view(old(hs)@).push((name@, v@)),
            None => headers_view(old(hs)@),
        },
{
    match value {
        Some(v) => {
            let ghost h0 = hs@;
            hs.push((owned(name), v.clone()));
            assert(headers_view(hs@) =~= headers_view(h0).push((name@, v@)));
        },
        None => {},
    }
}

impl PlexClient {
    /// The client for a request: its identity becomes headers (see
    /// `identity_headers`) sent to the configured host. A request without
    /// token, or a proxy without host, has no client.
    pub fn from_context(context: PlexContext, config: &Config) -> (r: PlexClient)
        requires
            context.token is Some,
            config.host is Some,
        ensures
            r.context == context,
            r.host == config.host->0,
            headers_view(r.default_headers@) == present(identity_headers(context)),
    {
        let host = match &config.host {
            Some(h) => h.clone(),
            None => owned(""),
        };
        let ghost hs = identity_headers(context);
        let mut all: Vec<(String, Option<String>)> = Vec::new();
        all.push((owned("X-Plex-Token"), context.token.clone()));
        all.push((owned("X-Plex-Platform"), Some(platform_to_string(context.platform))));
        all.push((owned("X-Plex-Client-Identifier"), context.client_identifier.clone()));
        all.push((owned("X-Plex-Session-Id"), context.session_id.clone()));
        all.push((owned("X-Plex-Playback-Session-Id"), context.playback_session_id.clone()));
        all.push((owned("X-Plex-Product"), context.product.clone()));
        all.push((owned("X-Plex-Playback-Id"), context.playback_id.clone()));
        all.push((owned("X-Plex-Platform-Version"), context.platform_version.clone()));
        all.push((owned("X-Plex-Version"), context.version.clone()));
        all.push((owned("X-Plex-Features"), context.features.clone()));
        all.push((owned("X-Plex-Model"), context.model.clone()));
        all.push((owned("X-Plex-Device"), context.device.clone()));
        all.push((owned("X-Plex-Device-Name"), context.device_name.clone()));
        all.push((owned("X-Plex-Drm"), context.drm.clone()));
        all.push((owned("X-Plex-Text-Format"), context.text_format.clone()));
        all.push((owned("X-Plex-Http-Pipeline"), context.http_pipeline.clone()));
        all.push((owned("X-Plex-Provider-Version"), context.provider_version.clone()));
        all.push((owned("X-Plex-Device-Screen-Resolution"), context.screen_resolution_original.clone()));
        all.push((owned("X-Plex-Client-Capabilities"), context.client_capabilities.clone()));
        all.push((owned("X-Forwarded-For"), context.forwarded_for.clone()));
        all.push((owned("X-Real-Ip"), context.real_ip.clone()));
        all.push((owned("accept"), Some(owned("application/json"))));
        all.push((owned("accept-language"), Some(owned("en-US"))));
        let ghost av = all@.map_values(|p: (String, Option<String>)| (p.0@, opt_text(p.1)));
        assert(av =~= hs);
        let mut h: Vec<Header> = Vec::new();
        let mut i: usize = 0;
        assert(headers_view(h@) =~= present(hs.take(0)));
        while i < all.len()
            invariant
                i <= all@.len(),
                av == all@.map_values(|p: (String, Option<String>)| (p.0@, opt_text(p.1))),
                headers_view(h@) == present(av.take(i as int)),
            decreases all.len() - i,
        {
            proof {
                assert(av.take(i + 1).drop_last() == av.take(i as int));
                assert(av.take(i + 1).last() == av[i as int]);
            }
            let name = &all[i].0;
            push_header(&mut h, name.as_str(), &all[i].1);
            i = i + 1;
        }
        assert(av.take(i as int) == av);
        PlexClient { context, host, default_headers: h }
    }

    /// The url of a request to Plex: the host, then the request's path and
    /// query.
    pub fn request_url(&self, path_and_query: &str) -> (r: String)
        ensures
            r@ == self.host@ + path_and_query@,
    {
        concat(self.host.as_str(), path_and_query)
    }

    /// The key under which an answer is kept for this client: the name and
    /// the client's token.
    pub fn generate_cache_key(&self, name: &str) -> (r: String)
        requires
            self.context.token is Some,
        ensures
            r@ == name@ + ":"@ + self.context.token->0@,
    {
        let k = concat(name, ":");
        match &self.context.token {
            Some(t) => concat(k.as_str(), t.as_str()),
            None => k,
        }
    }
}

/// Whether a request header is passed on to Plex: all but `accept` and
/// `host`, which the proxy sets itself.
pub open spec fn passes_on(name: Seq<char>) -> bool {
    name != "accept"@ && name != "host"@
}

/// The headers of a request to Plex: the client's headers, then the
/// request's own headers that pass on (see `passes_on`).
pub fn request_headers(defaults: &Vec<Header>, request: &Vec<Header>) -> (r: Vec<Header>)
    ensures
        headers_view(r@) == headers_view(defaults@) + headers_view(request@).filter(|h: (Seq<char>, Seq<char>)| passes_on(h.0)),
{
    let mut out: Vec<Header> = Vec::new();
    let mut i: usize = 0;
    while i < defaults.len()
        invariant
            i <= defaults@.len(),
            headers_view(out@) == headers_view(defaults@.take(i as int)),
        decreases defaults.len() - i,
    {
        let a = defaults[i].0.clone();
        let b = defaults[i].1.clone();
        assert(a@ == defaults@[i as int].0@ && b@ == defaults@[i as int].1@);
        let ghost o0 = out@;
        out.push((a, b));
        assert(defaults@.take(i + 1) == defaults@.take(i as int).push(defaults@[i as int]));
        assert(headers_view(out@) =~= headers_view(o0).push((defaults@[i as int].0@, defaults@[i as int].1@)));
        assert(headers_view(out@) =~= headers_view(defaults@.take(i + 1)));
        i = i + 1;
    }
    assert(defaults@.take(i as int) == defaults@);
    let ghost base = headers_view(out@);
    let ghost hv = headers_view(request@);
    let mut j: usize = 0;
    proof {
        reveal(Seq::filter);
    }
    assert(hv.take(0).filter(|h: (Seq<char>, Seq<char>)| passes_on(h.0)) =~= Seq::<(Seq<char>, Seq<char>)>::empty());
    assert(headers_view(out@) =~= base + hv.take(0).filter(|h: (Seq<char>, Seq<char>)| passes_on(h.0)));
    while j < request.len()
        invariant
            j <= request@.len(),
            hv == headers_view(request@),
            headers_view(out@) == base + hv.take(j as int).filter(|h: (Seq<char>, Seq<char>)| passes_on(h.0)),
        decreases request.len() - j,
    {
        proof {
            assert(hv.take(j + 1) == hv.take(j as int).push(hv[j as int]));
            hv.take(j as int).lemma_filter_push(hv[j as int], |h: (Seq<char>, Seq<char>)| passes_on(h.0));
        }
        let name = &request[j].0;
        let ghost o0 = headers_view(out@);
        if !same_text(name.as_str(), "accept") && !same_text(name.as_str(), "host") {
            out.push((name.clone(), request[j].1.clone()));
            assert(headers_view(out@) =~= o0.push(hv[j as int]));
        }
        j = j + 1;
    }
    assert(hv.take(j as int) == hv);
    out
}

/// The path of the custom collections of a library section.
pub fn section_collections_path(id: i64) -> (r: String)
    ensures
        r@ == "/library/sections/"@ + int_text(id as int) + "/collections"@,
{
    let p = concat("/library/sections/", i64_text(id).as_str());
    concat(p.as_str(), "/collections")
}

/// The path of a collection's children: from `offset` when given, at most
/// `limit` when given, always with guids.
pub open spec fn collection_children_path(id: i64, offset: Option<i32>, limit: Option<i32>) -> Seq<char> {
    let p = "/library/collections/"@ + int_text(id as int) + "/children"@;
    let p = match offset {
        Some(o) => p + "?X-Plex-Container-Start="@ + int_text(o as int),
        None => p,
    };
    let p = match limit {
        Some(l) => p + "&X-Plex-Container-Size="@ + int_text(l as int),
        None => p,
    };
    p + "&includeGuids=1"@
}

/// Builds the path of a collection's children (see
/// `collection_children_path`).
pub fn get_collection_children(id: i64, offset: Option<i32>, limit: Option<i32>) -> (r: String)
    ensures
        r@ == collection_children_path(id, offset, limit),
{
    let p = concat("/library/collections/", i64_text(id).as_str());
    let mut p = concat(p.as_str(), "/children");
    match offset {
        Some(o) => {
            let q = concat(p.as_str(), "?X-Plex-Container-Start=");
            p = concat(q.as_str(), i64_text(o as i64).as_str());
        },
        None => {},
    }
    match limit {
        Some(l) => {
            let q = concat(p.as_str(), "&X-Plex-Container-Size=");
            p = concat(q.as_str(), i64_text(l as i64).as_str());
        },
        None => {},
    }
    concat(p.as_str(), "&includeGuids=1")
}

/// The unwatched children of a collection, at most `original_limit` of
/// them (all when the limit is negative).
pub open spec fn unwatched_children(xs: Seq<MetaData>, original_limit: i32) -> Seq<MetaData> {
    let kept = xs.filter(unwatched_pred());
    if original_limit >= 0 && (original_limit as int) < kept.len() {
        kept.take(original_limit as int)
    } else {
        kept
    }
}

/// Keeps the unwatched children of a fetched collection, as many as asked
/// for (see `unwatched_children`).
pub fn load_collection_children_recursive(children: Vec<MetaData>, original_limit: i32) -> (r: Vec<MetaData>)
    ensures
        r@ == unwatched_children(children@, original_limit),
{
    let mut kept = retain_unwatched(children);
    if original_limit >= 0 && (original_limit as usize) < kept.len() {
        kept.truncate(original_limit as usize);
    }
    kept
}

/// The path of a collection.
pub fn get_collection(id: i32) -> (r: String)
    ensures
        r@ == "/library/collections/"@ + int_text(id as int),
{
    concat("/library/collections/", i64_text(id as i64).as_str())
}

/// Plex answers 404 for a collection it does not know.
pub fn collection_status(status: u16) -> (r: Result<(), ClientError>)
    ensures
        status == 404 ==> r == Err::<(), ClientError>(ClientError::NotFound),
        status != 404 ==> r == Ok::<(), ClientError>(()),
{
    if status == 404 {
        Err(ClientError::NotFound)
    } else {
        Ok(())
    }
}

/// The path that counts the unwatched items of a collection in a section:
/// shows by unwatched leaves, movies by unwatched.
pub open spec fn total_size_unwatched_path(section_id: i32, collection_index: i32, kind: Seq<char>) -> Seq<char> {
    let p = "/library/sections/"@ + int_text(section_id as int) + "/all?X-Plex-Container-Start=0&X-Plex-Container-Size=0"@;
    if kind == "show"@ {
        p + "&show.unwatchedLeaves=1&show.collection="@ + int_text(collection_index as int)
    } else if kind == "movie"@ {
        p + "&movie.unwatched=1&movie.collection="@ + int_text(collection_index as int)
    } else {
        p
    }
}

/// Builds the path that counts the unwatched items of a collection (see
/// `total_size_unwatched_path`).
pub fn get_collection_total_size_unwatched(section_id: i32, collection_index: i32, kind: &str) -> (r: String)
    ensures
        r@ == total_size_unwatched_path(section_id, collection_index, kind@),
{
    let p = concat("/library/sections/", i64_text(section_id as i64).as_str());
    let p = concat(p.as_str(), "/all?X-Plex-Container-Start=0&X-Plex-Container-Size=0");
    if same_text(kind, "show") {
        let q = concat(p.as_str(), "&show.unwatchedLeaves=1&show.collection=");
        concat(q.as_str(), i64_text(collection_index as i64).as_str())
    } else if same_text(kind, "movie") {
        let q = concat(p.as_str(), "&movie.unwatched=1&movie.collection=");
        concat(q.as_str(), i64_text(collection_index as i64).as_str())
    } else {
        p
    }
}

/// The path of the hubs.
pub fn get_hubs() -> (r: String)
    ensures
        r@ == "/hubs"@,
{
    owned("/hubs")
}

/// The key under which the hero art of an image id is kept.
pub fn hero_art_cache_key(uuid: &str) -> (r: String)
    ensures
        r@ == uuid@ + ":hero_art"@,
{
    concat(uuid, ":hero_art")
}

/// The hero art found in a provider's answer, and whether to keep it: art
/// that was found is kept, so that a miss is asked again next time.
pub fn get_hero_art(children: &Vec<MetaData>) -> (r: (Option<String>, bool))
    ensures
        opt_text(r.0) == first_cover_art(children@),
        r.1 == (r.0 is Some),
{
    let art = crate::artwork::find_cover_art(children);
    let keep = art.is_some();
    (art, keep)
}

/// The next step of a hero-art lookup.
#[derive(Clone, Debug)]
pub enum HeroArtStep {
    /// The cache holds the art of the image id: it is the answer.
    Cached(String),
    /// The metadata provider is asked at this url.
    Fetch(String),
}

/// Where a hero-art lookup starts: `cached` is what the cache holds under
/// `hero_art_cache_key(uuid)`.
pub fn hero_art_start(uuid: &str, cached: Option<String>) -> (r: HeroArtStep)
    ensures
        match cached {
            Some(u) => r == HeroArtStep::Cached(u),
            None => r matches HeroArtStep::Fetch(url) && url@ == provider_url(uuid@),
        },
{
    match cached {
        Some(u) => HeroArtStep::Cached(u),
        None => HeroArtStep::Fetch(get_provider_data(uuid)),
    }
}

/// What a hero-art lookup answers once the provider replied with the items
/// `reply` (`None` when the request failed), and what it writes to the
/// cache: the art found, under `uuid` + `:hero_art`; nothing when no art was
/// found.
pub open spec fn hero_art_outcome(uuid: Seq<char>, reply: Option<Seq<MetaData>>) -> (Option<Seq<char>>, Option<(Seq<char>, Seq<char>)>) {
    let art = match reply {
        Some(xs) => first_cover_art(xs),
        None => None,
    };
    match art {
        Some(u) => (Some(u), Some((uuid + ":hero_art"@, u))),
        None => (None, None),
    }
}

pub open spec fn write_view(w: Option<CacheWrite<String>>) -> Option<(Seq<char>, Seq<char>)> {
    match w {
        Some(c) => Some((c.key@, c.value@)),
        None => None,
    }
}

pub open spec fn items_view(reply: Option<Vec<MetaData>>) -> Option<Seq<MetaData>> {
    match reply {
        Some(v) => Some(v@),
        None => None,
    }
}

/// The end of a hero-art lookup (see `hero_art_outcome`); art is kept for a
/// month.
pub fn hero_art_on_reply(uuid: &str, reply: Option<Vec<MetaData>>) -> (r: (Option<String>, Option<CacheWrite<String>>))
    ensures
        (opt_text(r.0), write_view(r.1)) == hero_art_outcome(uuid@, items_view(reply)),
        r.1 matches Some(w) ==> w.expiration == Expiration::Month,
{
    let children = match reply {
        Some(v) => v,
        None => return (None, None),
    };
    let (art, _) = get_hero_art(&children);
    match art {
        Some(u) => {
            let w = CacheWrite { key: hero_art_cache_key(uuid), value: u.clone(), expiration: Expiration::Month };
            (Some(u), Some(w))
        },
        None => (None, None),
    }
}

pub open spec fn provider_url(uuid: Seq<char>) -> Seq<char> {
    "https://metadata.provider.plex.tv/library/metadata/"@ + uuid
}

/// The url under which the metadata provider serves an item.
pub fn get_provider_data(uuid: &str) -> (r: String)
    ensures
        r@ == provider_url(uuid@),
{
    concat("https://metadata.provider.plex.tv/library/metadata/", uuid)
}

/// The headers of a request to the metadata provider: the configured token
/// when there is one, and JSON.
pub fn provider_headers(config: &Config) -> (r: Vec<Header>)
    ensures
        headers_view(r@) == match config.token {
            Some(t) => seq![("X-Plex-Token"@, t@), ("Accept"@, "application/json"@)],
            None => seq![("Accept"@, "application/json"@)],
        },
{
    let mut h: Vec<Header> = Vec::new();
    match &config.token {
        Some(t) => h.push((owned("X-Plex-Token"), t.clone())),
        None => {},
    }
    h.push((owned("Accept"), owned("application/json")));
    assert(headers_view(h@) =~= match config.token {
        Some(t) => seq![("X-Plex-Token"@, t@), ("Accept"@, "application/json"@)],
        None => seq![("Accept"@, "application/json"@)],
    });
    h
}

/// The provider answers 200 when it has the item; anything else is an
/// error.
pub fn provider_status(status: u16) -> (r: Result<(), ClientError>)
    ensures
        status == 200 ==> r == Ok::<(), ClientError>(()),
        status != 200 ==> r == Err::<(), ClientError>(ClientError::UnexpectedStatus),
{
    if status == 200 {
        Ok(())
    } else {
        Err(ClientError::UnexpectedStatus)
    }
}

/// The key of the `REPLEXHERO` label among the labels of a section: that of
/// the first label with that title; `None` when there is no such label.
pub fn plexherokey(labels: &Vec<MetaData>) -> (r: Option<Option<String>>)
    ensures
        match r {
            Some(k) => exists|i: int|
                0 <= i < labels@.len() && labels@[i].title@ == "REPLEXHERO"@ && labels@[i].key == k && forall|j: int|
                    0 <= j < i ==> (#[trigger] labels@[j]).title@ != "REPLEXHERO"@,
            None => forall|i: int| 0 <= i < labels@.len() ==> (#[trigger] labels@[i]).title@ != "REPLEXHERO"@,
        },
{
    let mut i: usize = 0;
    while i < labels.len()
        invariant
            i <= labels@.len(),
            forall|j: int| 0 <= j < i ==> (#[trigger] labels@[j]).title@ != "REPLEXHERO"@,
        decreases labels.len() - i,
    {
        if same_text(labels[i].title.as_str(), "REPLEXHERO") {
            let k = labels[i].key.clone();
            assert(labels@[i as int].key == k);
            return Some(k);
        }
        i = i + 1;
    }
    None
}

/// Plex is asked again after answering 401; other answers are taken.
pub fn retry_on_status(status: u16) -> (r: bool)
    ensures
        r == (status == 401),
{
    status == 401
}

} // verus!
