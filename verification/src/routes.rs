//! The routes of the proxy and the decisions its handlers take: which
//! requests are rewritten, redirected, answered directly or handed to Plex.
use vstd::prelude::*;
use crate::config::Config;
use crate::models::{Media, MediaContainer, MediaContainerWrapper, MetaData, Platform, PlexContext, Style};
use crate::query::{QueryPair, first_value, get, has_name, pairs_view, remove, set_param, with_param, without_name, contains_key, insert};
use crate::text::{
    concat, contains, has_infix, int_text, join, join_with, lowercase, owned, parse_signed, parse_unsigned,
    same_text, split_char, split_on, texts, to_lowercase, i64_text, usize_text, parse_i64, parse_usize,
};
use crate::utils::ContentType;

pub mod responses;
pub mod playback;
pub mod watchlist;



verus! {

/// A middleware a route runs before its goal.
#[derive(Clone, Copy, Debug, PartialEq, Eq, Structural)]
pub enum Hoop {
    Cors,
    Logger,
    ShouldSkip,
    /// Gives up after this many seconds.
    Timeout(u64),
    Compression,
    DisableRelatedQuery,
    AutoSelectVersion,
    ForceMaximumQuality,
    VideoTranscodeFallback,
    DirectStreamFallback,
    NtfWatchlistForce,
    TransformReqContentDirectory,
    TransformReqIncludeGuids,
    TransformReqAndroid,
    ProxyForTransform,
    FixPhotoTranscodeRequest,
    ResolveLocalMediaPath,
}

/// The handler that answers a route.
#[derive(Clone, Copy, Debug, PartialEq, Eq, Structural)]
pub enum Goal {
    RedirectStream,
    ProxyRequest,
    EmptyHandler,
    TestProxyRequest,
    TransformHubsResponse,
    HeroImage,
    WebhookPlex,
    Ping,
    GetCollectionsChildren,
    DefaultTransform,
}

/// The methods a route answers.
#[derive(Clone, Copy, Debug, PartialEq, Eq, Structural)]
pub enum Method {
    Any,
    Get,
    Post,
}

/// One route: a path pattern, its middlewares in order, and its handler.
#[derive(Clone, Debug)]
pub struct RouteEntry {
    pub path: String,
    pub hoops: Vec<Hoop>,
    pub goal: Goal,
    pub method: Method,
}

/// The routes of the proxy: middlewares run for every request, then the
/// routes in the order they are tried.
#[derive(Clone, Debug)]
pub struct RoutePlan {
    pub hoops: Vec<Hoop>,
    pub routes: Vec<RouteEntry>,
}

pub type RouteView = (Seq<char>, Seq<Hoop>, Goal, Method);

pub open spec fn route_view(e: RouteEntry) -> RouteView {
    (e.path@, e.hoops@, e.goal, e.method)
}

/// The seconds after which any request is given up: 200 minutes.
pub const REQUEST_TIMEOUT_SECS: u64 = 12000;

/// The seconds after which a request for related items is given up.
pub const RELATED_TIMEOUT_SECS: u64 = 5;

/// The middlewares run for every request.
pub open spec fn global_hoops() -> Seq<Hoop> {
    seq![Hoop::Cors, Hoop::Logger, Hoop::ShouldSkip, Hoop::Timeout(REQUEST_TIMEOUT_SECS), Hoop::Compression]
}

pub open spec fn when<T>(c: bool, s: Seq<T>) -> Seq<T> {
    if c {
        s
    } else {
        Seq::empty()
    }
}

/// The middlewares of the transcode routes: version selection, then
/// maximum quality, as configured.
pub open spec fn transcode_hoops(c: Config) -> Seq<Hoop> {
    when(c.auto_select_version, seq![Hoop::AutoSelectVersion]) + when(
        c.force_maximum_quality || c.disable_transcode,
        seq![Hoop::ForceMaximumQuality],
    )
}

/// The middlewares of the transcode decision route.
pub open spec fn decision_hoops(c: Config) -> Seq<Hoop> {
    transcode_hoops(c) + when(c.video_transcode_fallback_for is Some, seq![Hoop::VideoTranscodeFallback]) + seq![
        Hoop::DirectStreamFallback,
    ]
}

/// The routes that depend on the settings, in order.
pub open spec fn configured_routes(c: Config) -> Seq<RouteView> {
    when(
        c.redirect_streams,
        seq![
            ("/video/<colon:colon>/transcode/universal/session/<**rest>"@, Seq::empty(), Goal::RedirectStream, Method::Any),
            ("/library/parts/<itemid>/<partid>/file.<extension>"@, Seq::empty(), Goal::RedirectStream, Method::Any),
        ],
    ) + when(
        c.disable_related,
        seq![
            ("/library/metadata/<id>/related"@, seq![Hoop::Timeout(RELATED_TIMEOUT_SECS)], Goal::ProxyRequest, Method::Any),
            ("/playQueues"@, seq![Hoop::DisableRelatedQuery], Goal::ProxyRequest, Method::Any),
        ],
    ) + seq![
        ("/video/<colon:colon>/transcode/universal/decision"@, decision_hoops(c), Goal::ProxyRequest, Method::Any),
        ("/video/<colon:colon>/transcode/universal/start<**rest>"@, transcode_hoops(c), Goal::ProxyRequest, Method::Any),
        ("/video/<colon:colon>/transcode/universal/subtitles"@, transcode_hoops(c), Goal::ProxyRequest, Method::Any),
    ] + when(
        c.disable_continue_watching,
        seq![("/hubs/continueWatching"@, Seq::empty(), Goal::EmptyHandler, Method::Get)],
    ) + when(
        c.ntf_watchlist_force,
        seq![("/media/providers"@, seq![Hoop::NtfWatchlistForce], Goal::ProxyRequest, Method::Any)],
    )
}

/// The routes every configuration has, tried after the configured ones.
pub open spec fn fixed_routes() -> Seq<RouteView> {
    seq![
        (
            "/hubs/promoted"@,
            seq![
                Hoop::TransformReqContentDirectory,
                Hoop::TransformReqIncludeGuids,
                Hoop::TransformReqAndroid,
                Hoop::ProxyForTransform,
            ],
            Goal::TransformHubsResponse,
            Method::Get,
        ),
        ("/replex/test_proxy/<**rest>"@, Seq::empty(), Goal::TestProxyRequest, Method::Any),
        ("/replex/image/hero/<type>/<uuid>"@, Seq::empty(), Goal::HeroImage, Method::Get),
        (
            "/hubs/sections/<id>"@,
            seq![Hoop::TransformReqIncludeGuids, Hoop::TransformReqAndroid, Hoop::ProxyForTransform],
            Goal::TransformHubsResponse,
            Method::Get,
        ),
        ("/replex/webhooks"@, Seq::empty(), Goal::WebhookPlex, Method::Post),
        ("/ping"@, Seq::empty(), Goal::Ping, Method::Get),
        ("/replex/<style>/library/collections/<ids>/children"@, Seq::empty(), Goal::GetCollectionsChildren, Method::Get),
        ("/replex/<style>/<**rest>"@, Seq::empty(), Goal::DefaultTransform, Method::Get),
        (
            "/photo/<colon:colon>/transcode"@,
            seq![Hoop::FixPhotoTranscodeRequest, Hoop::ResolveLocalMediaPath],
            Goal::ProxyRequest,
            Method::Any,
        ),
        ("<**rest>"@, Seq::empty(), Goal::ProxyRequest, Method::Any),
    ]
}

/// The routes of a configuration, in the order they are tried.
pub open spec fn planned_routes(c: Config) -> Seq<RouteView> {
    configured_routes(c) + fixed_routes()
}

fn entry(path: &str, hoops: Vec<Hoop>, goal: Goal, method: Method) -> (r: RouteEntry)
    ensures
        route_view(r) == (path@, hoops@, goal, method),
{
    RouteEntry { path: owned(path), hoops, goal, method }
}

fn push_entry(routes: &mut Vec<RouteEntry>, e: RouteEntry, ghost_views: Ghost<Seq<RouteView>>) -> (g: Ghost<Seq<RouteView>>)
    requires
        old(routes)@.map_values(|r: RouteEntry| route_view(r)) == ghost_views@,
    ensures
        final(routes)@.map_values(|r: RouteEntry| route_view(r)) == g@,
        g@ == ghost_views@.push(route_view(e)),
{
    let ghost e0 = e;
    routes.push(e);
    assert(routes@.map_values(|r: RouteEntry| route_view(r)) == ghost_views@.push(route_view(e0)));
    Ghost(ghost_views@.push(route_view(e0)))
}

fn transcode_hoop_list(c: &Config) -> (r: Vec<Hoop>)
    ensures
        r@ == transcode_hoops(*c),
{
    let mut v: Vec<Hoop> = Vec::new();
    if c.auto_select_version {
        v.push(Hoop::AutoSelectVersion);
    }
    if c.force_maximum_quality || c.disable_transcode {
        v.push(Hoop::ForceMaximumQuality);
    }
    assert(v@ == transcode_hoops(*c));
    v
}

fn configured_entries(config: &Config) -> (r: Vec<RouteEntry>)
    ensures
        r@.map_values(|e: RouteEntry| route_view(e)) == configured_routes(*config),
{
    let mut routes: Vec<RouteEntry> = Vec::new();
    let mut g: Ghost<Seq<RouteView>> = Ghost(Seq::empty());
    assert(routes@.map_values(|r: RouteEntry| route_view(r)) =~= g@);
    if config.redirect_streams {
        g = push_entry(&mut routes, entry("/video/<colon:colon>/transcode/universal/session/<**rest>", Vec::new(), Goal::RedirectStream, Method::Any), g);
        g = push_entry(&mut routes, entry("/library/parts/<itemid>/<partid>/file.<extension>", Vec::new(), Goal::RedirectStream, Method::Any), g);
    }
    if config.disable_related {
        let mut h: Vec<Hoop> = Vec::new();
        h.push(Hoop::Timeout(RELATED_TIMEOUT_SECS));
        g = push_entry(&mut routes, entry("/library/metadata/<id>/related", h, Goal::ProxyRequest, Method::Any), g);
        let mut h: Vec<Hoop> = Vec::new();
        h.push(Hoop::DisableRelatedQuery);
        g = push_entry(&mut routes, entry("/playQueues", h, Goal::ProxyRequest, Method::Any), g);
    }
    let mut decision = transcode_hoop_list(config);
    if config.video_transcode_fallback_for.is_some() {
        decision.push(Hoop::VideoTranscodeFallback);
    }
    decision.push(Hoop::DirectStreamFallback);
    assert(decision@ == decision_hoops(*config));
    g = push_entry(&mut routes, entry("/video/<colon:colon>/transcode/universal/decision", decision, Goal::ProxyRequest, Method::Any), g);
    g = push_entry(&mut routes, entry("/video/<colon:colon>/transcode/universal/start<**rest>", transcode_hoop_list(config), Goal::ProxyRequest, Method::Any), g);
    g = push_entry(&mut routes, entry("/video/<colon:colon>/transcode/universal/subtitles", transcode_hoop_list(config), Goal::ProxyRequest, Method::Any), g);
    if config.disable_continue_watching {
        g = push_entry(&mut routes, entry("/hubs/continueWatching", Vec::new(), Goal::EmptyHandler, Method::Get), g);
    }
    if config.ntf_watchlist_force {
        let mut h: Vec<Hoop> = Vec::new();
        h.push(Hoop::NtfWatchlistForce);
        g = push_entry(&mut routes, entry("/media/providers", h, Goal::ProxyRequest, Method::Any), g);
    }
    assert(g@ =~= configured_routes(*config));
    routes
}

fn fixed_entries() -> (r: Vec<RouteEntry>)
    ensures
        r@.map_values(|e: RouteEntry| route_view(e)) == fixed_routes(),
{
    let mut routes: Vec<RouteEntry> = Vec::new();
    let mut g: Ghost<Seq<RouteView>> = Ghost(Seq::empty());
    assert(routes@.map_values(|r: RouteEntry| route_view(r)) =~= g@);
    let mut h: Vec<Hoop> = Vec::new();
    h.push(Hoop::TransformReqContentDirectory);
    h.push(Hoop::TransformReqIncludeGuids);
    h.push(Hoop::TransformReqAndroid);
    h.push(Hoop::ProxyForTransform);
    assert(h@ =~= seq![
        Hoop::TransformReqContentDirectory,
        Hoop::TransformReqIncludeGuids,
        Hoop::TransformReqAndroid,
        Hoop::ProxyForTransform,
    ]);
    g = push_entry(&mut routes, entry("/hubs/promoted", h, Goal::TransformHubsResponse, Method::Get), g);
    g = push_entry(&mut routes, entry("/replex/test_proxy/<**rest>", Vec::new(), Goal::TestProxyRequest, Method::Any), g);
    g = push_entry(&mut routes, entry("/replex/image/hero/<type>/<uuid>", Vec::new(), Goal::HeroImage, Method::Get), g);
    let mut h: Vec<Hoop> = Vec::new();
    h.push(Hoop::TransformReqIncludeGuids);
    h.push(Hoop::TransformReqAndroid);
    h.push(Hoop::ProxyForTransform);
    assert(h@ =~= seq![Hoop::TransformReqIncludeGuids, Hoop::TransformReqAndroid, Hoop::ProxyForTransform]);
    g = push_entry(&mut routes, entry("/hubs/sections/<id>", h, Goal::TransformHubsResponse, Method::Get), g);
    g = push_entry(&mut routes, entry("/replex/webhooks", Vec::new(), Goal::WebhookPlex, Method::Post), g);
    g = push_entry(&mut routes, entry("/ping", Vec::new(), Goal::Ping, Method::Get), g);
    g = push_entry(&mut routes, entry("/replex/<style>/library/collections/<ids>/children", Vec::new(), Goal::GetCollectionsChildren, Method::Get), g);
    g = push_entry(&mut routes, entry("/replex/<style>/<**rest>", Vec::new(), Goal::DefaultTransform, Method::Get), g);
    let mut h: Vec<Hoop> = Vec::new();
    h.push(Hoop::FixPhotoTranscodeRequest);
    h.push(Hoop::ResolveLocalMediaPath);
    assert(h@ =~= seq![Hoop::FixPhotoTranscodeRequest, Hoop::ResolveLocalMediaPath]);
    g = push_entry(&mut routes, entry("/photo/<colon:colon>/transcode", h, Goal::ProxyRequest, Method::Any), g);
    g = push_entry(&mut routes, entry("<**rest>", Vec::new(), Goal::ProxyRequest, Method::Any), g);
    assert(g@ =~= fixed_routes());
    routes
}

/// The routes of the proxy for a configuration (see `planned_routes`).
pub fn route(config: &Config) -> (r: RoutePlan)
    ensures
        r.hoops@ == global_hoops(),
        r.routes@.map_values(|e: RouteEntry| route_view(e)) == planned_routes(*config),
{
    let mut hoops: Vec<Hoop> = Vec::new();
    hoops.push(Hoop::Cors);
    hoops.push(Hoop::Logger);
    hoops.push(Hoop::ShouldSkip);
    hoops.push(Hoop::Timeout(REQUEST_TIMEOUT_SECS));
    hoops.push(Hoop::Compression);
    assert(hoops@ == global_hoops());
    let mut routes = configured_entries(config);
    let mut fixed = fixed_entries();
    let ghost a = routes@;
    let ghost b = fixed@;
    routes.append(&mut fixed);
    assert(routes@.map_values(|e: RouteEntry| route_view(e)) =~= a.map_values(|e: RouteEntry| route_view(e)) + b.map_values(|e: RouteEntry| route_view(e)));
    RoutePlan { hoops, routes }
}

/// Why a handler cannot go on; each fails the request.
#[derive(Clone, Copy, Debug, PartialEq, Eq, Structural)]
pub enum RouteError {
    /// A value the handler reads is missing.
    MissingParam,
    /// A number in the request does not read as one.
    BadNumber,
    /// Plex answered with a status the handler does not handle.
    UpstreamFailed,
    /// The item has no media at the requested place.
    MissingMedia,
    /// A url in the request does not read as one.
    BadUrl,
}

pub open spec fn opt_view(o: Option<String>) -> Option<Seq<char>> {
    match o {
        Some(s) => Some(s@),
        None => None,
    }
}

/// Requests for live TV and from Plexamp skip every rule and go to Plex as
/// they are.
pub open spec fn skips(path: Option<Seq<char>>, product: Option<Seq<char>>) -> bool {
    (path is Some && has_infix(path->0, "livetv"@)) || (product is Some && has_infix(lowercase(product->0), "plexamp"@))
}

/// Whether a request skips every rule (see `skips`).
pub fn should_skip(path: &Option<String>, context: &PlexContext) -> (r: bool)
    ensures
        r == skips(opt_view(*path), opt_view(context.product)),
{
    let is_livetv = match path {
        Some(p) => contains(p.as_str(), "livetv"),
        None => false,
    };
    let is_plexamp = match &context.product {
        Some(p) => {
            let l = to_lowercase(p.as_str());
            contains(l.as_str(), "plexamp")
        },
        None => false,
    };
    is_livetv || is_plexamp
}

/// The content type guessed from a path's extension, `application/octet-stream`
/// when there is none.
pub uninterp spec fn guessed_mime(path: Seq<char>) -> Seq<char>;

/// `mime_guess::from_path(path).first_or_octet_stream()`, written out.
#[verifier::external_body]
fn mime_from_path(path: &str) -> (r: String)
    ensures
        r@ == guessed_mime(path@),
{
    mime_guess::from_path(path).first_or_octet_stream().to_string()
}

/// Where a stream is redirected: the stream host when one is set, else the
/// Plex host, followed by the request's path and query.
pub open spec fn redirect_target(config: Config, path_and_query: Seq<char>) -> Seq<char> {
    match config.redirect_streams_host {
        Some(h) => h@ + path_and_query,
        None => config.host->0@ + path_and_query,
    }
}

/// The answer to a stream request: a temporary redirect to
/// `redirect_target`, with the content type guessed from the path.
pub fn redirect_stream(config: &Config, path: &str, path_and_query: &str) -> (r: (String, String))
    requires
        config.redirect_streams_host is Some || config.host is Some,
    ensures
        r.0@ == redirect_target(*config, path_and_query@),
        r.1@ == guessed_mime(path@),
{
    let url = match &config.redirect_streams_host {
        Some(h) => concat(h.as_str(), path_and_query),
        None => match &config.host {
            Some(h) => concat(h.as_str(), path_and_query),
            None => owned(path_and_query),
        },
    };
    (url, mime_from_path(path))
}

/// The size a photo is asked for: what follows the last `-` of a size such
/// as `large-500`.
pub open spec fn photo_size(size: Option<Seq<char>>) -> Option<Seq<char>> {
    match size {
        Some(s) => if s.contains('-') {
            Some(split_on(s, '-').last())
        } else {
            None
        },
        None => None,
    }
}

/// The query of a photo transcode request: a size such as `large-500` asks
/// for that height and width.
pub open spec fn photo_query(ps: Seq<(Seq<char>, Seq<char>)>, size: Option<Seq<char>>) -> Seq<(Seq<char>, Seq<char>)> {
    match photo_size(size) {
        Some(v) => with_param(with_param(ps, "height"@, v), "width"@, v),
        None => ps,
    }
}

/// Rewrites the query of a photo transcode request (see `photo_query`).
pub fn fix_photo_transcode_request(queries: &mut Vec<QueryPair>, context: &PlexContext)
    ensures
        pairs_view(final(queries)@) == photo_query(pairs_view(old(queries)@), opt_view(context.size)),
{
    match &context.size {
        Some(s) => {
            let chars = crate::text::chars_of(s.as_str());
            let mut has_dash = false;
            let mut i: usize = 0;
            while i < chars.len()
                invariant
                    i <= chars@.len(),
                    chars@ == s@,
                    has_dash == (exists|j: int| 0 <= j < i && chars@[j] == '-'),
                decreases chars.len() - i,
            {
                if chars[i] == '-' {
                    has_dash = true;
                }
                i = i + 1;
            }
            if has_dash {
                let pieces = split_char(s.as_str(), '-');
                let last = pieces[pieces.len() - 1].clone();
                assert(last@ == split_on(s@, '-').last());
                set_param(queries, "height", last.clone());
                set_param(queries, "width", last);
            }
        },
        None => {},
    }
}

/// The path segments of a url, when it reads as one that has a path.
pub uninterp spec fn url_segments(text: Seq<char>) -> Option<Seq<Seq<char>>>;

/// `url::Url::parse` followed by `path_segments`, written out.
#[verifier::external_body]
fn parse_url_segments(text: &str) -> (r: Option<Vec<String>>)
    ensures
        match r {
            Some(v) => url_segments(text@) == Some(texts(v@)),
            None => url_segments(text@) is None,
        },
{
    match url::Url::parse(text) {
        Ok(u) => u.path_segments().map(|s| s.map(|p| p.to_string()).collect()),
        Err(_) => None,
    }
}

/// The hero image a local media url points at: the last path segment of a
/// url under `/replex/image/hero`, without `.jpg`. Fails on a url that does
/// not read as one with a path.
pub open spec fn hero_uuid(url: Option<Seq<char>>) -> Result<Option<Seq<char>>, RouteError> {
    match url {
        None => Ok(None),
        Some(u) => if !has_infix(u, "/replex/image/hero"@) {
            Ok(None)
        } else {
            match url_segments(u) {
                None => Err(RouteError::BadUrl),
                Some(segs) => if segs.len() == 0 {
                    Err(RouteError::BadUrl)
                } else {
                    Ok(Some(crate::text::replace_all(segs.last(), ".jpg"@, ""@)))
                },
            }
        },
    }
}

/// The hero image a photo transcode request asks for through its `url`
/// parameter (see `hero_uuid`).
pub fn resolve_local_media_path(queries: &Vec<QueryPair>) -> (r: Result<Option<String>, RouteError>)
    ensures
        match r {
            Ok(Some(u)) => hero_uuid(first_value(pairs_view(queries@), "url"@)) == Ok::<Option<Seq<char>>, RouteError>(Some(u@)),
            Ok(None) => hero_uuid(first_value(pairs_view(queries@), "url"@)) == Ok::<Option<Seq<char>>, RouteError>(None),
            Err(e) => hero_uuid(first_value(pairs_view(queries@), "url"@)) == Err::<Option<Seq<char>>, RouteError>(e),
        },
{
    let url = match get(queries, "url") {
        Some(u) => u,
        None => return Ok(None),
    };
    if !contains(url.as_str(), "/replex/image/hero") {
        return Ok(None);
    }
    match parse_url_segments(url.as_str()) {
        None => Err(RouteError::BadUrl),
        Some(segs) => {
            if segs.len() == 0 {
                return Err(RouteError::BadUrl);
            }
            let last = &segs[segs.len() - 1];
            assert(texts(segs@).last() == last@);
            Ok(Some(crate::text::replace(last.as_str(), ".jpg", "")))
        },
    }
}

/// Points the `url` parameter at the cover art found for a hero image.
pub fn with_resolved_url(queries: &mut Vec<QueryPair>, art: Option<String>)
    ensures
        pairs_view(final(queries)@) == match art {
            Some(a) => with_param(pairs_view(old(queries)@), "url"@, a@),
            None => pairs_view(old(queries)@),
        },
{
    match art {
        Some(a) => set_param(queries, "url", a),
        None => {},
    }
}

/// Asks Plex not to include related items.
pub fn disable_related_query(queries: &mut Vec<QueryPair>)
    ensures
        pairs_view(final(queries)@) == with_param(pairs_view(old(queries)@), "includeRelated"@, "0"@),
{
    set_param(queries, "includeRelated", owned("0"));
}

/// Asks Plex to include guids.
pub fn transform_req_include_guids(queries: &mut Vec<QueryPair>)
    ensures
        pairs_view(final(queries)@) == with_param(pairs_view(old(queries)@), "includeGuids"@, "1"@),
{
    set_param(queries, "includeGuids", owned("1"));
}

/// How many hubs a client is sent at once: what it asks (25 when it does
/// not ask), 50 on Android, and at least 50 when watched items are excluded.
pub open spec fn hub_count(context: PlexContext, config: Config) -> int {
    let asked: int = match context.count {
        Some(c) => c as int,
        None => 25,
    };
    let c = if context.platform == Platform::Android {
        50
    } else {
        asked
    };
    if config.exclude_watched && c < 50 {
        50
    } else {
        c
    }
}

/// Sets how many hubs a client is sent at once (see `hub_count`).
pub fn transform_req_android(queries: &mut Vec<QueryPair>, context: &PlexContext, config: &Config)
    ensures
        pairs_view(final(queries)@) == with_param(pairs_view(old(queries)@), "count"@, int_text(hub_count(*context, *config))),
{
    let mut count: i32 = match context.count {
        Some(c) => c,
        None => 25,
    };
    match context.platform {
        Platform::Android => count = 50,
        _ => {},
    }
    if config.exclude_watched && count < 50 {
        count = 50;
    }
    set_param(queries, "count", i64_text(count as i64));
}

/// The identifier of the library a container stands for.
pub open spec fn library_identifier() -> Seq<char> {
    "com.plexapp.plugins.library"@
}

/// An empty answer of the library, in the format asked for, without size.
pub fn empty_handler(content_type: ContentType) -> (r: MediaContainerWrapper<MediaContainer>)
    ensures
        r.content_type == content_type,
        r.media_container == (MediaContainer { identifier: r.media_container.identifier, ..r.media_container }),
        r.media_container.identifier is Some && r.media_container.identifier->0@ == library_identifier(),
        r.media_container.size is None,
        r.media_container.children_spec().len() == 0,
{
    let mut c = MediaContainer::empty();
    c.identifier = Some(owned("com.plexapp.plugins.library"));
    MediaContainerWrapper { media_container: c, content_type }
}

/// What the promoted hubs handler does with the content directories a
/// client asks for.
#[derive(Debug)]
pub enum ContentDirectoryAction {
    /// Answer at once with this container.
    Respond(MediaContainerWrapper<MediaContainer>),
    /// Go on with the request's query set to this.
    Continue(Vec<QueryPair>),
}

/// Only the first pinned directory is filled: a request for another
/// directory than the first pinned one is answered with an empty container
/// of size 0; a request with pinned directories asks Plex for all of them
/// at once. Fails when a pinned request names no directory.
pub open spec fn content_directory_error(context: PlexContext) -> Option<RouteError> {
    match context.pinned_content_directory_id {
        None => None,
        Some(pinned) => match context.content_directory_id {
            None => Some(RouteError::MissingParam),
            Some(ids) => if ids@.len() == 0 || pinned@.len() == 0 {
                Some(RouteError::MissingParam)
            } else {
                None
            },
        },
    }
}

/// Decides what to do with the content directories of a promoted hubs
/// request (see `content_directory_error`).
pub fn transform_req_content_directory(context: &PlexContext, queries: Vec<QueryPair>, content_type: ContentType) -> (r: Result<ContentDirectoryAction, RouteError>)
    ensures
        match r {
            Err(e) => content_directory_error(*context) == Some(e),
            Ok(ContentDirectoryAction::Continue(q)) => content_directory_error(*context) is None && match context.pinned_content_directory_id {
                None => q@ == queries@,
                Some(pinned) => context.content_directory_id->0@[0]@ == pinned@[0]@ && pairs_view(q@) == with_param(
                    pairs_view(queries@),
                    "contentDirectoryID"@,
                    join_with(texts(pinned@), ","@),
                ),
            },
            Ok(ContentDirectoryAction::Respond(w)) => content_directory_error(*context) is None
                && context.pinned_content_directory_id is Some
                && context.content_directory_id->0@[0]@ != context.pinned_content_directory_id->0@[0]@
                && w.content_type == content_type
                && w.media_container == (MediaContainer { identifier: w.media_container.identifier, size: w.media_container.size, ..w.media_container })
                && w.media_container.identifier is Some && w.media_container.identifier->0@ == library_identifier()
                && w.media_container.size == Some(0i64)
                && w.media_container.children_spec().len() == 0,
        },
{
    let pinned = match &context.pinned_content_directory_id {
        None => return Ok(ContentDirectoryAction::Continue(queries)),
        Some(p) => p,
    };
    let ids = match &context.content_directory_id {
        None => return Err(RouteError::MissingParam),
        Some(i) => i,
    };
    if ids.len() == 0 || pinned.len() == 0 {
        return Err(RouteError::MissingParam);
    }
    if !same_text(ids[0].as_str(), pinned[0].as_str()) {
        let mut w = empty_handler(content_type);
        w.media_container.size = Some(0);
        return Ok(ContentDirectoryAction::Respond(w));
    }
    let mut q = queries;
    set_param(&mut q, "contentDirectoryID", join(pinned, ","));
    Ok(ContentDirectoryAction::Continue(q))
}

/// The answer to a hero image request.
#[derive(Debug)]
pub enum HeroImageReply {
    /// No cover art was found.
    NotFound,
    /// A redirect to the cover art.
    Found(String),
}

/// Redirects to the cover art of a hero image, or answers not found.
pub fn hero_image(url: Option<String>) -> (r: HeroImageReply)
    ensures
        match url {
            None => r is NotFound,
            Some(u) => r matches HeroImageReply::Found(v) && v == u,
        },
{
    match url {
        None => HeroImageReply::NotFound,
        Some(u) => HeroImageReply::Found(u),
    }
}

/// Whether a transcode decision request asks for direct play: its
/// `directPlay` is `1`, as it is when missing.
pub fn direct_play_requested(queries: &Vec<QueryPair>) -> (r: bool)
    ensures
        r == match first_value(pairs_view(queries@), "directPlay"@) {
            Some(v) => v == "1"@,
            None => true,
        },
{
    match get(queries, "directPlay") {
        Some(v) => same_text(v.as_str(), "1"),
        None => true,
    }
}

/// Whether to fall back from direct play to direct stream, by Plex's answer
/// to the decision: on 200 when its general decision code is 2000, on 400
/// always; any other status fails the request.
pub fn direct_stream_decision(status: u16, general_decision_code: Option<i64>) -> (r: Result<bool, RouteError>)
    ensures
        status == 200 ==> r == Ok::<bool, RouteError>(general_decision_code == Some(2000i64)),
        status == 400 ==> r == Ok::<bool, RouteError>(true),
        status != 200 && status != 400 ==> r == Err::<bool, RouteError>(RouteError::UpstreamFailed),
{
    if status == 200 {
        Ok(match general_decision_code {
            Some(c) => c == 2000,
            None => false,
        })
    } else if status == 400 {
        Ok(true)
    } else {
        Err(RouteError::UpstreamFailed)
    }
}

/// The query of a request that falls back to direct stream: no direct
/// play, direct stream.
pub open spec fn direct_stream_query(ps: Seq<(Seq<char>, Seq<char>)>) -> Seq<(Seq<char>, Seq<char>)> {
    with_param(with_param(ps, "directPlay"@, "0"@), "directStream"@, "1"@)
}

/// Falls back from direct play to direct stream (see `direct_stream_query`).
pub fn direct_stream_fallback(queries: &mut Vec<QueryPair>)
    ensures
        pairs_view(final(queries)@) == direct_stream_query(pairs_view(old(queries)@)),
{
    set_param(queries, "directPlay", owned("0"));
    set_param(queries, "directStream", owned("1"));
}

/// How much of a collection is loaded: 250 items from the start when
/// watched items are excluded (they are removed afterwards), else the page
/// the client asks for (50 items from 0 by default).
pub open spec fn paging_of(context: PlexContext, config: Config) -> (i32, i32) {
    if config.exclude_watched {
        (250, 0)
    } else {
        (
            match context.container_size {
                Some(v) => v,
                None => 50,
            },
            match context.container_start {
                Some(v) => v,
                None => 0,
            },
        )
    }
}

/// The limit and offset of a collection request (see `paging_of`).
pub fn paging(context: &PlexContext, config: &Config) -> (r: (i32, i32))
    ensures
        r == paging_of(*context, *config),
{
    if config.exclude_watched {
        (250, 0)
    } else {
        (
            match context.container_size {
                Some(v) => v,
                None => 50,
            },
            match context.container_start {
                Some(v) => v,
                None => 0,
            },
        )
    }
}

pub open spec fn reads_as_u32(s: Seq<char>) -> bool {
    parse_unsigned(s, u32::MAX as int) is Some
}

/// The collection ids of a request: the pieces of `ids` between commas that
/// read as `u32`, in order.
pub open spec fn collection_ids_of(ids: Seq<char>) -> Seq<u32> {
    split_on(ids, ',').filter(|p: Seq<char>| reads_as_u32(p)).map_values(|p: Seq<char>| parse_unsigned(p, u32::MAX as int)->0 as u32)
}

/// Reads the collection ids of a request (see `collection_ids_of`).
pub fn parse_collection_ids(ids: &str) -> (r: Vec<u32>)
    ensures
        r@ == collection_ids_of(ids@),
{
    let pieces = split_char(ids, ',');
    let ghost ps = split_on(ids@, ',');
    let mut out: Vec<u32> = Vec::new();
    let mut i: usize = 0;
    proof {
        reveal(Seq::filter);
    }
    assert(ps.take(0).filter(|p: Seq<char>| reads_as_u32(p)) =~= Seq::<Seq<char>>::empty());
    while i < pieces.len()
        invariant
            i <= pieces@.len(),
            texts(pieces@) == ps,
            out@ == ps.take(i as int).filter(|p: Seq<char>| reads_as_u32(p)).map_values(|p: Seq<char>| parse_unsigned(p, u32::MAX as int)->0 as u32),
        decreases pieces.len() - i,
    {
        proof {
            assert(ps[i as int] == pieces@[i as int]@);
            assert(ps.take(i + 1) == ps.take(i as int).push(ps[i as int]));
            ps.take(i as int).lemma_filter_push(ps[i as int], |p: Seq<char>| reads_as_u32(p));
        }
        let ghost o0 = out@;
        match crate::text::parse_u32(pieces[i].as_str()) {
            Some(v) => {
                out.push(v);
                assert(out@ =~= ps.take(i + 1).filter(|p: Seq<char>| reads_as_u32(p)).map_values(|p: Seq<char>| parse_unsigned(p, u32::MAX as int)->0 as u32));
            },
            None => {
                assert(out@ =~= ps.take(i + 1).filter(|p: Seq<char>| reads_as_u32(p)).map_values(|p: Seq<char>| parse_unsigned(p, u32::MAX as int)->0 as u32));
            },
        }
        i = i + 1;
    }
    assert(ps.take(i as int) == ps);
    out
}

/// The query of a request for a library item: related items are left out
/// when so configured.
pub fn get_library_item_metadata(queries: &mut Vec<QueryPair>, config: &Config)
    ensures
        pairs_view(final(queries)@) == if config.disable_related {
            with_param(pairs_view(old(queries)@), "includeRelated"@, "0"@)
        } else {
            pairs_view(old(queries)@)
        },
{
    if config.disable_related {
        disable_related_query(queries);
    }
}

} // verus!
