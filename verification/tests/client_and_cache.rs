use replex::artwork::{cover_art_cache_key, cover_art_on_reply, cover_art_start, find_cover_art, CoverArtStep};
use replex::cache::{
    cache_action, keeps, should_store, skips_method, without_last_segment, CacheAction, CacheExpiry, Expiration, RequestIssuer,
    RequestParts,
};
use replex::config::Config;
use replex::fields::{
    bool_from_int, deserialize_comma_seperated_number, deserialize_comma_seperated_string,
    deserialize_screen_resolution, optional_int_from_str, FieldError,
};
use replex::headers::{PLEX_CLIENT_IDENTIFIER, PLEX_TOKEN};
use replex::middleware::{Cors, CorsAction};
use replex::models::{Image, Media, MediaContainer, MetaData, Platform, PlexContext, SpecialBool, Style};
use replex::plex_client::{
    collection_status, get_collection, get_collection_children, get_collection_total_size_unwatched,
    get_hero_art, get_hubs, get_provider_data, hero_art_cache_key, hero_art_on_reply, hero_art_start,
    load_collection_children_recursive, HeroArtStep,
    platform_to_string, plexherokey, provider_headers, provider_status, request_headers,
    retry_on_status, section_collections_path, ClientError, PlexClient,
};
use replex::routes::responses::{default_transform, get_collections_children, transform_hubs_response};
use replex::routes::watchlist::{WatchlistForce, WatchlistStep};
use replex::routes::{Method, RouteError};
use replex::timeout::Timeout;
use replex::tmdb::TVShowImages;
use replex::transform::PlexData;
use replex::utils::ContentType;

fn base_config() -> Config {
    Config {
        host: Some("http://plex:32400".to_string()),
        token: Some("SECRET-REDACTED".to_string()),
        port: None,
        interleave: true,
        hub_restrictions: true,
        exclude_watched: true,
        cache_ttl: 1800,
        cache_rows: true,
        cache_rows_refresh: true,
        hero_rows: None,
        ssl_enable: false,
        ssl_domain: None,
        newrelic_api_key: None,
        enable_console: false,
        disable_continue_watching: false,
        disable_user_state: false,
        disable_leaf_count: false,
        redirect_streams: false,
        redirect_streams_host: None,
        disable_related: false,
        disable_transcode: false,
        force_maximum_quality: false,
        auto_select_version: false,
        video_transcode_fallback_for: None,
        force_direct_play_for: None,
        test_script: None,
        ntf_watchlist_force: false,
        custom_sorting: None,
        tmdb_api_key: None,
    }
}

fn hs(xs: &[(&str, &str)]) -> Vec<(String, String)> {
    xs.iter().map(|(a, b)| (a.to_string(), b.to_string())).collect()
}

fn movie(key: &str) -> MetaData {
    let mut m = MetaData::empty(format!("Movie {}", key), "movie".to_string());
    m.rating_key = Some(key.to_string());
    m
}

#[test]
fn client_from_request_identity() {
    let mut ctx = PlexContext::default();
    ctx.token = Some("tok".to_string());
    ctx.platform = Platform::Ios;
    ctx.client_identifier = Some("cid".to_string());
    let c = PlexClient::from_context(ctx, &base_config());
    assert_eq!(
        c.default_headers,
        hs(&[
            ("X-Plex-Token", "tok"),
            ("X-Plex-Platform", "iOS"),
            ("X-Plex-Client-Identifier", "cid"),
            ("accept", "application/json"),
            ("accept-language", "en-US"),
        ])
    );
    assert_eq!(c.request_url("/hubs?count=1"), "http://plex:32400/hubs?count=1");
    assert_eq!(c.generate_cache_key("hubs"), "hubs:tok");
}

#[test]
fn request_header_merge() {
    let defaults = hs(&[("X-Plex-Token", "t")]);
    let request = hs(&[("accept", "text/xml"), ("host", "x"), ("user-agent", "ua")]);
    assert_eq!(request_headers(&defaults, &request), hs(&[("X-Plex-Token", "t"), ("user-agent", "ua")]));
}

#[test]
fn plex_paths() {
    assert_eq!(platform_to_string(Platform::TvOS), "tvOS");
    assert_eq!(section_collections_path(4), "/library/sections/4/collections");
    assert_eq!(
        get_collection_children(9, Some(0), Some(50)),
        "/library/collections/9/children?X-Plex-Container-Start=0&X-Plex-Container-Size=50&includeGuids=1"
    );
    assert_eq!(get_collection_children(9, None, None), "/library/collections/9/children&includeGuids=1");
    assert_eq!(get_collection(-3), "/library/collections/-3");
    assert_eq!(
        get_collection_total_size_unwatched(1, 7, "show"),
        "/library/sections/1/all?X-Plex-Container-Start=0&X-Plex-Container-Size=0&show.unwatchedLeaves=1&show.collection=7"
    );
    assert_eq!(
        get_collection_total_size_unwatched(1, 7, "movie"),
        "/library/sections/1/all?X-Plex-Container-Start=0&X-Plex-Container-Size=0&movie.unwatched=1&movie.collection=7"
    );
    assert_eq!(get_hubs(), "/hubs");
    assert_eq!(hero_art_cache_key("abc"), "abc:hero_art");
    assert_eq!(cover_art_cache_key("plex://movie/1"), "plex://movie/1:cover_art");
    assert_eq!(get_provider_data("5d77"), "https://metadata.provider.plex.tv/library/metadata/5d77");
}

#[test]
fn statuses() {
    assert_eq!(collection_status(404), Err(ClientError::NotFound));
    assert_eq!(collection_status(200), Ok(()));
    assert_eq!(provider_status(200), Ok(()));
    assert_eq!(provider_status(500), Err(ClientError::UnexpectedStatus));
    assert!(retry_on_status(401));
    assert!(!retry_on_status(500));
}

#[test]
fn provider_requests() {
    assert_eq!(provider_headers(&base_config()), hs(&[("X-Plex-Token", "SECRET-REDACTED"), ("Accept", "application/json")]));
    let mut c = base_config();
    c.token = None;
    assert_eq!(provider_headers(&c), hs(&[("Accept", "application/json")]));
}

#[test]
fn unwatched_children_limited() {
    let mut w = movie("w");
    w.view_count = Some(3);
    let out = load_collection_children_recursive(vec![movie("1"), w, movie("2"), movie("3")], 2);
    let keys: Vec<_> = out.iter().map(|m| m.rating_key.clone().unwrap()).collect();
    assert_eq!(keys, vec!["1", "2"]);
    assert_eq!(load_collection_children_recursive(vec![movie("1")], -1).len(), 1);
}

#[test]
fn hero_art_found() {
    let mut m = movie("1");
    m.images = vec![
        Image { alt: None, kind: "background".to_string(), url: "https://bg".to_string() },
        Image { alt: None, kind: "coverArt".to_string(), url: "https://cover".to_string() },
        Image { alt: None, kind: "coverArt".to_string(), url: "https://cover2".to_string() },
    ];
    assert_eq!(find_cover_art(&vec![m.clone()]), Some("https://cover".to_string()));
    assert_eq!(get_hero_art(&vec![m]), (Some("https://cover".to_string()), true));
    assert_eq!(get_hero_art(&vec![movie("2")]), (None, false));
    assert_eq!(get_hero_art(&Vec::new()), (None, false));
}

#[test]
fn hero_art_lookup_steps() {
    match hero_art_start("abc", Some("https://cached".to_string())) {
        HeroArtStep::Cached(u) => assert_eq!(u, "https://cached"),
        HeroArtStep::Fetch(_) => panic!("a cached art is the answer"),
    }
    match hero_art_start("abc", None) {
        HeroArtStep::Fetch(url) => assert_eq!(url, "https://metadata.provider.plex.tv/library/metadata/abc"),
        HeroArtStep::Cached(_) => panic!("nothing was cached"),
    }
    let mut m = movie("1");
    m.images = vec![Image { alt: None, kind: "coverArt".to_string(), url: "https://cover".to_string() }];
    let (art, write) = hero_art_on_reply("abc", Some(vec![m]));
    assert_eq!(art, Some("https://cover".to_string()));
    let w = write.unwrap();
    assert_eq!(w.key, "abc:hero_art");
    assert_eq!(w.value, "https://cover");
    assert_eq!(w.expiration, Expiration::Month);
    // What was written answers the next lookup of the same id.
    match hero_art_start("abc", Some(w.value.clone())) {
        HeroArtStep::Cached(u) => assert_eq!(u, "https://cover"),
        HeroArtStep::Fetch(_) => panic!("the art was cached"),
    }
    let (art, write) = hero_art_on_reply("abc", Some(vec![movie("2")]));
    assert_eq!(art, None);
    assert!(write.is_none());
    let (art, write) = hero_art_on_reply("abc", None);
    assert_eq!(art, None);
    assert!(write.is_none());
}

#[test]
fn cover_art_lookup_steps() {
    let mut ep = movie("1");
    ep.guid = Some("plex://episode/e1".to_string());
    ep.parent_guid = Some("plex://season/s1".to_string());
    match cover_art_start(&ep, None) {
        CoverArtStep::Fetch { url, guid } => {
            assert_eq!(url, "https://metadata.provider.plex.tv/library/metadata/e1");
            assert_eq!(guid, "plex://season/s1");
        }
        other => panic!("expected a fetch, got {:?}", other),
    }
    match cover_art_start(&ep, Some(None)) {
        CoverArtStep::Cached(c) => assert_eq!(c, None),
        other => panic!("expected the cached answer, got {:?}", other),
    }
    match cover_art_start(&ep, Some(Some("https://c".to_string()))) {
        CoverArtStep::Cached(c) => assert_eq!(c, Some("https://c".to_string())),
        other => panic!("expected the cached answer, got {:?}", other),
    }
    let mut local = movie("2");
    local.guid = Some("local://2".to_string());
    assert!(matches!(cover_art_start(&local, None), CoverArtStep::NoArt));
    assert!(matches!(cover_art_start(&movie("3"), None), CoverArtStep::NoArt));
    let mut m = movie("4");
    m.images = vec![Image { alt: None, kind: "coverArt".to_string(), url: "https://cover".to_string() }];
    let (art, w) = cover_art_on_reply("plex://season/s1", Some(vec![m]));
    assert_eq!(art, Some("https://cover".to_string()));
    assert_eq!(w.key, "plex://season/s1:cover_art");
    assert_eq!(w.value, Some("https://cover".to_string()));
    assert_eq!(w.expiration, Expiration::Month);
    // No art is kept too, and answers the next lookup.
    let (art, w) = cover_art_on_reply("plex://season/s1", None);
    assert_eq!(art, None);
    assert_eq!(w.value, None);
    assert_eq!(w.key, "plex://season/s1:cover_art");
    match cover_art_start(&ep, Some(w.value)) {
        CoverArtStep::Cached(c) => assert_eq!(c, None),
        other => panic!("expected the cached answer, got {:?}", other),
    }
}

#[test]
fn zero_ttl_turns_cache_off() {
    assert!(!keeps(Expiration::Global, 0));
    assert!(keeps(Expiration::Global, 1800));
    assert!(keeps(Expiration::Month, 0));
    assert!(keeps(Expiration::Day, 0));
    assert!(keeps(Expiration::Never, 0));
}

#[test]
fn art_guids() {
    let mut ep = movie("1");
    ep.guid = Some("plex://episode/e1".to_string());
    ep.parent_guid = Some("plex://season/s1".to_string());
    assert_eq!(ep.hero_art_guid(), Some("plex://season/s1".to_string()));
    assert_eq!(ep.hero_provider_id(), Some("e1".to_string()));
    let mut local = movie("2");
    local.guid = Some("local://2".to_string());
    assert_eq!(local.hero_art_guid(), None);
    assert_eq!(movie("3").hero_provider_id(), None);
}

#[test]
fn hero_label_key() {
    let mut a = movie("1");
    a.title = "Other".to_string();
    a.key = Some("/a".to_string());
    let mut b = movie("2");
    b.title = "REPLEXHERO".to_string();
    b.key = Some("/library/sections/1/all?label=7".to_string());
    assert_eq!(plexherokey(&vec![a.clone(), b]), Some(Some("/library/sections/1/all?label=7".to_string())));
    assert_eq!(plexherokey(&vec![a]), None);
}

#[test]
fn cache_lifetimes_and_keys() {
    assert_eq!(Expiration::Never.as_duration(60), None);
    assert_eq!(Expiration::Global.as_duration(60), Some(60));
    assert_eq!(Expiration::Day.as_duration(60), Some(86400));
    assert_eq!(CacheExpiry.expire_after_create(Expiration::Month, 60), Some(2592000));
    let req = RequestParts {
        scheme: Some("http".to_string()),
        authority: Some("replex:80".to_string()),
        local_addr: "socket://127.0.0.1:80".to_string(),
        path: "/hubs".to_string(),
        query: Some("count=5".to_string()),
        method: "GET".to_string(),
        first_accept: Some("application/json".to_string()),
        headers: hs(&[("accept", "application/json, text/xml"), (PLEX_TOKEN, "tok"), (PLEX_CLIENT_IDENTIFIER, "cid")]),
    };
    assert_eq!(RequestIssuer::new().issue(&req), "http://replex:80/hubs?count=5|method::GET");
    assert_eq!(
        RequestIssuer::with_plex_defaults().issue(&req),
        "http://replex:80/hubs?count=5|method::GET|headers::::application/json:application/json, text/xml::x-plex-token:tok::x-plex-client-identifier:cid"
    );
    let i = RequestIssuer::new().use_scheme(false).use_authority(false).use_local_addr(true).use_method(false);
    assert_eq!(i.issue(&req), "127.0.0.1:80/hubs?count=5");
}

fn part_request(path: &str) -> RequestParts {
    RequestParts {
        scheme: None,
        authority: None,
        local_addr: "socket://127.0.0.1:80".to_string(),
        path: path.to_string(),
        query: None,
        method: "GET".to_string(),
        first_accept: None,
        headers: Vec::new(),
    }
}

#[test]
fn stripped_key_leaves_token_segment_out() {
    let i = RequestIssuer::new().path_strip_last_segment(true);
    let a = i.issue(&part_request("/library/parts/1/TOKEN1"));
    let b = i.issue(&part_request("/library/parts/1/TOKEN2"));
    assert_eq!(a, b);
    assert_eq!(a, "/library/parts/1|method::GET");
    let whole = RequestIssuer::new();
    assert_eq!(whole.issue(&part_request("/library/parts/1/TOKEN1")), "/library/parts/1/TOKEN1|method::GET");
    assert_ne!(
        whole.issue(&part_request("/library/parts/1/TOKEN1")),
        whole.issue(&part_request("/library/parts/1/TOKEN2"))
    );
    assert_eq!(without_last_segment("/a/b/"), "/a/b");
    assert_eq!(without_last_segment("token"), "");
    assert_eq!(without_last_segment("/"), "");
}

#[test]
fn cache_decisions() {
    assert!(skips_method("POST"));
    assert!(!skips_method("GET"));
    assert_eq!(cache_action(true, true, true), CacheAction::Pass);
    assert_eq!(cache_action(false, false, true), CacheAction::Pass);
    assert_eq!(cache_action(false, true, true), CacheAction::Respond);
    assert_eq!(cache_action(false, true, false), CacheAction::CallAndStore);
    assert!(should_store(false, false));
    assert!(!should_store(true, false));
    assert!(!should_store(false, true));
}

#[test]
fn cors_answers_get() {
    let c = Cors::new();
    assert_eq!(Cors::name(), "Cors");
    assert_eq!(c.before_request("GET"), CorsAction::RespondEmpty);
    assert_eq!(c.before_request("OPTIONS"), CorsAction::Next);
    assert_eq!(c.after_request(), CorsAction::Next);
    assert_eq!(Timeout::new(5).value, 5);
}

#[test]
fn field_readers() {
    assert_eq!(deserialize_comma_seperated_number(Some("1,-2,3".to_string())), Ok(Some(vec![1, -2, 3])));
    assert_eq!(deserialize_comma_seperated_number(Some("".to_string())), Ok(None));
    assert_eq!(deserialize_comma_seperated_number(None), Ok(None));
    assert_eq!(deserialize_comma_seperated_number(Some("1,a".to_string())), Err(FieldError::BadNumber));
    assert_eq!(
        deserialize_comma_seperated_string(Some("a,b".to_string())),
        Some(vec!["a".to_string(), "b".to_string()])
    );
    assert_eq!(deserialize_comma_seperated_string(None), None);
    let r = deserialize_screen_resolution(Some("1920x1080 (TV),1280x720".to_string())).unwrap();
    assert_eq!(r.len(), 2);
    assert_eq!((r[0].width, r[0].height), (1920, 1080));
    assert_eq!((r[1].width, r[1].height), (1280, 720));
    assert_eq!(deserialize_screen_resolution(None).unwrap().len(), 0);
    assert_eq!(deserialize_screen_resolution(Some("1920".to_string())).unwrap_err(), FieldError::MissingPart);
    assert_eq!(bool_from_int(0), Ok(false));
    assert_eq!(bool_from_int(1), Ok(true));
    assert_eq!(bool_from_int(2), Err(FieldError::BadValue));
    assert_eq!(optional_int_from_str("42"), Ok(Some(42)));
    assert_eq!(optional_int_from_str("x"), Err(FieldError::BadNumber));
    assert_eq!(SpecialBool::new(true).xml_text(), "1");
    assert_eq!(SpecialBool::new(false).to_text(), "false");
    let m = Media { video_resolution: Some("4k".to_string()), audio_codec: Some("aac".to_string()), ..Media::default() };
    assert_eq!(m.describe(), "4k -  - aac");
}

#[test]
fn tmdb_request() {
    let r = TVShowImages::new(1399);
    assert_eq!(r.path(), "/tv/1399/images");
    assert_eq!(TVShowImages::new(u64::MAX).path(), "/tv/18446744073709551615/images");
    assert!(r.params().is_empty());
    let r = r.with_language(Some("en".to_string()));
    assert_eq!(r.params(), vec![("language".to_string(), "en".to_string())]);
}

#[test]
fn hub_responses() {
    let mut config = base_config();
    config.exclude_watched = false;
    let mut hub = MetaData::empty("Recent".to_string(), "movie".to_string());
    hub.hub_identifier = Some("home.movies.recent".to_string());
    hub.key = Some("/hubs/home/recentlyAdded".to_string());
    hub.size = Some(1);
    hub.metadata = vec![movie("1")];
    let mut c = MediaContainer::empty();
    c.size = Some(7);
    c.hub = vec![hub];
    let w = transform_hubs_response(c, ContentType::Json, PlexContext::default(), config.clone(), PlexData::default())
        .unwrap();
    assert_eq!(w.media_container.size, Some(1));
    assert_eq!(w.media_container.hub[0].key, Some("/replex/shelf/hubs/home/recentlyAdded".to_string()));
    let mut c = MediaContainer::empty();
    c.metadata = vec![movie("1")];
    let w = default_transform(c, Style::Shelf, ContentType::Xml, PlexContext::default(), config, PlexData::default())
        .unwrap();
    assert_eq!(w.media_container.metadata.len(), 1);
}

#[test]
fn collections_children_response() {
    let mut config = base_config();
    config.exclude_watched = false;
    let w = get_collections_children(
        vec![1, 2],
        0,
        50,
        vec![vec![movie("a1"), movie("a2")], vec![movie("b1")]],
        ContentType::Json,
        PlexContext::default(),
        config,
        PlexData::default(),
    )
    .unwrap();
    let keys: Vec<_> = w.media_container.metadata.iter().map(|m| m.rating_key.clone().unwrap()).collect();
    assert_eq!(keys, vec!["a1", "b1", "a2"]);
    assert_eq!(w.media_container.total_size, Some(3));
    assert_eq!(w.media_container.offset, Some(0));
}

#[test]
fn watchlist_force_sequence() {
    let ctx = PlexContext::default();
    assert!(WatchlistForce::start(&ctx).unwrap().is_none());
    let mut ctx = PlexContext::default();
    ctx.token = Some("tok".to_string());
    assert_eq!(WatchlistForce::start(&ctx).unwrap_err(), RouteError::MissingParam);
    ctx.client_identifier = Some("cid".to_string());
    let (w, req) = WatchlistForce::start(&ctx).unwrap().unwrap();
    assert_eq!(req.method, Method::Get);
    assert_eq!(req.url, "https://clients.plex.tv/api/v2/user");
    let (w, req) = w.on_user(true, "u1".to_string());
    let req = req.unwrap();
    assert_eq!(req.url, "https://notifications.plex.tv/api/v1/notifications/settings?X-Plex-Token=tok");
    assert!(matches!(w.step, WatchlistStep::AwaitNotifications(_)));
    let (w, req) = w.on_response();
    assert_eq!(
        req.unwrap().url,
        "https://clients.plex.tv/api/v2/user/u1/settings/opt_outs?key=tv.plex.provider.vod&value=opt_out"
    );
    let (w, req) = w.on_response();
    assert_eq!(
        req.unwrap().url,
        "https://clients.plex.tv/api/v2/user/u1/settings/opt_outs?key=tv.plex.provider.music&value=opt_out"
    );
    let (w, req) = w.on_response();
    assert!(req.is_none());
    assert!(matches!(w.step, WatchlistStep::Done));
    let (w, _) = WatchlistForce::start(&ctx).unwrap().unwrap();
    let (w, req) = w.on_user(false, String::new());
    assert!(req.is_none());
    assert!(matches!(w.step, WatchlistStep::Done));
}

#[test]
fn default_issuer_is_new() {
    let req = RequestParts {
        scheme: None,
        authority: None,
        local_addr: "socket://127.0.0.1:80".to_string(),
        path: "/ping".to_string(),
        query: None,
        method: "GET".to_string(),
        first_accept: None,
        headers: Vec::new(),
    };
    assert_eq!(RequestIssuer::default().issue(&req), RequestIssuer::new().issue(&req));
    assert_eq!(RequestIssuer::default().issue(&req), "/ping|method::GET");
}
