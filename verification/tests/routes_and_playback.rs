use replex::config::Config;
use replex::models::{Media, MediaContainer, MediaPart, MetaData, Platform, PlexContext, Resolution, Stream};
use replex::query::{get, QueryPair};
use replex::routes::playback::{
    auto_select_start, auto_select_version, closest_index, filter_profile_extra,
    force_direct_play, force_maximum_quality, get_transcoding_for_request, item_media, media_index,
    order_by_pixels, requested_bitrate, FallbackAction, FallbackPhase, TranscodeFallback,
};
use replex::routes::{
    direct_play_requested, direct_stream_decision, direct_stream_fallback, disable_related_query,
    empty_handler, fix_photo_transcode_request, get_library_item_metadata, hero_image, paging,
    parse_collection_ids, redirect_stream, resolve_local_media_path, route,
    should_skip, transform_req_android, transform_req_content_directory,
    transform_req_include_guids, with_resolved_url, ContentDirectoryAction, Goal, HeroImageReply,
    Hoop, Method, RouteError,
};
use replex::utils::ContentType;

fn base_config() -> Config {
    Config {
        host: Some("http://plex:32400".to_string()),
        token: Some("SECRET-REDACTED".to_string()),
        port: None,
        interleave: true,
        hub_restrictions: true,
        exclude_watched: true,
        cache_ttl: 1800,
        cache_rows: true,
        cache_rows_refresh: true,
        hero_rows: None,
        ssl_enable: false,
        ssl_domain: None,
        newrelic_api_key: None,
        enable_console: false,
        disable_continue_watching: false,
        disable_user_state: false,
        disable_leaf_count: false,
        redirect_streams: false,
        redirect_streams_host: None,
        disable_related: false,
        disable_transcode: false,
        force_maximum_quality: false,
        auto_select_version: false,
        video_transcode_fallback_for: None,
        force_direct_play_for: None,
        test_script: None,
        ntf_watchlist_force: false,
        custom_sorting: None,
        tmdb_api_key: None,
    }
}

fn pairs(xs: &[(&str, &str)]) -> Vec<QueryPair> {
    xs.iter().map(|(a, b)| (a.to_string(), b.to_string())).collect()
}

fn version(id: i64, height: i64, width: i64, res: &str) -> Media {
    Media {
        id,
        height: Some(height),
        width: Some(width),
        video_resolution: Some(res.to_string()),
        ..Media::default()
    }
}

#[test]
fn route_plan_follows_config() {
    let plan = route(&base_config());
    assert_eq!(plan.hoops, vec![Hoop::Cors, Hoop::Logger, Hoop::ShouldSkip, Hoop::Timeout(12000), Hoop::Compression]);
    assert_eq!(plan.routes[0].path, "/video/<colon:colon>/transcode/universal/decision");
    assert_eq!(plan.routes[0].hoops, vec![Hoop::DirectStreamFallback]);
    assert_eq!(plan.routes.last().unwrap().path, "<**rest>");
    assert_eq!(plan.routes.last().unwrap().goal, Goal::ProxyRequest);
    let n = plan.routes.len();
    let mut config = base_config();
    config.redirect_streams = true;
    config.disable_related = true;
    config.disable_continue_watching = true;
    config.ntf_watchlist_force = true;
    config.auto_select_version = true;
    config.force_maximum_quality = true;
    config.video_transcode_fallback_for = Some(vec!["4k".to_string()]);
    let plan = route(&config);
    assert_eq!(plan.routes.len(), n + 6);
    assert_eq!(plan.routes[0].goal, Goal::RedirectStream);
    assert_eq!(plan.routes[2].hoops, vec![Hoop::Timeout(5)]);
    assert_eq!(
        plan.routes[4].hoops,
        vec![Hoop::AutoSelectVersion, Hoop::ForceMaximumQuality, Hoop::VideoTranscodeFallback, Hoop::DirectStreamFallback]
    );
    let cw = plan.routes.iter().find(|r| r.path == "/hubs/continueWatching").unwrap();
    assert_eq!(cw.goal, Goal::EmptyHandler);
    assert_eq!(cw.method, Method::Get);
}

#[test]
fn skip_livetv_and_plexamp() {
    let ctx = PlexContext::default();
    assert!(should_skip(&Some("/livetv/sessions".to_string()), &ctx));
    assert!(!should_skip(&Some("/hubs".to_string()), &ctx));
    let mut amp = PlexContext::default();
    amp.product = Some("PlexAmp".to_string());
    assert!(should_skip(&None, &amp));
}

#[test]
fn stream_redirect() {
    let mut config = base_config();
    let (url, mime) = redirect_stream(&config, "/library/parts/1/2/file.mkv", "/library/parts/1/2/file.mkv?x=1");
    assert_eq!(url, "http://plex:32400/library/parts/1/2/file.mkv?x=1");
    assert_eq!(mime, "video/x-matroska");
    config.redirect_streams_host = Some("http://cdn".to_string());
    let (url, mime) = redirect_stream(&config, "/a/b", "/a/b");
    assert_eq!(url, "http://cdn/a/b");
    assert_eq!(mime, "application/octet-stream");
}

#[test]
fn photo_transcode_size() {
    let mut ctx = PlexContext::default();
    ctx.size = Some("large-500".to_string());
    let mut q = pairs(&[("width", "10"), ("url", "x")]);
    fix_photo_transcode_request(&mut q, &ctx);
    assert_eq!(q, pairs(&[("url", "x"), ("height", "500"), ("width", "500")]));
    ctx.size = Some("large".to_string());
    let mut q = pairs(&[("width", "10")]);
    fix_photo_transcode_request(&mut q, &ctx);
    assert_eq!(q, pairs(&[("width", "10")]));
}

#[test]
fn local_hero_image_path() {
    let q = pairs(&[("url", "http://127.0.0.1/replex/image/hero/movie/5d77.jpg?X-Plex-Token=t")]);
    assert_eq!(resolve_local_media_path(&q), Ok(Some("5d77".to_string())));
    let q = pairs(&[("url", "/library/metadata/1/thumb")]);
    assert_eq!(resolve_local_media_path(&q), Ok(None));
    assert_eq!(resolve_local_media_path(&Vec::new()), Ok(None));
    let q = pairs(&[("url", "/replex/image/hero/movie/5d77.jpg")]);
    assert_eq!(resolve_local_media_path(&q), Err(RouteError::BadUrl));
    let mut q = pairs(&[("url", "a"), ("width", "1")]);
    with_resolved_url(&mut q, Some("https://art".to_string()));
    assert_eq!(q, pairs(&[("width", "1"), ("url", "https://art")]));
    with_resolved_url(&mut q, None);
    assert_eq!(get(&q, "url"), Some("https://art".to_string()));
}

#[test]
fn request_rewrites() {
    let mut q = pairs(&[("includeRelated", "1")]);
    disable_related_query(&mut q);
    assert_eq!(q, pairs(&[("includeRelated", "0")]));
    let mut q = Vec::new();
    transform_req_include_guids(&mut q);
    assert_eq!(q, pairs(&[("includeGuids", "1")]));
    let mut q = pairs(&[("a", "b")]);
    get_library_item_metadata(&mut q, &base_config());
    assert_eq!(q, pairs(&[("a", "b")]));
    let mut config = base_config();
    config.disable_related = true;
    get_library_item_metadata(&mut q, &config);
    assert_eq!(q, pairs(&[("a", "b"), ("includeRelated", "0")]));
    let mut q = pairs(&[("directPlay", "1")]);
    direct_stream_fallback(&mut q);
    assert_eq!(q, pairs(&[("directPlay", "0"), ("directStream", "1")]));
}

#[test]
fn hub_count_for_clients() {
    let mut config = base_config();
    let mut ctx = PlexContext::default();
    let mut q = Vec::new();
    transform_req_android(&mut q, &ctx, &config);
    assert_eq!(get(&q, "count"), Some("50".to_string()));
    config.exclude_watched = false;
    transform_req_android(&mut q, &ctx, &config);
    assert_eq!(get(&q, "count"), Some("25".to_string()));
    ctx.count = Some(12);
    transform_req_android(&mut q, &ctx, &config);
    assert_eq!(get(&q, "count"), Some("12".to_string()));
    ctx.platform = Platform::Android;
    transform_req_android(&mut q, &ctx, &config);
    assert_eq!(q, pairs(&[("count", "50")]));
    ctx.platform = Platform::Generic;
    ctx.count = Some(80);
    config.exclude_watched = true;
    transform_req_android(&mut q, &ctx, &config);
    assert_eq!(get(&q, "count"), Some("80".to_string()));
}

#[test]
fn empty_library_answer() {
    let w = empty_handler(ContentType::Json);
    assert_eq!(w.content_type, ContentType::Json);
    assert_eq!(w.media_container.identifier, Some("com.plexapp.plugins.library".to_string()));
    assert_eq!(w.media_container.size, None);
    assert!(w.media_container.metadata.is_empty());
}

#[test]
fn content_directories_pinned() {
    let mut ctx = PlexContext::default();
    let q = pairs(&[("contentDirectoryID", "1")]);
    match transform_req_content_directory(&ctx, q.clone(), ContentType::Xml) {
        Ok(ContentDirectoryAction::Continue(v)) => assert_eq!(v, q),
        _ => panic!("expected the request to go on"),
    }
    ctx.pinned_content_directory_id = Some(vec!["1".to_string(), "2".to_string()]);
    assert_eq!(
        transform_req_content_directory(&ctx, q.clone(), ContentType::Xml).unwrap_err(),
        RouteError::MissingParam
    );
    ctx.content_directory_id = Some(vec!["1".to_string()]);
    match transform_req_content_directory(&ctx, q.clone(), ContentType::Xml) {
        Ok(ContentDirectoryAction::Continue(v)) => assert_eq!(v, pairs(&[("contentDirectoryID", "1,2")])),
        _ => panic!("expected the request to go on"),
    }
    ctx.content_directory_id = Some(vec!["2".to_string()]);
    match transform_req_content_directory(&ctx, q, ContentType::Json) {
        Ok(ContentDirectoryAction::Respond(w)) => {
            assert_eq!(w.media_container.size, Some(0));
            assert_eq!(w.content_type, ContentType::Json);
        }
        _ => panic!("expected an empty answer"),
    }
}

#[test]
fn hero_image_reply() {
    assert!(matches!(hero_image(None), HeroImageReply::NotFound));
    match hero_image(Some("https://img".to_string())) {
        HeroImageReply::Found(u) => assert_eq!(u, "https://img"),
        HeroImageReply::NotFound => panic!("expected a redirect"),
    }
}

#[test]
fn direct_play_decisions() {
    assert!(direct_play_requested(&Vec::new()));
    assert!(direct_play_requested(&pairs(&[("directPlay", "1")])));
    assert!(!direct_play_requested(&pairs(&[("directPlay", "0")])));
    assert_eq!(direct_stream_decision(200, Some(2000)), Ok(true));
    assert_eq!(direct_stream_decision(200, Some(1000)), Ok(false));
    assert_eq!(direct_stream_decision(200, None), Ok(false));
    assert_eq!(direct_stream_decision(400, None), Ok(true));
    assert_eq!(direct_stream_decision(500, Some(2000)), Err(RouteError::UpstreamFailed));
}

#[test]
fn collection_paging_and_ids() {
    let mut config = base_config();
    let mut ctx = PlexContext::default();
    assert_eq!(paging(&ctx, &config), (250, 0));
    config.exclude_watched = false;
    assert_eq!(paging(&ctx, &config), (50, 0));
    ctx.container_size = Some(20);
    ctx.container_start = Some(40);
    assert_eq!(paging(&ctx, &config), (20, 40));
    assert_eq!(parse_collection_ids("1,22,x,,4294967296,3"), vec![1, 22, 3]);
    assert_eq!(parse_collection_ids(""), Vec::<u32>::new());
}

#[test]
fn maximum_quality_forced() {
    let q = pairs(&[
        ("maxVideoBitrate", "2000"),
        ("mediaBufferSize", "1234"),
        ("X-Plex-Client-Profile-Extra", "add-limitation(scope=videoCodec)+add-transcode-target(type=videoProfile)+append-transcode-target-codec(name=video.bitrate)"),
        ("path", "/library/metadata/1"),
    ]);
    let out = force_maximum_quality(q, Some(1234)).unwrap();
    assert_eq!(get(&out, "maxVideoBitrate"), None);
    assert_eq!(get(&out, "autoAdjustQuality"), Some("0".to_string()));
    assert_eq!(get(&out, "directStream"), Some("1".to_string()));
    assert_eq!(get(&out, "directPlay"), Some("1".to_string()));
    assert_eq!(get(&out, "videoQuality"), Some("100".to_string()));
    assert_eq!(get(&out, "mediaBufferSize"), Some("1234".to_string()));
    assert_eq!(get(&out, "X-Plex-Client-Profile-Extra"), Some("add-transcode-target(type=videoProfile)".to_string()));
    assert_eq!(get(&out, "path"), Some("/library/metadata/1".to_string()));
    assert!(force_maximum_quality(pairs(&[("path", "x")]), None).is_none());
    assert_eq!(filter_profile_extra("a+add-limitation(x)+b"), "a+b");
    assert_eq!(filter_profile_extra("Name=Video.Bitrate"), "");
}

#[test]
fn version_index_and_bitrate() {
    assert_eq!(media_index(&Vec::new()), Ok(0));
    assert_eq!(media_index(&pairs(&[("mediaIndex", "-1")])), Ok(0));
    assert_eq!(media_index(&pairs(&[("mediaIndex", "2")])), Ok(2));
    assert_eq!(media_index(&pairs(&[("mediaIndex", "two")])), Err(RouteError::BadNumber));
    assert_eq!(requested_bitrate(&pairs(&[("maxVideoBitrate", "300"), ("videoBitrate", "200")])), Ok(Some(200)));
    assert_eq!(requested_bitrate(&pairs(&[("maxVideoBitrate", "300")])), Ok(Some(300)));
    assert_eq!(requested_bitrate(&Vec::new()), Ok(None));
    assert_eq!(requested_bitrate(&pairs(&[("videoBitrate", "fast")])), Err(RouteError::BadNumber));
}

#[test]
fn item_versions() {
    let mut c = MediaContainer::empty();
    assert_eq!(item_media(&c).unwrap_err(), RouteError::MissingMedia);
    let mut m = MetaData::empty("Movie".to_string(), "movie".to_string());
    m.media = vec![version(1, 1080, 1920, "1080")];
    c.metadata = vec![m];
    assert_eq!(item_media(&c).unwrap()[0].id, 1);
}

#[test]
fn direct_play_forced_for_resolution() {
    let mut q = pairs(&[("videoResolution", "1920x1080"), ("directPlay", "0")]);
    force_direct_play(&mut q, &vec!["4K".to_string()], &version(1, 2160, 3840, "4k"));
    assert_eq!(q, pairs(&[("directPlay", "1")]));
    let mut q = pairs(&[("directPlay", "0")]);
    force_direct_play(&mut q, &vec!["4k".to_string()], &version(1, 1080, 1920, "1080"));
    assert_eq!(q, pairs(&[("directPlay", "0")]));
}

#[test]
fn version_closest_to_screen_chosen() {
    let hd = Resolution { height: 1080, width: 1920 };
    let uhd = Resolution { height: 2160, width: 3840 };
    let media = vec![version(10, 720, 1280, "720"), version(11, 1080, 1920, "1080"), version(12, 2160, 3840, "4k")];
    assert_eq!(closest_index(&media, &hd), Some(1));
    assert_eq!(closest_index(&media, &uhd), Some(2));
    let out = auto_select_version(pairs(&[("path", "/x")]), &media, &hd).unwrap().unwrap();
    assert_eq!(get(&out, "mediaIndex"), Some("1".to_string()));
    assert_eq!(get(&out, "directPlay"), Some("1".to_string()));
    assert_eq!(get(&out, "subtitles"), Some("auto".to_string()));
    let out = auto_select_version(pairs(&[("path", "/x")]), &media, &uhd).unwrap().unwrap();
    assert_eq!(get(&out, "mediaIndex"), Some("2".to_string()));
    let small = Resolution { height: 480, width: 640 };
    let out = auto_select_version(pairs(&[("path", "/x")]), &media, &small).unwrap().unwrap();
    assert_eq!(get(&out, "mediaIndex"), Some("0".to_string()));
    // Two versions equally close: the first is taken.
    let twins = vec![version(20, 2160, 3840, "4k"), version(21, 720, 1280, "720"), version(22, 720, 1280, "720")];
    assert_eq!(closest_index(&twins, &small), Some(1));
    let out = auto_select_version(pairs(&[("videoBitrate", "100")]), &media, &hd).unwrap().unwrap();
    assert_eq!(get(&out, "directPlay"), None);
    assert_eq!(auto_select_version(Vec::new(), &vec![version(1, 1, 1, "sd")], &hd).unwrap(), None);
    let mut no_height = version(2, 1, 1, "sd");
    no_height.height = None;
    assert_eq!(
        auto_select_version(Vec::new(), &vec![version(1, 1, 1, "sd"), no_height], &hd).unwrap_err(),
        RouteError::MissingMedia
    );
    assert_eq!(order_by_pixels(&twins), vec![0, 1, 2]);
    let media = vec![version(1, 480, 640, "sd"), version(2, 2160, 3840, "4k")];
    assert_eq!(order_by_pixels(&media), vec![1, 0]);
}

#[test]
fn auto_select_needs_resolution_and_no_index() {
    let mut ctx = PlexContext::default();
    let q = pairs(&[("path", "/library/metadata/1")]);
    assert_eq!(auto_select_start(&q, &ctx), None);
    ctx.screen_resolution = vec![Resolution { height: 1080, width: 1920 }];
    assert_eq!(auto_select_start(&q, &ctx), Some("/library/metadata/1".to_string()));
    let q = pairs(&[("path", "/library/metadata/1"), ("mediaIndex", "0")]);
    assert_eq!(auto_select_start(&q, &ctx), None);
}

#[test]
fn transcoding_read_from_decision() {
    let mut c = MediaContainer::empty();
    c.size = Some(0);
    assert_eq!(get_transcoding_for_request(&c), Ok(false));
    c.size = Some(1);
    assert_eq!(get_transcoding_for_request(&c), Err(RouteError::MissingMedia));
    let audio = Stream { stream_type: Some(2), decision: Some("transcode".to_string()), ..Stream::default() };
    let video = Stream { stream_type: Some(1), decision: Some("transcode".to_string()), ..Stream::default() };
    let part = MediaPart { streams: vec![audio, video], ..MediaPart::default() };
    let mut m = MetaData::empty("Movie".to_string(), "movie".to_string());
    m.media = vec![Media { parts: vec![part], ..Media::default() }];
    c.metadata = vec![m];
    assert_eq!(get_transcoding_for_request(&c), Ok(true));
}

#[test]
fn transcode_fallback_steps() {
    let mut config = base_config();
    let q = pairs(&[("path", "/library/metadata/1"), ("mediaIndex", "0")]);
    assert_eq!(TranscodeFallback::start(q.clone(), &config).unwrap_err(), RouteError::MissingParam);
    config.video_transcode_fallback_for = Some(vec!["4K".to_string()]);
    let (f, a) = TranscodeFallback::start(q.clone(), &config).unwrap();
    assert_eq!(f.phase, FallbackPhase::AwaitItem);
    assert_eq!(f.fallback_for, "4k");
    match a {
        FallbackAction::FetchItem(p) => assert_eq!(p, "/library/metadata/1"),
        _ => panic!("expected the item to be fetched"),
    }
    let media = vec![version(10, 2160, 3840, "4k"), version(11, 1080, 1920, "1080"), version(12, 720, 1280, "720")];
    let (f, a) = f.on_item(media).unwrap();
    assert_eq!(f.phase, FallbackPhase::AwaitFirstCheck);
    assert!(matches!(a, FallbackAction::CheckTranscoding(_)));
    let (f, a) = f.on_transcoding(true).unwrap();
    assert_eq!(f.phase, FallbackPhase::Finished);
    match a {
        FallbackAction::Done(Some(v)) => {
            assert_eq!(get(&v, "mediaIndex"), Some("1".to_string()));
            assert_eq!(get(&v, "directStream"), Some("1".to_string()));
            assert_eq!(get(&v, "directPlay"), Some("1".to_string()));
            assert_eq!(get(&v, "subtitles"), Some("auto".to_string()));
        }
        _ => panic!("expected a fallback"),
    }
    let (f, _) = TranscodeFallback::start(q, &config).unwrap();
    let (f, a) = f.on_item(vec![version(10, 1080, 1920, "1080"), version(11, 720, 1280, "720")]).unwrap();
    assert_eq!(f.phase, FallbackPhase::Finished);
    assert!(matches!(a, FallbackAction::Done(None)));
}
