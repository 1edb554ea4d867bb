use replex::config::Config;
use replex::models::{
    Label, MediaContainer, MediaContainerWrapper, MetaData, Platform, PlexContext, SpecialBool,
    Style,
};
use replex::transform::hub_interleave::{interleave_vec, mix_hubs, HubInterleaveTransform};
use replex::transform::hub_key::HubKeyTransform;
use replex::transform::hub_limit::HubChildrenLimitTransform;
use replex::transform::hub_reorder::{reorder_items, HubReorderTransform};
use replex::transform::hub_section_directory::HubSectionDirectoryTransform;
use replex::transform::hub_style::{ClientHeroStyle, DeviceType, HubStyleTransform};
use replex::transform::library_interleave::{retain_unwatched, LibraryInterleaveTransform};
use replex::transform::lookups::{collection_details, collections_to_fetch, section_collections};
use replex::transform::media_style::{hero_children, style_hero_child, MediaStyleTransform};
use replex::transform::scripting::MediaContainerScriptingTransform;
use replex::transform::user_state::UserStateTransform;
use replex::transform::watched::WatchedFilter;
use replex::transform::{
    filter_list, CollectionDetails, FilterStep, PlexData, TransformBuilder, TransformError,
    TransformStep,
};
use replex::utils::ContentType;

fn base_config() -> Config {
    Config {
        host: Some("http://plex:32400".to_string()),
        token: Some("SECRET-REDACTED".to_string()),
        port: None,
        interleave: true,
        hub_restrictions: true,
        exclude_watched: true,
        cache_ttl: 1800,
        cache_rows: true,
        cache_rows_refresh: true,
        hero_rows: None,
        ssl_enable: false,
        ssl_domain: None,
        newrelic_api_key: None,
        enable_console: false,
        disable_continue_watching: false,
        disable_user_state: false,
        disable_leaf_count: false,
        redirect_streams: false,
        redirect_streams_host: None,
        disable_related: false,
        disable_transcode: false,
        force_maximum_quality: false,
        auto_select_version: false,
        video_transcode_fallback_for: None,
        force_direct_play_for: None,
        test_script: None,
        ntf_watchlist_force: false,
        custom_sorting: None,
        tmdb_api_key: None,
    }
}

fn movie(key: &str) -> MetaData {
    let mut m = MetaData::empty(format!("Movie {}", key), "movie".to_string());
    m.rating_key = Some(key.to_string());
    m.guid = Some(format!("plex://movie/{}", key));
    m
}

fn watched(key: &str) -> MetaData {
    let mut m = movie(key);
    m.view_count = Some(1);
    m
}

fn collection_hub(title: &str, id: i32, children: Vec<MetaData>) -> MetaData {
    let mut h = MetaData::empty(title.to_string(), "movie".to_string());
    h.hub_identifier = Some(format!("custom.collection.1.{}", id));
    h.context = Some("hub.custom.collection".to_string());
    h.key = Some(format!("/library/collections/{}/children", id));
    h.size = Some(children.len() as i32);
    h.metadata = children;
    h
}

fn keys(xs: &[MetaData]) -> Vec<String> {
    xs.iter().map(|x| x.rating_key.clone().unwrap_or_default()).collect()
}

#[test]
fn watched_filter_drops_watched_items() {
    let config = base_config();
    let f = WatchedFilter;
    assert!(f.filter_metadata(&watched("1"), &config));
    assert!(!f.filter_metadata(&movie("2"), &config));
    let mut leaves = movie("3");
    leaves.viewed_leaf_count = Some(2);
    assert!(f.filter_metadata(&leaves, &config));
    let mut hub = watched("4");
    hub.hub_identifier = Some("home.ondeck".to_string());
    assert!(!f.filter_metadata(&hub, &config));
    let mut keep = base_config();
    keep.exclude_watched = false;
    assert!(!f.filter_metadata(&watched("1"), &keep));
}

#[test]
fn watched_items_removed_from_list() {
    let config = base_config();
    let filters = vec![FilterStep::Watched(WatchedFilter)];
    let out = filter_list(&filters, vec![watched("1"), movie("2"), watched("3"), movie("4")], &config, &PlexData::default())
        .unwrap();
    assert_eq!(keys(&out), vec!["2", "4"]);
    let builder = TransformBuilder::new(PlexContext::default(), config, PlexData::default())
        .with_filter(FilterStep::Watched(WatchedFilter));
    let out = builder.apply_to_metadata(vec![watched("1"), movie("2")]).unwrap();
    assert_eq!(keys(&out), vec!["2"]);
}

#[test]
fn interleave_takes_items_in_turn() {
    assert_eq!(interleave_vec(vec![1, 3, 5], vec![2, 4]), vec![1, 2, 3, 4, 5]);
    assert_eq!(interleave_vec(vec![1], vec![2, 3, 4]), vec![1, 2, 3, 4]);
    assert_eq!(interleave_vec(Vec::<i32>::new(), vec![7, 8]), vec![7, 8]);
    let a = vec![1, 2, 3];
    let b = vec![10, 20];
    let mixed = interleave_vec(a.clone(), b.clone());
    assert_eq!(mixed.len(), a.len() + b.len());
}

#[test]
fn mix_hubs_merges_same_titles() {
    let h1 = collection_hub("Action", 1, vec![movie("a1"), movie("a2")]);
    let h2 = collection_hub("Action", 2, vec![movie("b1"), movie("b2"), movie("b3")]);
    let mut other = MetaData::empty("On Deck".to_string(), "movie".to_string());
    other.hub_identifier = Some("home.ondeck".to_string());
    other.size = Some(1);
    other.metadata = vec![movie("o1")];
    let out = mix_hubs(vec![h1, other, h2], true).unwrap();
    assert_eq!(out.len(), 2);
    assert_eq!(out[0].title, "Action");
    assert_eq!(out[0].key, Some("/replex/library/collections/1,2/children".to_string()));
    assert_eq!(out[0].size, Some(5));
    assert_eq!(keys(&out[0].metadata), vec!["a1", "b1", "a2", "b2", "b3"]);
    assert_eq!(out[1].title, "On Deck");
}

#[test]
fn collection_named_like_builtin_row_not_folded() {
    let mut on_deck = MetaData::empty("On Deck".to_string(), "movie".to_string());
    on_deck.hub_identifier = Some("home.ondeck".to_string());
    on_deck.key = Some("/hubs/home/onDeck".to_string());
    on_deck.size = Some(1);
    on_deck.metadata = vec![movie("o1")];
    let c = collection_hub("On Deck", 4, vec![movie("c1")]);
    let out = mix_hubs(vec![on_deck, c], true).unwrap();
    assert_eq!(out.len(), 2);
    assert_eq!(out[0].key, Some("/hubs/home/onDeck".to_string()));
    assert_eq!(keys(&out[0].metadata), vec!["o1"]);
    assert_eq!(out[1].key, Some("/library/collections/4/children".to_string()));
    assert_eq!(keys(&out[1].metadata), vec!["c1"]);
}

#[test]
fn three_collections_mix_into_one_row() {
    let h1 = collection_hub("Action", 1, vec![movie("a1")]);
    let h2 = collection_hub("Action", 2, vec![movie("b1")]);
    let h3 = collection_hub("Action", 3, vec![movie("c1")]);
    let out = mix_hubs(vec![h1, h2, h3], true).unwrap();
    assert_eq!(out.len(), 1);
    assert_eq!(out[0].key, Some("/replex/library/collections/1,2,3/children".to_string()));
    assert_eq!(out[0].size, Some(3));
}

#[test]
fn mix_hubs_errors() {
    let mut h = collection_hub("Action", 1, vec![movie("a1")]);
    h.size = None;
    assert_eq!(mix_hubs(vec![h], true).unwrap_err(), TransformError::MissingField);
    let h1 = collection_hub("Action", 1, vec![movie("a1")]);
    let mut h2 = collection_hub("Action", 2, vec![movie("b1")]);
    h2.key = None;
    assert_eq!(mix_hubs(vec![h1, h2], true).unwrap_err(), TransformError::MissingField);
    let mut empty = collection_hub("Empty", 3, vec![]);
    empty.size = Some(0);
    assert_eq!(mix_hubs(vec![empty], true).unwrap().len(), 0);
}

#[test]
fn interleave_off_keeps_container() {
    let mut config = base_config();
    config.interleave = false;
    let mut c = MediaContainer::empty();
    c.hub = vec![collection_hub("A", 1, vec![movie("1")]), collection_hub("A", 2, vec![movie("2")])];
    let d = HubInterleaveTransform.transform_mediacontainer(c, &config).unwrap();
    assert_eq!(d.hub.len(), 2);
    let mut c = MediaContainer::empty();
    c.hub = vec![collection_hub("A", 1, vec![movie("1")]), collection_hub("A", 2, vec![movie("2")])];
    let d = HubInterleaveTransform.transform_mediacontainer(c, &base_config()).unwrap();
    assert_eq!(d.hub.len(), 1);
    assert_eq!(d.size, Some(1));
}

#[test]
fn reorder_by_custom_sorting() {
    let order = vec!["1".to_string(), "2".to_string(), "3".to_string()];
    let out = reorder_items(vec![movie("3"), movie("x"), movie("1"), movie("2"), movie("y")], &order);
    assert_eq!(keys(&out), vec!["1", "2", "3", "x", "y"]);
    let mut config = base_config();
    let mut c = MediaContainer::empty();
    c.metadata = vec![movie("2"), movie("1")];
    let d = HubReorderTransform::default().transform_mediacontainer(c, &config);
    assert_eq!(keys(&d.metadata), vec!["2", "1"]);
    config.custom_sorting = Some(vec!["1".to_string()]);
    let mut c = MediaContainer::empty();
    c.metadata = vec![movie("2"), movie("1")];
    let d = HubReorderTransform::default().transform_mediacontainer(c, &config);
    assert_eq!(keys(&d.metadata), vec!["1", "2"]);
}

#[test]
fn unwatched_kept() {
    let out = retain_unwatched(vec![watched("1"), movie("2"), watched("3")]);
    assert_eq!(keys(&out), vec!["2"]);
}

#[test]
fn library_interleave_mixes_fetched_children() {
    let t = LibraryInterleaveTransform {
        collection_ids: vec![1, 2],
        offset: 0,
        limit: 10,
        fetched: vec![vec![movie("a"), watched("w"), movie("b")], vec![movie("c")]],
    };
    let d = t.transform_mediacontainer(MediaContainer::empty(), &base_config()).unwrap();
    assert_eq!(keys(&d.metadata), vec!["a", "c", "b"]);
    assert_eq!(d.total_size, Some(3));
    let t = LibraryInterleaveTransform { collection_ids: vec![1, 2], offset: 0, limit: 10, fetched: vec![vec![]] };
    assert_eq!(t.transform_mediacontainer(MediaContainer::empty(), &base_config()).unwrap_err(), TransformError::NotFetched);
}

#[test]
fn user_state_cleared() {
    let mut config = base_config();
    let mut m = watched("1");
    m.leaf_count = Some(4);
    m.user_state = Some(SpecialBool::new(true));
    let same = UserStateTransform.transform_metadata(m, &config);
    assert_eq!(same.leaf_count, Some(4));
    assert!(same.user_state.unwrap().get());
    config.disable_user_state = true;
    config.disable_leaf_count = true;
    let mut m = watched("1");
    m.leaf_count = Some(4);
    let y = UserStateTransform.transform_metadata(m, &config);
    assert_eq!(y.leaf_count, None);
    assert!(!y.user_state.unwrap().get());
    let mut hub = MetaData::empty("Hub".to_string(), "movie".to_string());
    hub.hub_identifier = Some("home.ondeck".to_string());
    let mut child = movie("2");
    child.leaf_count = Some(1);
    hub.metadata = vec![child];
    let y = UserStateTransform.transform_metadata(hub, &config);
    assert_eq!(y.metadata[0].leaf_count, None);
    assert!(!y.metadata[0].user_state.as_ref().unwrap().get());
    assert!(y.user_state.is_none());
}

#[test]
fn hub_keys_point_at_proxy() {
    let mut hub = MetaData::empty("Hub".to_string(), "movie".to_string());
    hub.hub_identifier = Some("home.ondeck".to_string());
    hub.key = Some("/hubs/home/onDeck".to_string());
    let y = HubKeyTransform.transform_metadata(hub);
    assert_eq!(y.key, Some("/replex/shelf/hubs/home/onDeck".to_string()));
    let y = HubKeyTransform.transform_metadata(y);
    assert_eq!(y.key, Some("/replex/shelf/hubs/home/onDeck".to_string()));
    let mut hero = MetaData::empty("Hub".to_string(), "movie".to_string());
    hero.hub_identifier = Some("x".to_string());
    hero.style = Some("hero".to_string());
    hero.key = Some("/a".to_string());
    assert_eq!(HubKeyTransform.transform_metadata(hero).key, Some("/replex/hero/a".to_string()));
    let plain = movie("1");
    assert_eq!(HubKeyTransform.transform_metadata(plain).key, None);
}

#[test]
fn section_directory_moved_to_video() {
    let mut hub = collection_hub("A", 1, vec![]);
    hub.directory = vec![movie("d1"), movie("d2")];
    let y = HubSectionDirectoryTransform.transform_metadata(hub);
    assert!(y.directory.is_empty());
    assert_eq!(keys(&y.video), vec!["d1", "d2"]);
}

#[test]
fn hub_children_limited() {
    let hub = collection_hub("A", 1, vec![movie("1"), movie("2"), movie("3")]);
    let y = HubChildrenLimitTransform { limit: 2 }.transform_metadata(hub).unwrap();
    assert_eq!(keys(&y.metadata), vec!["1", "2"]);
    assert_eq!(y.size, Some(2));
    let hub = collection_hub("A", 1, vec![movie("1")]);
    let y = HubChildrenLimitTransform { limit: -1 }.transform_metadata(hub).unwrap();
    assert_eq!(y.size, Some(1));
}

#[test]
fn hero_styles_by_client() {
    assert_eq!(DeviceType::from_product("Plex for Android (TV)".to_string()), DeviceType::Tv);
    assert_eq!(DeviceType::from_product("Plex for Android (Mobile)".to_string()), DeviceType::Mobile);
    let mut ctx = PlexContext::default();
    ctx.platform = Platform::Android;
    ctx.product = Some("Plex for Android (TV)".to_string());
    let s = ClientHeroStyle::from_context(&ctx);
    assert_eq!(s.kind, "clip");
    assert_eq!(s.style, Some("hero".to_string()));
    assert_eq!(s.child_type, Some("clip".to_string()));
    ctx.product = Some("Plex for Android (Mobile)".to_string());
    assert_eq!(ClientHeroStyle::from_context(&ctx).style, None);
    ctx.platform = Platform::Ios;
    let s = ClientHeroStyle::from_context(&ctx);
    assert!(s.cover_art_as_art && !s.cover_art_as_thumb);
    ctx.platform = Platform::Generic;
    let s = ClientHeroStyle::from_context(&ctx);
    assert_eq!(s.kind, "mixed");
    assert!(s.cover_art_as_thumb && !s.cover_art_as_art);
    let d = ClientHeroStyle::default();
    assert_eq!(d.style, Some("hero".to_string()));
}

#[test]
fn hero_child_cover_art() {
    let style = ClientHeroStyle::default_style();
    let mut ep = movie("1");
    ep.guid = Some("plex://episode/e1".to_string());
    ep.parent_guid = Some("plex://season/s1".to_string());
    let y = style_hero_child(ep, &style, &Some("tok".to_string())).unwrap();
    assert_eq!(y.images.len(), 1);
    assert_eq!(y.images[0].kind, "coverArt");
    assert_eq!(y.images[0].url, "/replex/image/hero/season/s1?X-Plex-Token=tok");
    assert_eq!(y.thumb, Some("/replex/image/hero/season/s1?X-Plex-Token=tok".to_string()));
    assert_eq!(y.art, None);
    assert_eq!(style_hero_child(movie("2"), &style, &None).unwrap_err(), TransformError::MissingToken);
    let mut no_guid = movie("3");
    no_guid.guid = None;
    assert_eq!(style_hero_child(no_guid, &style, &None).unwrap_err(), TransformError::MissingField);
    let ys = hero_children(vec![movie("4"), movie("5")], &style, &Some("t".to_string())).unwrap();
    assert_eq!(ys[1].images[0].url, "/replex/image/hero/movie/5?X-Plex-Token=t");
    let m = MediaStyleTransform { style: Style::Shelf };
    let same = m.transform_metadata(movie("6"), &PlexContext::default()).unwrap();
    assert!(same.images.is_empty());
}

#[test]
fn hero_hub_decision() {
    let mut config = base_config();
    let hub = collection_hub("A", 7, vec![movie("1")]);
    let data = PlexData { collections: vec![CollectionDetails { id: 7, hero: Some(true) }], ..PlexData::default() };
    assert_eq!(hub.is_hero(&config, &data), Ok(true));
    let data2 = PlexData { collections: vec![CollectionDetails { id: 7, hero: Some(false) }], ..PlexData::default() };
    assert_eq!(hub.is_hero(&config, &data2), Ok(false));
    assert_eq!(hub.is_hero(&config, &PlexData::default()), Err(TransformError::NotFetched));
    let mut row = MetaData::empty("Row".to_string(), "movie".to_string());
    row.hub_identifier = Some("home.movies.recent".to_string());
    assert_eq!(row.is_hero(&config, &PlexData::default()), Ok(false));
    config.hero_rows = Some(vec!["movies.recent".to_string()]);
    assert_eq!(row.is_hero(&config, &PlexData::default()), Ok(true));
}

#[test]
fn hub_style_restyles_hero_hub() {
    let config = base_config();
    let data = PlexData { collections: vec![CollectionDetails { id: 7, hero: Some(true) }], ..PlexData::default() };
    let mut ctx = PlexContext::default();
    ctx.token = Some("tok".to_string());
    let hub = collection_hub("A", 7, vec![movie("1"), movie("2")]);
    let y = HubStyleTransform { is_home: true }.transform_metadata(hub, &ctx, &config, &data).unwrap();
    assert_eq!(y.style, Some("hero".to_string()));
    assert_eq!(y.kind, "mixed");
    assert_eq!(y.size, Some(2));
    assert!(y.meta.is_some());
    assert_eq!(y.metadata[0].images[0].url, "/replex/image/hero/movie/1?X-Plex-Token=tok");
    let hub = collection_hub("A", 7, vec![movie("1")]);
    let y = HubStyleTransform { is_home: true }.transform_metadata(hub, &ctx, &config, &PlexData::default()).unwrap();
    assert_eq!(y.style, None);
}

#[test]
fn labels_read_ignoring_case() {
    let mut m = movie("1");
    m.labels = vec![Label { id: 1, tag: "ReplexHero".to_string(), filter: String::new() }];
    assert!(m.has_label("REPLEXHERO".to_string()));
    assert!(!m.has_label("other".to_string()));
}

#[test]
fn scripts_are_refused() {
    let mut config = base_config();
    assert!(MediaContainerScriptingTransform.transform_mediacontainer(MediaContainer::empty(), &config).is_ok());
    config.test_script = Some("script.rhai".to_string());
    assert_eq!(
        MediaContainerScriptingTransform.transform_mediacontainer(MediaContainer::empty(), &config).unwrap_err(),
        TransformError::ScriptUnsupported
    );
}

#[test]
fn builder_filters_then_transforms_then_resizes() {
    let mut config = base_config();
    config.disable_leaf_count = true;
    let mut c = MediaContainer::empty();
    c.size = Some(99);
    let mut m2 = movie("2");
    m2.leaf_count = Some(3);
    c.metadata = vec![watched("1"), m2, movie("3")];
    let builder = TransformBuilder::new(PlexContext::default(), config, PlexData::default())
        .with_filter(FilterStep::Watched(WatchedFilter))
        .with_transform(TransformStep::UserState(UserStateTransform));
    let w = builder
        .apply_to(MediaContainerWrapper { media_container: c, content_type: ContentType::Json })
        .unwrap();
    assert_eq!(w.content_type, ContentType::Json);
    assert_eq!(w.media_container.size, Some(2));
    assert_eq!(keys(&w.media_container.metadata), vec!["2", "3"]);
    assert_eq!(w.media_container.metadata[0].leaf_count, None);
}

#[test]
fn builder_reports_failing_rule() {
    let mut config = base_config();
    config.test_script = Some("x".to_string());
    let builder = TransformBuilder::new(PlexContext::default(), config, PlexData::default())
        .with_transform(TransformStep::Scripting(MediaContainerScriptingTransform));
    let r = builder.apply_to(MediaContainerWrapper { media_container: MediaContainer::empty(), content_type: ContentType::Xml });
    assert_eq!(r.unwrap_err(), TransformError::ScriptUnsupported);
}

#[test]
fn names_read_back() {
    assert_eq!(Platform::from_name("iOS"), Platform::Ios);
    assert_eq!(Platform::from_name("Android"), Platform::Android);
    assert_eq!(Platform::from_name("tvOS"), Platform::TvOS);
    assert_eq!(Platform::from_name("ios"), Platform::Generic);
    assert_eq!(Platform::from_name("Web"), Platform::Generic);
    assert_eq!(Style::from_name("hero"), Some(Style::Hero));
    assert_eq!(Style::from_name("shelf"), Some(Style::Shelf));
    assert_eq!(Style::from_name("grid"), None);
}

#[test]
fn lookups_for_collection_hubs() {
    let mut h1 = collection_hub("A", 7, vec![]);
    h1.library_section_id = Some(3);
    let mut h2 = collection_hub("B", 9, vec![]);
    h2.hub_identifier = Some("custom.collection.4.9".to_string());
    let mut plain = MetaData::empty("On Deck".to_string(), "movie".to_string());
    plain.hub_identifier = Some("home.ondeck".to_string());
    let xs = vec![h1, plain, h2];
    assert_eq!(collections_to_fetch(&xs), vec![7, 9]);
}

#[test]
fn fetched_answers_become_data() {
    let mut first = movie("1");
    first.labels = vec![Label { id: 1, tag: "REPLEXHERO".to_string(), filter: String::new() }];
    let mut c = MediaContainer::empty();
    c.metadata = vec![first, movie("2")];
    let d = collection_details(7, &c);
    assert_eq!((d.id, d.hero), (7, Some(true)));
    let d = collection_details(8, &MediaContainer::empty());
    assert_eq!(d.hero, None);
    let s = section_collections(3, &c).unwrap();
    assert_eq!(s.section_id, 3);
    assert_eq!(s.rating_keys, vec!["1".to_string(), "2".to_string()]);
    c.metadata.push(MetaData::empty("No key".to_string(), "movie".to_string()));
    assert_eq!(section_collections(3, &c).unwrap_err(), TransformError::MissingField);
}

#[test]
fn platform_names_round_trip() {
    for p in [
        Platform::Android,
        Platform::Ios,
        Platform::Safari,
        Platform::Chrome,
        Platform::Roku,
        Platform::TvOS,
        Platform::Generic,
    ] {
        assert_eq!(Platform::from_name(&replex::plex_client::platform_to_string(p)), p);
    }
    assert_eq!(Style::from_name(&Style::Hero.name()), Some(Style::Hero));
    assert_eq!(Style::from_name(&Style::Shelf.name()), Some(Style::Shelf));
}

#[test]
fn reorder_keeps_every_item() {
    let order = vec!["b".to_string(), "a".to_string(), "b".to_string()];
    let input = vec![movie("a"), movie("z"), movie("b"), movie("a"), movie("y")];
    let out = reorder_items(input.iter().map(|m| m.clone()).collect(), &order);
    assert_eq!(keys(&out), vec!["b", "a", "a", "z", "y"]);
    let mut before = keys(&input);
    let mut after = keys(&out);
    before.sort();
    after.sort();
    assert_eq!(before, after);
}

#[test]
fn set_children_reads_back() {
    let mut item = MetaData::empty("Hub".to_string(), "movie".to_string());
    item.directory = vec![movie("d1")];
    item.video = vec![movie("v1")];
    item.set_children(vec![movie("n1"), movie("n2")]);
    assert_eq!(keys(&item.children()), vec!["n1", "n2"]);
    assert_eq!(item.size, Some(2));
    assert_eq!(keys(&item.video), vec!["v1"]);
    assert!(item.metadata.is_empty());
}
