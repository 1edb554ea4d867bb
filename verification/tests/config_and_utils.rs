use replex::config::{
    default_as_false, default_as_true, default_cache_ttl, deserialize_host, dynamic_host,
    hide_watched, listen_plan, streams_endpoint, startup_check, Config, HostError, Startup,
};
use replex::models::MetaData;
use replex::utils::{
    collection_id_of_hub, get_collection_id_from_child_path, get_collection_id_from_hub,
    get_content_type_from_headers, merge_children_keys, xml_content_type, ContentType,
};

fn base_config() -> Config {
    Config {
        host: Some("http://plex:32400".to_string()),
        token: Some("SECRET-REDACTED".to_string()),
        port: None,
        interleave: true,
        hub_restrictions: true,
        exclude_watched: true,
        cache_ttl: 1800,
        cache_rows: true,
        cache_rows_refresh: true,
        hero_rows: None,
        ssl_enable: false,
        ssl_domain: None,
        newrelic_api_key: None,
        enable_console: false,
        disable_continue_watching: false,
        disable_user_state: false,
        disable_leaf_count: false,
        redirect_streams: false,
        redirect_streams_host: None,
        disable_related: false,
        disable_transcode: false,
        force_maximum_quality: false,
        auto_select_version: false,
        video_transcode_fallback_for: None,
        force_direct_play_for: None,
        test_script: None,
        ntf_watchlist_force: false,
        custom_sorting: None,
        tmdb_api_key: None,
    }
}

#[test]
fn settings_aliases() {
    assert!(!hide_watched(Some(true), true));
    assert!(hide_watched(Some(false), false));
    assert!(hide_watched(None, true));
    assert!(!hide_watched(None, false));
    assert_eq!(
        streams_endpoint(Some("http://u".to_string()), Some("http://h".to_string())),
        Some("http://u".to_string())
    );
    assert_eq!(streams_endpoint(None, Some("http://h".to_string())), Some("http://h".to_string()));
    assert_eq!(streams_endpoint(None, None), None);
}

#[test]
fn config_defaults() {
    assert!(!default_as_false());
    assert!(default_as_true());
    assert_eq!(default_cache_ttl(), 1800);
}

#[test]
fn host_setting_drops_trailing_slash() {
    assert_eq!(deserialize_host(Some("http://plex:32400/".to_string())), Some("http://plex:32400".to_string()));
    assert_eq!(deserialize_host(Some("http://plex:32400".to_string())), Some("http://plex:32400".to_string()));
    assert_eq!(deserialize_host(Some("".to_string())), Some("".to_string()));
    assert_eq!(deserialize_host(None), None);
}

#[test]
fn dynamic_host_decodes_base32_label() {
    assert_eq!(dynamic_host("mfrgg===.replex.stream"), Ok(Some("abc".to_string())));
    assert_eq!(dynamic_host("MFRGG===.replex.stream:443"), Ok(Some("abc".to_string())));
    assert_eq!(dynamic_host("plex.example.org"), Ok(None));
    assert_eq!(dynamic_host("zz1.replex.stream"), Err(HostError::NotBase32));
    assert_eq!(dynamic_host("74======.replex.stream"), Err(HostError::NotUtf8));
}

#[test]
fn listen_plan_ports() {
    let mut c = base_config();
    assert_eq!(listen_plan(&c), (80, None));
    c.port = Some(8080);
    assert_eq!(listen_plan(&c), (8080, None));
    c.port = None;
    c.ssl_enable = true;
    assert_eq!(listen_plan(&c), (80, None));
    c.ssl_domain = Some("replex.example.org".to_string());
    assert_eq!(listen_plan(&c), (443, Some("replex.example.org".to_string())));
}

#[test]
fn startup_needs_host() {
    let mut c = base_config();
    assert_eq!(startup_check(&c), Startup::Ready);
    c.token = None;
    assert_eq!(startup_check(&c), Startup::MissingToken);
    c.host = None;
    assert_eq!(startup_check(&c), Startup::MissingHost);
}

#[test]
fn collection_ids() {
    assert_eq!(get_collection_id_from_child_path("/library/collections/42/children".to_string()), 42);
    for n in [0, 7, -15, 1234567, i32::MAX, i32::MIN] {
        assert_eq!(get_collection_id_from_child_path(format!("/library/collections/{}/children", n)), n);
    }
    let mut hub = MetaData::empty("Hub".to_string(), "movie".to_string());
    hub.hub_identifier = Some("custom.collection.6.1234".to_string());
    assert_eq!(get_collection_id_from_hub(&hub), 1234);
    assert_eq!(collection_id_of_hub(&hub), Some(1234));
    hub.hub_identifier = Some("home.ondeck".to_string());
    assert_eq!(collection_id_of_hub(&hub), None);
}

#[test]
fn merged_keys() {
    assert_eq!(
        merge_children_keys(
            "/library/collections/1/children".to_string(),
            "/hubs/library/collections/2".to_string()
        ),
        "/replex/library/collections/1,2/children"
    );
    assert_eq!(
        merge_children_keys(
            "/replex/library/collections/1,2/children".to_string(),
            "/library/collections/3/children".to_string()
        ),
        "/replex/library/collections/1,2,3/children"
    );
    // Three libraries with a collection of one name mix into one row.
    let k12 = merge_children_keys(
        "/hubs/library/collections/1/children".to_string(),
        "/hubs/library/collections/2/children".to_string(),
    );
    assert_eq!(
        merge_children_keys(k12, "/hubs/library/collections/3/children".to_string()),
        "/replex/library/collections/1,2,3/children"
    );
}

#[test]
fn content_type_from_headers() {
    assert_eq!(get_content_type_from_headers(None, Some("application/json".to_string())), ContentType::Json);
    assert_eq!(
        get_content_type_from_headers(Some("text/xml".to_string()), Some("application/json".to_string())),
        ContentType::Xml
    );
    assert_eq!(get_content_type_from_headers(None, None), ContentType::Xml);
    assert_eq!(
        get_content_type_from_headers(Some("application/json; charset=utf-8".to_string()), None),
        ContentType::Json
    );
}

#[test]
fn xml_media_types() {
    assert!(xml_content_type(Some("application/xml")));
    assert!(xml_content_type(Some("text/xml; charset=utf-8")));
    assert!(xml_content_type(Some("application/atom+xml")));
    assert!(!xml_content_type(Some("image/svg+xml")));
    assert!(!xml_content_type(Some("application/json")));
    assert!(!xml_content_type(Some("not a mime")));
    assert!(!xml_content_type(None));
}
