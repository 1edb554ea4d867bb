use replex::query::{
    add_query_param_salvo, contains_key, get, insert, parse_query, remove, set_param, with_query,
    QueryPair,
};
use replex::text::{
    contains, ends_with, i64_text, join, parse_i32, parse_i64, parse_u8, parse_usize,
    prefix_before, replace, same_lowercase, split_char, starts_with, to_ascii_uppercase,
    usize_text,
};

fn pairs(xs: &[(&str, &str)]) -> Vec<QueryPair> {
    xs.iter().map(|(a, b)| (a.to_string(), b.to_string())).collect()
}

#[test]
fn text_search_and_replace() {
    assert!(starts_with("hub.custom.collection.1", "hub.custom.collection"));
    assert!(!starts_with("hub", "hub.custom"));
    assert!(ends_with("http://host/", "/"));
    assert!(!ends_with("", "/"));
    assert!(contains("abc.replex.stream", "replex.stream"));
    assert!(!contains("plex.tv", "replex.stream"));
    assert_eq!(replace("/library/collections/42/children", "/library/collections/", ""), "42/children");
    assert_eq!(replace("aaaa", "aa", "b"), "bb");
    assert_eq!(prefix_before("abc.replex.stream", ".replex.stream"), "abc");
    assert_eq!(prefix_before("plain", ".replex.stream"), "plain");
}

#[test]
fn text_split_and_join() {
    assert_eq!(split_char("a.b..c", '.'), vec!["a", "b", "", "c"]);
    assert_eq!(split_char("", ','), vec![""]);
    let parts = vec!["1".to_string(), "2".to_string(), "3".to_string()];
    assert_eq!(join(&parts, ","), "1,2,3");
    assert_eq!(join(&Vec::new(), ","), "");
}

#[test]
fn text_numbers() {
    assert_eq!(parse_i64("-42"), Some(-42));
    assert_eq!(parse_i64("+7"), Some(7));
    assert_eq!(parse_i64(""), None);
    assert_eq!(parse_i64("12a"), None);
    assert_eq!(parse_i64("9223372036854775807"), Some(i64::MAX));
    assert_eq!(parse_i64("9223372036854775808"), None);
    assert_eq!(parse_i32("2147483648"), None);
    assert_eq!(parse_u8("255"), Some(255));
    assert_eq!(parse_u8("256"), None);
    assert_eq!(parse_usize("-1"), None);
    assert_eq!(i64_text(-120), "-120");
    assert_eq!(i64_text(0), "0");
    assert_eq!(i64_text(i64::MIN), i64::MIN.to_string());
    assert_eq!(usize_text(1080), "1080");
}

#[test]
fn text_case() {
    assert_eq!(to_ascii_uppercase("mfrgg.é"), "MFRGG.é");
    assert!(same_lowercase("REPLEXHERO", "replexhero"));
    assert!(!same_lowercase("REPLEXHERO", "replex"));
}

#[test]
fn query_read_after_write() {
    let mut ps = pairs(&[("a", "1"), ("b", "2"), ("a", "3")]);
    set_param(&mut ps, "a", "9".to_string());
    assert_eq!(get(&ps, "a"), Some("9".to_string()));
    assert_eq!(get(&ps, "b"), Some("2".to_string()));
    assert_eq!(ps, pairs(&[("b", "2"), ("a", "9")]));
}

#[test]
fn query_remove_and_insert() {
    let mut ps = pairs(&[("x", "1"), ("y", "2"), ("x", "3")]);
    let removed = remove(&mut ps, "x");
    assert_eq!(removed, vec!["1".to_string(), "3".to_string()]);
    assert_eq!(ps, pairs(&[("y", "2")]));
    assert!(!contains_key(&ps, "x"));
    insert(&mut ps, "x", "4".to_string());
    assert_eq!(ps, pairs(&[("y", "2"), ("x", "4")]));
    assert!(contains_key(&ps, "x"));
    assert_eq!(get(&ps, "z"), None);
}

#[test]
fn query_param_added_to_uri() {
    let r = add_query_param_salvo(
        "/hubs/promoted",
        Some("count=12&contentDirectoryID=1,2&count=3"),
        "count".to_string(),
        "50".to_string(),
    );
    assert_eq!(r, "/hubs/promoted?contentDirectoryID=1%2C2&count=50");
    let r = add_query_param_salvo("/video/transcode", None, "videoQuality".to_string(), "100".to_string());
    assert_eq!(r, "/video/transcode?videoQuality=100");
}

#[test]
fn query_decoded_and_written() {
    let ps = parse_query(Some("a=1&b=x%20y&a=2&c"));
    assert_eq!(ps, pairs(&[("a", "1"), ("b", "x y"), ("a", "2"), ("c", "")]));
    assert!(parse_query(None).is_empty());
    assert_eq!(with_query("/hubs", &Vec::new()), "/hubs");
    assert_eq!(with_query("/hubs", &pairs(&[("q", "a b"), ("n", "1")])), "/hubs?q=a+b&n=1");
}
