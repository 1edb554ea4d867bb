//! Identifiers in Plex paths and the formats of response bodies.
use vstd::prelude::*;
use crate::models::MetaData;
use crate::text::{
    concat, contains, has_infix, parse_i32, parse_signed, replace, replace_all, same_text,
    split_char, split_on,
};

verus! {

/// The format of a response body.
#[derive(Clone, Copy, Debug, PartialEq, Eq, Structural)]
pub enum ContentType {
    Json,
    Xml,
}

impl Default for ContentType {
    fn default() -> (r: ContentType)
        ensures
            r == ContentType::Xml,
    {
        ContentType::Xml
    }
}

/// The id text of a collection's children path: the path without
/// `/library/collections/` and without `/children`.
pub open spec fn child_path_id_text(path: Seq<char>) -> Seq<char> {
    replace_all(replace_all(path, "/library/collections/"@, ""@), "/children"@, ""@)
}

/// The collection id in a path such as `/library/collections/42/children`.
pub fn get_collection_id_from_child_path(path: String) -> (r: i32)
    requires
        parse_signed(child_path_id_text(path@), i32::MIN as int, i32::MAX as int) is Some,
    ensures
        parse_signed(child_path_id_text(path@), i32::MIN as int, i32::MAX as int) == Some(r as int),
{
    let p = replace(path.as_str(), "/library/collections/", "");
    let p = replace(p.as_str(), "/children", "");
    match parse_i32(p.as_str()) {
        Some(v) => v,
        None => 0,
    }
}

/// The last `.`-separated piece of a hub identifier, which names the
/// collection of a collection hub (`custom.collection.6.42` names 42).
pub open spec fn hub_id_tail(id: Seq<char>) -> Seq<char> {
    split_on(id, '.').last()
}

/// The collection a collection hub shows: the last piece of its identifier.
pub fn get_collection_id_from_hub(hub: &MetaData) -> (r: i32)
    requires
        hub.hub_identifier is Some,
        parse_signed(hub_id_tail(hub.hub_identifier->0@), i32::MIN as int, i32::MAX as int) is Some,
    ensures
        parse_signed(hub_id_tail(hub.hub_identifier->0@), i32::MIN as int, i32::MAX as int) == Some(
            r as int,
        ),
{
    match &hub.hub_identifier {
        Some(id) => {
            let pieces = split_char(id.as_str(), '.');
            let last = &pieces[pieces.len() - 1];
            assert(last@ == split_on(id@, '.').last());
            match parse_i32(last.as_str()) {
                Some(v) => v,
                None => 0,
            }
        },
        None => 0,
    }
}

/// The collection id that a hub identifier names, when its last piece is an
/// `i32`.
pub open spec fn hub_collection_id(id: Seq<char>) -> Option<i32> {
    match parse_signed(hub_id_tail(id), i32::MIN as int, i32::MAX as int) {
        Some(v) => Some(v as i32),
        None => None,
    }
}

/// The collection a hub shows, when its identifier names one.
pub fn collection_id_of_hub(hub: &MetaData) -> (r: Option<i32>)
    requires
        hub.hub_identifier is Some,
    ensures
        r == hub_collection_id(hub.hub_identifier->0@),
{
    match &hub.hub_identifier {
        Some(id) => {
            let pieces = split_char(id.as_str(), '.');
            let last = &pieces[pieces.len() - 1];
            assert(last@ == split_on(id@, '.').last());
            parse_i32(last.as_str())
        },
        None => None,
    }
}

/// A collection key without its path around the ids: the mixed prefix
/// `/replex/library/collections/` goes first, then the hub and library
/// prefixes, then `/children`.
pub open spec fn bare_collection_key(key: Seq<char>) -> Seq<char> {
    replace_all(
        replace_all(
            replace_all(
                replace_all(key, "/replex/library/collections/"@, ""@),
                "/hubs/library/collections/"@,
                ""@,
            ),
            "/library/collections/"@,
            ""@,
        ),
        "/children"@,
        ""@,
    )
}

pub open spec fn merged_children_key(left: Seq<char>, right: Seq<char>) -> Seq<char> {
    "/replex/library/collections/"@ + bare_collection_key(left) + ","@ + bare_collection_key(right)
        + "/children"@
}

fn bare_key(key: &str) -> (r: String)
    ensures
        r@ == bare_collection_key(key@),
{
    let k = replace(key, "/replex/library/collections/", "");
    let k = replace(k.as_str(), "/hubs/library/collections/", "");
    let k = replace(k.as_str(), "/library/collections/", "");
    replace(k.as_str(), "/children", "")
}

/// The key of a hub that mixes two collections: the collection ids of both
/// keys, left first, under `/replex/library/collections/`; a key that already
/// mixes collections gives all of its ids, so merging again keeps adding to
/// one list.
pub fn merge_children_keys(key_left: String, key_right: String) -> (r: String)
    ensures
        r@ == merged_children_key(key_left@, key_right@),
{
    let l = bare_key(key_left.as_str());
    let r = bare_key(key_right.as_str());
    let s = concat("/replex/library/collections/", l.as_str());
    let s = concat(s.as_str(), ",");
    let s = concat(s.as_str(), r.as_str());
    concat(s.as_str(), "/children")
}

/// The format a request asks for: that of its `content-type` header, else of
/// its `accept` header, else XML; JSON when the chosen value contains
/// `application/json`.
pub open spec fn content_type_of(content_type: Option<Seq<char>>, accept: Option<Seq<char>>) -> ContentType {
    let v = match content_type {
        Some(c) => c,
        None => match accept {
            Some(a) => a,
            None => "text/xml;charset=utf-8"@,
        },
    };
    if has_infix(v, "application/json"@) {
        ContentType::Json
    } else {
        ContentType::Xml
    }
}

/// The format a request asks for, from its `content-type` and `accept`
/// headers (see `content_type_of`).
pub fn get_content_type_from_headers(content_type: Option<String>, accept: Option<String>) -> (r: ContentType)
    ensures
        r == content_type_of(crate::text::opt_text(content_type), crate::text::opt_text(accept)),
{
    let v: String = match content_type {
        Some(c) => c,
        None => match accept {
            Some(a) => a,
            None => crate::text::owned("text/xml;charset=utf-8"),
        },
    };
    if contains(v.as_str(), "application/json") {
        ContentType::Json
    } else {
        ContentType::Xml
    }
}

/// The parts of a media type as the `mime` crate reads them.
#[derive(Clone, Debug)]
pub struct MimeParts {
    pub type_: String,
    pub subtype: String,
    pub suffix: Option<String>,
}

/// The type, subtype and suffix that `mime::Mime` reads from a media type
/// text; `None` where the text is no media type.
pub uninterp spec fn mime_of(text: Seq<char>) -> Option<(Seq<char>, Seq<char>, Option<Seq<char>>)>;

/// `<mime::Mime as FromStr>::from_str`: the parts of a media type; named
/// `mime_of` and not stated further.
#[verifier::external_body]
pub(crate) fn parse_mime(text: &str) -> (r: Option<MimeParts>)
    ensures
        match r {
            Some(m) => mime_of(text@) == Some((m.type_@, m.subtype@, crate::text::opt_text(m.suffix))),
            None => mime_of(text@) is None,
        },
{
    let m: mime::Mime = text.parse().ok()?;
    Some(MimeParts {
        type_: m.type_().as_str().to_owned(),
        subtype: m.subtype().as_str().to_owned(),
        suffix: m.suffix().map(|s| s.as_str().to_owned()),
    })
}

/// The format for a media type: JSON when the type is `json`, else XML.
pub fn mime_to_content_type(mime: &MimeParts) -> (r: ContentType)
    ensures
        r == (if mime.type_@ == "json"@ {
            ContentType::Json
        } else {
            ContentType::Xml
        }),
{
    if same_text(mime.type_.as_str(), "json") {
        ContentType::Json
    } else {
        ContentType::Xml
    }
}

/// The format a body of the given media type is read in: JSON when the
/// subtype is `json`, else XML.
pub fn body_content_type(mime: &MimeParts) -> (r: ContentType)
    ensures
        r == (if mime.subtype@ == "json"@ {
            ContentType::Json
        } else {
            ContentType::Xml
        }),
{
    if same_text(mime.subtype.as_str(), "json") {
        ContentType::Json
    } else {
        ContentType::Xml
    }
}

/// A `content-type` value is XML: type `application` or `text`, and subtype
/// or suffix `xml`.
pub open spec fn is_xml_mime(text: Seq<char>) -> bool {
    match mime_of(text) {
        Some((t, s, suffix)) => (t == "application"@ || t == "text"@) && (s == "xml"@ || suffix
            == Some("xml"@)),
        None => false,
    }
}

/// Whether a request's `content-type` header names XML (see `is_xml_mime`).
pub fn xml_content_type(content_type: Option<&str>) -> (r: bool)
    ensures
        r == match content_type {
            Some(t) => is_xml_mime(t@),
            None => false,
        },
{
    match content_type {
        None => false,
        Some(t) => match parse_mime(t) {
            None => false,
            Some(m) => {
                let ty = same_text(m.type_.as_str(), "application") || same_text(
                    m.type_.as_str(),
                    "text",
                );
                let sub = same_text(m.subtype.as_str(), "xml");
                let suf = match &m.suffix {
                    Some(x) => same_text(x.as_str(), "xml"),
                    None => false,
                };
                ty && (sub || suf)
            },
        },
    }
}

} // verus!
