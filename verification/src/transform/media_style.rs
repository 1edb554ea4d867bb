//! The rule that shows the items of a hub as hero: each gets a cover art
//! image served through the proxy.
use vstd::prelude::*;
use crate::models::{Image, MediaContainer, Meta, MetaData, PlexContext, Style};
use crate::text::{concat, has_prefix, owned, replace, replace_all, starts_with, texts};
use super::hub_style::{ClientHeroStyle, HeroStyleView, hero_style_of};
use super::TransformError;

verus! {

/// The rule that restyles the items of a container in a given style.
#[derive(Clone, Copy, Debug)]
pub struct MediaStyleTransform {
    pub style: Style,
}

/// The guid whose cover art an item shows: that of the show for an episode
/// that names its show, without the `plex://` scheme.
pub open spec fn cover_guid(x: MetaData) -> Seq<char> {
    let guid = x.guid->0@;
    let g = if has_prefix(guid, "plex://episode"@) && x.parent_guid is Some {
        x.parent_guid->0@
    } else {
        guid
    };
    replace_all(g, "plex://"@, ""@)
}

/// The address under which the proxy serves an item's cover art.
pub open spec fn hero_cover_url(x: MetaData, token: Seq<char>) -> Seq<char> {
    "/replex/image/hero/"@ + cover_guid(x) + "?X-Plex-Token="@ + token
}

/// Why an item cannot be shown as hero: it has no guid, or the client sent
/// no token.
pub open spec fn hero_child_error(x: MetaData, token: Option<String>) -> Option<TransformError> {
    if x.guid is None {
        Some(TransformError::MissingField)
    } else if token is None {
        Some(TransformError::MissingToken)
    } else {
        None
    }
}

/// `y` is the item `x` shown as hero in style `st` for a client with
/// `token`: it takes the style's child type, its only image is the cover
/// art (with the item's title as text), and the cover art goes to `art` and
/// `thumb` as the style says. Nothing else changes.
pub open spec fn hero_child(x: MetaData, y: MetaData, st: HeroStyleView, token: Seq<char>) -> bool {
    let url = hero_cover_url(x, token);
    &&& y == (MetaData { kind: y.kind, images: y.images, art: y.art, thumb: y.thumb, ..x })
    &&& y.kind@ == (match st.3 {
        Some(t) => t,
        None => x.kind@,
    })
    &&& y.images@.len() == 1
    &&& y.images@[0].kind@ == "coverArt"@
    &&& y.images@[0].url@ == url
    &&& y.images@[0].alt == Some(x.title)
    &&& if st.5 {
        y.art is Some && y.art->0@ == url
    } else {
        y.art == x.art
    }
    &&& if st.4 {
        y.thumb is Some && y.thumb->0@ == url
    } else {
        y.thumb == x.thumb
    }
}

/// Shows an item as hero (see `hero_child`).
pub fn style_hero_child(x: MetaData, style: &ClientHeroStyle, token: &Option<String>) -> (r: Result<MetaData, TransformError>)
    ensures
        match r {
            Ok(y) => hero_child_error(x, *token) is None && hero_child(x, y, style@, token->0@),
            Err(e) => hero_child_error(x, *token) == Some(e),
        },
{
    let mut item = x;
    match &style.child_type {
        Some(t) => {
            item.kind = t.clone();
        },
        None => {},
    }
    let guid = match &item.guid {
        Some(g) => g.clone(),
        None => return Err(TransformError::MissingField),
    };
    let tok = match token {
        Some(t) => t.clone(),
        None => return Err(TransformError::MissingToken),
    };
    let guid = if starts_with(guid.as_str(), "plex://episode") && item.parent_guid.is_some() {
        match &item.parent_guid {
            Some(p) => p.clone(),
            None => guid,
        }
    } else {
        guid
    };
    let guid = replace(guid.as_str(), "plex://", "");
    let url = concat("/replex/image/hero/", guid.as_str());
    let url = concat(url.as_str(), "?X-Plex-Token=");
    let url = concat(url.as_str(), tok.as_str());
    let mut images: Vec<Image> = Vec::new();
    images.push(Image { kind: owned("coverArt"), url: url.clone(), alt: Some(item.title.clone()) });
    item.images = images;
    if style.cover_art_as_art {
        item.art = Some(url.clone());
    }
    if style.cover_art_as_thumb {
        item.thumb = Some(url);
    }
    Ok(item)
}

/// The first reason, in order, why an item of a list cannot be shown as
/// hero.
pub open spec fn first_hero_error(xs: Seq<MetaData>, token: Option<String>) -> Option<TransformError>
    decreases xs.len(),
{
    if xs.len() == 0 {
        None
    } else {
        match hero_child_error(xs[0], token) {
            Some(e) => Some(e),
            None => first_hero_error(xs.drop_first(), token),
        }
    }
}

/// Each item of `ys` is the item of `xs` at its place shown as hero.
pub open spec fn all_hero(xs: Seq<MetaData>, ys: Seq<MetaData>, st: HeroStyleView, token: Seq<char>) -> bool {
    &&& ys.len() == xs.len()
    &&& forall|i: int| 0 <= i < xs.len() ==> #[trigger] hero_child(xs[i], ys[i], st, token)
}

/// Shows every item of a list as hero, in order.
pub fn hero_children(xs_in: Vec<MetaData>, style: &ClientHeroStyle, token: &Option<String>) -> (r: Result<Vec<MetaData>, TransformError>)
    ensures
        match r {
            Ok(ys) => first_hero_error(xs_in@, *token) is None && all_hero(xs_in@, ys@, style@, token->0@),
            Err(e) => first_hero_error(xs_in@, *token) == Some(e),
        },
{
    let ghost xs0 = xs_in@;
    let mut xs = xs_in;
    let mut out: Vec<MetaData> = Vec::new();
    let mut i: usize = 0;
    assert(xs0.skip(0) == xs0);
    while i < xs.len()
        invariant
            i <= xs@.len(),
            xs@.len() == xs0.len(),
            xs0 == xs_in@,
            forall|k: int| i <= k < xs0.len() ==> xs@[k] == xs0[k],
            first_hero_error(xs0, *token) == first_hero_error(xs0.skip(i as int), *token),
            out@.len() == i,
            forall|k: int| 0 <= k < i ==> #[trigger] hero_child(xs0[k], out@[k], style@, token->0@),
        decreases xs0.len() - i,
    {
        proof {
            assert(xs0.skip(i as int)[0] == xs0[i as int]);
            assert(xs0.skip(i as int).drop_first() == xs0.skip(i + 1));
        }
        let mut item = MetaData::empty(String::new(), String::new());
        std::mem::swap(&mut item, &mut xs[i]);
        assert(item == xs0[i as int]);
        let y = match style_hero_child(item, style, token) {
            Ok(y) => y,
            Err(e) => {
                assert(first_hero_error(xs0.skip(i as int), *token) == Some(e));
                return Err(e);
            },
        };
        out.push(y);
        i = i + 1;
    }
    assert(xs0.skip(i as int).len() == 0);
    Ok(out)
}

impl MediaStyleTransform {
    /// In hero style, the item is shown as hero for the client that sent the
    /// request; in any other style it stays as it is.
    pub fn transform_metadata(&self, item: MetaData, options: &PlexContext) -> (r: Result<MetaData, TransformError>)
        ensures
            self.style != Style::Hero ==> r == Ok::<MetaData, TransformError>(item),
            self.style == Style::Hero ==> match r {
                Ok(y) => hero_child_error(item, options.token) is None
                    && hero_child(item, y, hero_style_of(*options), options.token->0@),
                Err(e) => hero_child_error(item, options.token) == Some(e),
            },
    {
        match self.style {
            Style::Hero => {
                let style_def = ClientHeroStyle::from_context(options);
                style_hero_child(item, &style_def, &options.token)
            },
            _ => Ok(item),
        }
    }

    /// In hero style, the container gets the hero display hints.
    pub fn transform_mediacontainer(&self, item: MediaContainer) -> (r: MediaContainer)
        ensures
            self.style != Style::Hero ==> r == item,
            self.style == Style::Hero ==> r == (MediaContainer { meta: r.meta, ..item }) && r.meta is Some
                && is_hero_meta(r.meta->0),
    {
        let mut item = item;
        match self.style {
            Style::Hero => {
                item.meta = Some(hero_meta());
            },
            _ => {},
        }
        item
    }
}

/// The fields shown for items of a type: title and release date.
pub open spec fn shows_title_and_date(kind: Option<String>, fields: Seq<String>, want: Seq<char>) -> bool {
    kind is Some && kind->0@ == want && texts(fields) == seq!["title"@, "originallyAvailableAt"@]
}

/// Cover art is the image shown for items of a type.
pub open spec fn shows_cover_art(kind: Option<String>, image_type: Option<String>, want: Seq<char>) -> bool {
    kind is Some && kind->0@ == want && image_type is Some && image_type->0@ == "coverArt"@
}

/// The display hints of a hero hub: title and release date for movies,
/// shows, clips and mixed items; cover art for hero, mixed, clip, movie and
/// show items; no type entry.
pub open spec fn is_hero_meta(m: Meta) -> bool {
    let f = m.display_fields@;
    let i = m.display_images@;
    &&& m.kind is None
    &&& f.len() == 4
    &&& shows_title_and_date(f[0].kind, f[0].fields@, "movie"@)
    &&& shows_title_and_date(f[1].kind, f[1].fields@, "show"@)
    &&& shows_title_and_date(f[2].kind, f[2].fields@, "clip"@)
    &&& shows_title_and_date(f[3].kind, f[3].fields@, "mixed"@)
    &&& i.len() == 5
    &&& shows_cover_art(i[0].kind, i[0].image_type, "hero"@)
    &&& shows_cover_art(i[1].kind, i[1].image_type, "mixed"@)
    &&& shows_cover_art(i[2].kind, i[2].image_type, "clip"@)
    &&& shows_cover_art(i[3].kind, i[3].image_type, "movie"@)
    &&& shows_cover_art(i[4].kind, i[4].image_type, "show"@)
}

fn title_and_date(kind: &str) -> (r: crate::models::DisplayField)
    ensures
        shows_title_and_date(r.kind, r.fields@, kind@),
{
    let mut fields: Vec<String> = Vec::new();
    fields.push(owned("title"));
    fields.push(owned("originallyAvailableAt"));
    assert(texts(fields@) == seq!["title"@, "originallyAvailableAt"@]);
    crate::models::DisplayField { kind: Some(owned(kind)), fields }
}

fn cover_art_image(kind: &str) -> (r: crate::models::DisplayImage)
    ensures
        shows_cover_art(r.kind, r.image_type, kind@),
{
    crate::models::DisplayImage { kind: Some(owned(kind)), image_type: Some(owned("coverArt")) }
}

/// The display hints of a hero hub (see `is_hero_meta`).
pub fn hero_meta() -> (r: Meta)
    ensures
        is_hero_meta(r),
{
    let mut display_fields: Vec<crate::models::DisplayField> = Vec::new();
    display_fields.push(title_and_date("movie"));
    display_fields.push(title_and_date("show"));
    display_fields.push(title_and_date("clip"));
    display_fields.push(title_and_date("mixed"));
    let mut display_images: Vec<crate::models::DisplayImage> = Vec::new();
    display_images.push(cover_art_image("hero"));
    display_images.push(cover_art_image("mixed"));
    display_images.push(cover_art_image("clip"));
    display_images.push(cover_art_image("movie"));
    display_images.push(cover_art_image("show"));
    Meta { kind: None, display_fields, display_images }
}

} // verus!
