//! The rule that shows the items of a hero collection as hero.
use vstd::prelude::*;
use crate::models::{MediaContainer, MetaData, PlexContext};
use super::hub_style::{ClientHeroStyle, HeroStyleView, details_of, find_details, hero_style_of};
use super::media_style::{all_hero, first_hero_error, hero_children, hero_meta, is_hero_meta};
use super::{PlexData, TransformError};

verus! {

/// The rule for the children of collections; `hub` tells whether they are
/// shown within a hub.
#[derive(Clone, Debug, Default)]
pub struct CollectionStyleTransform {
    pub collection_ids: Vec<u32>,
    pub hub: bool,
}

/// Whether the first collection is a hero collection: its first item carries
/// the `REPLEXHERO` label. A collection that could not be fetched is not; a
/// rule without collections, or a collection without items, fails.
pub open spec fn collection_hero(ids: Seq<u32>, data: PlexData) -> Result<bool, TransformError> {
    if ids.len() == 0 {
        Err(TransformError::MissingField)
    } else {
        match details_of(data.collections@, ids[0] as i32) {
            None => Ok(false),
            Some(d) => match d.hero {
                None => Err(TransformError::MissingChildren),
                Some(h) => Ok(h),
            },
        }
    }
}

/// `d` is the container `c` of a hero collection shown for a client of
/// style `st`: it gets the hero display hints and its children are shown
/// as hero (see `with_children`).
pub open spec fn hero_container(c: MediaContainer, d: MediaContainer, st: HeroStyleView, token: Seq<char>) -> bool {
    let s = c.children_slot();
    let xs = c.children_spec();
    &&& d.meta is Some && is_hero_meta(d.meta->0)
    &&& if xs.len() > 0 {
        &&& d == (MediaContainer { meta: d.meta, size: Some(xs.len() as i64), ..c }).with_slot(s, d.slot(s))
        &&& all_hero(xs, d.slot(s)@, st, token)
    } else {
        d == (MediaContainer { meta: d.meta, size: Some(0), ..c })
    }
}

pub open spec fn collection_style_error(t: CollectionStyleTransform, c: MediaContainer, context: PlexContext, data: PlexData) -> Option<TransformError> {
    match collection_hero(t.collection_ids@, data) {
        Err(e) => Some(e),
        Ok(false) => None,
        Ok(true) => first_hero_error(c.children_spec(), context.token),
    }
}

/// What the rule makes of a container: that of a hero collection is shown
/// as hero (see `hero_container`); any other stays as it is.
pub open spec fn collection_styled(t: CollectionStyleTransform, c: MediaContainer, d: MediaContainer, context: PlexContext, data: PlexData) -> bool {
    if collection_hero(t.collection_ids@, data) == Ok::<bool, TransformError>(true) {
        hero_container(c, d, hero_style_of(context), context.token->0@)
    } else {
        d == c
    }
}

impl CollectionStyleTransform {
    /// Shows the items of a hero collection as hero (see
    /// `collection_styled`).
    pub fn transform_mediacontainer(&self, item: MediaContainer, options: &PlexContext, data: &PlexData) -> (r: Result<MediaContainer, TransformError>)
        ensures
            match r {
                Ok(d) => collection_style_error(*self, item, *options, *data) is None
                    && collection_styled(*self, item, d, *options, *data),
                Err(e) => collection_style_error(*self, item, *options, *data) == Some(e),
            },
    {
        if self.collection_ids.len() == 0 {
            return Err(TransformError::MissingField);
        }
        let id = self.collection_ids[0] as i32;
        let hero = match find_details(&data.collections, id) {
            None => false,
            Some(d) => match d.hero {
                None => return Err(TransformError::MissingChildren),
                Some(h) => h,
            },
        };
        if !hero {
            return Ok(item);
        }
        let style = ClientHeroStyle::from_context(options);
        let mut item = item;
        let ghost c0 = item;
        item.meta = Some(hero_meta());
        let had = item.has_children();
        let s = item.slot_of_children();
        let children = item.take_children();
        let children = match hero_children(children, &style, &options.token) {
            Ok(c) => c,
            Err(e) => return Err(e),
        };
        let n = children.len() as i64;
        if had {
            item.put_slot(s, children);
        }
        item.size = Some(n);
        Ok(item)
    }
}

} // verus!
