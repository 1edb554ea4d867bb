//! The rule that gives the items of a hero collection their cover art as
//! art.
use vstd::prelude::*;
use crate::artwork::art_guid;
use crate::models::{MediaContainer, MetaData};
use super::collection_style::collection_hero;
use super::hub_style::find_details;
use super::{HeroArt, PlexData, TransformError};

verus! {

/// The rule that sets the art of the items of hero collections; `hub` tells
/// whether they are shown within a hub.
#[derive(Clone, Debug, Default)]
pub struct CollecionArtTransform {
    pub collection_ids: Vec<u32>,
    pub hub: bool,
}

/// The cover art looked up for an art guid.
pub open spec fn art_for(arts: Seq<HeroArt>, guid: Seq<char>) -> Option<Seq<char>>
    decreases arts.len(),
{
    if arts.len() == 0 {
        None
    } else if arts[0].guid@ == guid {
        match arts[0].url {
            Some(u) => Some(u@),
            None => None,
        }
    } else {
        art_for(arts.drop_first(), guid)
    }
}

/// The cover art of an item, when it has an art guid and art was found.
pub open spec fn hero_art_of(x: MetaData, data: PlexData) -> Option<Seq<char>> {
    match art_guid(x) {
        Some(g) => art_for(data.hero_art@, g),
        None => None,
    }
}

/// `y` is `x` with its cover art as art, when it has cover art.
pub open spec fn art_set(x: MetaData, y: MetaData, data: PlexData) -> bool {
    match hero_art_of(x, data) {
        Some(u) => y == (MetaData { art: y.art, ..x }) && y.art is Some && y.art->0@ == u,
        None => y == x,
    }
}

/// What the rule makes of a container: in a hero collection every child
/// gets its cover art as art and the size becomes their number (see
/// `with_children`); any other container stays as it is.
pub open spec fn collection_art_set(t: CollecionArtTransform, c: MediaContainer, d: MediaContainer, data: PlexData) -> bool {
    if collection_hero(t.collection_ids@, data) == Ok::<bool, TransformError>(true) {
        let s = c.children_slot();
        let xs = c.children_spec();
        if xs.len() > 0 {
            &&& d == (MediaContainer { size: Some(xs.len() as i64), ..c }).with_slot(s, d.slot(s))
            &&& d.slot(s)@.len() == xs.len()
            &&& forall|i: int| 0 <= i < xs.len() ==> #[trigger] art_set(xs[i], d.slot(s)@[i], data)
        } else {
            d == (MediaContainer { size: Some(0), ..c })
        }
    } else {
        d == c
    }
}

pub open spec fn collection_art_error(t: CollecionArtTransform, data: PlexData) -> Option<TransformError> {
    match collection_hero(t.collection_ids@, data) {
        Err(e) => Some(e),
        Ok(_) => None,
    }
}

fn find_art(arts: &Vec<HeroArt>, guid: &String) -> (r: Option<String>)
    ensures
        match r {
            Some(u) => art_for(arts@, guid@) == Some(u@),
            None => art_for(arts@, guid@) is None,
        },
{
    let mut i: usize = 0;
    assert(arts@.skip(0) == arts@);
    while i < arts.len()
        invariant
            i <= arts@.len(),
            art_for(arts@, guid@) == art_for(arts@.skip(i as int), guid@),
        decreases arts.len() - i,
    {
        proof {
            assert(arts@.skip(i as int)[0] == arts@[i as int]);
            assert(arts@.skip(i as int).drop_first() == arts@.skip(i + 1));
        }
        if crate::text::same_text(arts[i].guid.as_str(), guid.as_str()) {
            return arts[i].url.clone();
        }
        i = i + 1;
    }
    assert(arts@.skip(i as int).len() == 0);
    None
}

fn set_art(x: MetaData, data: &PlexData) -> (y: MetaData)
    ensures
        art_set(x, y, *data),
{
    let mut x = x;
    match x.hero_art_guid() {
        Some(g) => match find_art(&data.hero_art, &g) {
            Some(u) => {
                x.art = Some(u);
            },
            None => {},
        },
        None => {},
    }
    x
}

impl CollecionArtTransform {
    /// Sets the art of the items of a hero collection (see
    /// `collection_art_set`).
    pub fn transform_mediacontainer(&self, item: MediaContainer, data: &PlexData) -> (r: Result<MediaContainer, TransformError>)
        ensures
            match r {
                Ok(d) => collection_art_error(*self, *data) is None && collection_art_set(*self, item, d, *data),
                Err(e) => collection_art_error(*self, *data) == Some(e),
            },
    {
        if self.collection_ids.len() == 0 {
            return Err(TransformError::MissingField);
        }
        let hero = match find_details(&data.collections, self.collection_ids[0] as i32) {
            None => false,
            Some(d) => match d.hero {
                None => return Err(TransformError::MissingChildren),
                Some(h) => h,
            },
        };
        if !hero {
            return Ok(item);
        }
        let mut item = item;
        let had = item.has_children();
        let s = item.slot_of_children();
        let mut xs = item.take_children();
        let ghost xs0 = xs@;
        let mut out: Vec<MetaData> = Vec::new();
        let mut i: usize = 0;
        while i < xs.len()
            invariant
                i <= xs@.len(),
                xs@.len() == xs0.len(),
                forall|k: int| i <= k < xs0.len() ==> xs@[k] == xs0[k],
                out@.len() == i,
                forall|k: int| 0 <= k < i ==> #[trigger] art_set(xs0[k], out@[k], *data),
            decreases xs0.len() - i,
        {
            let mut c = MetaData::empty(String::new(), String::new());
            std::mem::swap(&mut c, &mut xs[i]);
            out.push(set_art(c, data));
            i = i + 1;
        }
        let n = out.len() as i64;
        if had {
            item.put_slot(s, out);
        }
        item.size = Some(n);
        Ok(item)
    }
}

} // verus!
