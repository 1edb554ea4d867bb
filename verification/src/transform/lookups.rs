//! What the rules need to have fetched from Plex for a response, and how
//! the fetched answers become the `PlexData` the rules read.
use vstd::prelude::*;
use crate::models::{ChildSlot, MediaContainer, MetaData};
use crate::text::texts;
use crate::utils::{collection_id_of_hub, hub_collection_id};
use super::{CollectionDetails, SectionCollections, TransformError};
use super::restriction_filter::{hub_section, section_of_hub};

verus! {

/// The collections whose details the hero rule reads: those that the
/// collection hubs among `xs` name, in order.
pub open spec fn wanted_collections(xs: Seq<MetaData>) -> Seq<i32>
    decreases xs.len(),
{
    if xs.len() == 0 {
        Seq::empty()
    } else {
        let rest = wanted_collections(xs.drop_last());
        let x = xs.last();
        if x.is_collection_hub_spec() && hub_collection_id(x.hub_identifier->0@) is Some {
            rest.push(hub_collection_id(x.hub_identifier->0@)->0)
        } else {
            rest
        }
    }
}

/// The collections to fetch for a list of items (see `wanted_collections`).
pub fn collections_to_fetch(xs: &Vec<MetaData>) -> (r: Vec<i32>)
    ensures
        r@ == wanted_collections(xs@),
{
    let mut out: Vec<i32> = Vec::new();
    let mut i: usize = 0;
    assert(xs@.take(0) =~= Seq::<MetaData>::empty());
    while i < xs.len()
        invariant
            i <= xs@.len(),
            out@ == wanted_collections(xs@.take(i as int)),
        decreases xs.len() - i,
    {
        assert(xs@.take(i + 1).drop_last() == xs@.take(i as int));
        assert(xs@.take(i + 1).last() == xs@[i as int]);
        let x = &xs[i];
        if x.is_collection_hub() {
            match collection_id_of_hub(x) {
                Some(id) => out.push(id),
                None => {},
            }
        }
        i = i + 1;
    }
    assert(xs@.take(i as int) == xs@);
    out
}

/// The library sections whose custom collections the restriction rules
/// read: those of the collection hubs among `xs` (see `section_of_hub`),
/// each once, in the order they first come.
pub open spec fn wanted_sections(xs: Seq<MetaData>) -> Seq<i64>
    decreases xs.len(),
{
    if xs.len() == 0 {
        Seq::empty()
    } else {
        let rest = wanted_sections(xs.drop_last());
        let x = xs.last();
        if x.is_collection_hub_spec() && section_of_hub(x) is Some && !rest.contains(section_of_hub(x)->0) {
            rest.push(section_of_hub(x)->0)
        } else {
            rest
        }
    }
}

/// Whether `v` holds `id`.
fn holds(v: &Vec<i64>, id: i64) -> (r: bool)
    ensures
        r == v@.contains(id),
{
    let mut i: usize = 0;
    while i < v.len()
        invariant
            i <= v@.len(),
            forall|j: int| 0 <= j < i ==> v@[j] != id,
        decreases v.len() - i,
    {
        if v[i] == id {
            return true;
        }
        i = i + 1;
    }
    false
}

/// The sections to fetch for a list of items (see `wanted_sections`).
pub fn sections_to_fetch(xs: &Vec<MetaData>) -> (r: Vec<i64>)
    ensures
        r@ == wanted_sections(xs@),
{
    let mut out: Vec<i64> = Vec::new();
    let mut i: usize = 0;
    assert(xs@.take(0) =~= Seq::<MetaData>::empty());
    while i < xs.len()
        invariant
            i <= xs@.len(),
            out@ == wanted_sections(xs@.take(i as int)),
        decreases xs.len() - i,
    {
        assert(xs@.take(i + 1).drop_last() == xs@.take(i as int));
        assert(xs@.take(i + 1).last() == xs@[i as int]);
        let x = &xs[i];
        if x.is_collection_hub() {
            match hub_section(x) {
                Some(id) => if !holds(&out, id) {
                    out.push(id);
                },
                None => {},
            }
        }
        i = i + 1;
    }
    assert(xs@.take(i as int) == xs@);
    out
}

/// The children of a fetched answer, by reference.
fn children_ref(c: &MediaContainer) -> (r: &Vec<MetaData>)
    ensures
        r@ == c.children_spec(),
{
    match c.slot_of_children() {
        ChildSlot::Metadata => &c.metadata,
        ChildSlot::Hub => &c.hub,
        ChildSlot::Video => &c.video,
        ChildSlot::Directory => &c.directory,
    }
}

/// What the details of a collection tell the hero rule: whether its first
/// item carries the `REPLEXHERO` label, nothing when it has no items.
pub open spec fn details_from(id: i32, fetched: MediaContainer) -> CollectionDetails {
    let xs = fetched.children_spec();
    CollectionDetails {
        id,
        hero: if xs.len() == 0 {
            None
        } else {
            Some(xs[0].has_label_spec("REPLEXHERO"@))
        },
    }
}

/// Reads the fetched details of a collection (see `details_from`).
pub fn collection_details(id: i32, fetched: &MediaContainer) -> (r: CollectionDetails)
    ensures
        r == details_from(id, *fetched),
{
    let xs = children_ref(fetched);
    if xs.len() == 0 {
        CollectionDetails { id, hero: None }
    } else {
        let hero = xs[0].has_label(crate::text::owned("REPLEXHERO"));
        CollectionDetails { id, hero: Some(hero) }
    }
}

/// The rating keys of a list of items, in order; `None` when some item has
/// none.
pub open spec fn rating_keys_of(xs: Seq<MetaData>) -> Option<Seq<Seq<char>>>
    decreases xs.len(),
{
    if xs.len() == 0 {
        Some(Seq::empty())
    } else {
        match rating_keys_of(xs.drop_last()) {
            None => None,
            Some(ks) => match xs.last().rating_key {
                Some(k) => Some(ks.push(k@)),
                None => None,
            },
        }
    }
}

/// Reads the fetched custom collections of a section: their rating keys.
/// Fails when a collection has no rating key.
pub fn section_collections(section_id: i64, fetched: &MediaContainer) -> (r: Result<SectionCollections, TransformError>)
    ensures
        match r {
            Ok(s) => s.section_id == section_id && rating_keys_of(fetched.children_spec()) == Some(texts(s.rating_keys@)),
            Err(e) => rating_keys_of(fetched.children_spec()) is None && e == TransformError::MissingField,
        },
{
    let xs = children_ref(fetched);
    let mut keys: Vec<String> = Vec::new();
    let mut i: usize = 0;
    assert(xs@.take(0) =~= Seq::<MetaData>::empty());
    assert(texts(keys@) =~= Seq::<Seq<char>>::empty());
    while i < xs.len()
        invariant
            i <= xs@.len(),
            xs@ == fetched.children_spec(),
            rating_keys_of(xs@.take(i as int)) == Some(texts(keys@)),
        decreases xs.len() - i,
    {
        assert(xs@.take(i + 1).drop_last() == xs@.take(i as int));
        assert(xs@.take(i + 1).last() == xs@[i as int]);
        match &xs[i].rating_key {
            Some(k) => {
                let ghost k0 = keys@;
                keys.push(k.clone());
                assert(texts(keys@) =~= texts(k0).push(k@));
            },
            None => {
                proof {
                    lemma_keys_missing(xs@, i as int);
                }
                return Err(TransformError::MissingField);
            },
        }
        i = i + 1;
    }
    assert(xs@.take(i as int) == xs@);
    Ok(SectionCollections { section_id, rating_keys: keys })
}

/// An item without rating key leaves a list without its keys.
proof fn lemma_keys_missing(xs: Seq<MetaData>, i: int)
    requires
        0 <= i < xs.len(),
        xs[i].rating_key is None,
    ensures
        rating_keys_of(xs) is None,
    decreases xs.len(),
{
    if i < xs.len() - 1 {
        assert(xs.drop_last()[i] == xs[i]);
        lemma_keys_missing(xs.drop_last(), i);
    }
}

} // verus!
