//! The rules that rewrite Plex responses: filters that drop items, and
//! transforms that restyle, merge and reorder hubs and their children.
use vstd::prelude::*;
use crate::config::Config;
use crate::models::{ChildSlot, MediaContainer, MediaContainerWrapper, MetaData, PlexContext};

pub mod watched;
pub mod hub_style;
pub mod media_style;
pub mod user_state;
pub mod hub_key;
pub mod hub_section_directory;
pub mod hub_interleave;
pub mod library_interleave;
pub mod hub_reorder;
pub mod collection_style;
pub mod restriction_filter;
pub mod restrictions;
pub mod hub_limit;
pub mod clear_guids;
pub mod collection_art;
pub mod hub_mix;
pub mod library_mix;
pub mod permission;
pub mod scripting;
pub mod lookups;

use watched::WatchedFilter;
use restriction_filter::{HubRestrictionFilter, restriction_drops};
use permission::{CollectionHubPermissionFilter, permission_keeps};
use hub_style::{HubStyleTransform, hub_style_error, hub_styled};
use media_style::{MediaStyleTransform, hero_child, hero_child_error, is_hero_meta};
use user_state::{UserStateTransform, user_stated};
use hub_key::{HubKeyTransform, hub_keyed};
use hub_section_directory::{HubSectionDirectoryTransform, directory_moved};
use hub_interleave::{HubInterleaveTransform, interleave_error, interleaved};
use library_interleave::{LibraryInterleaveTransform, library_error, library_interleaved};
use hub_reorder::{HubReorderTransform, hub_reordered};
use collection_style::{CollectionStyleTransform, collection_style_error, collection_styled};
use restrictions::HubRestrictionTransform;
use hub_limit::{HubChildrenLimitTransform, hub_limit_error, hub_limited};
use clear_guids::{TestTransform, test_transformed};
use collection_art::{CollecionArtTransform, collection_art_error, collection_art_set};
use hub_mix::{HubMixTransform, hub_mix_fails, hub_mixed};
use library_mix::{LibraryMixTransform, library_mix_error, library_mixed};
use scripting::MediaContainerScriptingTransform;
pub use media_style::hero_meta;

verus! {

/// What the proxy fetched from Plex for the rules to consult.
#[derive(Clone, Debug, Default)]
pub struct PlexData {
    /// Collections whose details were fetched, with whether the first item
    /// of the details carries the `REPLEXHERO` label.
    pub collections: Vec<CollectionDetails>,
    /// Library sections whose custom collections were fetched.
    pub sections: Vec<SectionCollections>,
    /// Cover art looked up for items, by art guid.
    pub hero_art: Vec<HeroArt>,
}

/// The cover art found for an art guid, if any.
#[derive(Clone, Debug)]
pub struct HeroArt {
    pub guid: String,
    pub url: Option<String>,
}

/// A fetched collection: whether its first item carries the `REPLEXHERO`
/// label, `None` when it has no items.
#[derive(Clone, Copy, Debug)]
pub struct CollectionDetails {
    pub id: i32,
    pub hero: Option<bool>,
}

/// The rating keys of the custom collections of a library section.
#[derive(Clone, Debug)]
pub struct SectionCollections {
    pub section_id: i64,
    pub rating_keys: Vec<String>,
}

/// Why a rule could not be applied; in each case the request fails.
#[derive(Clone, Copy, Debug, PartialEq, Eq, Structural)]
pub enum TransformError {
    /// A hub lacks a value the rule reads (its size, identifier, key, guid).
    MissingField,
    /// A count does not fit the field it is written to.
    TooLarge,
    /// The client sent no token.
    MissingToken,
    /// The fetched children of a collection are missing.
    MissingChildren,
    /// Something the rule needs was not fetched from Plex.
    NotFetched,
    /// A script was configured, and scripts are not run.
    ScriptUnsupported,
}

/// The filters that can drop items.
#[derive(Clone, Copy, Debug)]
pub enum FilterStep {
    Watched(WatchedFilter),
    HubRestriction(HubRestrictionFilter),
    CollectionHubPermission(CollectionHubPermissionFilter),
}

/// Whether a filter drops an item: `Ok(true)` drops it. The permission
/// filter drops what it does not keep.
pub open spec fn filter_drops(f: FilterStep, x: MetaData, config: Config, data: PlexData) -> Result<bool, TransformError> {
    match f {
        FilterStep::Watched(w) => Ok(w.drops_spec(x, config)),
        FilterStep::HubRestriction(_) => restriction_drops(x, config, data),
        FilterStep::CollectionHubPermission(_) => match permission_keeps(x, data) {
            Ok(b) => Ok(!b),
            Err(e) => Err(e),
        },
    }
}

/// The filters in order, up to the first that drops the item.
pub open spec fn drops(fs: Seq<FilterStep>, x: MetaData, config: Config, data: PlexData) -> Result<bool, TransformError>
    decreases fs.len(),
{
    if fs.len() == 0 {
        Ok(false)
    } else {
        match filter_drops(fs[0], x, config, data) {
            Err(e) => Err(e),
            Ok(true) => Ok(true),
            Ok(false) => drops(fs.drop_first(), x, config, data),
        }
    }
}

impl FilterStep {
    pub fn filter_metadata(&self, item: &MetaData, config: &Config, data: &PlexData) -> (r: Result<bool, TransformError>)
        ensures
            r == filter_drops(*self, *item, *config, *data),
    {
        match self {
            FilterStep::Watched(w) => Ok(w.filter_metadata(item, config)),
            FilterStep::HubRestriction(f) => f.filter_metadata(item, config, data),
            FilterStep::CollectionHubPermission(f) => match f.filter_metadata(item, data) {
                Ok(b) => Ok(!b),
                Err(e) => Err(e),
            },
        }
    }
}


/// The number of items of `xs` that the filters keep (assuming none fails).
pub open spec fn kept_count(fs: Seq<FilterStep>, xs: Seq<MetaData>, config: Config, data: PlexData) -> nat
    decreases xs.len(),
{
    if xs.len() == 0 {
        0
    } else if drops(fs, xs[0], config, data) == Ok::<bool, TransformError>(true) {
        kept_count(fs, xs.drop_first(), config, data)
    } else {
        1 + kept_count(fs, xs.drop_first(), config, data)
    }
}

/// The first failure met when the filters are applied below a kept item.
pub open spec fn item_error(fs: Seq<FilterStep>, x: MetaData, config: Config, data: PlexData) -> Option<TransformError>
    decreases x, 0int,
{
    if x.children_spec().len() == 0 {
        None
    } else {
        let (le, n) = if x.metadata@.len() > 0 {
            (list_error(fs, x.metadata@, config, data), kept_count(fs, x.metadata@, config, data))
        } else if x.video@.len() > 0 {
            (list_error(fs, x.video@, config, data), kept_count(fs, x.video@, config, data))
        } else {
            (list_error(fs, x.directory@, config, data), kept_count(fs, x.directory@, config, data))
        };
        match le {
            Some(e) => Some(e),
            None => if n > i32::MAX {
                Some(TransformError::TooLarge)
            } else {
                None
            },
        }
    }
}

/// The first failure met when the filters are applied to a list.
pub open spec fn list_error(fs: Seq<FilterStep>, xs: Seq<MetaData>, config: Config, data: PlexData) -> Option<TransformError>
    decreases xs, 1int,
{
    if xs.len() == 0 {
        None
    } else {
        match drops(fs, xs[0], config, data) {
            Err(e) => Some(e),
            Ok(true) => list_error(fs, xs.drop_first(), config, data),
            Ok(false) => match item_error(fs, xs[0], config, data) {
                Some(e) => Some(e),
                None => list_error(fs, xs.drop_first(), config, data),
            },
        }
    }
}

/// `y` is what the filters make of the kept item `x`: the children it hands
/// out for change are filtered recursively and written back with
/// `set_children`. Where these are two different lists (no `metadata`, both
/// `directory` and `video`), `video` keeps every item, the kept ones changed,
/// and `directory` receives copies of the kept ones.
pub open spec fn processed(fs: Seq<FilterStep>, x: MetaData, y: MetaData, config: Config, data: PlexData) -> bool
    decreases x, 0int,
{
    if x.children_spec().len() == 0 {
        y == x
    } else if x.metadata@.len() > 0 {
        &&& y == (MetaData { metadata: y.metadata, size: Some(y.metadata@.len() as i32), ..x })
        &&& listed(fs, x.metadata@, y.metadata@, config, data)
    } else if x.video@.len() == 0 {
        &&& y == (MetaData { directory: y.directory, size: Some(y.directory@.len() as i32), ..x })
        &&& listed(fs, x.directory@, y.directory@, config, data)
    } else if x.directory@.len() == 0 {
        &&& y == (MetaData { video: y.video, size: Some(y.video@.len() as i32), ..x })
        &&& listed(fs, x.video@, y.video@, config, data)
    } else {
        &&& y == (MetaData {
            video: y.video,
            directory: y.directory,
            size: Some(y.directory@.len() as i32),
            ..x
        })
        &&& in_place(fs, x.video@, y.video@, y.directory@, config, data)
    }
}

/// `ys` are the items of `xs` that the filters keep, each processed.
pub open spec fn listed(fs: Seq<FilterStep>, xs: Seq<MetaData>, ys: Seq<MetaData>, config: Config, data: PlexData) -> bool
    decreases xs, 1int,
{
    if xs.len() == 0 {
        ys.len() == 0
    } else if drops(fs, xs[0], config, data) == Ok::<bool, TransformError>(true) {
        listed(fs, xs.drop_first(), ys, config, data)
    } else {
        &&& ys.len() > 0
        &&& processed(fs, xs[0], ys[0], config, data)
        &&& listed(fs, xs.drop_first(), ys.drop_first(), config, data)
    }
}

/// `zs` is `xs` with each kept item processed and each dropped one as it
/// was; `ds` holds copies of the kept items of `zs`.
pub open spec fn in_place(fs: Seq<FilterStep>, xs: Seq<MetaData>, zs: Seq<MetaData>, ds: Seq<MetaData>, config: Config, data: PlexData) -> bool
    decreases xs, 1int,
{
    if xs.len() == 0 {
        zs.len() == 0 && ds.len() == 0
    } else if drops(fs, xs[0], config, data) == Ok::<bool, TransformError>(true) {
        &&& zs.len() > 0
        &&& zs[0] == xs[0]
        &&& in_place(fs, xs.drop_first(), zs.drop_first(), ds, config, data)
    } else {
        &&& zs.len() > 0
        &&& ds.len() > 0
        &&& processed(fs, xs[0], zs[0], config, data)
        &&& cloned(zs[0], ds[0])
        &&& in_place(fs, xs.drop_first(), zs.drop_first(), ds.drop_first(), config, data)
    }
}

/// The filters in order, up to the first that drops the item.
pub fn drops_exec(fs: &Vec<FilterStep>, item: &MetaData, config: &Config, data: &PlexData) -> (r: Result<bool, TransformError>)
    ensures
        r == drops(fs@, *item, *config, *data),
{
    let mut i: usize = 0;
    assert(fs@.skip(0) == fs@);
    while i < fs.len()
        invariant
            i <= fs@.len(),
            drops(fs@, *item, *config, *data) == drops(fs@.skip(i as int), *item, *config, *data),
        decreases fs.len() - i,
    {
        proof {
            assert(fs@.skip(i as int)[0] == fs@[i as int]);
            assert(fs@.skip(i as int).drop_first() == fs@.skip(i + 1));
        }
        match fs[i].filter_metadata(item, config, data) {
            Err(e) => return Err(e),
            Ok(true) => return Ok(true),
            Ok(false) => {},
        }
        i = i + 1;
    }
    Ok(false)
}

/// The filters applied below a kept item.
pub fn filter_item(fs: &Vec<FilterStep>, x_in: MetaData, config: &Config, data: &PlexData) -> (r: Result<MetaData, TransformError>)
    ensures
        match r {
            Ok(y) => item_error(fs@, x_in, *config, *data) is None && processed(fs@, x_in, y, *config, *data),
            Err(e) => item_error(fs@, x_in, *config, *data) == Some(e),
        },
    decreases x_in, 0int,
{
    let mut x = x_in;
    if !x.has_children() {
        return Ok(x);
    }
    if x.metadata.len() > 0 {
        let mut list: Vec<MetaData> = Vec::new();
        std::mem::swap(&mut list, &mut x.metadata);
        assert(decreases_to!(x_in => x_in.metadata));
        let out = match filter_list(fs, list, config, data) {
            Ok(out) => out,
            Err(e) => return Err(e),
        };
        if out.len() > i32::MAX as usize {
            return Err(TransformError::TooLarge);
        }
        let n = out.len() as i32;
        x.metadata = out;
        x.size = Some(n);
        Ok(x)
    } else if x.video.len() == 0 {
        let mut list: Vec<MetaData> = Vec::new();
        std::mem::swap(&mut list, &mut x.directory);
        assert(decreases_to!(x_in => x_in.directory));
        let out = match filter_list(fs, list, config, data) {
            Ok(out) => out,
            Err(e) => return Err(e),
        };
        if out.len() > i32::MAX as usize {
            return Err(TransformError::TooLarge);
        }
        let n = out.len() as i32;
        x.directory = out;
        x.size = Some(n);
        Ok(x)
    } else if x.directory.len() == 0 {
        let mut list: Vec<MetaData> = Vec::new();
        std::mem::swap(&mut list, &mut x.video);
        assert(decreases_to!(x_in => x_in.video));
        let out = match filter_list(fs, list, config, data) {
            Ok(out) => out,
            Err(e) => return Err(e),
        };
        if out.len() > i32::MAX as usize {
            return Err(TransformError::TooLarge);
        }
        let n = out.len() as i32;
        x.video = out;
        x.size = Some(n);
        Ok(x)
    } else {
        let mut list: Vec<MetaData> = Vec::new();
        std::mem::swap(&mut list, &mut x.video);
        assert(decreases_to!(x_in => x_in.video));
        let (kept_all, copies) = match filter_in_place(fs, list, config, data) {
            Ok(p) => p,
            Err(e) => return Err(e),
        };
        if copies.len() > i32::MAX as usize {
            return Err(TransformError::TooLarge);
        }
        let n = copies.len() as i32;
        x.video = kept_all;
        x.directory = copies;
        x.size = Some(n);
        Ok(x)
    }
}

/// The filters applied to a list: dropped items leave, kept ones are
/// processed.
pub fn filter_list(fs: &Vec<FilterStep>, xs_in: Vec<MetaData>, config: &Config, data: &PlexData) -> (r: Result<Vec<MetaData>, TransformError>)
    ensures
        match r {
            Ok(ys) => list_error(fs@, xs_in@, *config, *data) is None && listed(fs@, xs_in@, ys@, *config, *data)
                && ys@.len() == kept_count(fs@, xs_in@, *config, *data),
            Err(e) => list_error(fs@, xs_in@, *config, *data) == Some(e),
        },
    decreases xs_in, 1int,
{
    let ghost xs0 = xs_in@;
    let mut xs = xs_in;
    let mut out: Vec<MetaData> = Vec::new();
    let mut i: usize = 0;
    assert(xs0.skip(0) == xs0);
    assert forall|ys: Seq<MetaData>| listed(fs@, xs0.skip(0), ys, *config, *data) implies listed(fs@, xs0, out@ + ys, *config, *data) by {
        assert(out@ + ys == ys);
    }
    while i < xs.len()
        invariant
            i <= xs@.len(),
            xs@.len() == xs0.len(),
            xs0 == xs_in@,
            forall|k: int| i <= k < xs0.len() ==> xs@[k] == xs0[k],
            list_error(fs@, xs0, *config, *data) == list_error(fs@, xs0.skip(i as int), *config, *data),
            forall|ys: Seq<MetaData>| listed(fs@, xs0.skip(i as int), ys, *config, *data) ==> listed(fs@, xs0, out@ + ys, *config, *data),
            kept_count(fs@, xs0, *config, *data) == out@.len() + kept_count(fs@, xs0.skip(i as int), *config, *data),
        decreases xs0.len() - i,
    {
        let ghost rest = xs0.skip(i as int);
        proof {
            assert(rest[0] == xs0[i as int]);
            assert(rest.drop_first() == xs0.skip(i + 1));
        }
        let mut item = MetaData::empty(String::new(), String::new());
        std::mem::swap(&mut item, &mut xs[i]);
        assert(item == xs0[i as int]);
        match drops_exec(fs, &item, config, data) {
            Err(e) => {
                assert(list_error(fs@, rest, *config, *data) == Some(e));
                return Err(e);
            },
            Ok(true) => {
                assert(list_error(fs@, rest, *config, *data) == list_error(fs@, xs0.skip(i + 1), *config, *data));
                assert(kept_count(fs@, rest, *config, *data) == kept_count(fs@, xs0.skip(i + 1), *config, *data));
                proof {
                    assert forall|ys: Seq<MetaData>| listed(fs@, xs0.skip(i + 1), ys, *config, *data) implies listed(fs@, xs0, out@ + ys, *config, *data) by {
                        assert(listed(fs@, rest, ys, *config, *data));
                    }
                }
            },
            Ok(false) => {
                assert(decreases_to!(xs_in => xs_in@));
                assert(decreases_to!(xs_in@ => xs_in@[i as int]));
                let y = match filter_item(fs, item, config, data) {
                    Ok(y) => y,
                    Err(e) => {
                        assert(list_error(fs@, rest, *config, *data) == Some(e));
                        return Err(e);
                    },
                };
                assert(list_error(fs@, rest, *config, *data) == list_error(fs@, xs0.skip(i + 1), *config, *data));
                assert(kept_count(fs@, rest, *config, *data) == 1 + kept_count(fs@, xs0.skip(i + 1), *config, *data));
                let ghost out0 = out@;
                out.push(y);
                proof {
                    assert forall|ys: Seq<MetaData>| listed(fs@, xs0.skip(i + 1), ys, *config, *data) implies listed(fs@, xs0, out@ + ys, *config, *data) by {
                        let zs = seq![y] + ys;
                        assert(zs[0] == y);
                        assert(zs.drop_first() == ys);
                        assert(listed(fs@, rest, zs, *config, *data));
                        assert(out0 + zs == out@ + ys);
                    }
                }
            },
        }
        i = i + 1;
    }
    proof {
        assert(xs0.skip(i as int).len() == 0);
        assert(listed(fs@, xs0.skip(i as int), Seq::<MetaData>::empty(), *config, *data));
        assert(out@ + Seq::<MetaData>::empty() == out@);
    }
    Ok(out)
}

/// The filters applied to a list in place: kept items are processed and
/// copied out, dropped ones stay as they were.
pub fn filter_in_place(fs: &Vec<FilterStep>, xs_in: Vec<MetaData>, config: &Config, data: &PlexData) -> (r: Result<(Vec<MetaData>, Vec<MetaData>), TransformError>)
    ensures
        match r {
            Ok((zs, ds)) => list_error(fs@, xs_in@, *config, *data) is None && in_place(fs@, xs_in@, zs@, ds@, *config, *data)
                && ds@.len() == kept_count(fs@, xs_in@, *config, *data),
            Err(e) => list_error(fs@, xs_in@, *config, *data) == Some(e),
        },
    decreases xs_in, 1int,
{
    let ghost xs0 = xs_in@;
    let mut xs = xs_in;
    let mut zs: Vec<MetaData> = Vec::new();
    let mut ds: Vec<MetaData> = Vec::new();
    let mut i: usize = 0;
    assert(xs0.skip(0) == xs0);
    assert forall|a: Seq<MetaData>, b: Seq<MetaData>| in_place(fs@, xs0.skip(0), a, b, *config, *data) implies in_place(fs@, xs0, zs@ + a, ds@ + b, *config, *data) by {
        assert(zs@ + a == a);
        assert(ds@ + b == b);
    }
    while i < xs.len()
        invariant
            i <= xs@.len(),
            xs@.len() == xs0.len(),
            xs0 == xs_in@,
            forall|k: int| i <= k < xs0.len() ==> xs@[k] == xs0[k],
            list_error(fs@, xs0, *config, *data) == list_error(fs@, xs0.skip(i as int), *config, *data),
            forall|a: Seq<MetaData>, b: Seq<MetaData>| in_place(fs@, xs0.skip(i as int), a, b, *config, *data) ==> in_place(fs@, xs0, zs@ + a, ds@ + b, *config, *data),
            kept_count(fs@, xs0, *config, *data) == ds@.len() + kept_count(fs@, xs0.skip(i as int), *config, *data),
        decreases xs0.len() - i,
    {
        let ghost rest = xs0.skip(i as int);
        proof {
            assert(rest[0] == xs0[i as int]);
            assert(rest.drop_first() == xs0.skip(i + 1));
        }
        let mut item = MetaData::empty(String::new(), String::new());
        std::mem::swap(&mut item, &mut xs[i]);
        assert(item == xs0[i as int]);
        match drops_exec(fs, &item, config, data) {
            Err(e) => {
                assert(list_error(fs@, rest, *config, *data) == Some(e));
                return Err(e);
            },
            Ok(true) => {
                assert(list_error(fs@, rest, *config, *data) == list_error(fs@, xs0.skip(i + 1), *config, *data));
                assert(kept_count(fs@, rest, *config, *data) == kept_count(fs@, xs0.skip(i + 1), *config, *data));
                let ghost z0 = zs@;
                zs.push(item);
                proof {
                    assert forall|a: Seq<MetaData>, b: Seq<MetaData>| in_place(fs@, xs0.skip(i + 1), a, b, *config, *data) implies in_place(fs@, xs0, zs@ + a, ds@ + b, *config, *data) by {
                        let za = seq![xs0[i as int]] + a;
                        assert(za[0] == xs0[i as int]);
                        assert(za.drop_first() == a);
                        assert(in_place(fs@, rest, za, b, *config, *data));
                        assert(z0 + za == zs@ + a);
                    }
                }
            },
            Ok(false) => {
                assert(decreases_to!(xs_in => xs_in@));
                assert(decreases_to!(xs_in@ => xs_in@[i as int]));
                let y = match filter_item(fs, item, config, data) {
                    Ok(y) => y,
                    Err(e) => {
                        assert(list_error(fs@, rest, *config, *data) == Some(e));
                        return Err(e);
                    },
                };
                assert(list_error(fs@, rest, *config, *data) == list_error(fs@, xs0.skip(i + 1), *config, *data));
                assert(kept_count(fs@, rest, *config, *data) == 1 + kept_count(fs@, xs0.skip(i + 1), *config, *data));
                let c = y.clone();
                let ghost z0 = zs@;
                let ghost d0 = ds@;
                zs.push(y);
                ds.push(c);
                proof {
                    assert forall|a: Seq<MetaData>, b: Seq<MetaData>| in_place(fs@, xs0.skip(i + 1), a, b, *config, *data) implies in_place(fs@, xs0, zs@ + a, ds@ + b, *config, *data) by {
                        let za = seq![y] + a;
                        let db = seq![c] + b;
                        assert(za[0] == y);
                        assert(za.drop_first() == a);
                        assert(db[0] == c);
                        assert(db.drop_first() == b);
                        assert(in_place(fs@, rest, za, db, *config, *data));
                        assert(z0 + za == zs@ + a);
                        assert(d0 + db == ds@ + b);
                    }
                }
            },
        }
        i = i + 1;
    }
    proof {
        assert(xs0.skip(i as int).len() == 0);
        assert(in_place(fs@, xs0.skip(i as int), Seq::<MetaData>::empty(), Seq::<MetaData>::empty(), *config, *data));
        assert(zs@ + Seq::<MetaData>::empty() == zs@);
        assert(ds@ + Seq::<MetaData>::empty() == ds@);
    }
    Ok((zs, ds))
}

/// The rules that rewrite a container, in the order they are added.
#[derive(Debug)]
pub enum TransformStep {
    HubStyle(HubStyleTransform),
    MediaStyle(MediaStyleTransform),
    UserState(UserStateTransform),
    HubKey(HubKeyTransform),
    HubSectionDirectory(HubSectionDirectoryTransform),
    HubInterleave(HubInterleaveTransform),
    LibraryInterleave(LibraryInterleaveTransform),
    HubReorder(HubReorderTransform),
    CollectionStyle(CollectionStyleTransform),
    HubRestriction(HubRestrictionTransform),
    Scripting(MediaContainerScriptingTransform),
    HubChildrenLimit(HubChildrenLimitTransform),
    Test(TestTransform),
    CollectionArt(CollecionArtTransform),
    HubMix(HubMixTransform),
    LibraryMix(LibraryMixTransform),
}

/// What the rules read besides the container: the client's request, the
/// settings, and what was fetched from Plex.
#[derive(Clone, Debug)]
pub struct TransformContext {
    pub options: PlexContext,
    pub config: Config,
    pub data: PlexData,
}

/// The rule changes each child of the container on its own.
pub open spec fn has_item_part(t: TransformStep) -> bool {
    match t {
        TransformStep::HubStyle(_) | TransformStep::MediaStyle(_) | TransformStep::UserState(_)
        | TransformStep::HubKey(_) | TransformStep::HubSectionDirectory(_)
        | TransformStep::HubChildrenLimit(_) => true,
        _ => false,
    }
}

/// What a rule makes of one child.
pub open spec fn item_step(t: TransformStep, x: MetaData, y: MetaData, ctx: TransformContext) -> bool {
    match t {
        TransformStep::HubStyle(_) => hub_styled(x, y, ctx.options, ctx.config, ctx.data),
        TransformStep::MediaStyle(m) => if m.style == crate::models::Style::Hero {
            hero_child(x, y, hub_style::hero_style_of(ctx.options), ctx.options.token->0@)
        } else {
            y == x
        },
        TransformStep::UserState(_) => user_stated(x, y, ctx.config),
        TransformStep::HubKey(_) => hub_keyed(x, y),
        TransformStep::HubSectionDirectory(_) => directory_moved(x, y),
        TransformStep::HubChildrenLimit(l) => hub_limited(x, y, l.limit),
        _ => y == x,
    }
}

/// Why a rule fails on one child.
pub open spec fn item_step_error(t: TransformStep, x: MetaData, ctx: TransformContext) -> Option<TransformError> {
    match t {
        TransformStep::HubStyle(_) => hub_style_error(x, ctx.options, ctx.config, ctx.data),
        TransformStep::MediaStyle(m) => if m.style == crate::models::Style::Hero {
            hero_child_error(x, ctx.options.token)
        } else {
            None
        },
        TransformStep::HubChildrenLimit(l) => hub_limit_error(x, l.limit),
        _ => None,
    }
}

/// What a rule makes of the container as a whole, after its children.
pub open spec fn container_step(t: TransformStep, c: MediaContainer, d: MediaContainer, ctx: TransformContext) -> bool {
    match t {
        TransformStep::MediaStyle(m) => if m.style == crate::models::Style::Hero {
            d == (MediaContainer { meta: d.meta, ..c }) && d.meta is Some && is_hero_meta(d.meta->0)
        } else {
            d == c
        },
        TransformStep::HubInterleave(_) => interleaved(c, d, ctx.config),
        TransformStep::LibraryInterleave(l) => library_interleaved(l, c, d, ctx.config),
        TransformStep::HubReorder(_) => hub_reordered(c, d, ctx.config),
        TransformStep::CollectionStyle(cs) => collection_styled(cs, c, d, ctx.options, ctx.data),
        TransformStep::Test(_) => test_transformed(c, d),
        TransformStep::CollectionArt(a) => collection_art_set(a, c, d, ctx.data),
        TransformStep::HubMix(_) => hub_mixed(c, d, ctx.config),
        TransformStep::LibraryMix(l) => library_mixed(l, c, d, ctx.config),
        _ => d == c,
    }
}

/// Whether a rule fails on the container as a whole with `e`.
pub open spec fn container_fails(t: TransformStep, c: MediaContainer, e: TransformError, ctx: TransformContext) -> bool {
    match t {
        TransformStep::HubInterleave(_) => interleave_error(c, ctx.config) == Some(e),
        TransformStep::LibraryInterleave(l) => library_error(l, ctx.config) == Some(e),
        TransformStep::CollectionStyle(cs) => collection_style_error(cs, c, ctx.options, ctx.data) == Some(e),
        TransformStep::Scripting(_) => ctx.config.test_script is Some && e == TransformError::ScriptUnsupported,
        TransformStep::CollectionArt(a) => collection_art_error(a, ctx.data) == Some(e),
        TransformStep::HubMix(_) => hub_mix_fails(c, e, ctx.config),
        TransformStep::LibraryMix(l) => library_mix_error(l) == Some(e),
        _ => false,
    }
}

/// Whether a rule cannot fail on the container as a whole.
pub open spec fn container_ok(t: TransformStep, c: MediaContainer, ctx: TransformContext) -> bool {
    match t {
        TransformStep::HubInterleave(_) => interleave_error(c, ctx.config) is None,
        TransformStep::LibraryInterleave(l) => library_error(l, ctx.config) is None,
        TransformStep::CollectionStyle(cs) => collection_style_error(cs, c, ctx.options, ctx.data) is None,
        TransformStep::Scripting(_) => ctx.config.test_script is None,
        TransformStep::CollectionArt(a) => collection_art_error(a, ctx.data) is None,
        TransformStep::LibraryMix(l) => library_mix_error(l) is None,
        _ => true,
    }
}

/// The first failure of a rule on the children `xs`, in order.
pub open spec fn first_item_error(t: TransformStep, xs: Seq<MetaData>, ctx: TransformContext) -> Option<TransformError>
    decreases xs.len(),
{
    if xs.len() == 0 {
        None
    } else {
        match item_step_error(t, xs[0], ctx) {
            Some(e) => Some(e),
            None => first_item_error(t, xs.drop_first(), ctx),
        }
    }
}

/// `mid` is the container `c` with each child in the list it hands out for
/// change (see `children_slot`) changed by the rule.
pub open spec fn items_stepped(t: TransformStep, c: MediaContainer, mid: MediaContainer, ctx: TransformContext) -> bool {
    let s = c.children_slot();
    &&& mid == c.with_slot(s, mid.slot(s))
    &&& mid.slot(s)@.len() == c.slot(s)@.len()
    &&& forall|i: int| 0 <= i < c.slot(s)@.len() ==> #[trigger] item_step(t, c.slot(s)@[i], mid.slot(s)@[i], ctx)
}

/// What one rule makes of a container: first each child, then the
/// container as a whole.
pub open spec fn stepped(t: TransformStep, c: MediaContainer, d: MediaContainer, ctx: TransformContext) -> bool {
    if has_item_part(t) {
        exists|mid: MediaContainer| #[trigger] items_stepped(t, c, mid, ctx) && container_step(t, mid, d, ctx)
    } else {
        container_step(t, c, d, ctx)
    }
}

/// Whether one rule fails on a container with `e`.
pub open spec fn step_fails(t: TransformStep, c: MediaContainer, e: TransformError, ctx: TransformContext) -> bool {
    if has_item_part(t) {
        first_item_error(t, c.slot(c.children_slot())@, ctx) == Some(e)
    } else {
        container_fails(t, c, e, ctx)
    }
}

/// Whether one rule cannot fail on a container.
pub open spec fn step_ok(t: TransformStep, c: MediaContainer, ctx: TransformContext) -> bool {
    if has_item_part(t) {
        first_item_error(t, c.slot(c.children_slot())@, ctx) is None
    } else {
        container_ok(t, c, ctx)
    }
}

/// `d` is what the rules `ts`, applied in order, make of `c`.
pub open spec fn applied(ts: Seq<TransformStep>, c: MediaContainer, d: MediaContainer, ctx: TransformContext) -> bool
    decreases ts.len(),
{
    if ts.len() == 0 {
        d == c
    } else {
        exists|mid: MediaContainer| applied(ts.drop_last(), c, mid, ctx) && step_ok(ts.last(), mid, ctx) && #[trigger] stepped(ts.last(), mid, d, ctx)
    }
}

pub proof fn lemma_applied_step(ts: Seq<TransformStep>, c: MediaContainer, mid: MediaContainer, d: MediaContainer, ctx: TransformContext)
    requires
        ts.len() > 0,
        applied(ts.drop_last(), c, mid, ctx),
        step_ok(ts.last(), mid, ctx),
        stepped(ts.last(), mid, d, ctx),
    ensures
        applied(ts, c, d, ctx),
{
}

/// Applying the rules `ts` to `c` fails with `e`: some rule fails on what
/// the rules before it made.
pub open spec fn applied_fails(ts: Seq<TransformStep>, c: MediaContainer, e: TransformError, ctx: TransformContext) -> bool {
    exists|k: int, mid: MediaContainer| 0 <= k < ts.len() && #[trigger] applied(ts.take(k), c, mid, ctx) && step_fails(ts[k], mid, e, ctx)
}

/// Applies one rule to a child.
fn apply_item(t: &TransformStep, x: MetaData, ctx: &TransformContext) -> (r: Result<MetaData, TransformError>)
    ensures
        match r {
            Ok(y) => item_step_error(*t, x, *ctx) is None && item_step(*t, x, y, *ctx),
            Err(e) => item_step_error(*t, x, *ctx) == Some(e),
        },
{
    match t {
        TransformStep::HubStyle(h) => h.transform_metadata(x, &ctx.options, &ctx.config, &ctx.data),
        TransformStep::MediaStyle(m) => m.transform_metadata(x, &ctx.options),
        TransformStep::UserState(u) => Ok(u.transform_metadata(x, &ctx.config)),
        TransformStep::HubKey(k) => Ok(k.transform_metadata(x)),
        TransformStep::HubSectionDirectory(d) => Ok(d.transform_metadata(x)),
        TransformStep::HubChildrenLimit(l) => l.transform_metadata(x),
        _ => Ok(x),
    }
}

/// Applies one rule to each child of a container.
fn apply_items(t: &TransformStep, c: MediaContainer, ctx: &TransformContext) -> (r: Result<MediaContainer, TransformError>)
    ensures
        match r {
            Ok(d) => first_item_error(*t, c.slot(c.children_slot())@, *ctx) is None && items_stepped(*t, c, d, *ctx),
            Err(e) => first_item_error(*t, c.slot(c.children_slot())@, *ctx) == Some(e),
        },
{
    let mut item = c;
    let s = item.slot_of_children();
    let mut xs: Vec<MetaData> = Vec::new();
    match s {
        ChildSlot::Hub => std::mem::swap(&mut xs, &mut item.hub),
        ChildSlot::Directory => std::mem::swap(&mut xs, &mut item.directory),
        ChildSlot::Video => std::mem::swap(&mut xs, &mut item.video),
        ChildSlot::Metadata => std::mem::swap(&mut xs, &mut item.metadata),
    }
    let ghost xs0 = xs@;
    let mut out: Vec<MetaData> = Vec::new();
    let mut i: usize = 0;
    assert(xs0.skip(0) == xs0);
    while i < xs.len()
        invariant
            i <= xs@.len(),
            xs@.len() == xs0.len(),
            xs0 == c.slot(c.children_slot())@,
            forall|k: int| i <= k < xs0.len() ==> xs@[k] == xs0[k],
            first_item_error(*t, xs0, *ctx) == first_item_error(*t, xs0.skip(i as int), *ctx),
            out@.len() == i,
            forall|k: int| 0 <= k < i ==> #[trigger] item_step(*t, xs0[k], out@[k], *ctx),
        decreases xs0.len() - i,
    {
        proof {
            assert(xs0.skip(i as int)[0] == xs0[i as int]);
            assert(xs0.skip(i as int).drop_first() == xs0.skip(i + 1));
        }
        let mut x = MetaData::empty(String::new(), String::new());
        std::mem::swap(&mut x, &mut xs[i]);
        assert(x == xs0[i as int]);
        let y = match apply_item(t, x, ctx) {
            Ok(y) => y,
            Err(e) => return Err(e),
        };
        out.push(y);
        i = i + 1;
    }
    assert(xs0.skip(i as int).len() == 0);
    item.put_slot(s, out);
    Ok(item)
}

/// Applies one rule to a container as a whole.
fn apply_container(t: TransformStep, c: MediaContainer, ctx: &TransformContext) -> (r: Result<MediaContainer, TransformError>)
    ensures
        match r {
            Ok(d) => container_ok(t, c, *ctx) && container_step(t, c, d, *ctx),
            Err(e) => container_fails(t, c, e, *ctx),
        },
{
    match t {
        TransformStep::MediaStyle(m) => Ok(m.transform_mediacontainer(c)),
        TransformStep::HubInterleave(h) => h.transform_mediacontainer(c, &ctx.config),
        TransformStep::LibraryInterleave(l) => l.transform_mediacontainer(c, &ctx.config),
        TransformStep::HubReorder(h) => Ok(h.transform_mediacontainer(c, &ctx.config)),
        TransformStep::CollectionStyle(cs) => cs.transform_mediacontainer(c, &ctx.options, &ctx.data),
        TransformStep::Scripting(sc) => sc.transform_mediacontainer(c, &ctx.config),
        TransformStep::Test(tt) => Ok(tt.transform_mediacontainer(c)),
        TransformStep::CollectionArt(a) => a.transform_mediacontainer(c, &ctx.data),
        TransformStep::HubMix(h) => h.transform_mediacontainer(c, &ctx.config),
        TransformStep::LibraryMix(l) => l.transform_mediacontainer(c, &ctx.config),
        _ => Ok(c),
    }
}

/// Applies one rule to a container (see `stepped`).
pub fn apply_step(t: TransformStep, c: MediaContainer, ctx: &TransformContext) -> (r: Result<MediaContainer, TransformError>)
    ensures
        match r {
            Ok(d) => step_ok(t, c, *ctx) && stepped(t, c, d, *ctx),
            Err(e) => step_fails(t, c, e, *ctx),
        },
{
    let has_items = match &t {
        TransformStep::HubStyle(_) | TransformStep::MediaStyle(_) | TransformStep::UserState(_)
        | TransformStep::HubKey(_) | TransformStep::HubSectionDirectory(_)
        | TransformStep::HubChildrenLimit(_) => true,
        _ => false,
    };
    if has_items {
        let mid = match apply_items(&t, c, ctx) {
            Ok(m) => m,
            Err(e) => return Err(e),
        };
        let ghost mid0 = mid;
        let d = match apply_container(t, mid, ctx) {
            Ok(d) => d,
            Err(e) => {
                // The container part of the rules with an item part never fails.
                assert(false);
                return Err(e);
            },
        };
        assert(items_stepped(t, c, mid0, *ctx) && container_step(t, mid0, d, *ctx));
        Ok(d)
    } else {
        apply_container(t, c, ctx)
    }
}

/// The rules to apply to a response, with what they read.
#[derive(Debug)]
pub struct TransformBuilder {
    pub options: PlexContext,
    pub config: Config,
    pub data: PlexData,
    pub mix: bool,
    pub transforms: Vec<TransformStep>,
    pub filters: Vec<FilterStep>,
}

/// `c1` is `c` with its children filtered (see `listed`) and written back
/// with `set_children`.
pub open spec fn filtered_by(fs: Seq<FilterStep>, c: MediaContainer, c1: MediaContainer, config: Config, data: PlexData) -> bool {
    exists|out: Seq<MetaData>| #[trigger] listed(fs, c.children_spec(), out, config, data) && c.children_replaced(c1, out)
}

/// A container with a size has it set to the number of its children.
pub open spec fn resized(c: MediaContainer, d: MediaContainer) -> bool {
    if c.size is Some {
        d == (MediaContainer { size: Some(c.children_spec().len() as i64), ..c })
    } else {
        d == c
    }
}

impl TransformBuilder {
    pub open spec fn context(self) -> TransformContext {
        TransformContext { options: self.options, config: self.config, data: self.data }
    }

    /// A builder with no rules.
    pub fn new(options: PlexContext, config: Config, data: PlexData) -> (r: TransformBuilder)
        ensures
            r.options == options,
            r.config == config,
            r.data == data,
            !r.mix,
            r.transforms@.len() == 0,
            r.filters@.len() == 0,
    {
        TransformBuilder { options, config, data, mix: false, transforms: Vec::new(), filters: Vec::new() }
    }

    /// Adds a rule after the others.
    pub fn with_transform(self, transform: TransformStep) -> (r: TransformBuilder)
        ensures
            r.transforms@ == self.transforms@.push(transform),
            r.filters@ == self.filters@,
            r.context() == self.context(),
            r.mix == self.mix,
    {
        let mut b = self;
        b.transforms.push(transform);
        b
    }

    /// Adds a filter after the others.
    pub fn with_filter(self, filter: FilterStep) -> (r: TransformBuilder)
        ensures
            r.filters@ == self.filters@.push(filter),
            r.transforms@ == self.transforms@,
            r.context() == self.context(),
            r.mix == self.mix,
    {
        let mut b = self;
        b.filters.push(filter);
        b
    }

    /// The filters applied to a list of items (see `filter_list`).
    pub fn apply_to_metadata(&self, metadata: Vec<MetaData>) -> (r: Result<Vec<MetaData>, TransformError>)
        ensures
            match r {
                Ok(ys) => list_error(self.filters@, metadata@, self.config, self.data) is None
                    && listed(self.filters@, metadata@, ys@, self.config, self.data),
                Err(e) => list_error(self.filters@, metadata@, self.config, self.data) == Some(e),
            },
    {
        filter_list(&self.filters, metadata, &self.config, &self.data)
    }

    /// The rules applied in order to a container (see `applied`).
    pub fn apply_transforms(transforms: Vec<TransformStep>, c: MediaContainer, ctx: &TransformContext) -> (r: Result<MediaContainer, TransformError>)
        ensures
            match r {
                Ok(d) => applied(transforms@, c, d, *ctx),
                Err(e) => applied_fails(transforms@, c, e, *ctx),
            },
    {
        let ghost ts0 = transforms@;
        let mut ts = transforms;
        let mut cur = c;
        let mut k: usize = 0;
        let n = ts.len();
        assert(ts0.take(0).len() == 0);
        assert(ts0.skip(0) == ts0);
        while k < n
            invariant
                k <= n,
                n == ts0.len(),
                ts0 == transforms@,
                ts@ == ts0.skip(k as int),
                applied(ts0.take(k as int), c, cur, *ctx),
            decreases n - k,
        {
            let t = ts.remove(0);
            assert(t == ts0[k as int]);
            assert(ts@ == ts0.skip(k + 1));
            let ghost before = cur;
            match apply_step(t, cur, ctx) {
                Ok(d) => {
                    proof {
                        let p = ts0.take(k + 1);
                        assert(p.drop_last() == ts0.take(k as int));
                        assert(p.last() == ts0[k as int]);
                        assert(applied(p.drop_last(), c, before, *ctx) && step_ok(p.last(), before, *ctx) && stepped(p.last(), before, d, *ctx));
                        lemma_applied_step(p, c, before, d, *ctx);
                    }
                    cur = d;
                },
                Err(e) => {
                    assert(applied(ts0.take(k as int), c, before, *ctx) && step_fails(ts0[k as int], before, e, *ctx));
                    return Err(e);
                },
            }
            k = k + 1;
        }
        assert(ts0.take(n as int) == ts0);
        Ok(cur)
    }

    /// The filters applied to the children of a container, written back
    /// with `set_children` (see `filtered_by`).
    pub fn filter_container(filters: &Vec<FilterStep>, c: MediaContainer, config: &Config, data: &PlexData) -> (r: Result<MediaContainer, TransformError>)
        ensures
            match r {
                Ok(d) => list_error(filters@, c.children_spec(), *config, *data) is None && filtered_by(filters@, c, d, *config, *data),
                Err(e) => list_error(filters@, c.children_spec(), *config, *data) == Some(e),
            },
    {
        let mut item = c;
        let had = item.has_children();
        let s = item.slot_of_children();
        let xs = item.take_children();
        let out = match filter_list(filters, xs, config, data) {
            Ok(o) => o,
            Err(e) => return Err(e),
        };
        let ghost o = out@;
        let n = out.len() as i64;
        if had {
            item.put_slot(s, out);
        }
        item.size = Some(n);
        assert(listed(filters@, c.children_spec(), o, *config, *data) && c.children_replaced(item, o));
        Ok(item)
    }

    /// Sets the size of a container that has one to its number of children.
    pub fn resize(c: MediaContainer) -> (d: MediaContainer)
        ensures
            resized(c, d),
    {
        let mut c = c;
        if c.size.is_some() {
            let n = if c.metadata.len() > 0 {
                c.metadata.len()
            } else if c.hub.len() > 0 {
                c.hub.len()
            } else if c.video.len() > 0 {
                c.video.len()
            } else {
                c.directory.len()
            };
            c.size = Some(n as i64);
        }
        c
    }

    /// Filters the children of a container, then applies the rules in
    /// order, then sets the size of a container that has one to its number
    /// of children.
    pub fn apply_to(self, container: MediaContainerWrapper<MediaContainer>) -> (r: Result<MediaContainerWrapper<MediaContainer>, TransformError>)
        ensures
            match r {
                Ok(w) => w.content_type == container.content_type
                    && list_error(self.filters@, container.media_container.children_spec(), self.config, self.data) is None
                    && exists|c1: MediaContainer, c2: MediaContainer|
                        #[trigger] filtered_by(self.filters@, container.media_container, c1, self.config, self.data)
                        && #[trigger] applied(self.transforms@, c1, c2, self.context())
                        && resized(c2, w.media_container),
                Err(e) => list_error(self.filters@, container.media_container.children_spec(), self.config, self.data) == Some(e)
                    || exists|c1: MediaContainer|
                        #[trigger] filtered_by(self.filters@, container.media_container, c1, self.config, self.data)
                        && applied_fails(self.transforms@, c1, e, self.context()),
            },
    {
        let ctx = TransformContext { options: self.options, config: self.config, data: self.data };
        let content_type = container.content_type;
        let c0 = container.media_container;
        let c1 = match TransformBuilder::filter_container(&self.filters, c0, &ctx.config, &ctx.data) {
            Ok(c) => c,
            Err(e) => return Err(e),
        };
        let ghost g1 = c1;
        let c2 = match TransformBuilder::apply_transforms(self.transforms, c1, &ctx) {
            Ok(c) => c,
            Err(e) => return Err(e),
        };
        let ghost g2 = c2;
        let c3 = TransformBuilder::resize(c2);
        assert(filtered_by(self.filters@, container.media_container, g1, self.config, self.data) && applied(self.transforms@, g1, g2, self.context()));
        Ok(MediaContainerWrapper { media_container: c3, content_type })
    }

    /// Applies the rules in order, then filters the children, then sets the
    /// size of a container that has one to its number of children.
    pub fn apply_to_test(self, container: MediaContainerWrapper<MediaContainer>) -> (r: Result<MediaContainerWrapper<MediaContainer>, TransformError>)
        ensures
            match r {
                Ok(w) => w.content_type == container.content_type
                    && exists|c1: MediaContainer, c2: MediaContainer|
                        #[trigger] applied(self.transforms@, container.media_container, c1, self.context())
                        && list_error(self.filters@, c1.children_spec(), self.config, self.data) is None
                        && #[trigger] filtered_by(self.filters@, c1, c2, self.config, self.data)
                        && resized(c2, w.media_container),
                Err(e) => applied_fails(self.transforms@, container.media_container, e, self.context())
                    || exists|c1: MediaContainer|
                        #[trigger] applied(self.transforms@, container.media_container, c1, self.context())
                        && list_error(self.filters@, c1.children_spec(), self.config, self.data) == Some(e),
            },
    {
        let ctx = TransformContext { options: self.options, config: self.config, data: self.data };
        let content_type = container.content_type;
        let c0 = container.media_container;
        let c1 = match TransformBuilder::apply_transforms(self.transforms, c0, &ctx) {
            Ok(c) => c,
            Err(e) => return Err(e),
        };
        let ghost g1 = c1;
        let c2 = match TransformBuilder::filter_container(&self.filters, c1, &ctx.config, &ctx.data) {
            Ok(c) => c,
            Err(e) => return Err(e),
        };
        let ghost g2 = c2;
        let c3 = TransformBuilder::resize(c2);
        assert(applied(self.transforms@, container.media_container, g1, self.context()) && filtered_by(self.filters@, g1, g2, self.config, self.data));
        Ok(MediaContainerWrapper { media_container: c3, content_type })
    }
}

} // verus!
