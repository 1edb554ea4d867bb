//! The rule that fills a container with the items of several collections,
//! taken in turn.
use vstd::prelude::*;
use crate::config::Config;
use crate::models::{MediaContainer, MetaData};
use super::hub_interleave::{interleave, interleave_vec, lemma_interleave_len};
use super::TransformError;

verus! {

/// The rule that mixes the children of collections; `fetched` holds, for
/// each id of `collection_ids`, the children that were fetched for it with
/// `offset` and `limit`.
#[derive(Debug, Default)]
pub struct LibraryInterleaveTransform {
    pub collection_ids: Vec<u32>,
    pub offset: i32,
    pub limit: i32,
    pub fetched: Vec<Vec<MetaData>>,
}

pub open spec fn unwatched_pred() -> spec_fn(MetaData) -> bool {
    |x: MetaData| !x.is_watched_spec()
}

/// The items of a collection that are shown: the unwatched ones when watched
/// items are excluded, else all.
pub open spec fn shown(xs: Seq<MetaData>, exclude_watched: bool) -> Seq<MetaData> {
    if exclude_watched {
        xs.filter(unwatched_pred())
    } else {
        xs
    }
}

/// The items of the collections `cs`, each shown list mixed into the ones
/// before it.
pub open spec fn library_children(cs: Seq<Seq<MetaData>>, exclude_watched: bool) -> Seq<MetaData>
    decreases cs.len(),
{
    if cs.len() == 0 {
        Seq::empty()
    } else {
        interleave(library_children(cs.drop_last(), exclude_watched), shown(cs.last(), exclude_watched))
    }
}

/// How many items of the collections `cs` are shown.
pub open spec fn library_total(cs: Seq<Seq<MetaData>>, exclude_watched: bool) -> int
    decreases cs.len(),
{
    if cs.len() == 0 {
        0
    } else {
        library_total(cs.drop_last(), exclude_watched) + shown(cs.last(), exclude_watched).len()
    }
}

pub open spec fn lists_view(cs: Seq<Vec<MetaData>>) -> Seq<Seq<MetaData>> {
    cs.map_values(|v: Vec<MetaData>| v@)
}

/// Why the rule fails: the children of some collection were not fetched, or
/// more items are shown than an `i32` counts.
pub open spec fn library_error(t: LibraryInterleaveTransform, config: Config) -> Option<TransformError> {
    if !config.interleave {
        None
    } else if t.fetched@.len() != t.collection_ids@.len() {
        Some(TransformError::NotFetched)
    } else if library_total(lists_view(t.fetched@), config.exclude_watched) > i32::MAX {
        Some(TransformError::TooLarge)
    } else {
        None
    }
}

/// What the rule makes of a container: with interleaving on, its
/// `metadata` are the mixed items of the collections and its total size
/// their number.
pub open spec fn library_interleaved(t: LibraryInterleaveTransform, c: MediaContainer, d: MediaContainer, config: Config) -> bool {
    if !config.interleave {
        d == c
    } else {
        let cs = lists_view(t.fetched@);
        &&& d == (MediaContainer {
            metadata: d.metadata,
            total_size: Some(library_total(cs, config.exclude_watched) as i32),
            ..c
        })
        &&& d.metadata@ == library_children(cs, config.exclude_watched)
    }
}

/// The items of a list that are not watched.
pub fn retain_unwatched(xs_in: Vec<MetaData>) -> (r: Vec<MetaData>)
    ensures
        r@ == xs_in@.filter(unwatched_pred()),
{
    let ghost xs0 = xs_in@;
    let mut xs = xs_in;
    let mut out: Vec<MetaData> = Vec::new();
    let mut i: usize = 0;
    assert(xs0.take(0) == Seq::<MetaData>::empty());
    assert(Seq::<MetaData>::empty().filter(unwatched_pred()) == Seq::<MetaData>::empty()) by {
        reveal(Seq::filter);
    }
    while i < xs.len()
        invariant
            i <= xs@.len(),
            xs@.len() == xs0.len(),
            forall|k: int| i <= k < xs0.len() ==> xs@[k] == xs0[k],
            out@ == xs0.take(i as int).filter(unwatched_pred()),
        decreases xs0.len() - i,
    {
        let mut item = MetaData::empty(String::new(), String::new());
        std::mem::swap(&mut item, &mut xs[i]);
        proof {
            assert(xs0.take(i + 1) == xs0.take(i as int).push(xs0[i as int]));
            xs0.take(i as int).lemma_filter_push(xs0[i as int], unwatched_pred());
        }
        if !item.is_watched() {
            out.push(item);
        }
        i = i + 1;
    }
    assert(xs0.take(i as int) == xs0);
    out
}

impl LibraryInterleaveTransform {
    /// Mixes the children of the collections (see `library_interleaved`).
    pub fn transform_mediacontainer(self, item: MediaContainer, config: &Config) -> (r: Result<MediaContainer, TransformError>)
        ensures
            match r {
                Ok(d) => library_error(self, *config) is None && library_interleaved(self, item, d, *config),
                Err(e) => library_error(self, *config) == Some(e),
            },
    {
        if !config.interleave {
            return Ok(item);
        }
        let ghost t0 = self;
        let ghost cs = lists_view(self.fetched@);
        if self.fetched.len() != self.collection_ids.len() {
            return Err(TransformError::NotFetched);
        }
        let mut fetched = self.fetched;
        let mut children: Vec<MetaData> = Vec::new();
        let mut total: u64 = 0;
        let mut k: usize = 0;
        let n = fetched.len();
        while k < n
            invariant
                k <= n,
                n == cs.len(),
                config.interleave,
                t0.fetched@.len() == t0.collection_ids@.len(),
                t0 == self,
                cs == lists_view(t0.fetched@),
                fetched@.len() == n - k,
                forall|j: int| 0 <= j < n - k ==> (#[trigger] fetched@[j])@ == cs[k + j],
                children@ == library_children(cs.take(k as int), config.exclude_watched),
                total == library_total(cs.take(k as int), config.exclude_watched),
                total <= i32::MAX,
            decreases n - k,
        {
            let c = fetched.remove(0);
            assert(c@ == cs[k as int]);
            let c = if config.exclude_watched {
                retain_unwatched(c)
            } else {
                c
            };
            proof {
                assert(cs.take(k + 1).drop_last() == cs.take(k as int));
                assert(cs.take(k + 1).last() == cs[k as int]);
                lemma_interleave_len(children@, c@);
            }
            if c.len() > i32::MAX as usize || total + c.len() as u64 > i32::MAX as u64 {
                proof {
                    lemma_total_monotone(cs, (k + 1) as int, config.exclude_watched);
                }
                return Err(TransformError::TooLarge);
            }
            total = total + c.len() as u64;
            children = interleave_vec(children, c);
            k = k + 1;
        }
        assert(cs.take(n as int) == cs);
        let mut item = item;
        item.total_size = Some(total as i32);
        item.metadata = children;
        Ok(item)
    }
}

/// Taking more collections never shows fewer items.
pub proof fn lemma_total_monotone(cs: Seq<Seq<MetaData>>, k: int, exclude_watched: bool)
    requires
        0 <= k <= cs.len(),
    ensures
        library_total(cs.take(k), exclude_watched) <= library_total(cs, exclude_watched),
    decreases cs.len(),
{
    if k < cs.len() {
        assert(cs.drop_last().take(k) == cs.take(k));
        lemma_total_monotone(cs.drop_last(), k, exclude_watched);
    } else {
        assert(cs.take(k) == cs);
    }
}

} // verus!
