//! The rule that fills a container with the items of several collections,
//! taken in turn, and counts them.
use vstd::prelude::*;
use crate::config::Config;
use crate::models::{MediaContainer, MetaData};
use super::hub_interleave::{interleave_vec, lemma_interleave_len};
use super::library_interleave::{library_children, lists_view, retain_unwatched};
use super::TransformError;

verus! {

/// The rule that mixes the children of collections; `fetched` holds, for
/// each id of `collection_ids`, the children fetched for it with `offset`
/// and `limit`, and `fetched_total_sizes` the total size Plex gave with
/// them.
#[derive(Debug, Default)]
pub struct LibraryMixTransform {
    pub collection_ids: Vec<u32>,
    pub offset: i32,
    pub limit: i32,
    pub fetched: Vec<Vec<MetaData>>,
    pub fetched_total_sizes: Vec<Option<i32>>,
}

/// The sum of the total sizes, missing ones counting 0.
pub open spec fn totals_sum(ts: Seq<Option<i32>>) -> int
    decreases ts.len(),
{
    if ts.len() == 0 {
        0
    } else {
        totals_sum(ts.drop_last()) + match ts.last() {
            Some(v) => v as int,
            None => 0,
        }
    }
}

/// The first failure met adding the total sizes: one is missing, or a sum
/// leaves the range of an `i32`.
pub open spec fn totals_error(ts: Seq<Option<i32>>) -> Option<TransformError>
    decreases ts.len(),
{
    if ts.len() == 0 {
        None
    } else {
        match totals_error(ts.drop_last()) {
            Some(e) => Some(e),
            None => match ts.last() {
                None => Some(TransformError::MissingField),
                Some(v) => {
                    let s = totals_sum(ts.drop_last()) + v;
                    if s > i32::MAX || s < i32::MIN {
                        Some(TransformError::TooLarge)
                    } else {
                        None
                    }
                },
            },
        }
    }
}

pub open spec fn library_mix_error(t: LibraryMixTransform) -> Option<TransformError> {
    if t.fetched@.len() != t.collection_ids@.len() || t.fetched_total_sizes@.len() != t.collection_ids@.len() {
        Some(TransformError::NotFetched)
    } else {
        totals_error(t.fetched_total_sizes@)
    }
}

/// What the rule makes of a container: its `metadata` are the mixed items
/// of the collections (see `library_children`); its total size is their
/// number when watched items are excluded, else the sum of the collections'
/// total sizes.
pub open spec fn library_mixed(t: LibraryMixTransform, c: MediaContainer, d: MediaContainer, config: Config) -> bool {
    let children = library_children(lists_view(t.fetched@), config.exclude_watched);
    &&& d == (MediaContainer {
        metadata: d.metadata,
        total_size: Some(
            if config.exclude_watched {
                children.len() as i32
            } else {
                totals_sum(t.fetched_total_sizes@) as i32
            },
        ),
        ..c
    })
    &&& d.metadata@ == children
}

impl LibraryMixTransform {
    /// Mixes the children of the collections (see `library_mixed`).
    pub fn transform_mediacontainer(self, item: MediaContainer, config: &Config) -> (r: Result<MediaContainer, TransformError>)
        ensures
            match r {
                Ok(d) => library_mix_error(self) is None && library_mixed(self, item, d, *config),
                Err(e) => library_mix_error(self) == Some(e),
            },
    {
        let ghost t0 = self;
        let ghost cs = lists_view(self.fetched@);
        let ghost ts = self.fetched_total_sizes@;
        if self.fetched.len() != self.collection_ids.len() || self.fetched_total_sizes.len() != self.collection_ids.len() {
            return Err(TransformError::NotFetched);
        }
        let totals = self.fetched_total_sizes;
        let mut fetched = self.fetched;
        let mut children: Vec<MetaData> = Vec::new();
        let mut total: i64 = 0;
        let mut k: usize = 0;
        let n = fetched.len();
        while k < n
            invariant
                k <= n,
                n == cs.len(),
                n == ts.len(),
                totals@ == ts,
                cs == lists_view(t0.fetched@),
                ts == t0.fetched_total_sizes@,
                t0.fetched@.len() == t0.collection_ids@.len(),
                t0.fetched_total_sizes@.len() == t0.collection_ids@.len(),
                t0 == self,
                fetched@.len() == n - k,
                forall|j: int| 0 <= j < n - k ==> (#[trigger] fetched@[j])@ == cs[k + j],
                children@ == library_children(cs.take(k as int), config.exclude_watched),
                totals_error(ts.take(k as int)) is None,
                total == totals_sum(ts.take(k as int)),
                i32::MIN <= total <= i32::MAX,
            decreases n - k,
        {
            proof {
                assert(ts.take(k + 1).drop_last() == ts.take(k as int));
                assert(ts.take(k + 1).last() == ts[k as int]);
            }
            let v = match totals[k] {
                Some(v) => v,
                None => {
                    proof {
                        lemma_totals_error_prefix(ts, (k + 1) as int);
                    }
                    return Err(TransformError::MissingField);
                },
            };
            if total + v as i64 > i32::MAX as i64 || total + (v as i64) < i32::MIN as i64 {
                proof {
                    lemma_totals_error_prefix(ts, (k + 1) as int);
                }
                return Err(TransformError::TooLarge);
            }
            total = total + v as i64;
            let c = fetched.remove(0);
            assert(c@ == cs[k as int]);
            let c = if config.exclude_watched {
                retain_unwatched(c)
            } else {
                c
            };
            proof {
                assert(cs.take(k + 1).drop_last() == cs.take(k as int));
                assert(cs.take(k + 1).last() == cs[k as int]);
            }
            children = interleave_vec(children, c);
            k = k + 1;
        }
        assert(cs.take(n as int) == cs);
        assert(ts.take(n as int) == ts);
        let mut item = item;
        if config.exclude_watched {
            item.total_size = Some(children.len() as i32);
        } else {
            item.total_size = Some(total as i32);
        }
        item.metadata = children;
        Ok(item)
    }
}

/// A failure adding a prefix of the totals is a failure adding them all.
pub proof fn lemma_totals_error_prefix(ts: Seq<Option<i32>>, k: int)
    requires
        0 <= k <= ts.len(),
        totals_error(ts.take(k)) is Some,
    ensures
        totals_error(ts) == totals_error(ts.take(k)),
    decreases ts.len(),
{
    if k < ts.len() {
        assert(ts.drop_last().take(k) == ts.take(k));
        lemma_totals_error_prefix(ts.drop_last(), k);
    } else {
        assert(ts.take(k) == ts);
    }
}

} // verus!
