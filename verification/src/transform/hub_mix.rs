//! The rule that mixes collection hubs sharing a title, first dropping the
//! watched items of collection hubs when watched items are excluded.
use vstd::prelude::*;
use crate::config::Config;
use crate::models::{MediaContainer, MetaData};
use super::hub_interleave::{mix_error, mix_hubs, mixed};
use super::library_interleave::{retain_unwatched, unwatched_pred};
use super::TransformError;

verus! {

/// The rule that mixes collection hubs with the same title.
#[derive(Clone, Copy, Debug, Default)]
pub struct HubMixTransform;

/// `y` is the hub `x` ready for mixing: a collection hub loses the watched
/// items of the list it hands out for change when watched items are
/// excluded; any other hub stays as it is.
pub open spec fn prepared(x: MetaData, y: MetaData, exclude_watched: bool) -> bool {
    if x.is_collection_hub_spec() && exclude_watched {
        let s = x.children_mut_slot();
        &&& y == x.with_slot(s, y.slot(s))
        &&& y.slot(s)@ == x.slot(s)@.filter(unwatched_pred())
    } else {
        y == x
    }
}

pub open spec fn all_prepared(xs: Seq<MetaData>, ys: Seq<MetaData>, exclude_watched: bool) -> bool {
    &&& ys.len() == xs.len()
    &&& forall|i: int| 0 <= i < xs.len() ==> #[trigger] prepared(xs[i], ys[i], exclude_watched)
}

/// What the rule makes of a container: its children are prepared (see
/// `prepared`) and mixed without regard to size (see `mixed`), and its size
/// becomes their number.
pub open spec fn hub_mixed(c: MediaContainer, d: MediaContainer, config: Config) -> bool {
    exists|ys: Seq<MetaData>| #[trigger] all_prepared(c.children_spec(), ys, config.exclude_watched) && {
        if c.children_spec().len() > 0 {
            &&& mix_error(ys, Seq::empty(), false) is None
            &&& mixed(ys, Seq::empty(), d.slot(c.children_slot())@, false)
            &&& c.children_replaced(d, d.slot(c.children_slot())@)
        } else {
            d == (MediaContainer { size: Some(0), ..c })
        }
    }
}

/// The rule fails when mixing the prepared hubs fails.
pub open spec fn hub_mix_fails(c: MediaContainer, e: TransformError, config: Config) -> bool {
    exists|ys: Seq<MetaData>| #[trigger] all_prepared(c.children_spec(), ys, config.exclude_watched)
        && mix_error(ys, Seq::empty(), false) == Some(e)
}

fn prepare(x: MetaData, exclude_watched: bool) -> (y: MetaData)
    ensures
        prepared(x, y, exclude_watched),
{
    if x.is_collection_hub() && exclude_watched {
        let mut x = x;
        let s = x.mut_slot();
        let list = x.take_slot(s);
        let kept = retain_unwatched(list);
        x.put_slot(s, kept);
        x
    } else {
        x
    }
}

impl HubMixTransform {
    /// Mixes collection hubs (see `hub_mixed`).
    pub fn transform_mediacontainer(&self, item: MediaContainer, config: &Config) -> (r: Result<MediaContainer, TransformError>)
        ensures
            match r {
                Ok(d) => hub_mixed(item, d, *config),
                Err(e) => hub_mix_fails(item, e, *config),
            },
    {
        let mut item = item;
        let ghost c0 = item;
        let had = item.has_children();
        let s = item.slot_of_children();
        let mut xs = item.take_children();
        let ghost xs0 = xs@;
        let mut ys: Vec<MetaData> = Vec::new();
        let mut i: usize = 0;
        while i < xs.len()
            invariant
                i <= xs@.len(),
                xs@.len() == xs0.len(),
                forall|k: int| i <= k < xs0.len() ==> xs@[k] == xs0[k],
                ys@.len() == i,
                forall|k: int| 0 <= k < i ==> #[trigger] prepared(xs0[k], ys@[k], config.exclude_watched),
            decreases xs0.len() - i,
        {
            let mut c = MetaData::empty(String::new(), String::new());
            std::mem::swap(&mut c, &mut xs[i]);
            ys.push(prepare(c, config.exclude_watched));
            i = i + 1;
        }
        let ghost ys0 = ys@;
        assert(all_prepared(xs0, ys0, config.exclude_watched));
        let acc = match mix_hubs(ys, false) {
            Ok(a) => a,
            Err(e) => return Err(e),
        };
        let ghost out = acc@;
        let n = acc.len() as i64;
        if had {
            item.put_slot(s, acc);
            assert(item == (MediaContainer { size: item.size, ..c0 }).with_slot(s, item.slot(s)));
        }
        item.size = Some(n);
        proof {
            if had {
                assert(item.slot(s)@ == out);
                assert(c0.children_replaced(item, out));
            } else {
                assert(ys0.len() == 0);
                assert(out.len() == 0);
            }
        }
        Ok(item)
    }
}

} // verus!
