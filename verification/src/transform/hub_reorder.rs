//! The rule that puts the items of a container in a configured order.
use vstd::prelude::*;
use crate::config::Config;
use crate::models::{MediaContainer, MetaData};
use crate::text::{same_text, texts};
use super::hub_interleave::{first_index, lemma_first_index, lemma_first_index_found};

verus! {

/// The rule that orders items by the configured custom sorting.
#[derive(Clone, Debug, Default)]
pub struct HubReorderTransform {
    pub collection_ids: Vec<u32>,
}

/// The place of an item's rating key in the configured order, if it has
/// one.
pub open spec fn sort_pos(x: MetaData, order: Seq<String>) -> Option<int> {
    match x.rating_key {
        Some(k) => first_index(texts(order), k@),
        None => None,
    }
}

pub open spec fn at_pos(order: Seq<String>, j: int) -> spec_fn(MetaData) -> bool {
    |x: MetaData| sort_pos(x, order) == Some(j)
}

pub open spec fn unplaced(order: Seq<String>) -> spec_fn(MetaData) -> bool {
    |x: MetaData| sort_pos(x, order) is None
}

/// The items placed at `j` and after, each place's items in their order.
pub open spec fn placed_from(xs: Seq<MetaData>, order: Seq<String>, j: int) -> Seq<MetaData>
    decreases order.len() - j,
{
    if j >= order.len() || j < 0 {
        Seq::empty()
    } else {
        xs.filter(at_pos(order, j)) + placed_from(xs, order, j + 1)
    }
}

/// The items ordered by their place in `order`, those with the same place
/// and those with none in the order they came; those with none last.
pub open spec fn reordered(xs: Seq<MetaData>, order: Seq<String>) -> Seq<MetaData> {
    placed_from(xs, order, 0) + xs.filter(unplaced(order))
}

/// The place of an item in the order, when it has one, is a place of the
/// order.
pub proof fn lemma_sort_pos_in_range(x: MetaData, order: Seq<String>)
    ensures
        sort_pos(x, order) is Some ==> 0 <= sort_pos(x, order)->0 < order.len(),
{
    match x.rating_key {
        Some(k) => lemma_first_index_found(texts(order), k@),
        None => {},
    }
}

/// The item has a place in the order at `j` or after.
pub open spec fn placed_at_or_after(x: MetaData, order: Seq<String>, j: int) -> bool {
    sort_pos(x, order) is Some && j <= sort_pos(x, order)->0 < order.len()
}

/// Adding an item to the list adds it to the items placed from `j` exactly
/// when its place is `j` or after.
pub proof fn lemma_placed_from_push(xs: Seq<MetaData>, x: MetaData, order: Seq<String>, j: int)
    requires
        0 <= j,
    ensures
        placed_from(xs.push(x), order, j).to_multiset() == if placed_at_or_after(x, order, j) {
            placed_from(xs, order, j).to_multiset().insert(x)
        } else {
            placed_from(xs, order, j).to_multiset()
        },
    decreases order.len() - j,
{
    broadcast use vstd::seq_lib::group_to_multiset_ensures;
    if j < order.len() {
        lemma_placed_from_push(xs, x, order, j + 1);
        xs.lemma_filter_push(x, at_pos(order, j));
        let a = xs.filter(at_pos(order, j));
        let b = placed_from(xs, order, j + 1);
        let a1 = xs.push(x).filter(at_pos(order, j));
        let b1 = placed_from(xs.push(x), order, j + 1);
        vstd::seq_lib::lemma_multiset_commutative(a, b);
        vstd::seq_lib::lemma_multiset_commutative(a1, b1);
        assert(placed_from(xs, order, j) == a + b);
        assert(placed_from(xs.push(x), order, j) == a1 + b1);
        if sort_pos(x, order) == Some(j) {
            assert(a1 == a.push(x));
            assert(!placed_at_or_after(x, order, j + 1));
            assert(a1.to_multiset().add(b1.to_multiset()) =~= a.to_multiset().add(b.to_multiset()).insert(x));
        } else {
            assert(a1 == a);
            assert(placed_at_or_after(x, order, j) == placed_at_or_after(x, order, j + 1));
            if placed_at_or_after(x, order, j) {
                assert(a1.to_multiset().add(b1.to_multiset()) =~= a.to_multiset().add(b.to_multiset()).insert(x));
            } else {
                assert(a1.to_multiset().add(b1.to_multiset()) =~= a.to_multiset().add(b.to_multiset()));
            }
        }
    }
}

/// No item is placed from an empty list.
pub proof fn lemma_placed_from_empty(order: Seq<String>, j: int)
    requires
        0 <= j,
    ensures
        placed_from(Seq::<MetaData>::empty(), order, j) == Seq::<MetaData>::empty(),
    decreases order.len() - j,
{
    if j < order.len() {
        lemma_placed_from_empty(order, j + 1);
        assert(Seq::<MetaData>::empty().filter(at_pos(order, j)) =~= Seq::<MetaData>::empty()) by {
            reveal(Seq::filter);
        }
    }
}

/// What the rule makes of a container: with a custom sorting configured,
/// its `metadata` are reordered (see `reordered`); else it stays as it is.
pub open spec fn hub_reordered(c: MediaContainer, d: MediaContainer, config: Config) -> bool {
    match config.custom_sorting {
        None => d == c,
        Some(order) => {
            &&& d == (MediaContainer { metadata: d.metadata, ..c })
            &&& d.metadata@ == reordered(c.metadata@, order@)
        },
    }
}

/// The place of an item's rating key in the order.
fn position_in(order: &Vec<String>, x: &MetaData) -> (r: Option<usize>)
    ensures
        match r {
            Some(j) => j < order@.len() && sort_pos(*x, order@) == Some(j as int),
            None => sort_pos(*x, order@) is None,
        },
{
    let key = match &x.rating_key {
        Some(k) => k,
        None => return None,
    };
    let ghost ts = texts(order@);
    let mut j: usize = 0;
    while j < order.len()
        invariant
            j <= order@.len(),
            ts == texts(order@),
            x.rating_key == Some(*key),
            forall|i: int| 0 <= i < j ==> ts[i] != key@,
        decreases order.len() - j,
    {
        if same_text(order[j].as_str(), key.as_str()) {
            proof {
                lemma_first_index(ts, key@, j as int);
            }
            return Some(j);
        }
        j = j + 1;
    }
    None
}

/// Orders items by the configured order (see `reordered`).
pub fn reorder_items(xs_in: Vec<MetaData>, order: &Vec<String>) -> (r: Vec<MetaData>)
    ensures
        r@ == reordered(xs_in@, order@),
{
    let ghost xs0 = xs_in@;
    let mut xs = xs_in;
    let n = order.len();
    let mut buckets: Vec<Vec<MetaData>> = Vec::new();
    let mut b: usize = 0;
    assert(xs0.take(0) == Seq::<MetaData>::empty());
    while b < n
        invariant
            b <= n,
            n == order@.len(),
            buckets@.len() == b,
            forall|k: int| 0 <= k < b ==> (#[trigger] buckets@[k])@.len() == 0,
        decreases n + 1 - b,
    {
        buckets.push(Vec::new());
        b = b + 1;
    }
    buckets.push(Vec::new());
    proof {
        reveal(Seq::filter);
    }
    let mut i: usize = 0;
    while i < xs.len()
        invariant
            i <= xs@.len(),
            xs@.len() == xs0.len(),
            n == order@.len(),
            xs0 == xs_in@,
            forall|k: int| i <= k < xs0.len() ==> xs@[k] == xs0[k],
            buckets@.len() == n + 1,
            forall|k: int| 0 <= k < n ==> (#[trigger] buckets@[k])@ == xs0.take(i as int).filter(at_pos(order@, k)),
            buckets@[n as int]@ == xs0.take(i as int).filter(unplaced(order@)),
        decreases xs0.len() - i,
    {
        let mut item = MetaData::empty(String::new(), String::new());
        std::mem::swap(&mut item, &mut xs[i]);
        assert(item == xs0[i as int]);
        let p = position_in(order, &item);
        let slot = match p {
            Some(j) => j,
            None => n,
        };
        let ghost bs0 = buckets@;
        let mut bucket: Vec<MetaData> = Vec::new();
        std::mem::swap(&mut bucket, &mut buckets[slot]);
        bucket.push(item);
        std::mem::swap(&mut bucket, &mut buckets[slot]);
        proof {
            assert(xs0.take(i + 1) == xs0.take(i as int).push(xs0[i as int]));
            assert forall|k: int| 0 <= k < n implies (#[trigger] buckets@[k])@ == xs0.take(i + 1).filter(at_pos(order@, k)) by {
                xs0.take(i as int).lemma_filter_push(xs0[i as int], at_pos(order@, k));
                if k != slot {
                    assert(buckets@[k] == bs0[k]);
                }
            }
            xs0.take(i as int).lemma_filter_push(xs0[i as int], unplaced(order@));
            if slot != n {
                assert(buckets@[n as int] == bs0[n as int]);
            }
        }
        i = i + 1;
    }
    assert(xs0.take(i as int) == xs0);
    let mut out: Vec<MetaData> = Vec::new();
    let mut k: usize = 0;
    assert(out@ + placed_from(xs0, order@, 0) == placed_from(xs0, order@, 0));
    while k < n
        invariant
            k <= n,
            n == order@.len(),
            buckets@.len() == n + 1,
            forall|j: int| k <= j < n ==> (#[trigger] buckets@[j])@ == xs0.filter(at_pos(order@, j)),
            buckets@[n as int]@ == xs0.filter(unplaced(order@)),
            out@ + placed_from(xs0, order@, k as int) == placed_from(xs0, order@, 0),
        decreases n - k,
    {
        let ghost o0 = out@;
        let ghost bs0 = buckets@;
        let mut bucket: Vec<MetaData> = Vec::new();
        std::mem::swap(&mut bucket, &mut buckets[k]);
        assert(bucket@ == xs0.filter(at_pos(order@, k as int)));
        out.append(&mut bucket);
        assert(placed_from(xs0, order@, k as int) == xs0.filter(at_pos(order@, k as int)) + placed_from(xs0, order@, k + 1));
        assert(out@ + placed_from(xs0, order@, k + 1) == o0 + placed_from(xs0, order@, k as int));
        assert forall|j: int| k + 1 <= j < n implies (#[trigger] buckets@[j])@ == xs0.filter(at_pos(order@, j)) by {
            assert(buckets@[j] == bs0[j]);
        }
        assert(buckets@[n as int] == bs0[n as int]);
        k = k + 1;
    }
    assert(placed_from(xs0, order@, n as int) == Seq::<MetaData>::empty());
    assert(out@ == placed_from(xs0, order@, 0));
    let mut last: Vec<MetaData> = Vec::new();
    std::mem::swap(&mut last, &mut buckets[n]);
    out.append(&mut last);
    out
}

impl HubReorderTransform {
    /// Orders the items of a container by the configured custom sorting
    /// (see `hub_reordered`).
    pub fn transform_mediacontainer(&self, item: MediaContainer, config: &Config) -> (r: MediaContainer)
        ensures
            hub_reordered(item, r, *config),
    {
        match &config.custom_sorting {
            None => item,
            Some(order) => {
                let mut item = item;
                let mut children: Vec<MetaData> = Vec::new();
                std::mem::swap(&mut children, &mut item.metadata);
                item.metadata = reorder_items(children, order);
                item
            },
        }
    }
}

} // verus!
