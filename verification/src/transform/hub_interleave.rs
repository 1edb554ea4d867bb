//! The rule that mixes collection hubs that share a title into one hub
//! whose items alternate between them.
use vstd::prelude::*;
use crate::config::Config;
use crate::models::{MediaContainer, MetaData};
use crate::text::{opt_text, same_text};
use crate::utils::{merge_children_keys, merged_children_key};
use super::TransformError;

verus! {

/// The rule that mixes collection hubs with the same title.
#[derive(Clone, Copy, Debug, Default)]
pub struct HubInterleaveTransform;

/// The items of `a` and `b` taken in turn, `a` first; when one runs out the
/// rest of the other follows.
pub open spec fn interleave<T>(a: Seq<T>, b: Seq<T>) -> Seq<T>
    decreases a.len() + b.len(),
{
    if a.len() == 0 {
        b
    } else {
        seq![a[0]] + interleave(b, a.drop_first())
    }
}

pub proof fn lemma_interleave_len<T>(a: Seq<T>, b: Seq<T>)
    ensures
        interleave(a, b).len() == a.len() + b.len(),
    decreases a.len() + b.len(),
{
    if a.len() > 0 {
        lemma_interleave_len(b, a.drop_first());
    }
}

/// Takes the items of two lists in turn (see `interleave`).
pub fn interleave_vec<T>(a: Vec<T>, b: Vec<T>) -> (r: Vec<T>)
    ensures
        r@ == interleave(a@, b@),
{
    let ghost target = interleave(a@, b@);
    let mut first = a;
    let mut second = b;
    let mut out: Vec<T> = Vec::new();
    assert(out@ + interleave(first@, second@) == target);
    while first.len() > 0
        invariant
            out@ + interleave(first@, second@) == target,
        decreases first@.len() + second@.len(),
    {
        let ghost f0 = first@;
        let ghost s0 = second@;
        let ghost o0 = out@;
        let x = first.remove(0);
        assert(first@ == f0.drop_first());
        assert(interleave(f0, s0) == seq![x] + interleave(s0, f0.drop_first()));
        out.push(x);
        std::mem::swap(&mut first, &mut second);
        assert(out@ + interleave(first@, second@) == o0 + (seq![x] + interleave(s0, f0.drop_first())));
    }
    assert(interleave(first@, second@) == second@);
    out.append(&mut second);
    out
}

/// What the rule needs to know of a hub it has kept: its title, its key, how
/// many children it lists and whether it is a collection hub.
pub type HubSummary = (Seq<char>, Option<Seq<char>>, nat, bool);

pub open spec fn summary(h: MetaData) -> HubSummary {
    (h.title@, opt_text(h.key), h.children_spec().len(), h.is_collection_hub_spec())
}

/// The title by which a kept hub is found for mixing: only collection hubs
/// have one, so no collection is mixed into a row of another kind.
pub open spec fn mix_title(h: MetaData) -> Option<Seq<char>> {
    if h.is_collection_hub_spec() {
        Some(h.title@)
    } else {
        None
    }
}

/// `mix_title` of the hub a summary stands for.
pub open spec fn summary_mix_title(s: HubSummary) -> Option<Seq<char>> {
    if s.3 {
        Some(s.0)
    } else {
        None
    }
}

/// The first place of `t` in `ts`.
pub open spec fn first_index<T>(ts: Seq<T>, t: T) -> Option<int> {
    if exists|i: int| 0 <= i < ts.len() && ts[i] == t {
        Some(choose|i: int| 0 <= i < ts.len() && ts[i] == t && forall|j: int| 0 <= j < i ==> ts[j] != t)
    } else {
        None
    }
}

/// Where `t` occurs in `ts`, it has a first place.
pub proof fn lemma_least_index<T>(ts: Seq<T>, t: T, i: int)
    requires
        0 <= i < ts.len(),
        ts[i] == t,
    ensures
        exists|k: int| 0 <= k < ts.len() && ts[k] == t && forall|j: int| 0 <= j < k ==> ts[j] != t,
    decreases i,
{
    if exists|j: int| 0 <= j < i && ts[j] == t {
        let j = choose|j: int| 0 <= j < i && ts[j] == t;
        lemma_least_index(ts, t, j);
    } else {
        assert(0 <= i < ts.len() && ts[i] == t && forall|j: int| 0 <= j < i ==> ts[j] != t);
    }
}

/// The first place of `t` in `ts` is a place of `t`.
pub proof fn lemma_first_index_found<T>(ts: Seq<T>, t: T)
    ensures
        match first_index(ts, t) {
            Some(k) => 0 <= k < ts.len() && ts[k] == t && forall|j: int| 0 <= j < k ==> ts[j] != t,
            None => forall|i: int| 0 <= i < ts.len() ==> ts[i] != t,
        },
{
    if exists|i: int| 0 <= i < ts.len() && ts[i] == t {
        let i = choose|i: int| 0 <= i < ts.len() && ts[i] == t;
        lemma_least_index(ts, t, i);
    }
}

pub proof fn lemma_first_index<T>(ts: Seq<T>, t: T, k: int)
    requires
        0 <= k < ts.len(),
        ts[k] == t,
        forall|j: int| 0 <= j < k ==> ts[j] != t,
    ensures
        first_index(ts, t) == Some(k),
{
    let i = choose|i: int| 0 <= i < ts.len() && ts[i] == t && forall|j: int| 0 <= j < i ==> ts[j] != t;
    assert(0 <= k < ts.len() && ts[k] == t && forall|j: int| 0 <= j < k ==> ts[j] != t);
    assert(i == k);
}

/// `m` is the kept hub `a` with hub `h` mixed in: its key names both
/// collections, and when it lists children they alternate with those of `h`
/// (see `with_children`).
pub open spec fn merged(a: MetaData, h: MetaData, m: MetaData) -> bool {
    let v = interleave(a.children_spec(), h.children_spec());
    let s = a.children_list_slot();
    &&& m.key is Some
    &&& m.key->0@ == merged_children_key(a.key->0@, h.key->0@)
    &&& if a.children_spec().len() > 0 {
        &&& m == (MetaData { key: m.key, size: Some(v.len() as i32), ..a }).with_slot(s, m.slot(s))
        &&& m.slot(s)@ == v
    } else {
        m == (MetaData { key: m.key, size: Some(v.len() as i32), ..a })
    }
}

/// `out` is what the rule makes of the hubs `xs`, having kept `acc` so far:
/// when sizes are checked, hubs of size 0 leave; hubs other than collection hubs are kept, and a
/// collection hub whose title a kept collection hub has is mixed into the
/// first such (see `mix_title`).
pub open spec fn mixed(xs: Seq<MetaData>, acc: Seq<MetaData>, out: Seq<MetaData>, check_size: bool) -> bool
    decreases xs.len(),
{
    if xs.len() == 0 {
        out == acc
    } else {
        let h = xs[0];
        let rest = xs.drop_first();
        if check_size && h.size == Some(0i32) {
            mixed(rest, acc, out, check_size)
        } else if !h.is_collection_hub_spec() {
            mixed(rest, acc.push(h), out, check_size)
        } else {
            match first_index(acc.map_values(|a: MetaData| mix_title(a)), Some(h.title@)) {
                None => mixed(rest, acc.push(h), out, check_size),
                Some(v) => exists|m: MetaData| #[trigger] merged(acc[v], h, m) && mixed(rest, acc.update(v, m), out, check_size),
            }
        }
    }
}

/// The first failure met mixing hubs `xs` after keeping hubs summed up by
/// `sums`: a hub without size (when sizes are checked), a merge where a key is missing, a mixed hub
/// with more children than an `i32` counts.
pub open spec fn mix_error(xs: Seq<MetaData>, sums: Seq<HubSummary>, check_size: bool) -> Option<TransformError>
    decreases xs.len(),
{
    if xs.len() == 0 {
        None
    } else {
        let h = xs[0];
        let rest = xs.drop_first();
        if check_size && h.size is None {
            Some(TransformError::MissingField)
        } else if check_size && h.size->0 == 0 {
            mix_error(rest, sums, check_size)
        } else if !h.is_collection_hub_spec() {
            mix_error(rest, sums.push(summary(h)), check_size)
        } else {
            match first_index(sums.map_values(|s: HubSummary| summary_mix_title(s)), Some(h.title@)) {
                None => mix_error(rest, sums.push(summary(h)), check_size),
                Some(v) => if sums[v].1 is None || h.key is None {
                    Some(TransformError::MissingField)
                } else {
                    let n = sums[v].2 + h.children_spec().len();
                    if n > i32::MAX {
                        Some(TransformError::TooLarge)
                    } else {
                        mix_error(
                            rest,
                            sums.update(
                                v,
                                (
                                    sums[v].0,
                                    Some(merged_children_key(sums[v].1->0, h.key->0@)),
                                    if sums[v].2 > 0 {
                                        n
                                    } else {
                                        0
                                    },
                                    sums[v].3,
                                ),
                            ),
                            check_size,
                        )
                    }
                },
            }
        }
    }
}

/// What the rule makes of a container: with interleaving on, its children
/// are mixed (see `mixed`) and its size becomes their number.
pub open spec fn interleaved(c: MediaContainer, d: MediaContainer, config: Config) -> bool {
    if !config.interleave {
        d == c
    } else if c.children_spec().len() > 0 {
        &&& mixed(c.children_spec(), Seq::empty(), d.slot(c.children_slot())@, true)
        &&& c.children_replaced(d, d.slot(c.children_slot())@)
    } else {
        d == (MediaContainer { size: Some(0), ..c })
    }
}

pub open spec fn interleave_error(c: MediaContainer, config: Config) -> Option<TransformError> {
    if !config.interleave {
        None
    } else {
        mix_error(c.children_spec(), Seq::empty(), true)
    }
}

/// The place of the first kept collection hub with the given title (see
/// `mix_title`).
fn position_of_title(acc: &Vec<MetaData>, title: &String) -> (r: Option<usize>)
    ensures
        match r {
            Some(k) => k < acc@.len() && first_index(acc@.map_values(|a: MetaData| mix_title(a)), Some(title@)) == Some(k as int),
            None => first_index(acc@.map_values(|a: MetaData| mix_title(a)), Some(title@)) is None,
        },
{
    let ghost ts = acc@.map_values(|a: MetaData| mix_title(a));
    let mut k: usize = 0;
    while k < acc.len()
        invariant
            k <= acc@.len(),
            ts == acc@.map_values(|a: MetaData| mix_title(a)),
            forall|j: int| 0 <= j < k ==> ts[j] != Some(title@),
        decreases acc.len() - k,
    {
        if acc[k].is_collection_hub() && same_text(acc[k].title.as_str(), title.as_str()) {
            proof {
                lemma_first_index(ts, Some(title@), k as int);
            }
            return Some(k);
        }
        k = k + 1;
    }
    None
}

/// Mixes hub `h` into the kept hub `a` (see `merged`).
fn merge_hub(a: MetaData, h: MetaData) -> (r: Result<MetaData, TransformError>)
    ensures
        match r {
            Ok(m) => a.key is Some && h.key is Some && a.children_spec().len() + h.children_spec().len() <= i32::MAX
                && merged(a, h, m),
            Err(e) => if a.key is None || h.key is None {
                e == TransformError::MissingField
            } else {
                a.children_spec().len() + h.children_spec().len() > i32::MAX && e == TransformError::TooLarge
            },
        },
{
    let mut a = a;
    let mut h = h;
    let ak = match &a.key {
        Some(k) => k.clone(),
        None => return Err(TransformError::MissingField),
    };
    let hk = match &h.key {
        Some(k) => k.clone(),
        None => return Err(TransformError::MissingField),
    };
    let key = merge_children_keys(ak, hk);
    let ghost a0 = a;
    let ghost h0 = h;
    let had = a.has_children();
    let sa = a.list_slot();
    let ac = if had {
        a.take_slot(sa)
    } else {
        Vec::new()
    };
    let sh = h.list_slot();
    let hc = h.take_slot(sh);
    assert(ac@ == a0.children_spec());
    assert(hc@ == h0.children_spec());
    let v = interleave_vec(ac, hc);
    proof {
        lemma_interleave_len(a0.children_spec(), h0.children_spec());
    }
    if v.len() > i32::MAX as usize {
        return Err(TransformError::TooLarge);
    }
    let n = v.len() as i32;
    if had {
        a.put_slot(sa, v);
    }
    a.size = Some(n);
    a.key = Some(key);
    Ok(a)
}

/// Mixes a list of hubs (see `mixed`).
pub fn mix_hubs(xs_in: Vec<MetaData>, check_size: bool) -> (r: Result<Vec<MetaData>, TransformError>)
    ensures
        match r {
            Ok(out) => mix_error(xs_in@, Seq::empty(), check_size) is None && mixed(xs_in@, Seq::empty(), out@, check_size),
            Err(e) => mix_error(xs_in@, Seq::empty(), check_size) == Some(e),
        },
{
    let mut xs = xs_in;
    let ghost xs0 = xs@;
    let mut acc: Vec<MetaData> = Vec::new();
    let ghost mut sums: Seq<HubSummary> = Seq::empty();
    let mut i: usize = 0;
    assert(xs0.skip(0) == xs0);
    assert(acc@.map_values(|a: MetaData| summary(a)) == sums);
    while i < xs.len()
        invariant
            i <= xs@.len(),
            xs@.len() == xs0.len(),
            xs0 == xs_in@,
            forall|k: int| i <= k < xs0.len() ==> xs@[k] == xs0[k],
            sums == acc@.map_values(|a: MetaData| summary(a)),
            mix_error(xs0, Seq::empty(), check_size) == mix_error(xs0.skip(i as int), sums, check_size),
            forall|out: Seq<MetaData>| mixed(xs0.skip(i as int), acc@, out, check_size) ==> mixed(xs0, Seq::empty(), out, check_size),
        decreases xs0.len() - i,
    {
        let ghost rest = xs0.skip(i as int);
        proof {
            assert(rest[0] == xs0[i as int]);
            assert(rest.drop_first() == xs0.skip(i + 1));
            assert(acc@.map_values(|a: MetaData| mix_title(a)) == sums.map_values(|s: HubSummary| summary_mix_title(s)));
        }
        let mut h = MetaData::empty(String::new(), String::new());
        std::mem::swap(&mut h, &mut xs[i]);
        assert(h == xs0[i as int]);
        let skip = if check_size {
            match h.size {
                Some(n) => n == 0,
                None => {
                    assert(mix_error(rest, sums, check_size) == Some(TransformError::MissingField));
                    return Err(TransformError::MissingField);
                },
            }
        } else {
            false
        };
        if skip {
            proof {
                assert forall|out: Seq<MetaData>| mixed(xs0.skip(i + 1), acc@, out, check_size) implies mixed(xs0, Seq::empty(), out, check_size) by {
                    assert(mixed(rest, acc@, out, check_size));
                }
            }
        } else if !h.is_collection_hub() {
            let ghost acc0 = acc@;
            acc.push(h);
            proof {
                assert(acc@.map_values(|a: MetaData| summary(a)) == sums.push(summary(h)));
                sums = sums.push(summary(h));
                assert forall|out: Seq<MetaData>| mixed(xs0.skip(i + 1), acc@, out, check_size) implies mixed(xs0, Seq::empty(), out, check_size) by {
                    assert(mixed(rest, acc0, out, check_size));
                }
            }
        } else {
            match position_of_title(&acc, &h.title) {
                None => {
                    let ghost acc0 = acc@;
                    acc.push(h);
                    proof {
                        assert(acc@.map_values(|a: MetaData| summary(a)) == sums.push(summary(h)));
                        sums = sums.push(summary(h));
                        assert forall|out: Seq<MetaData>| mixed(xs0.skip(i + 1), acc@, out, check_size) implies mixed(xs0, Seq::empty(), out, check_size) by {
                            assert(mixed(rest, acc0, out, check_size));
                        }
                    }
                },
                Some(v) => {
                    let ghost acc0 = acc@;
                    let mut a = MetaData::empty(String::new(), String::new());
                    std::mem::swap(&mut a, &mut acc[v]);
                    assert(a == acc0[v as int]);
                    assert(summary(a) == sums[v as int]);
                    let ghost hh = h;
                    let m = match merge_hub(a, h) {
                        Ok(m) => m,
                        Err(e) => {
                            assert(mix_error(rest, sums, check_size) == Some(e));
                            return Err(e);
                        },
                    };
                    let mut m = m;
                    std::mem::swap(&mut m, &mut acc[v]);
                    proof {
                        let m1 = acc@[v as int];
                        assert(acc@ == acc0.update(v as int, m1));
                        lemma_interleave_len(acc0[v as int].children_spec(), hh.children_spec());
                        let n = sums[v as int].2 + hh.children_spec().len();
                        let ns = (
                            sums[v as int].0,
                            Some(merged_children_key(sums[v as int].1->0, hh.key->0@)),
                            if sums[v as int].2 > 0 {
                                n
                            } else {
                                0
                            },
                            sums[v as int].3,
                        );
                        assert(summary(m1) == ns);
                        assert(acc@.map_values(|a: MetaData| summary(a)) == sums.update(v as int, ns));
                        assert(mix_error(rest, sums, check_size) == mix_error(xs0.skip(i + 1), sums.update(v as int, ns), check_size));
                        sums = sums.update(v as int, ns);
                        assert forall|out: Seq<MetaData>| mixed(xs0.skip(i + 1), acc@, out, check_size) implies mixed(xs0, Seq::empty(), out, check_size) by {
                            assert(merged(acc0[v as int], hh, m1));
                            assert(mixed(rest, acc0, out, check_size));
                        }
                    }
                },
            }
        }
        i = i + 1;
    }
    proof {
        assert(xs0.skip(i as int).len() == 0);
        assert(mixed(xs0.skip(i as int), acc@, acc@, check_size));
    }
    Ok(acc)
}

impl HubInterleaveTransform {
    /// Mixes collection hubs that share a title (see `interleaved`).
    pub fn transform_mediacontainer(&self, item_in: MediaContainer, config: &Config) -> (r: Result<MediaContainer, TransformError>)
        ensures
            match r {
                Ok(d) => interleave_error(item_in, *config) is None && interleaved(item_in, d, *config),
                Err(e) => interleave_error(item_in, *config) == Some(e),
            },
    {
        if !config.interleave {
            return Ok(item_in);
        }
        let mut item = item_in;
        let ghost c0 = item;
        let had = item.has_children();
        let s = item.slot_of_children();
        let xs = item.take_children();
        let acc = match mix_hubs(xs, true) {
            Ok(a) => a,
            Err(e) => return Err(e),
        };
        let ghost out = acc@;
        let n = acc.len() as i64;
        if had {
            item.put_slot(s, acc);
            assert(item == (MediaContainer { size: item.size, ..c0 }).with_slot(s, item.slot(s)));
        }
        item.size = Some(n);
        proof {
            if had {
                assert(item.slot(s)@ == out);
                assert(c0.children_replaced(item, out));
            } else {
                assert(out.len() == 0);
                assert(item == (MediaContainer { size: Some(0), ..c0 }));
            }
        }
        Ok(item)
    }
}

} // verus!
