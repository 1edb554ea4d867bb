//! Properties that hold of the library as a whole.
use vstd::prelude::*;
use vstd::multiset::Multiset;
use crate::config::Config;
use crate::models::{MediaContainer, MetaData, Platform, Style, platform_of, style_name, style_of};
use crate::plex_client::platform_name;
use crate::query::{first_value, has_name, lemma_first_value_without, lemma_with_param_reads, with_param, without_name};
use crate::routes::direct_stream_query;
use crate::routes::playback::{distance, first_closest, is_first_closest, max_quality_query, filtered_extra};
use crate::models::Media;
use crate::text::int_text;
use crate::transform::{FilterStep, PlexData, listed, resized};
use crate::transform::hub_interleave::{first_index, interleave, merged, mix_title, mixed};
use crate::transform::library_interleave::{library_children, library_total};
use crate::transform::hub_interleave::lemma_interleave_len;
use crate::transform::hub_reorder::{lemma_placed_from_empty, lemma_placed_from_push, lemma_sort_pos_in_range, reordered, unplaced};
use crate::transform::user_state::{state_reset, user_stated};
use crate::transform::watched::WatchedFilter;
use crate::transform::hub_key::{hub_keyed, replex_key};
use crate::text::has_prefix;
use crate::cache::{cache_key, kept, strip_last_segment, Expiration, RequestIssuer, RequestParts};
use crate::text::{lemma_int_text_reads, lemma_replace_all_prefix, lemma_replace_all_short, lemma_replace_all_skips, parse_signed, replace_all};
use crate::utils::{bare_collection_key, child_path_id_text, merged_children_key};
use crate::plex_client::hero_art_outcome;
use crate::artwork::cover_art_outcome;
use crate::models::PlexContext;
use crate::transform::hub_style::{hero_decision, hero_style_of};

verus! {

/// Reading a query parameter after setting it gives the value set; every
/// other parameter reads as before.
pub proof fn law_query_read_after_write(ps: Seq<(Seq<char>, Seq<char>)>, name: Seq<char>, value: Seq<char>, other: Seq<char>)
    ensures
        first_value(with_param(ps, name, value), name) == Some(value),
        other != name ==> first_value(with_param(ps, name, value), other) == first_value(ps, other),
{
    lemma_with_param_reads(ps, name, value, name);
    lemma_with_param_reads(ps, name, value, other);
}

/// Taking the items of two lists in turn loses and adds none: the result
/// holds exactly the items of both.
pub proof fn law_interleave_keeps_items<T>(a: Seq<T>, b: Seq<T>)
    ensures
        interleave(a, b).len() == a.len() + b.len(),
        interleave(a, b).to_multiset() == a.to_multiset().add(b.to_multiset()),
    decreases a.len() + b.len(),
{
    lemma_interleave_len(a, b);
    broadcast use vstd::seq_lib::group_to_multiset_ensures;
    if a.len() > 0 {
        law_interleave_keeps_items(b, a.drop_first());
        let rest = interleave(b, a.drop_first());
        assert(interleave(a, b) == seq![a[0]] + rest);
        vstd::seq_lib::lemma_multiset_commutative(seq![a[0]], rest);
        assert(a == seq![a[0]] + a.drop_first());
        vstd::seq_lib::lemma_multiset_commutative(seq![a[0]], a.drop_first());
        assert(interleave(a, b).to_multiset() =~= a.to_multiset().add(b.to_multiset()));
    } else {
        assert(a.to_multiset() =~= Multiset::empty());
        assert(interleave(a, b).to_multiset() =~= a.to_multiset().add(b.to_multiset()));
    }
}

/// A library shows as many items as it counts.
pub proof fn law_library_total_counts_children(cs: Seq<Seq<MetaData>>, exclude_watched: bool)
    ensures
        library_children(cs, exclude_watched).len() == library_total(cs, exclude_watched),
    decreases cs.len(),
{
    if cs.len() > 0 {
        law_library_total_counts_children(cs.drop_last(), exclude_watched);
        lemma_interleave_len(
            library_children(cs.drop_last(), exclude_watched),
            crate::transform::library_interleave::shown(cs.last(), exclude_watched),
        );
    }
}

/// No two collection hubs share a title.
#[verifier::opaque]
pub open spec fn collection_titles_unique(acc: Seq<MetaData>) -> bool {
    forall|i: int, j: int|
        0 <= i < j < acc.len() && (#[trigger] acc[j]).is_collection_hub_spec() && (#[trigger] acc[i]).is_collection_hub_spec()
            ==> acc[i].title@ != acc[j].title@
}

proof fn lemma_merged_keeps(a: MetaData, h: MetaData, m: MetaData)
    requires
        merged(a, h, m),
    ensures
        m.title == a.title,
        m.is_collection_hub_spec() == a.is_collection_hub_spec(),
{
}

proof fn lemma_push_unique(acc: Seq<MetaData>, h: MetaData)
    requires
        collection_titles_unique(acc),
        h.is_collection_hub_spec() ==> forall|i: int| 0 <= i < acc.len() && (#[trigger] acc[i]).is_collection_hub_spec() ==> acc[i].title@ != h.title@,
    ensures
        collection_titles_unique(acc.push(h)),
{
    reveal(collection_titles_unique);
    let acc2 = acc.push(h);
    assert forall|i: int, j: int|
        0 <= i < j < acc2.len() && (#[trigger] acc2[j]).is_collection_hub_spec() && (#[trigger] acc2[i]).is_collection_hub_spec()
        implies acc2[i].title@ != acc2[j].title@ by {
        assert(acc2[i] == acc[i]);
        if j < acc.len() {
            assert(acc2[j] == acc[j]);
        }
    }
}

proof fn lemma_update_unique(acc: Seq<MetaData>, v: int, m: MetaData)
    requires
        collection_titles_unique(acc),
        0 <= v < acc.len(),
        m.title == acc[v].title,
        m.is_collection_hub_spec() == acc[v].is_collection_hub_spec(),
    ensures
        collection_titles_unique(acc.update(v, m)),
{
    reveal(collection_titles_unique);
    let acc2 = acc.update(v, m);
    assert forall|i: int, j: int|
        0 <= i < j < acc2.len() && (#[trigger] acc2[j]).is_collection_hub_spec() && (#[trigger] acc2[i]).is_collection_hub_spec()
        implies acc2[i].title@ != acc2[j].title@ by {
        assert(acc2[i].title == acc[i].title);
        assert(acc2[j].title == acc[j].title);
        assert(acc2[j].is_collection_hub_spec() == acc[j].is_collection_hub_spec());
        assert(acc2[i].is_collection_hub_spec() == acc[i].is_collection_hub_spec());
        assert(acc[j].is_collection_hub_spec());
        assert(acc[i].is_collection_hub_spec());
    }
}

proof fn lemma_mixed_unique(xs: Seq<MetaData>, acc: Seq<MetaData>, out: Seq<MetaData>, check_size: bool)
    requires
        mixed(xs, acc, out, check_size),
        collection_titles_unique(acc),
    ensures
        collection_titles_unique(out),
    decreases xs.len(),
{
    if xs.len() > 0 {
        let h = xs[0];
        let rest = xs.drop_first();
        if check_size && h.size == Some(0i32) {
            lemma_mixed_unique(rest, acc, out, check_size);
        } else if !h.is_collection_hub_spec() {
            lemma_push_unique(acc, h);
            lemma_mixed_unique(rest, acc.push(h), out, check_size);
        } else {
            let ts = acc.map_values(|a: MetaData| mix_title(a));
            crate::transform::hub_interleave::lemma_first_index_found(ts, Some(h.title@));
            match first_index(ts, Some(h.title@)) {
                None => {
                    assert forall|i: int| 0 <= i < acc.len() && (#[trigger] acc[i]).is_collection_hub_spec() implies acc[i].title@ != h.title@ by {
                        assert(ts[i] == mix_title(acc[i]));
                    }
                    lemma_push_unique(acc, h);
                    lemma_mixed_unique(rest, acc.push(h), out, check_size);
                },
                Some(v) => {
                    let m = choose|m: MetaData| #[trigger] merged(acc[v], h, m) && mixed(rest, acc.update(v, m), out, check_size);
                    lemma_merged_keeps(acc[v], h, m);
                    lemma_update_unique(acc, v, m);
                    lemma_mixed_unique(rest, acc.update(v, m), out, check_size);
                },
            }
        }
    }
}

/// Collection hubs with the same title end up as one: in the mixed list no
/// two collection hubs share a title.
pub proof fn law_mixed_collections_unique(xs: Seq<MetaData>, out: Seq<MetaData>, check_size: bool)
    requires
        mixed(xs, Seq::empty(), out, check_size),
    ensures
        collection_titles_unique(out),
{
    assert(collection_titles_unique(Seq::<MetaData>::empty())) by {
        reveal(collection_titles_unique);
    }
    lemma_mixed_unique(xs, Seq::empty(), out, check_size);
}

/// A non-hub item that is watched, when watched items are excluded.
pub open spec fn excluded_watched(x: MetaData, config: Config) -> bool {
    config.exclude_watched && !x.is_hub_spec() && x.is_watched_spec()
}

proof fn lemma_processed_keeps_flags(fs: Seq<FilterStep>, x: MetaData, y: MetaData, config: Config, data: PlexData)
    requires
        crate::transform::processed(fs, x, y, config, data),
    ensures
        y.hub_identifier == x.hub_identifier,
        y.view_count == x.view_count,
        y.viewed_leaf_count == x.viewed_leaf_count,
{
}

/// With watched items excluded, the watched filter keeps no watched item
/// that is not a hub.
pub proof fn law_watched_items_removed(xs: Seq<MetaData>, ys: Seq<MetaData>, config: Config, data: PlexData)
    requires
        listed(seq![FilterStep::Watched(WatchedFilter)], xs, ys, config, data),
    ensures
        forall|i: int| 0 <= i < ys.len() ==> !excluded_watched(#[trigger] ys[i], config),
    decreases xs.len(),
{
    let fs = seq![FilterStep::Watched(WatchedFilter)];
    if xs.len() > 0 {
        assert(fs.drop_first().len() == 0);
        if crate::transform::drops(fs, xs[0], config, data) == Ok::<bool, crate::transform::TransformError>(true) {
            law_watched_items_removed(xs.drop_first(), ys, config, data);
        } else {
            law_watched_items_removed(xs.drop_first(), ys.drop_first(), config, data);
            lemma_processed_keeps_flags(fs, xs[0], ys[0], config, data);
            assert forall|i: int| 0 <= i < ys.len() implies !excluded_watched(#[trigger] ys[i], config) by {
                if i > 0 {
                    assert(ys[i] == ys.drop_first()[i - 1]);
                }
            }
        }
    }
}

/// Forcing maximum quality leaves no bitrate limit and asks for direct
/// play, direct stream, quality 100 and no automatic quality.
pub proof fn law_maximum_quality_reads(ps: Seq<(Seq<char>, Seq<char>)>, buffer: Option<i64>)
    ensures
        first_value(max_quality_query(ps, buffer), "videoQuality"@) == Some("100"@),
        first_value(max_quality_query(ps, buffer), "directPlay"@) == Some("1"@),
        first_value(max_quality_query(ps, buffer), "directStream"@) == Some("1"@),
        first_value(max_quality_query(ps, buffer), "autoAdjustQuality"@) == Some("0"@),
        !has_name(max_quality_query(ps, buffer), "maxVideoBitrate"@),
        !has_name(max_quality_query(ps, buffer), "videoBitrate"@),
{
    reveal_strlit("videoQuality");
    reveal_strlit("directPlay");
    reveal_strlit("directStream");
    reveal_strlit("autoAdjustQuality");
    reveal_strlit("maxVideoBitrate");
    reveal_strlit("videoBitrate");
    reveal_strlit("mediaBufferSize");
    reveal_strlit("X-Plex-Client-Profile-Extra");
    let names = seq![
        "videoQuality"@,
        "directPlay"@,
        "directStream"@,
        "autoAdjustQuality"@,
        "maxVideoBitrate"@,
        "videoBitrate"@,
    ];
    let w1 = without_name(ps, "maxVideoBitrate"@);
    let q1 = without_name(w1, "videoBitrate"@);
    let q2 = with_param(q1, "autoAdjustQuality"@, "0"@);
    let q3 = with_param(q2, "directStream"@, "1"@);
    let q4 = with_param(q3, "directPlay"@, "1"@);
    let q5 = with_param(q4, "videoQuality"@, "100"@);
    let q6 = if has_name(q5, "mediaBufferSize"@) {
        with_param(q5, "mediaBufferSize"@, int_text(buffer->0 as int))
    } else {
        q5
    };
    let extra = "X-Plex-Client-Profile-Extra"@;
    assert forall|k: int| 0 <= k < names.len() implies #[trigger] names[k] != "mediaBufferSize"@ && names[k] != extra by {
        assert(names[k].len() != "mediaBufferSize"@.len() || names[k][1] != "mediaBufferSize"@[1]);
        assert(names[k].len() != extra.len());
    }
    assert forall|k: int| 0 <= k < names.len() implies first_value(max_quality_query(ps, buffer), #[trigger] names[k]) == first_value(q5, names[k]) by {
        assert(names[k] != "mediaBufferSize"@ && names[k] != extra);
        if has_name(q5, "mediaBufferSize"@) {
            lemma_with_param_reads(q5, "mediaBufferSize"@, int_text(buffer->0 as int), names[k]);
        }
        match first_value(q6, extra) {
            Some(e) => lemma_with_param_reads(q6, extra, filtered_extra(e), names[k]),
            None => {},
        }
    }
    assert(names[0] == "videoQuality"@);
    assert(names[1] == "directPlay"@);
    assert(names[2] == "directStream"@);
    assert(names[3] == "autoAdjustQuality"@);
    assert(names[4] == "maxVideoBitrate"@);
    assert(names[5] == "videoBitrate"@);
    assert("videoQuality"@.len() != "directPlay"@.len());
    assert("videoQuality"@ != "directStream"@) by {
        assert("videoQuality"@[0] != "directStream"@[0]);
    }
    assert("videoQuality"@.len() != "autoAdjustQuality"@.len());
    assert("directPlay"@.len() != "directStream"@.len());
    assert("directPlay"@.len() != "autoAdjustQuality"@.len());
    assert("directStream"@.len() != "autoAdjustQuality"@.len());
    assert("maxVideoBitrate"@.len() != "videoQuality"@.len());
    assert("maxVideoBitrate"@.len() != "directPlay"@.len());
    assert("maxVideoBitrate"@.len() != "directStream"@.len());
    assert("maxVideoBitrate"@.len() != "autoAdjustQuality"@.len());
    assert("videoBitrate"@ != "videoQuality"@) by {
        assert("videoBitrate"@[5] != "videoQuality"@[5]);
    }
    assert("videoBitrate"@.len() != "directPlay"@.len());
    assert("videoBitrate"@ != "directStream"@) by {
        assert("videoBitrate"@[0] != "directStream"@[0]);
    }
    assert("videoBitrate"@.len() != "autoAdjustQuality"@.len());
    assert("videoBitrate"@.len() != "maxVideoBitrate"@.len());
    lemma_with_param_reads(q4, "videoQuality"@, "100"@, "directPlay"@);
    lemma_with_param_reads(q4, "videoQuality"@, "100"@, "videoQuality"@);
    lemma_with_param_reads(q3, "directPlay"@, "1"@, "directPlay"@);
    lemma_with_param_reads(q4, "videoQuality"@, "100"@, "directStream"@);
    lemma_with_param_reads(q3, "directPlay"@, "1"@, "directStream"@);
    lemma_with_param_reads(q2, "directStream"@, "1"@, "directStream"@);
    lemma_with_param_reads(q4, "videoQuality"@, "100"@, "autoAdjustQuality"@);
    lemma_with_param_reads(q3, "directPlay"@, "1"@, "autoAdjustQuality"@);
    lemma_with_param_reads(q2, "directStream"@, "1"@, "autoAdjustQuality"@);
    lemma_with_param_reads(q1, "autoAdjustQuality"@, "0"@, "autoAdjustQuality"@);
    lemma_with_param_reads(q4, "videoQuality"@, "100"@, "maxVideoBitrate"@);
    lemma_with_param_reads(q3, "directPlay"@, "1"@, "maxVideoBitrate"@);
    lemma_with_param_reads(q2, "directStream"@, "1"@, "maxVideoBitrate"@);
    lemma_with_param_reads(q1, "autoAdjustQuality"@, "0"@, "maxVideoBitrate"@);
    lemma_first_value_without(w1, "videoBitrate"@, "maxVideoBitrate"@);
    lemma_first_value_without(ps, "maxVideoBitrate"@, "maxVideoBitrate"@);
    lemma_with_param_reads(q4, "videoQuality"@, "100"@, "videoBitrate"@);
    lemma_with_param_reads(q3, "directPlay"@, "1"@, "videoBitrate"@);
    lemma_with_param_reads(q2, "directStream"@, "1"@, "videoBitrate"@);
    lemma_with_param_reads(q1, "autoAdjustQuality"@, "0"@, "videoBitrate"@);
    lemma_first_value_without(w1, "videoBitrate"@, "videoBitrate"@);
}

/// Falling back to direct stream turns direct play off and direct stream
/// on.
pub proof fn law_direct_stream_fallback_reads(ps: Seq<(Seq<char>, Seq<char>)>)
    ensures
        first_value(direct_stream_query(ps), "directPlay"@) == Some("0"@),
        first_value(direct_stream_query(ps), "directStream"@) == Some("1"@),
{
    reveal_strlit("directPlay");
    reveal_strlit("directStream");
    assert("directPlay"@.len() != "directStream"@.len());
    let q1 = with_param(ps, "directPlay"@, "0"@);
    lemma_with_param_reads(ps, "directPlay"@, "0"@, "directPlay"@);
    lemma_with_param_reads(q1, "directStream"@, "1"@, "directPlay"@);
    lemma_with_param_reads(q1, "directStream"@, "1"@, "directStream"@);
}

/// A container that has a size ends with its size equal to its number of
/// children.
pub proof fn law_size_counts_children(c: MediaContainer, d: MediaContainer)
    requires
        resized(c, d),
    ensures
        d.size is Some ==> d.size == Some(d.children_spec().len() as i64),
        c.children_spec() == d.children_spec(),
{
}

/// With user state disabled, every item the rule resets shows as unwatched.
pub proof fn law_user_state_cleared(x: MetaData, y: MetaData, config: Config)
    requires
        user_stated(x, y, config),
        config.disable_user_state,
    ensures
        !x.is_hub_spec() ==> y.user_state is Some && !y.user_state->0.value(),
        x.is_hub_spec() ==> forall|i: int|
            0 <= i < y.slot(x.children_mut_slot())@.len() ==> (#[trigger] y.slot(x.children_mut_slot())@[i]).user_state is Some
                && !y.slot(x.children_mut_slot())@[i].user_state->0.value(),
{
    if x.is_hub_spec() {
        let s = x.children_mut_slot();
        assert forall|i: int| 0 <= i < y.slot(s)@.len() implies (#[trigger] y.slot(s)@[i]).user_state is Some
            && !y.slot(s)@[i].user_state->0.value() by {
            assert(state_reset(x.slot(s)@[i], y.slot(s)@[i], config));
        }
    }
}

/// The platform name the proxy writes for a client reads back as that
/// platform.
pub proof fn law_platform_name_round_trip(p: Platform)
    ensures
        platform_of(platform_name(p)) == p,
{
    reveal_strlit("Android");
    reveal_strlit("iOS");
    reveal_strlit("Safari");
    reveal_strlit("Chrome");
    reveal_strlit("Roku");
    reveal_strlit("tvOS");
    reveal_strlit("Generic");
    assert("iOS"@.len() != "Android"@.len());
    assert("Safari"@.len() != "Android"@.len() && "Safari"@.len() != "iOS"@.len());
    assert("Chrome"@.len() != "Android"@.len() && "Chrome"@.len() != "iOS"@.len() && "Chrome"@[0] != "Safari"@[0]);
    assert("Roku"@.len() != "Android"@.len() && "Roku"@.len() != "iOS"@.len() && "Roku"@.len() != "Safari"@.len()
        && "Roku"@.len() != "Chrome"@.len());
    assert("tvOS"@.len() != "Android"@.len() && "tvOS"@.len() != "iOS"@.len() && "tvOS"@.len() != "Safari"@.len()
        && "tvOS"@.len() != "Chrome"@.len() && "tvOS"@[0] != "Roku"@[0]);
    assert("Generic"@[0] != "Android"@[0] && "Generic"@.len() != "iOS"@.len() && "Generic"@.len() != "Safari"@.len()
        && "Generic"@.len() != "Chrome"@.len() && "Generic"@.len() != "Roku"@.len() && "Generic"@.len()
        != "tvOS"@.len());
}

/// The style name written in a hub key reads back as that style.
pub proof fn law_style_name_round_trip(s: Style)
    ensures
        style_of(style_name(s)) == Some(s),
{
    reveal_strlit("hero");
    reveal_strlit("shelf");
    assert("shelf"@.len() != "hero"@.len());
}

/// Ordering items by the custom sorting loses and adds none: the result
/// holds exactly the items it was given.
pub proof fn law_reorder_keeps_items(xs: Seq<MetaData>, order: Seq<String>)
    ensures
        reordered(xs, order).to_multiset() == xs.to_multiset(),
    decreases xs.len(),
{
    broadcast use vstd::seq_lib::group_to_multiset_ensures;
    if xs.len() == 0 {
        lemma_placed_from_empty(order, 0);
        assert(xs == Seq::<MetaData>::empty());
        assert(xs.filter(unplaced(order)) =~= Seq::<MetaData>::empty()) by {
            reveal(Seq::filter);
        }
        assert(reordered(xs, order) =~= Seq::<MetaData>::empty());
        assert(xs.to_multiset() =~= Multiset::empty());
        assert(reordered(xs, order).to_multiset() =~= Multiset::empty());
    } else {
        let ys = xs.drop_last();
        let x = xs.last();
        assert(xs == ys.push(x));
        law_reorder_keeps_items(ys, order);
        lemma_placed_from_push(ys, x, order, 0);
        lemma_sort_pos_in_range(x, order);
        ys.lemma_filter_push(x, unplaced(order));
        let p = crate::transform::hub_reorder::placed_from(ys, order, 0);
        let u = ys.filter(unplaced(order));
        let p1 = crate::transform::hub_reorder::placed_from(xs, order, 0);
        let u1 = xs.filter(unplaced(order));
        vstd::seq_lib::lemma_multiset_commutative(p, u);
        vstd::seq_lib::lemma_multiset_commutative(p1, u1);
        assert(reordered(ys, order) == p + u);
        assert(reordered(xs, order) == p1 + u1);
        assert(reordered(xs, order).to_multiset() =~= p.to_multiset().add(u.to_multiset()).insert(x));
    }
}

/// Pointing hub keys at the proxy a second time changes nothing: a key
/// once under `/replex` stays as it is.
pub proof fn law_hub_key_idempotent(x: MetaData, y: MetaData, z: MetaData)
    requires
        hub_keyed(x, y),
        hub_keyed(y, z),
    ensures
        z == y,
{
    reveal_strlit("/replex/");
    reveal_strlit("/replex");
    if x.is_hub_spec() && x.key is Some && !has_prefix(x.key->0@, "/replex"@) {
        let k = replex_key(x.style, x.key->0@);
        assert(k.subrange(0, 7) =~= "/replex"@);
        assert(has_prefix(y.key->0@, "/replex"@));
    }
}

/// A cache TTL of 0 turns caching off for values that live as long as the
/// TTL; any other TTL keeps them, and values of every other expiration are
/// always kept.
pub proof fn law_zero_ttl_disables_cache(e: Expiration, cache_ttl: u64)
    ensures
        kept(Expiration::Global, cache_ttl) <==> cache_ttl != 0,
        e != Expiration::Global ==> kept(e, cache_ttl),
{
}

/// The art a cache holds for an image id, if any.
pub open spec fn cached_art(cache: Map<Seq<char>, Seq<char>>, uuid: Seq<char>) -> Option<Seq<char>> {
    if cache.contains_key(uuid + ":hero_art"@) {
        Some(cache[uuid + ":hero_art"@])
    } else {
        None
    }
}

/// The cache after a write, if there is one.
pub open spec fn after_write(cache: Map<Seq<char>, Seq<char>>, w: Option<(Seq<char>, Seq<char>)>) -> Map<Seq<char>, Seq<char>> {
    match w {
        Some(kv) => cache.insert(kv.0, kv.1),
        None => cache,
    }
}

/// Hero art that was found is what the cache holds for its image id after
/// the lookup, so a later lookup answers from the cache; when no art was
/// found, or the provider failed, the cache is left as it was, so a later
/// lookup asks the provider again.
pub proof fn law_hero_art_cached(cache: Map<Seq<char>, Seq<char>>, uuid: Seq<char>, reply: Option<Seq<MetaData>>)
    ensures
        hero_art_outcome(uuid, reply).0 is Some ==> cached_art(after_write(cache, hero_art_outcome(uuid, reply).1), uuid)
            == hero_art_outcome(uuid, reply).0,
        hero_art_outcome(uuid, reply).0 is None ==> after_write(cache, hero_art_outcome(uuid, reply).1) == cache,
{
}

/// The id in the children path of a collection reads back as the id the
/// path was made from, for every `i32`.
pub proof fn law_child_path_id_round_trip(n: i32)
    ensures
        parse_signed(
            child_path_id_text("/library/collections/"@ + int_text(n as int) + "/children"@),
            i32::MIN as int,
            i32::MAX as int,
        ) == Some(n as int),
{
    let t = int_text(n as int);
    let lib = "/library/collections/"@;
    let ch = "/children"@;
    reveal_strlit("/library/collections/");
    reveal_strlit("/children");
    reveal_strlit("");
    lemma_int_text_reads(n as int, i32::MIN as int, i32::MAX as int);
    assert forall|i: int| 0 <= i < t.len() implies t[i] != lib[0] by {
        assert(t[i] == '-' || crate::text::is_digit(t[i]));
    }
    assert forall|i: int| 0 <= i < t.len() implies t[i] != ch[0] by {
        assert(t[i] == '-' || crate::text::is_digit(t[i]));
    }
    let p = lib + t + ch;
    assert(p =~= lib + (t + ch));
    lemma_replace_all_prefix(lib, ""@, t + ch);
    lemma_replace_all_skips(t, lib, ""@, ch);
    lemma_replace_all_short(ch, lib, ""@);
    assert(""@ + (t + ch) =~= t + ch);
    lemma_replace_all_skips(t, ch, ""@, ch);
    assert(ch =~= ch + Seq::<char>::empty());
    lemma_replace_all_prefix(ch, ""@, Seq::<char>::empty());
    assert(replace_all(Seq::<char>::empty(), ch, ""@) =~= Seq::<char>::empty());
    assert(""@ + Seq::<char>::empty() =~= Seq::<char>::empty());
    assert(t + Seq::<char>::empty() =~= t);
    assert(child_path_id_text(p) == t);
}

/// Replacing the children of an item that has some by a non-empty list:
/// the item's children are then that list and its size their number (as an
/// `i32`), and of its lists only the one its children were read from
/// changed.
pub proof fn law_set_children_reads(x: MetaData, v: Vec<MetaData>)
    requires
        x.children_spec().len() > 0,
        v@.len() > 0,
    ensures
        x.with_children(v).children_spec() == v@,
        x.with_children(v).size == Some(v@.len() as i32),
        x.with_children(v) == (MetaData { size: Some(v@.len() as i32), ..x }).with_slot(x.children_list_slot(), v),
{
}

proof fn lemma_first_closest_exists(ms: Seq<Media>, t: int) -> (k: int)
    requires
        ms.len() > 0,
    ensures
        is_first_closest(ms, t, k),
    decreases ms.len(),
{
    if ms.len() == 1 {
        0
    } else {
        let p = ms.drop_last();
        let k0 = lemma_first_closest_exists(p, t);
        let last = ms.len() - 1;
        assert forall|j: int| 0 <= j < last implies ms[j] == p[j] by {}
        if distance(ms[last], t) < distance(ms[k0], t) {
            assert forall|j: int| 0 <= j < ms.len() implies distance(ms[last], t) <= #[trigger] distance(ms[j], t) by {
                if j < last {
                    assert(distance(p[k0], t) <= distance(p[j], t));
                }
            }
            assert forall|j: int| 0 <= j < last implies distance(ms[last], t) < #[trigger] distance(ms[j], t) by {
                assert(distance(p[k0], t) <= distance(p[j], t));
            }
            last
        } else {
            assert forall|j: int| 0 <= j < ms.len() implies distance(ms[k0], t) <= #[trigger] distance(ms[j], t) by {
                if j < last {
                    assert(distance(p[k0], t) <= distance(p[j], t));
                }
            }
            assert forall|j: int| 0 <= j < k0 implies distance(ms[k0], t) < #[trigger] distance(ms[j], t) by {
                assert(distance(p[k0], t) < distance(p[j], t));
            }
            k0
        }
    }
}

/// Among a non-empty list of versions exactly one is the first whose
/// pixels lie closest to `t`: the one automatic version selection points
/// at. Every version lies at least as far from `t`, and every version
/// before it lies farther.
pub proof fn law_first_closest_unique(ms: Seq<Media>, t: int, k: int)
    requires
        ms.len() > 0,
    ensures
        is_first_closest(ms, t, first_closest(ms, t)),
        is_first_closest(ms, t, k) ==> k == first_closest(ms, t),
{
    let w = lemma_first_closest_exists(ms, t);
    let c = first_closest(ms, t);
    assert(is_first_closest(ms, t, c));
    if is_first_closest(ms, t, k) {
        if k < c {
            assert(distance(ms[c], t) < distance(ms[k], t));
        } else if k > c {
            assert(distance(ms[k], t) < distance(ms[c], t));
        }
    }
}

/// A list of collection ids: digits, minus signs and commas only.
pub open spec fn id_list(s: Seq<char>) -> bool {
    forall|i: int| 0 <= i < s.len() ==> #[trigger] s[i] == ',' || s[i] == '-' || crate::text::is_digit(s[i])
}

/// The ids of the key of a hub that mixes two hubs are those of the two
/// keys, left first, joined by a comma; so mixing a third hub into a mixed
/// one adds its ids at the end of the same list.
pub proof fn law_merged_key_ids(l: Seq<char>, r: Seq<char>)
    requires
        id_list(bare_collection_key(l)),
        id_list(bare_collection_key(r)),
    ensures
        bare_collection_key(merged_children_key(l, r)) == bare_collection_key(l) + ","@ + bare_collection_key(r),
        id_list(bare_collection_key(merged_children_key(l, r))),
{
    reveal_strlit("/replex/library/collections/");
    reveal_strlit("/hubs/library/collections/");
    reveal_strlit("/library/collections/");
    reveal_strlit("/children");
    reveal_strlit(",");
    reveal_strlit("");
    let rp = "/replex/library/collections/"@;
    let hp = "/hubs/library/collections/"@;
    let lp = "/library/collections/"@;
    let ch = "/children"@;
    let e = ""@;
    let ids = bare_collection_key(l) + ","@ + bare_collection_key(r);
    assert(id_list(ids)) by {
        assert forall|i: int| 0 <= i < ids.len() implies #[trigger] ids[i] == ',' || ids[i] == '-' || crate::text::is_digit(ids[i]) by {
            let bl = bare_collection_key(l);
            if i < bl.len() {
                assert(ids[i] == bl[i]);
            } else if i > bl.len() {
                assert(ids[i] == bare_collection_key(r)[i - bl.len() - 1]);
            }
        }
    }
    assert forall|i: int| 0 <= i < ids.len() implies ids[i] != '/' by {
        assert(ids[i] == ',' || ids[i] == '-' || crate::text::is_digit(ids[i]));
    }
    let m = merged_children_key(l, r);
    assert(m =~= rp + (ids + ch));
    lemma_replace_all_prefix(rp, e, ids + ch);
    assert(e + (ids + ch) =~= ids + ch);
    lemma_replace_all_skips(ids, rp, e, ch);
    lemma_replace_all_short(ch, rp, e);
    lemma_replace_all_skips(ids, hp, e, ch);
    lemma_replace_all_short(ch, hp, e);
    lemma_replace_all_skips(ids, lp, e, ch);
    lemma_replace_all_short(ch, lp, e);
    lemma_replace_all_skips(ids, ch, e, ch);
    assert(ch =~= ch + Seq::<char>::empty());
    lemma_replace_all_prefix(ch, e, Seq::<char>::empty());
    assert(replace_all(Seq::<char>::empty(), ch, e) =~= Seq::<char>::empty());
    assert(e + Seq::<char>::empty() =~= Seq::<char>::empty());
    assert(ids + Seq::<char>::empty() =~= ids);
    assert(bare_collection_key(m) == ids);
}

proof fn lemma_strip_segment(p: Seq<char>, seg: Seq<char>)
    requires
        forall|k: int| 0 <= k < seg.len() ==> seg[k] != '/',
    ensures
        strip_last_segment(p + seq!['/'] + seg) == p,
    decreases seg.len(),
{
    let q = p + seq!['/'] + seg;
    if seg.len() == 0 {
        assert(q.drop_last() =~= p);
    } else {
        assert(q.last() == seg.last());
        assert(q.drop_last() =~= p + seq!['/'] + seg.drop_last());
        lemma_strip_segment(p, seg.drop_last());
    }
}

/// With the last segment stripped, two requests whose paths differ only in
/// their last segment (where a token may stand) have one cache key.
pub proof fn law_key_ignores_last_segment(
    i: RequestIssuer,
    r1: RequestParts,
    r2: RequestParts,
    p: Seq<char>,
    seg1: Seq<char>,
    seg2: Seq<char>,
)
    requires
        i.path_strip_last_segment,
        r2 == (RequestParts { path: r2.path, ..r1 }),
        r1.path@ == p + seq!['/'] + seg1,
        r2.path@ == p + seq!['/'] + seg2,
        forall|k: int| 0 <= k < seg1.len() ==> seg1[k] != '/',
        forall|k: int| 0 <= k < seg2.len() ==> seg2[k] != '/',
    ensures
        cache_key(i, r1) == cache_key(i, r2),
{
    lemma_strip_segment(p, seg1);
    lemma_strip_segment(p, seg2);
}

/// The answer a cache holds for the cover art of an art guid, if any.
pub open spec fn cached_cover(cache: Map<Seq<char>, Option<Seq<char>>>, guid: Seq<char>) -> Option<Option<Seq<char>>> {
    if cache.contains_key(guid + ":cover_art"@) {
        Some(cache[guid + ":cover_art"@])
    } else {
        None
    }
}

/// A cover-art lookup leaves its answer in the cache under the art guid,
/// whether art was found or not, so a later lookup of that guid is
/// answered from the cache with the same answer.
pub proof fn law_cover_art_cached(cache: Map<Seq<char>, Option<Seq<char>>>, guid: Seq<char>, reply: Option<Seq<MetaData>>)
    ensures
        cached_cover(
            cache.insert(cover_art_outcome(guid, reply).1.0, cover_art_outcome(guid, reply).1.1),
            guid,
        ) == Some(cover_art_outcome(guid, reply).0),
{
}

/// A hub is shown as hero when some configured, non-empty hero row occurs
/// anywhere in its identifier (at any position `i`, not only at its start
/// or end), whatever else is known of it.
pub proof fn law_hero_row_anywhere(x: MetaData, config: Config, data: PlexData, k: int, i: int)
    requires
        x.hub_identifier is Some,
        config.hero_rows is Some,
        0 <= k < config.hero_rows->0@.len(),
        config.hero_rows->0@[k]@.len() > 0,
        0 <= i,
        i + config.hero_rows->0@[k]@.len() <= x.hub_identifier->0@.len(),
        x.hub_identifier->0@.subrange(i, i + config.hero_rows->0@[k]@.len()) == config.hero_rows->0@[k]@,
    ensures
        hero_decision(x, config, data) == Ok::<bool, crate::transform::TransformError>(true),
{
    assert(crate::text::occurs_at(x.hub_identifier->0@, config.hero_rows->0@[k]@, i));
}

/// A hub that is no collection hub and in whose identifier no configured,
/// non-empty hero row occurs at any position is not shown as hero; neither
/// is an item that is no hub.
pub proof fn law_hero_needs_row_or_label(x: MetaData, config: Config, data: PlexData)
    requires
        !x.is_collection_hub_spec(),
        x.hub_identifier is Some && config.hero_rows is Some ==> forall|k: int, i: int|
            0 <= k < config.hero_rows->0@.len() && config.hero_rows->0@[k]@.len() > 0 ==> !(
            #[trigger] crate::text::occurs_at(x.hub_identifier->0@, config.hero_rows->0@[k]@, i)),
    ensures
        hero_decision(x, config, data) == Ok::<bool, crate::transform::TransformError>(false),
{
    if x.hub_identifier is Some && config.hero_rows is Some {
        let rows = config.hero_rows->0@;
        let id = x.hub_identifier->0@;
        assert forall|k: int| 0 <= k < rows.len() && rows[k]@.len() > 0 implies !crate::text::has_infix(id, #[trigger] rows[k]@) by {
            if crate::text::has_infix(id, rows[k]@) {
                let i = choose|i: int| #[trigger] crate::text::occurs_at(id, rows[k]@, i);
                assert(!crate::text::occurs_at(id, rows[k]@, i));
            }
        }
    }
}

/// How each client shows a hero hub: iOS and tvOS take the cover art as art
/// and not as thumbnail, in a mixed hero; Android shows clips with the cover
/// art as both, in hero style only on a TV (a product naming `(tv)`); every
/// other platform gets a mixed hero with the cover art as thumbnail only.
pub proof fn law_client_hero_styles(ctx: PlexContext)
    ensures
        (ctx.platform == Platform::Ios || ctx.platform == Platform::TvOS) ==> hero_style_of(ctx) == (
            true,
            "mixed"@,
            Some("hero"@),
            None::<Seq<char>>,
            false,
            true,
        ),
        ctx.platform == Platform::Android ==> {
            let st = hero_style_of(ctx);
            let product = match ctx.product {
                Some(p) => p@,
                None => Seq::<char>::empty(),
            };
            &&& st.0 && st.1 == "clip"@ && st.3 == Some("clip"@) && st.4 && st.5
            &&& st.2 == (if crate::text::has_infix(crate::text::lowercase(product), "(tv)"@) {
                Some("hero"@)
            } else {
                None
            })
        },
        !(ctx.platform == Platform::Ios || ctx.platform == Platform::TvOS || ctx.platform == Platform::Android)
            ==> hero_style_of(ctx) == (true, "mixed"@, Some("hero"@), None::<Seq<char>>, true, false),
{
}

} // verus!
