//! The decisions on playback requests: forcing maximum quality, choosing a
//! version of a movie, and falling back to another version when Plex would
//! transcode the one asked for.
use vstd::prelude::*;
use crate::config::Config;
use crate::models::{Media, MediaContainer, PlexContext, Resolution, Stream};
use crate::query::{QueryPair, first_value, get, has_name, pairs_view, remove, set_param, with_param, without_name, contains_key, insert, lemma_with_param_reads, lemma_first_value_without};
use crate::text::{
    has_infix, int_text, join, join_with, lowercase, owned, parse_signed, parse_unsigned, same_text, split_char,
    split_on, texts, to_lowercase, i64_text, usize_text, parse_i64, parse_usize, contains,
};
use super::RouteError;

verus! {

pub type Pairs = Seq<(Seq<char>, Seq<char>)>;

/// The request limits the video bitrate.
pub open spec fn limits_bitrate(ps: Pairs) -> bool {
    has_name(ps, "maxVideoBitrate"@) || has_name(ps, "videoBitrate"@)
}

/// A piece of the client profile extra that stays: one that adds no
/// limitation and names no video bitrate.
pub open spec fn keeps_profile_part(p: Seq<char>) -> bool {
    !has_infix(p, "add-limitation"@) && !has_infix(lowercase(p), "name=video.bitrate"@)
}

pub open spec fn profile_part_pred() -> spec_fn(Seq<char>) -> bool {
    |p: Seq<char>| keeps_profile_part(p)
}

/// The client profile extra without the pieces that limit quality.
pub open spec fn filtered_extra(extra: Seq<char>) -> Seq<char> {
    join_with(split_on(extra, '+').filter(profile_part_pred()), "+"@)
}

/// The query of a transcode request forced to maximum quality: no bitrate
/// limit, no automatic quality, direct stream and play, quality 100, a
/// whole media buffer size, and a client profile extra without quality
/// limits.
pub open spec fn max_quality_query(ps: Pairs, buffer: Option<i64>) -> Pairs {
    let q1 = without_name(without_name(ps, "maxVideoBitrate"@), "videoBitrate"@);
    let q2 = with_param(q1, "autoAdjustQuality"@, "0"@);
    let q3 = with_param(q2, "directStream"@, "1"@);
    let q4 = with_param(q3, "directPlay"@, "1"@);
    let q5 = with_param(q4, "videoQuality"@, "100"@);
    let q6 = if has_name(q5, "mediaBufferSize"@) {
        with_param(q5, "mediaBufferSize"@, int_text(buffer->0 as int))
    } else {
        q5
    };
    match first_value(q6, "X-Plex-Client-Profile-Extra"@) {
        Some(extra) => with_param(q6, "X-Plex-Client-Profile-Extra"@, filtered_extra(extra)),
        None => q6,
    }
}

/// The client profile extra without quality limits (see `filtered_extra`).
pub fn filter_profile_extra(extra: &str) -> (r: String)
    ensures
        r@ == filtered_extra(extra@),
{
    let pieces = split_char(extra, '+');
    let ghost ps = split_on(extra@, '+');
    let mut kept: Vec<String> = Vec::new();
    let mut i: usize = 0;
    proof {
        reveal(Seq::filter);
    }
    assert(ps.take(0).filter(profile_part_pred()) =~= Seq::<Seq<char>>::empty());
    while i < pieces.len()
        invariant
            i <= pieces@.len(),
            texts(pieces@) == ps,
            texts(kept@) == ps.take(i as int).filter(profile_part_pred()),
        decreases pieces.len() - i,
    {
        proof {
            assert(ps[i as int] == pieces@[i as int]@);
            assert(ps.take(i + 1) == ps.take(i as int).push(ps[i as int]));
            ps.take(i as int).lemma_filter_push(ps[i as int], profile_part_pred());
        }
        let p = &pieces[i];
        let lower = to_lowercase(p.as_str());
        if !contains(p.as_str(), "add-limitation") && !contains(lower.as_str(), "name=video.bitrate") {
            let ghost k0 = kept@;
            kept.push(p.clone());
            assert(texts(kept@) =~= texts(k0).push(p@));
        }
        i = i + 1;
    }
    assert(ps.take(i as int) == ps);
    join(&kept, "+")
}

/// Forces a transcode request to maximum quality (see `max_quality_query`);
/// a request without bitrate limit is left alone (`None`). `buffer_size` is
/// the whole number the first `mediaBufferSize` value reads as.
pub fn force_maximum_quality(queries: Vec<QueryPair>, buffer_size: Option<i64>) -> (r: Option<Vec<QueryPair>>)
    requires
        has_name(pairs_view(queries@), "mediaBufferSize"@) ==> buffer_size is Some,
    ensures
        !limits_bitrate(pairs_view(queries@)) ==> r is None,
        limits_bitrate(pairs_view(queries@)) ==> r is Some && pairs_view(r->0@) == max_quality_query(
            pairs_view(queries@),
            buffer_size,
        ),
{
    if !contains_key(&queries, "maxVideoBitrate") && !contains_key(&queries, "videoBitrate") {
        return None;
    }
    let ghost ps = pairs_view(queries@);
    let mut q = queries;
    let _ = remove(&mut q, "maxVideoBitrate");
    let _ = remove(&mut q, "videoBitrate");
    set_param(&mut q, "autoAdjustQuality", owned("0"));
    set_param(&mut q, "directStream", owned("1"));
    set_param(&mut q, "directPlay", owned("1"));
    set_param(&mut q, "videoQuality", owned("100"));
    proof {
        reveal_strlit("mediaBufferSize");
        reveal_strlit("maxVideoBitrate");
        reveal_strlit("videoBitrate");
        reveal_strlit("autoAdjustQuality");
        reveal_strlit("directStream");
        reveal_strlit("directPlay");
        reveal_strlit("videoQuality");
        assert("mediaBufferSize"@[1] != "maxVideoBitrate"@[1]);
        assert("mediaBufferSize"@.len() != "videoBitrate"@.len());
        assert("mediaBufferSize"@.len() != "autoAdjustQuality"@.len());
        assert("mediaBufferSize"@.len() != "directStream"@.len());
        assert("mediaBufferSize"@.len() != "directPlay"@.len());
        assert("mediaBufferSize"@.len() != "videoQuality"@.len());
        let q1 = without_name(without_name(ps, "maxVideoBitrate"@), "videoBitrate"@);
        lemma_first_value_without(ps, "maxVideoBitrate"@, "mediaBufferSize"@);
        lemma_first_value_without(without_name(ps, "maxVideoBitrate"@), "videoBitrate"@, "mediaBufferSize"@);
        let q2 = with_param(q1, "autoAdjustQuality"@, "0"@);
        let q3 = with_param(q2, "directStream"@, "1"@);
        let q4 = with_param(q3, "directPlay"@, "1"@);
        lemma_with_param_reads(q1, "autoAdjustQuality"@, "0"@, "mediaBufferSize"@);
        lemma_with_param_reads(q2, "directStream"@, "1"@, "mediaBufferSize"@);
        lemma_with_param_reads(q3, "directPlay"@, "1"@, "mediaBufferSize"@);
        lemma_with_param_reads(q4, "videoQuality"@, "100"@, "mediaBufferSize"@);
    }
    let ghost q5 = pairs_view(q@);
    assert(q5 == with_param(
        with_param(
            with_param(
                with_param(without_name(without_name(ps, "maxVideoBitrate"@), "videoBitrate"@), "autoAdjustQuality"@, "0"@),
                "directStream"@,
                "1"@,
            ),
            "directPlay"@,
            "1"@,
        ),
        "videoQuality"@,
        "100"@,
    ));
    assert(has_name(q5, "mediaBufferSize"@) == has_name(ps, "mediaBufferSize"@));
    if contains_key(&q, "mediaBufferSize") {
        let _ = remove(&mut q, "mediaBufferSize");
        let b = match buffer_size {
            Some(b) => b,
            None => 0,
        };
        insert(&mut q, "mediaBufferSize", i64_text(b));
        assert(pairs_view(q@) == with_param(q5, "mediaBufferSize"@, int_text(buffer_size->0 as int)));
    }
    match get(&q, "X-Plex-Client-Profile-Extra") {
        Some(extra) => {
            let filtered = filter_profile_extra(extra.as_str());
            set_param(&mut q, "X-Plex-Client-Profile-Extra", filtered);
        },
        None => {},
    }
    Some(q)
}

/// The version a request asks for: `mediaIndex`, with `-1` or none meaning
/// the first. Fails when it does not read as an index.
pub open spec fn media_index_of(ps: Pairs) -> Result<int, RouteError> {
    match first_value(ps, "mediaIndex"@) {
        None => Ok(0),
        Some(v) => if v == "-1"@ {
            Ok(0)
        } else {
            match parse_unsigned(v, usize::MAX as int) {
                Some(n) => Ok(n),
                None => Err(RouteError::BadNumber),
            }
        },
    }
}

/// Reads the version a request asks for (see `media_index_of`).
pub fn media_index(queries: &Vec<QueryPair>) -> (r: Result<usize, RouteError>)
    ensures
        match r {
            Ok(n) => media_index_of(pairs_view(queries@)) == Ok::<int, RouteError>(n as int),
            Err(e) => media_index_of(pairs_view(queries@)) == Err::<int, RouteError>(e),
        },
{
    match get(queries, "mediaIndex") {
        None => Ok(0),
        Some(v) => if same_text(v.as_str(), "-1") {
            Ok(0)
        } else {
            match parse_usize(v.as_str()) {
                Some(n) => Ok(n),
                None => Err(RouteError::BadNumber),
            }
        },
    }
}

/// The versions of the first item of an answer. Fails when it has no item.
pub fn item_media(item: &MediaContainer) -> (r: Result<&Vec<Media>, RouteError>)
    ensures
        match r {
            Ok(m) => item.metadata@.len() > 0 && *m == item.metadata@[0].media,
            Err(e) => item.metadata@.len() == 0 && e == RouteError::MissingMedia,
        },
{
    if item.metadata.len() == 0 {
        return Err(RouteError::MissingMedia);
    }
    Ok(&item.metadata[0].media)
}

/// The item a request for maximum quality must look at to force direct
/// play: the one its `path` names, when direct play is forced for some
/// resolutions.
pub fn direct_play_item_path(config: &Config, queries: &Vec<QueryPair>) -> (r: Option<String>)
    ensures
        match r {
            Some(p) => config.force_direct_play_for is Some && first_value(pairs_view(queries@), "path"@) == Some(p@),
            None => config.force_direct_play_for is None || first_value(pairs_view(queries@), "path"@) is None,
        },
{
    if config.force_direct_play_for.is_none() {
        return None;
    }
    get(queries, "path")
}

pub open spec fn same_resolution(video_resolution: Option<String>, reso: Seq<char>) -> bool {
    video_resolution is Some && lowercase(video_resolution->0@) == lowercase(reso)
}

/// The query after forcing direct play for each configured resolution in
/// turn that the version has: direct play on, no video resolution.
pub open spec fn direct_play_query(ps: Pairs, resos: Seq<Seq<char>>, video_resolution: Option<String>) -> Pairs
    decreases resos.len(),
{
    if resos.len() == 0 {
        ps
    } else {
        let p = direct_play_query(ps, resos.drop_last(), video_resolution);
        if same_resolution(video_resolution, resos.last()) {
            without_name(with_param(p, "directPlay"@, "1"@), "videoResolution"@)
        } else {
            p
        }
    }
}

/// Forces direct play for a version whose resolution is configured (see
/// `direct_play_query`).
pub fn force_direct_play(queries: &mut Vec<QueryPair>, resos: &Vec<String>, media: &Media)
    ensures
        pairs_view(final(queries)@) == direct_play_query(pairs_view(old(queries)@), texts(resos@), media.video_resolution),
{
    let ghost ps = pairs_view(queries@);
    let mut i: usize = 0;
    assert(texts(resos@).take(0) =~= Seq::<Seq<char>>::empty());
    while i < resos.len()
        invariant
            i <= resos@.len(),
            pairs_view(queries@) == direct_play_query(ps, texts(resos@).take(i as int), media.video_resolution),
        decreases resos.len() - i,
    {
        proof {
            assert(texts(resos@).take(i + 1).drop_last() == texts(resos@).take(i as int));
            assert(texts(resos@).take(i + 1).last() == resos@[i as int]@);
        }
        match &media.video_resolution {
            Some(vr) => {
                let a = to_lowercase(vr.as_str());
                let b = to_lowercase(resos[i].as_str());
                if same_text(a.as_str(), b.as_str()) {
                    set_param(queries, "directPlay", owned("1"));
                    let _ = remove(queries, "videoResolution");
                }
            },
            None => {},
        }
        i = i + 1;
    }
    assert(texts(resos@).take(i as int) == texts(resos@));
}

/// The bitrate a request asks for: `videoBitrate`, else `maxVideoBitrate`.
/// Fails when the one read is no `i64`.
pub open spec fn requested_bitrate_of(ps: Pairs) -> Result<Option<int>, RouteError> {
    let v = if has_name(ps, "videoBitrate"@) {
        first_value(ps, "videoBitrate"@)
    } else {
        first_value(ps, "maxVideoBitrate"@)
    };
    match v {
        None => Ok(None),
        Some(t) => match parse_signed(t, i64::MIN as int, i64::MAX as int) {
            Some(n) => Ok(Some(n)),
            None => Err(RouteError::BadNumber),
        },
    }
}

/// Reads the bitrate a request asks for (see `requested_bitrate_of`).
pub fn requested_bitrate(queries: &Vec<QueryPair>) -> (r: Result<Option<i64>, RouteError>)
    ensures
        match r {
            Ok(Some(n)) => requested_bitrate_of(pairs_view(queries@)) == Ok::<Option<int>, RouteError>(Some(n as int)),
            Ok(None) => requested_bitrate_of(pairs_view(queries@)) == Ok::<Option<int>, RouteError>(None),
            Err(e) => requested_bitrate_of(pairs_view(queries@)) == Err::<Option<int>, RouteError>(e),
        },
{
    let v = match get(queries, "videoBitrate") {
        Some(v) => Some(v),
        None => get(queries, "maxVideoBitrate"),
    };
    match v {
        None => Ok(None),
        Some(t) => match parse_i64(t.as_str()) {
            Some(n) => Ok(Some(n)),
            None => Err(RouteError::BadNumber),
        },
    }
}

/// The pixels of a version.
pub open spec fn density(m: Media) -> int {
    m.height->0 * m.width->0
}

/// The pixels of a screen.
pub open spec fn screen_density(r: Resolution) -> int {
    r.height * r.width
}

/// How far the pixels of a version lie from `t`.
pub open spec fn distance(m: Media, t: int) -> int {
    if density(m) < t {
        t - density(m)
    } else {
        density(m) - t
    }
}

pub open spec fn has_dimensions(ms: Seq<Media>) -> bool {
    forall|i: int| 0 <= i < ms.len() ==> (#[trigger] ms[i]).height is Some && ms[i].width is Some
}

/// `k` is the first version whose pixels lie closest to `t`.
pub open spec fn is_first_closest(ms: Seq<Media>, t: int, k: int) -> bool {
    &&& 0 <= k < ms.len()
    &&& forall|j: int| 0 <= j < ms.len() ==> distance(ms[k], t) <= #[trigger] distance(ms[j], t)
    &&& forall|j: int| 0 <= j < k ==> distance(ms[k], t) < #[trigger] distance(ms[j], t)
}

pub open spec fn first_closest(ms: Seq<Media>, t: int) -> int {
    choose|k: int| is_first_closest(ms, t, k)
}

/// The query after pointing at version `id` wherever it stands: the place
/// as `mediaIndex`, direct play when no bitrate is asked for, automatic
/// subtitles.
pub open spec fn select_query(ps: Pairs, ms: Seq<Media>, id: i64, no_bitrate: bool) -> Pairs
    decreases ms.len(),
{
    if ms.len() == 0 {
        ps
    } else {
        let p = select_query(ps, ms.drop_last(), id, no_bitrate);
        if ms.last().id == id {
            let q1 = with_param(p, "mediaIndex"@, int_text(ms.len() - 1));
            let q2 = if no_bitrate {
                with_param(q1, "directPlay"@, "1"@)
            } else {
                q1
            };
            with_param(q2, "subtitles"@, "auto"@)
        } else {
            p
        }
    }
}

/// The item whose versions automatic selection looks at: the one the
/// request's `path` names, when the client names no version and reports a
/// screen resolution.
pub open spec fn auto_select_path(ps: Pairs, context: PlexContext) -> Option<Seq<char>> {
    if first_value(ps, "mediaIndex"@) is Some && first_value(ps, "mediaIndex"@)->0 != "-1"@ {
        None
    } else if context.screen_resolution@.len() == 0 {
        None
    } else {
        first_value(ps, "path"@)
    }
}

/// Whether a request gets a version chosen, and for which item (see
/// `auto_select_path`).
pub fn auto_select_start(queries: &Vec<QueryPair>, context: &PlexContext) -> (r: Option<String>)
    ensures
        match r {
            Some(p) => auto_select_path(pairs_view(queries@), *context) == Some(p@),
            None => auto_select_path(pairs_view(queries@), *context) is None,
        },
{
    match get(queries, "mediaIndex") {
        Some(v) => if !same_text(v.as_str(), "-1") {
            return None;
        },
        None => {},
    }
    if context.screen_resolution.len() == 0 {
        return None;
    }
    get(queries, "path")
}

/// Why a version cannot be chosen: a bitrate that reads as no number, or a
/// version without height or width.
pub open spec fn auto_select_error(ps: Pairs, ms: Seq<Media>) -> Option<RouteError> {
    if ms.len() <= 1 {
        None
    } else {
        match requested_bitrate_of(ps) {
            Err(e) => Some(e),
            Ok(_) => if !has_dimensions(ms) {
                Some(RouteError::MissingMedia)
            } else {
                None
            },
        }
    }
}

/// Chooses, when an item has more than one version, the first version whose
/// pixels lie closest to those of the client's screen `screen` (see
/// `select_query`); `None` leaves the request as it is.
pub fn auto_select_version(queries: Vec<QueryPair>, media: &Vec<Media>, screen: &Resolution) -> (r: Result<Option<Vec<QueryPair>>, RouteError>)
    ensures
        match r {
            Err(e) => auto_select_error(pairs_view(queries@), media@) == Some(e),
            Ok(None) => auto_select_error(pairs_view(queries@), media@) is None && media@.len() <= 1,
            Ok(Some(q)) => auto_select_error(pairs_view(queries@), media@) is None && media@.len() > 1
                && pairs_view(q@) == select_query(
                    pairs_view(queries@),
                    media@,
                    media@[first_closest(media@, screen_density(*screen))].id,
                    requested_bitrate_of(pairs_view(queries@)) == Ok::<Option<int>, RouteError>(None),
                ),
        },
{
    if media.len() <= 1 {
        return Ok(None);
    }
    let bitrate = match requested_bitrate(&queries) {
        Ok(b) => b,
        Err(e) => return Err(e),
    };
    let k = match closest_index(media, screen) {
        Some(k) => k,
        None => return Err(RouteError::MissingMedia),
    };
    let id = media[k].id;
    let ghost ps = pairs_view(queries@);
    let no_bitrate = bitrate.is_none();
    let mut q = queries;
    let mut i: usize = 0;
    assert(media@.take(0) =~= Seq::<Media>::empty());
    while i < media.len()
        invariant
            i <= media@.len(),
            pairs_view(q@) == select_query(ps, media@.take(i as int), id, no_bitrate),
        decreases media.len() - i,
    {
        proof {
            assert(media@.take(i + 1).drop_last() == media@.take(i as int));
            assert(media@.take(i + 1).last() == media@[i as int]);
        }
        if media[i].id == id {
            set_param(&mut q, "mediaIndex", usize_text(i));
            if no_bitrate {
                set_param(&mut q, "directPlay", owned("1"));
            }
            set_param(&mut q, "subtitles", owned("auto"));
        }
        i = i + 1;
    }
    assert(media@.take(i as int) == media@);
    Ok(Some(q))
}

/// The product of a height and a width, which an `i128` always holds.
fn area(h: i64, w: i64) -> (r: i128)
    ensures
        r == h * w,
        -0x3fff_ffff_ffff_ffff_8000_0000_0000_0000 <= r <= 0x4000_0000_0000_0000_0000_0000_0000_0000,
{
    let a = h as i128;
    let b = w as i128;
    assert(-0x3fff_ffff_ffff_ffff_8000_0000_0000_0000 <= a * b <= 0x4000_0000_0000_0000_0000_0000_0000_0000) by (nonlinear_arith)
        requires
            -0x8000_0000_0000_0000 <= a <= 0x7fff_ffff_ffff_ffff,
            -0x8000_0000_0000_0000 <= b <= 0x7fff_ffff_ffff_ffff,
    ;
    a * b
}

/// The pixels of a version that has height and width.
fn pixels(m: &Media) -> (r: i128)
    requires
        m.height is Some && m.width is Some,
    ensures
        r == density(*m),
        -0x3fff_ffff_ffff_ffff_8000_0000_0000_0000 <= r <= 0x4000_0000_0000_0000_0000_0000_0000_0000,
{
    area(m.height.unwrap(), m.width.unwrap())
}

/// How far pixels `d` lie from pixels `t`.
fn gap(d: i128, t: i128) -> (r: i128)
    requires
        -0x3fff_ffff_ffff_ffff_8000_0000_0000_0000 <= d <= 0x4000_0000_0000_0000_0000_0000_0000_0000,
        -0x3fff_ffff_ffff_ffff_8000_0000_0000_0000 <= t <= 0x4000_0000_0000_0000_0000_0000_0000_0000,
    ensures
        r == (if d < t { t - d } else { d - t }),
{
    if d < t {
        t - d
    } else {
        d - t
    }
}

/// The first version whose pixels lie closest to those of `screen` (see
/// `is_first_closest`); `None` when some version lacks height or width.
pub fn closest_index(media: &Vec<Media>, screen: &Resolution) -> (r: Option<usize>)
    requires
        media@.len() > 0,
    ensures
        match r {
            Some(k) => has_dimensions(media@) && is_first_closest(media@, screen_density(*screen), k as int)
                && first_closest(media@, screen_density(*screen)) == k as int,
            None => !has_dimensions(media@),
        },
{
    let mut i: usize = 0;
    while i < media.len()
        invariant
            i <= media@.len(),
            forall|j: int| 0 <= j < i ==> (#[trigger] media@[j]).height is Some && media@[j].width is Some,
        decreases media.len() - i,
    {
        if media[i].height.is_none() || media[i].width.is_none() {
            return None;
        }
        i = i + 1;
    }
    let t = area(screen.height, screen.width);
    let ghost tt = screen_density(*screen);
    let mut best: usize = 0;
    let mut best_g: i128 = gap(pixels(&media[0]), t);
    let mut i: usize = 1;
    while i < media.len()
        invariant
            1 <= i <= media@.len(),
            has_dimensions(media@),
            t == tt,
            -0x3fff_ffff_ffff_ffff_8000_0000_0000_0000 <= t <= 0x4000_0000_0000_0000_0000_0000_0000_0000,
            best < i,
            best_g == distance(media@[best as int], tt),
            forall|j: int| 0 <= j < i ==> best_g <= #[trigger] distance(media@[j], tt),
            forall|j: int| 0 <= j < best ==> best_g < #[trigger] distance(media@[j], tt),
        decreases media.len() - i,
    {
        let g = gap(pixels(&media[i]), t);
        if g < best_g {
            best = i;
            best_g = g;
        }
        i = i + 1;
    }
    proof {
        assert(is_first_closest(media@, tt, best as int));
        let k = first_closest(media@, tt);
        assert(is_first_closest(media@, tt, k));
        if k < best {
            assert(distance(media@[best as int], tt) < distance(media@[k], tt));
        } else if k > best {
            assert(distance(media@[k], tt) < distance(media@[best as int], tt));
        }
    }
    Some(best)
}

/// Whether Plex transcodes the video: a decision of size 0 does not;
/// otherwise the first stream of the first part of the first version of the
/// first item that is a video stream (type 1) decided as `transcode` says
/// so. Fails on a stream without type met before it, or when the answer
/// has no such part.
pub open spec fn transcoding_of(streams: Seq<Stream>) -> Result<bool, RouteError>
    decreases streams.len(),
{
    if streams.len() == 0 {
        Ok(false)
    } else {
        let s = streams[0];
        match s.stream_type {
            None => Err(RouteError::MissingMedia),
            Some(t) => if t == 1 && s.decision is Some && s.decision->0@ == "transcode"@ {
                Ok(true)
            } else {
                transcoding_of(streams.drop_first())
            },
        }
    }
}

pub open spec fn decision_streams(c: MediaContainer) -> Option<Seq<Stream>> {
    if c.metadata@.len() > 0 && c.metadata@[0].media@.len() > 0 && c.metadata@[0].media@[0].parts@.len() > 0 {
        Some(c.metadata@[0].media@[0].parts@[0].streams@)
    } else {
        None
    }
}

pub open spec fn is_transcoding_spec(c: MediaContainer) -> Result<bool, RouteError> {
    if c.size == Some(0i64) {
        Ok(false)
    } else {
        match decision_streams(c) {
            None => Err(RouteError::MissingMedia),
            Some(streams) => transcoding_of(streams),
        }
    }
}

/// Whether Plex transcodes the video of a decision (see
/// `is_transcoding_spec`).
pub fn get_transcoding_for_request(decision: &MediaContainer) -> (r: Result<bool, RouteError>)
    ensures
        r == is_transcoding_spec(*decision),
{
    if decision.size == Some(0i64) {
        return Ok(false);
    }
    if decision.metadata.len() == 0 || decision.metadata[0].media.len() == 0 || decision.metadata[0].media[0].parts.len() == 0 {
        return Err(RouteError::MissingMedia);
    }
    let streams = &decision.metadata[0].media[0].parts[0].streams;
    let mut i: usize = 0;
    assert(streams@.skip(0) == streams@);
    while i < streams.len()
        invariant
            i <= streams@.len(),
            decision.size != Some(0i64),
            decision_streams(*decision) == Some(streams@),
            transcoding_of(streams@) == transcoding_of(streams@.skip(i as int)),
        decreases streams.len() - i,
    {
        proof {
            assert(streams@.skip(i as int)[0] == streams@[i as int]);
            assert(streams@.skip(i as int).drop_first() == streams@.skip(i + 1));
        }
        match streams[i].stream_type {
            None => return Err(RouteError::MissingMedia),
            Some(t) => {
                let transcode = match &streams[i].decision {
                    Some(d) => same_text(d.as_str(), "transcode"),
                    None => false,
                };
                if t == 1 && transcode {
                    return Ok(true);
                }
            },
        }
        i = i + 1;
    }
    assert(streams@.skip(i as int).len() == 0);
    Ok(false)
}

/// `a` stands before `b` among versions ordered by pixels, most first, and
/// by their place where the pixels are the same.
pub open spec fn before_by_pixels(ms: Seq<Media>, a: int, b: int) -> bool {
    density(ms[a]) > density(ms[b]) || (density(ms[a]) == density(ms[b]) && a < b)
}

/// `order` lists the places of the versions `ms`, each once, by pixels,
/// most first (see `before_by_pixels`).
pub open spec fn ordered_by_pixels(ms: Seq<Media>, order: Seq<usize>) -> bool {
    &&& order.len() == ms.len()
    &&& forall|i: int| 0 <= i < order.len() ==> (#[trigger] order[i]) < ms.len()
    &&& forall|i: int, j: int| 0 <= i < j < order.len() ==> #[trigger] before_by_pixels(ms, order[i] as int, order[j] as int)
}

/// The places of the versions by pixels, most first (see
/// `ordered_by_pixels`).
pub fn order_by_pixels(media: &Vec<Media>) -> (r: Vec<usize>)
    requires
        has_dimensions(media@),
    ensures
        ordered_by_pixels(media@, r@),
{
    let ghost ms = media@;
    let mut order: Vec<usize> = Vec::new();
    let mut k: usize = 0;
    while k < media.len()
        invariant
            k <= ms.len(),
            ms == media@,
            has_dimensions(ms),
            order@.len() == k,
            forall|i: int| 0 <= i < order@.len() ==> (#[trigger] order@[i]) < k,
            forall|i: int, j: int| 0 <= i < j < order@.len() ==> #[trigger] before_by_pixels(ms, order@[i] as int, order@[j] as int),
        decreases media.len() - k,
    {
        let dk = pixels(&media[k]);
        let mut p: usize = 0;
        while p < order.len() && pixels(&media[order[p]]) >= dk
            invariant
                p <= order@.len(),
                k < ms.len(),
                ms == media@,
                has_dimensions(ms),
                dk == density(ms[k as int]),
                forall|i: int| 0 <= i < order@.len() ==> (#[trigger] order@[i]) < k,
                forall|i: int| 0 <= i < p ==> density(ms[(#[trigger] order@[i]) as int]) >= dk,
            decreases order@.len() - p,
        {
            p = p + 1;
        }
        let ghost o0 = order@;
        proof {
            assert forall|i: int| p <= i < o0.len() implies density(ms[(#[trigger] o0[i]) as int]) < dk by {
                if i > p {
                    assert(before_by_pixels(ms, o0[p as int] as int, o0[i] as int));
                }
            }
        }
        order.insert(p, k);
        proof {
            assert forall|i: int, j: int| 0 <= i < j < order@.len() implies #[trigger] before_by_pixels(ms, order@[i] as int, order@[j] as int) by {
                if i < p && j < p {
                    assert(order@[i] == o0[i] && order@[j] == o0[j]);
                } else if i < p && j == p {
                    assert(order@[i] == o0[i]);
                } else if i < p && j > p {
                    assert(order@[i] == o0[i] && order@[j] == o0[j - 1]);
                } else if i == p {
                    assert(order@[j] == o0[j - 1]);
                } else {
                    assert(order@[i] == o0[i - 1] && order@[j] == o0[j - 1]);
                    assert(before_by_pixels(ms, o0[i - 1] as int, o0[j - 1] as int));
                }
            }
            assert forall|i: int| 0 <= i < order@.len() implies (#[trigger] order@[i]) < k + 1 by {
                if i < p {
                    assert(order@[i] == o0[i]);
                } else if i > p {
                    assert(order@[i] == o0[i - 1]);
                }
            }
        }
        k = k + 1;
    }
    order
}

/// The ids of the versions without `id`.
pub open spec fn other_than(id: i64) -> spec_fn(i64) -> bool {
    |x: i64| x != id
}

pub open spec fn without_id(avail: Seq<i64>, id: i64) -> Seq<i64> {
    avail.filter(other_than(id))
}

fn remove_id(avail: Vec<i64>, id: i64) -> (r: Vec<i64>)
    ensures
        r@ == without_id(avail@, id),
{
    let mut out: Vec<i64> = Vec::new();
    let mut i: usize = 0;
    proof {
        reveal(Seq::filter);
    }
    assert(avail@.take(0).filter(other_than(id)) =~= Seq::<i64>::empty());
    while i < avail.len()
        invariant
            i <= avail@.len(),
            out@ == avail@.take(i as int).filter(other_than(id)),
        decreases avail.len() - i,
    {
        proof {
            assert(avail@.take(i + 1) == avail@.take(i as int).push(avail@[i as int]));
            avail@.take(i as int).lemma_filter_push(avail@[i as int], other_than(id));
        }
        if avail[i] != id {
            out.push(avail[i]);
        }
        i = i + 1;
    }
    assert(avail@.take(i as int) == avail@);
    out
}

pub open spec fn res_is(m: Media, ff: Seq<char>) -> bool {
    lowercase(m.video_resolution->0@) == ff
}

/// The next fallback at or after place `from` of `order`: a version still
/// available that, when the request limits the bitrate, has not the
/// resolution that falls back. Fails on a version without resolution met
/// where its resolution is read.
pub open spec fn next_fallback(
    ms: Seq<Media>,
    order: Seq<usize>,
    avail: Seq<i64>,
    from: int,
    limited: bool,
    ff: Seq<char>,
) -> Result<Option<int>, RouteError>
    decreases order.len() - from,
{
    if from < 0 || from >= order.len() {
        Ok(None)
    } else {
        let m = ms[order[from] as int];
        if !avail.contains(m.id) {
            next_fallback(ms, order, avail, from + 1, limited, ff)
        } else if limited && m.video_resolution is None {
            Err(RouteError::MissingMedia)
        } else if limited && res_is(m, ff) {
            next_fallback(ms, order, avail, from + 1, limited, ff)
        } else {
            Ok(Some(from))
        }
    }
}

/// The query pointing at the fallback at place `pos` of the order: that
/// place as `mediaIndex`, direct stream, direct play when no bitrate is
/// asked for, automatic subtitles.
pub open spec fn fallback_query(ps: Pairs, pos: int, no_bitrate: bool) -> Pairs {
    let q1 = with_param(ps, "mediaIndex"@, int_text(pos));
    let q2 = with_param(q1, "directStream"@, "1"@);
    let q3 = if no_bitrate {
        with_param(q2, "directPlay"@, "1"@)
    } else {
        q2
    };
    with_param(q3, "subtitles"@, "auto"@)
}

/// Where the fallback to another version stands.
#[derive(Clone, Copy, Debug, PartialEq, Eq, Structural)]
pub enum FallbackPhase {
    /// The item the request names is being fetched.
    AwaitItem,
    /// Plex is asked whether the request as it came transcodes.
    AwaitFirstCheck,
    /// Plex is asked whether the fallback at this place of the order, with
    /// this id, transcodes.
    AwaitCheck(usize, i64),
    /// Nothing more is asked.
    Finished,
}

/// What the fallback asks of the proxy next.
#[derive(Debug)]
pub enum FallbackAction {
    /// Fetch the item at this key.
    FetchItem(String),
    /// Set the request's query to this and ask Plex whether it transcodes.
    CheckTranscoding(Vec<QueryPair>),
    /// Stop: set the request's query to this, or leave it as it is.
    Done(Option<Vec<QueryPair>>),
}

/// The fallback to another version of a movie when Plex would transcode
/// the one a request asks for, for the configured resolution.
#[derive(Debug)]
pub struct TranscodeFallback {
    pub phase: FallbackPhase,
    pub queries: Vec<QueryPair>,
    pub original: Vec<QueryPair>,
    /// The resolution that falls back, in lower case.
    pub fallback_for: String,
    pub media_index: usize,
    pub media: Vec<Media>,
    pub order: Vec<usize>,
    pub available: Vec<i64>,
    pub requested_bitrate: Option<i64>,
}

/// Why a fallback cannot start: no resolution falls back, or the request
/// names no item or a version that does not read as one.
pub open spec fn fallback_start_error(ps: Pairs, config: Config) -> Option<RouteError> {
    match media_index_of(ps) {
        Err(e) => Some(e),
        Ok(_) => if config.video_transcode_fallback_for is None || config.video_transcode_fallback_for->0@.len() == 0 {
            Some(RouteError::MissingParam)
        } else if first_value(ps, "path"@) is None {
            Some(RouteError::MissingParam)
        } else {
            None
        },
    }
}

/// What looking for a fallback from place `from` gives (see
/// `TranscodeFallback::scan`).
pub open spec fn scanned(s: TranscodeFallback, from: int, r: Result<(TranscodeFallback, FallbackAction), RouteError>) -> bool {
    match next_fallback(s.media@, s.order@, s.available@, from, limits_bitrate(pairs_view(s.queries@)), s.fallback_for@) {
        Err(e) => r == Err::<(TranscodeFallback, FallbackAction), RouteError>(e),
        Ok(None) => r matches Ok((f, FallbackAction::Done(Some(q)))) && pairs_view(q@) == pairs_view(s.original@)
            && f.phase == FallbackPhase::Finished,
        Ok(Some(pos)) => {
            let m = s.media@[s.order@[pos] as int];
            let q = fallback_query(pairs_view(s.queries@), pos, s.requested_bitrate is None);
            if m.video_resolution is None {
                r == Err::<(TranscodeFallback, FallbackAction), RouteError>(RouteError::MissingMedia)
            } else if !res_is(m, s.fallback_for@) {
                r matches Ok((f, FallbackAction::Done(Some(v)))) && pairs_view(v@) == q && f.phase
                    == FallbackPhase::Finished
            } else {
                r matches Ok((f, FallbackAction::CheckTranscoding(v))) && pairs_view(v@) == q && pairs_view(f.queries@)
                    == q && f.phase == FallbackPhase::AwaitCheck(pos as usize, m.id) && f.media == s.media && f.order
                    == s.order && f.available == s.available && f.original == s.original && f.fallback_for
                    == s.fallback_for && f.requested_bitrate == s.requested_bitrate
            }
        },
    }
}

impl TranscodeFallback {
    /// Starts a fallback for a transcode decision request: the item its
    /// `path` names is fetched first.
    pub fn start(queries: Vec<QueryPair>, config: &Config) -> (r: Result<(TranscodeFallback, FallbackAction), RouteError>)
        ensures
            match r {
                Err(e) => fallback_start_error(pairs_view(queries@), *config) == Some(e),
                Ok((f, a)) => {
                    &&& fallback_start_error(pairs_view(queries@), *config) is None
                    &&& f.phase == FallbackPhase::AwaitItem
                    &&& pairs_view(f.queries@) == pairs_view(queries@)
                    &&& pairs_view(f.original@) == pairs_view(queries@)
                    &&& f.fallback_for@ == lowercase(config.video_transcode_fallback_for->0@[0]@)
                    &&& media_index_of(pairs_view(queries@)) == Ok::<int, RouteError>(f.media_index as int)
                    &&& a matches FallbackAction::FetchItem(p) && first_value(pairs_view(queries@), "path"@) == Some(p@)
                },
            },
    {
        let media_index = match media_index(&queries) {
            Ok(i) => i,
            Err(e) => return Err(e),
        };
        let fallback_for = match &config.video_transcode_fallback_for {
            Some(v) => {
                if v.len() == 0 {
                    return Err(RouteError::MissingParam);
                }
                to_lowercase(v[0].as_str())
            },
            None => return Err(RouteError::MissingParam),
        };
        let path = match get(&queries, "path") {
            Some(p) => p,
            None => return Err(RouteError::MissingParam),
        };
        let original = clone_pairs(&queries);
        let f = TranscodeFallback {
            phase: FallbackPhase::AwaitItem,
            queries,
            original,
            fallback_for,
            media_index,
            media: Vec::new(),
            order: Vec::new(),
            available: Vec::new(),
            requested_bitrate: None,
        };
        Ok((f, FallbackAction::FetchItem(path)))
    }

    /// The fetched item's versions: a version that does not have the
    /// resolution that falls back plays as asked, and so does an item with
    /// one version; else Plex is asked whether the request transcodes.
    pub fn on_item(self, media: Vec<Media>) -> (r: Result<(TranscodeFallback, FallbackAction), RouteError>)
        requires
            self.phase == FallbackPhase::AwaitItem,
        ensures
            match r {
                Err(e) => {
                    ||| self.media_index >= media@.len() && e == RouteError::MissingMedia
                    ||| self.media_index < media@.len() && media@[self.media_index as int].video_resolution is None
                        && e == RouteError::MissingMedia
                    ||| self.media_index < media@.len() && media@[self.media_index as int].video_resolution is Some
                        && res_is(media@[self.media_index as int], self.fallback_for@) && media@.len() > 1
                        && requested_bitrate_of(pairs_view(self.queries@)) == Err::<Option<int>, RouteError>(e)
                },
                Ok((f, FallbackAction::Done(q))) => q is None && f.phase == FallbackPhase::Finished
                    && self.media_index < media@.len() && media@[self.media_index as int].video_resolution is Some
                    && (!res_is(media@[self.media_index as int], self.fallback_for@) || media@.len() <= 1),
                Ok((f, FallbackAction::CheckTranscoding(q))) => {
                    &&& self.media_index < media@.len()
                    &&& media@[self.media_index as int].video_resolution is Some
                    &&& res_is(media@[self.media_index as int], self.fallback_for@)
                    &&& media@.len() > 1
                    &&& f.phase == FallbackPhase::AwaitFirstCheck
                    &&& pairs_view(q@) == pairs_view(self.queries@)
                    &&& f.queries == self.queries && f.original == self.original && f.fallback_for == self.fallback_for
                    &&& f.media@ == media@
                    &&& requested_bitrate_of(pairs_view(self.queries@)) == Ok::<Option<int>, RouteError>(
                        match f.requested_bitrate {
                            Some(b) => Some(b as int),
                            None => None,
                        },
                    )
                },
                Ok((_, FallbackAction::FetchItem(_))) => false,
            },
    {
        let mut f = self;
        if f.media_index >= media.len() {
            return Err(RouteError::MissingMedia);
        }
        let res = match &media[f.media_index].video_resolution {
            Some(r) => to_lowercase(r.as_str()),
            None => return Err(RouteError::MissingMedia),
        };
        if !same_text(res.as_str(), f.fallback_for.as_str()) || media.len() <= 1 {
            f.phase = FallbackPhase::Finished;
            return Ok((f, FallbackAction::Done(None)));
        }
        let bitrate = match requested_bitrate(&f.queries) {
            Ok(b) => b,
            Err(e) => return Err(e),
        };
        let q = clone_pairs(&f.queries);
        f.requested_bitrate = bitrate;
        f.media = media;
        f.phase = FallbackPhase::AwaitFirstCheck;
        Ok((f, FallbackAction::CheckTranscoding(q)))
    }

    /// Looks for the next fallback from place `from` of the order (see
    /// `next_fallback`): one that has not the resolution that falls back is
    /// taken; one that has it is checked; without any, the request's query
    /// is set back to what it was.
    pub fn scan(self, from: usize) -> (r: Result<(TranscodeFallback, FallbackAction), RouteError>)
        requires
            ordered_by_pixels(self.media@, self.order@),
        ensures
            scanned(self, from as int, r),
    {
        let ghost s0 = self;
        let mut f = self;
        let limited = contains_key(&f.queries, "maxVideoBitrate") || contains_key(&f.queries, "videoBitrate");
        let mut pos = if from < f.order.len() {
            from
        } else {
            f.order.len()
        };
        let ghost ms = f.media@;
        let ghost order = f.order@;
        let ghost avail = f.available@;
        let ghost target = next_fallback(ms, order, avail, from as int, limited, f.fallback_for@);
        while pos < f.order.len()
            invariant
                pos <= f.order@.len(),
                f == s0,
                s0 == self,
                ms == f.media@,
                order == f.order@,
                avail == f.available@,
                ordered_by_pixels(ms, order),
                limited == limits_bitrate(pairs_view(f.queries@)),
                target == next_fallback(ms, order, avail, from as int, limited, f.fallback_for@),
                target == next_fallback(ms, order, avail, pos as int, limited, f.fallback_for@),
            ensures
                pos < f.order@.len() ==> {
                    let m = ms[order[pos as int] as int];
                    &&& avail.contains(m.id)
                    &&& limited ==> (m.video_resolution is Some && !res_is(m, f.fallback_for@))
                },
            decreases f.order@.len() - pos,
        {
            let m = &f.media[f.order[pos]];
            if contains_id(&f.available, m.id) {
                if limited {
                    let res = match &m.video_resolution {
                        Some(r) => to_lowercase(r.as_str()),
                        None => return Err(RouteError::MissingMedia),
                    };
                    if same_text(res.as_str(), f.fallback_for.as_str()) {
                        pos = pos + 1;
                        continue;
                    }
                }
                break;
            }
            pos = pos + 1;
        }
        if pos >= f.order.len() {
            f.phase = FallbackPhase::Finished;
            let q = clone_pairs(&f.original);
            return Ok((f, FallbackAction::Done(Some(q))));
        }
        let m = &f.media[f.order[pos]];
        let id = m.id;
        let res = match &m.video_resolution {
            Some(r) => to_lowercase(r.as_str()),
            None => return Err(RouteError::MissingMedia),
        };
        set_param(&mut f.queries, "mediaIndex", usize_text(pos));
        set_param(&mut f.queries, "directStream", owned("1"));
        if f.requested_bitrate.is_none() {
            set_param(&mut f.queries, "directPlay", owned("1"));
        }
        set_param(&mut f.queries, "subtitles", owned("auto"));
        let q = clone_pairs(&f.queries);
        if !same_text(res.as_str(), f.fallback_for.as_str()) {
            f.phase = FallbackPhase::Finished;
            return Ok((f, FallbackAction::Done(Some(q))));
        }
        f.phase = FallbackPhase::AwaitCheck(pos, id);
        Ok((f, FallbackAction::CheckTranscoding(q)))
    }

    /// Plex's answer to whether the request transcodes. The request as it
    /// came plays as asked when it does not; else versions are ordered by
    /// pixels and, but for the first version, looked through for a fallback.
    /// A checked fallback that does not transcode, or after which no version
    /// is left, is taken; else the look goes on after it.
    pub fn on_transcoding(self, transcoding: bool) -> (r: Result<(TranscodeFallback, FallbackAction), RouteError>)
        requires
            self.phase is AwaitFirstCheck || self.phase is AwaitCheck,
            self.phase is AwaitCheck ==> ordered_by_pixels(self.media@, self.order@),
            self.phase is AwaitFirstCheck ==> self.media@.len() > 1,
        ensures
            self.phase is AwaitFirstCheck && !transcoding ==> r matches Ok((f, FallbackAction::Done(None))),
            self.phase is AwaitFirstCheck && transcoding && !has_dimensions(self.media@) ==> r
                == Err::<(TranscodeFallback, FallbackAction), RouteError>(RouteError::MissingMedia),
            self.phase is AwaitFirstCheck && transcoding && has_dimensions(self.media@) ==> exists|g: TranscodeFallback| {
                &&& g.media == self.media && g.queries == self.queries && g.original == self.original
                &&& g.fallback_for == self.fallback_for && g.requested_bitrate == self.requested_bitrate
                &&& g.available@ == without_id(self.media@.map_values(|m: Media| m.id), self.media@[0].id)
                &&& ordered_by_pixels(g.media@, g.order@)
                &&& #[trigger] scanned(g, 0, r)
            },
            self.phase is AwaitCheck ==> {
                let avail = without_id(self.available@, self.phase->AwaitCheck_1);
                &&& !(transcoding && avail.len() > 0) ==> (r matches Ok((f, FallbackAction::Done(Some(q)))) && q@
                    == self.queries@)
                &&& (transcoding && avail.len() > 0) ==> exists|g: TranscodeFallback| {
                    &&& g.media == self.media && g.queries == self.queries && g.original == self.original
                    &&& g.fallback_for == self.fallback_for && g.requested_bitrate == self.requested_bitrate
                    &&& g.order == self.order && g.available@ == avail
                    &&& #[trigger] scanned(g, self.phase->AwaitCheck_0 + 1, r)
                }
            },
    {
        let ghost s0 = self;
        let mut f = self;
        match f.phase {
            FallbackPhase::AwaitFirstCheck => {
                if !transcoding {
                    f.phase = FallbackPhase::Finished;
                    return Ok((f, FallbackAction::Done(None)));
                }
                let mut i: usize = 0;
                while i < f.media.len()
                    invariant
                        i <= f.media@.len(),
                        f == s0,
                        s0 == self,
                        transcoding,
                        s0.phase is AwaitFirstCheck,
                        forall|j: int| 0 <= j < i ==> (#[trigger] f.media@[j]).height is Some && f.media@[j].width is Some,
                    decreases f.media.len() - i,
                {
                    if f.media[i].height.is_none() || f.media[i].width.is_none() {
                        return Err(RouteError::MissingMedia);
                    }
                    i = i + 1;
                }
                let selected = f.media[0].id;
                let mut ids: Vec<i64> = Vec::new();
                let mut i: usize = 0;
                while i < f.media.len()
                    invariant
                        i <= f.media@.len(),
                        ids@ == f.media@.take(i as int).map_values(|m: Media| m.id),
                    decreases f.media.len() - i,
                {
                    ids.push(f.media[i].id);
                    assert(f.media@.take(i + 1).map_values(|m: Media| m.id) =~= f.media@.take(i as int).map_values(|m: Media| m.id).push(f.media@[i as int].id));
                    i = i + 1;
                }
                assert(f.media@.take(f.media@.len() as int) == f.media@);
                f.available = remove_id(ids, selected);
                f.order = order_by_pixels(&f.media);
                let ghost g = f;
                let r = f.scan(0);
                assert(scanned(g, 0, r));
                r
            },
            FallbackPhase::AwaitCheck(pos, id) => {
                let avail = remove_id(f.available, id);
                f.available = avail;
                if transcoding && f.available.len() > 0 {
                    let ghost g = f;
                    let next = if pos < f.order.len() {
                        pos + 1
                    } else {
                        f.order.len()
                    };
                    let r = f.scan(next);
                    proof {
                        if pos >= g.order@.len() {
                            assert(next_fallback(g.media@, g.order@, g.available@, next as int, limits_bitrate(pairs_view(g.queries@)), g.fallback_for@)
                                == next_fallback(g.media@, g.order@, g.available@, pos + 1, limits_bitrate(pairs_view(g.queries@)), g.fallback_for@));
                        }
                    }
                    assert(scanned(g, pos + 1, r));
                    r
                } else {
                    f.phase = FallbackPhase::Finished;
                    let q = clone_pairs(&f.queries);
                    Ok((f, FallbackAction::Done(Some(q))))
                }
            },
            _ => {
                let q = clone_pairs(&f.queries);
                Ok((f, FallbackAction::Done(Some(q))))
            },
        }
    }
}

/// Whether an id is among the available ones.
fn contains_id(avail: &Vec<i64>, id: i64) -> (r: bool)
    ensures
        r == avail@.contains(id),
{
    let mut i: usize = 0;
    while i < avail.len()
        invariant
            i <= avail@.len(),
            forall|j: int| 0 <= j < i ==> avail@[j] != id,
        decreases avail.len() - i,
    {
        if avail[i] == id {
            return true;
        }
        i = i + 1;
    }
    false
}

/// A copy of a query.
pub fn clone_pairs(ps: &Vec<QueryPair>) -> (r: Vec<QueryPair>)
    ensures
        r@ == ps@,
{
    let mut out: Vec<QueryPair> = Vec::new();
    let mut i: usize = 0;
    while i < ps.len()
        invariant
            i <= ps@.len(),
            out@ == ps@.take(i as int),
        decreases ps.len() - i,
    {
        let p: QueryPair = (ps[i].0.clone(), ps[i].1.clone());
        out.push(p);
        assert(out@ =~= ps@.take(i + 1));
        i = i + 1;
    }
    assert(ps@.take(i as int) == ps@);
    out
}

} // verus!
