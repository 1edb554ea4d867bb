//! Where the cover art of an item comes from: the guid it is looked up by,
//! the key it is kept under, and the image picked from a provider's answer.
use vstd::prelude::*;
use crate::cache::{CacheWrite, Expiration};
use crate::models::MetaData;
use crate::plex_client::{get_provider_data, provider_url};
use crate::text::{concat, has_prefix, opt_text, owned, replace, replace_all, starts_with};

verus! {

/// The guid whose cover art an item shows: none for an item without guid or
/// a local one; the show's for an episode that names it; else its own.
pub open spec fn art_guid(x: MetaData) -> Option<Seq<char>> {
    match x.guid {
        None => None,
        Some(g) => if has_prefix(g@, "local://"@) {
            None
        } else if has_prefix(g@, "plex://episode"@) && x.parent_guid is Some {
            Some(x.parent_guid->0@)
        } else {
            Some(g@)
        },
    }
}

/// The id under which the metadata provider knows an item: its own guid
/// without the `plex://show/`, `plex://movie/`, `plex://season/` and
/// `plex://episode/` prefixes.
pub open spec fn provider_id(guid: Seq<char>) -> Seq<char> {
    replace_all(
        replace_all(
            replace_all(replace_all(guid, "plex://show/"@, ""@), "plex://movie/"@, ""@),
            "plex://season/"@,
            ""@,
        ),
        "plex://episode/"@,
        ""@,
    )
}

/// The url of the first `coverArt` image of the first item of a list.
pub open spec fn first_cover_art(xs: Seq<MetaData>) -> Option<Seq<char>> {
    if xs.len() == 0 {
        None
    } else {
        let images = xs[0].images@;
        if exists|i: int| 0 <= i < images.len() && images[i].kind@ == "coverArt"@ {
            let i = choose|i: int|
                0 <= i < images.len() && images[i].kind@ == "coverArt"@ && forall|j: int|
                    0 <= j < i ==> images[j].kind@ != "coverArt"@;
            Some(images[i].url@)
        } else {
            None
        }
    }
}

impl MetaData {
    /// The guid whose cover art the item shows (see `art_guid`).
    pub fn hero_art_guid(&self) -> (r: Option<String>)
        ensures
            match r {
                Some(g) => art_guid(*self) == Some(g@),
                None => art_guid(*self) is None,
            },
    {
        let guid = match &self.guid {
            Some(g) => g,
            None => return None,
        };
        if starts_with(guid.as_str(), "local://") {
            return None;
        }
        if starts_with(guid.as_str(), "plex://episode") {
            match &self.parent_guid {
                Some(p) => return Some(p.clone()),
                None => {},
            }
        }
        Some(guid.clone())
    }

    /// The id under which the metadata provider knows the item (see
    /// `provider_id`), when it has a guid.
    pub fn hero_provider_id(&self) -> (r: Option<String>)
        ensures
            match r {
                Some(p) => self.guid is Some && p@ == provider_id(self.guid->0@),
                None => self.guid is None,
            },
    {
        match &self.guid {
            Some(g) => {
                let p = replace(g.as_str(), "plex://show/", "");
                let p = replace(p.as_str(), "plex://movie/", "");
                let p = replace(p.as_str(), "plex://season/", "");
                Some(replace(p.as_str(), "plex://episode/", ""))
            },
            None => None,
        }
    }
}

/// The key under which an item's cover art is kept: its art guid and
/// `:cover_art`.
pub fn cover_art_cache_key(guid: &str) -> (r: String)
    ensures
        r@ == guid@ + ":cover_art"@,
{
    concat(guid, ":cover_art")
}

/// The url of the first `coverArt` image of the first item of a provider's
/// answer (see `first_cover_art`).
pub fn find_cover_art(xs: &Vec<MetaData>) -> (r: Option<String>)
    ensures
        match r {
            Some(u) => first_cover_art(xs@) == Some(u@),
            None => first_cover_art(xs@) is None,
        },
{
    if xs.len() == 0 {
        return None;
    }
    let images = &xs[0].images;
    let mut i: usize = 0;
    while i < images.len()
        invariant
            i <= images@.len(),
            xs@.len() > 0,
            *images == xs@[0].images,
            forall|j: int| 0 <= j < i ==> images@[j].kind@ != "coverArt"@,
        decreases images.len() - i,
    {
        if crate::text::same_text(images[i].kind.as_str(), "coverArt") {
            proof {
                let k = choose|k: int|
                    0 <= k < images@.len() && images@[k].kind@ == "coverArt"@ && forall|j: int|
                        0 <= j < k ==> images@[j].kind@ != "coverArt"@;
                assert(0 <= i < images@.len() && images@[i as int].kind@ == "coverArt"@);
                assert(k == i);
            }
            return Some(images[i].url.clone());
        }
        i = i + 1;
    }
    None
}

/// The next step of looking up an item's cover art.
#[derive(Clone, Debug)]
pub enum CoverArtStep {
    /// The item has no art to look up: no guid, or a local one.
    NoArt,
    /// The cache holds the answer, art or the finding that there is none.
    Cached(Option<String>),
    /// The metadata provider is asked at `url`; `guid` is the art guid the
    /// answer is kept under.
    Fetch { url: String, guid: String },
}

/// Where a cover-art lookup starts: `cached` is what the cache holds under
/// the item's art guid (see `art_guid`) and `:cover_art`. Without cached
/// answer the provider is asked for the item by its own provider id.
pub fn cover_art_start(item: &MetaData, cached: Option<Option<String>>) -> (r: CoverArtStep)
    ensures
        art_guid(*item) is None ==> r is NoArt,
        art_guid(*item) is Some ==> match cached {
            Some(c) => r == CoverArtStep::Cached(c),
            None => r matches CoverArtStep::Fetch { url, guid } && guid@ == art_guid(*item)->0
                && url@ == provider_url(provider_id(item.guid->0@)),
        },
{
    let guid = match item.hero_art_guid() {
        Some(g) => g,
        None => return CoverArtStep::NoArt,
    };
    match cached {
        Some(c) => CoverArtStep::Cached(c),
        None => match item.hero_provider_id() {
            Some(id) => CoverArtStep::Fetch { url: get_provider_data(id.as_str()), guid },
            None => CoverArtStep::NoArt,
        },
    }
}

/// What a cover-art lookup answers once the provider replied with the items
/// `reply` (`None` when the request failed), and what it keeps: that answer,
/// art or none, under `guid` + `:cover_art`.
pub open spec fn cover_art_outcome(guid: Seq<char>, reply: Option<Seq<MetaData>>) -> (Option<Seq<char>>, (Seq<char>, Option<Seq<char>>)) {
    let art = match reply {
        Some(xs) => first_cover_art(xs),
        None => None,
    };
    (art, (guid + ":cover_art"@, art))
}

/// The end of a cover-art lookup (see `cover_art_outcome`); the answer is
/// kept for a month.
pub fn cover_art_on_reply(guid: &str, reply: Option<Vec<MetaData>>) -> (r: (Option<String>, CacheWrite<Option<String>>))
    ensures
        (opt_text(r.0), (r.1.key@, opt_text(r.1.value))) == cover_art_outcome(guid@, match reply {
            Some(v) => Some(v@),
            None => None,
        }),
        r.1.expiration == Expiration::Month,
{
    let art = match reply {
        Some(v) => find_cover_art(&v),
        None => None,
    };
    let kept = match &art {
        Some(u) => Some(u.clone()),
        None => None,
    };
    (art, CacheWrite { key: cover_art_cache_key(guid), value: kept, expiration: Expiration::Month })
}

} // verus!
