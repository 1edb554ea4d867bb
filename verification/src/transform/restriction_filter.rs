//! The filter that drops collection hubs that are not custom collections
//! of their library section.
use vstd::prelude::*;
use crate::config::Config;
use crate::models::MetaData;
use crate::text::{parse_i64, parse_signed, split_char, split_on, texts};
use crate::utils::hub_id_tail;
use super::{PlexData, SectionCollections, TransformError};

verus! {

/// The filter for hub restrictions.
#[derive(Clone, Copy, Debug, Default)]
pub struct HubRestrictionFilter;

/// The library section of a hub: its section id, else the third
/// `.`-separated piece of its identifier.
pub open spec fn section_of_hub(x: MetaData) -> Option<i64> {
    match x.library_section_id {
        Some(id) => Some(id),
        None => {
            let pieces = split_on(x.hub_identifier->0@, '.');
            if pieces.len() > 2 {
                match parse_signed(pieces[2], i64::MIN as int, i64::MAX as int) {
                    Some(v) => Some(v as i64),
                    None => None,
                }
            } else {
                None
            }
        },
    }
}

/// The rating keys of the custom collections of a section, if fetched.
pub open spec fn section_keys(ss: Seq<SectionCollections>, id: i64) -> Option<Seq<Seq<char>>>
    decreases ss.len(),
{
    if ss.len() == 0 {
        None
    } else if ss[0].section_id == id {
        Some(texts(ss[0].rating_keys@))
    } else {
        section_keys(ss.drop_first(), id)
    }
}

/// Whether a collection hub names a custom collection of its section: the
/// last piece of its identifier is among the section's collection keys.
/// Fails when the section cannot be told or was not fetched.
pub open spec fn is_custom_collection(x: MetaData, data: PlexData) -> Result<bool, TransformError> {
    match section_of_hub(x) {
        None => Err(TransformError::MissingField),
        Some(id) => match section_keys(data.sections@, id) {
            None => Err(TransformError::NotFetched),
            Some(keys) => Ok(keys.contains(hub_id_tail(x.hub_identifier->0@))),
        },
    }
}

/// Whether the filter drops an item: with hub restrictions on, a
/// collection hub whose size is -1 is dropped, and so is one that names no
/// custom collection of its section; nothing else is. A collection hub
/// without size fails.
pub open spec fn restriction_drops(x: MetaData, config: Config, data: PlexData) -> Result<bool, TransformError> {
    if !config.hub_restrictions || !x.is_collection_hub_spec() {
        Ok(false)
    } else if x.size is None {
        Err(TransformError::MissingField)
    } else if x.size->0 == -1 {
        Ok(true)
    } else {
        match is_custom_collection(x, data) {
            Err(e) => Err(e),
            Ok(b) => Ok(!b),
        }
    }
}

/// The library section of a hub (see `section_of_hub`).
pub fn hub_section(x: &MetaData) -> (r: Option<i64>)
    requires
        x.hub_identifier is Some,
    ensures
        r == section_of_hub(*x),
{
    match x.library_section_id {
        Some(id) => Some(id),
        None => match &x.hub_identifier {
            Some(id) => {
                let pieces = split_char(id.as_str(), '.');
                if pieces.len() > 2 {
                    assert(texts(pieces@)[2] == pieces@[2]@);
                    parse_i64(pieces[2].as_str())
                } else {
                    None
                }
            },
            None => None,
        },
    }
}

/// Finds the rating keys of the custom collections of a section.
pub fn find_section<'a>(ss: &'a Vec<SectionCollections>, id: i64) -> (r: Option<&'a Vec<String>>)
    ensures
        match r {
            Some(keys) => section_keys(ss@, id) == Some(texts(keys@)),
            None => section_keys(ss@, id) is None,
        },
{
    let mut i: usize = 0;
    assert(ss@.skip(0) == ss@);
    while i < ss.len()
        invariant
            i <= ss@.len(),
            section_keys(ss@, id) == section_keys(ss@.skip(i as int), id),
        decreases ss.len() - i,
    {
        proof {
            assert(ss@.skip(i as int)[0] == ss@[i as int]);
            assert(ss@.skip(i as int).drop_first() == ss@.skip(i + 1));
        }
        if ss[i].section_id == id {
            return Some(&ss[i].rating_keys);
        }
        i = i + 1;
    }
    assert(ss@.skip(i as int).len() == 0);
    None
}

/// Whether a list of keys holds a key.
pub fn has_key(keys: &Vec<String>, key: &str) -> (r: bool)
    ensures
        r == texts(keys@).contains(key@),
{
    let mut i: usize = 0;
    while i < keys.len()
        invariant
            i <= keys@.len(),
            forall|j: int| 0 <= j < i ==> keys@[j]@ != key@,
        decreases keys.len() - i,
    {
        if crate::text::same_text(keys[i].as_str(), key) {
            assert(texts(keys@)[i as int] == key@);
            return true;
        }
        i = i + 1;
    }
    proof {
        if texts(keys@).contains(key@) {
            let j = choose|j: int| 0 <= j < texts(keys@).len() && texts(keys@)[j] == key@;
            assert(keys@[j]@ == key@);
        }
    }
    false
}

/// Whether a collection hub names a custom collection of its section (see
/// `is_custom_collection`).
pub fn custom_collection(x: &MetaData, data: &PlexData) -> (r: Result<bool, TransformError>)
    requires
        x.hub_identifier is Some,
    ensures
        r == is_custom_collection(*x, *data),
{
    let section_id = match hub_section(x) {
        Some(s) => s,
        None => return Err(TransformError::MissingField),
    };
    let keys = match find_section(&data.sections, section_id) {
        Some(k) => k,
        None => return Err(TransformError::NotFetched),
    };
    match &x.hub_identifier {
        Some(id) => {
            let pieces = split_char(id.as_str(), '.');
            let last = &pieces[pieces.len() - 1];
            assert(last@ == split_on(id@, '.').last());
            Ok(has_key(keys, last.as_str()))
        },
        None => Err(TransformError::MissingField),
    }
}

impl HubRestrictionFilter {
    /// Whether the filter drops an item (see `restriction_drops`).
    pub fn filter_metadata(&self, item: &MetaData, config: &Config, data: &PlexData) -> (r: Result<bool, TransformError>)
        ensures
            r == restriction_drops(*item, *config, *data),
    {
        if !config.hub_restrictions || !item.is_collection_hub() {
            return Ok(false);
        }
        let size = match item.size {
            Some(s) => s,
            None => return Err(TransformError::MissingField),
        };
        if size == -1 {
            return Ok(true);
        }
        match custom_collection(item, data) {
            Err(e) => Err(e),
            Ok(b) => Ok(!b),
        }
    }
}

} // verus!
