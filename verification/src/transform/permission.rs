//! The filter that keeps collection hubs the user may see: those that are
//! custom collections of their library section.
use vstd::prelude::*;
use crate::models::MetaData;
use crate::text::{split_char, split_on, texts};
use crate::utils::hub_id_tail;
use super::restriction_filter::{find_section, has_key, section_keys};
use super::{PlexData, TransformError};

verus! {

/// The filter for collection permissions; `true` keeps an item.
#[derive(Clone, Copy, Debug, Default)]
pub struct CollectionHubPermissionFilter;

/// The section of a collection hub: its own, else that of its first child.
pub open spec fn permission_section(x: MetaData) -> Result<i64, TransformError> {
    match x.library_section_id {
        Some(id) => Ok(id),
        None => if x.children_spec().len() == 0 {
            Err(TransformError::MissingChildren)
        } else {
            match x.children_spec()[0].library_section_id {
                Some(id) => Ok(id),
                None => Err(TransformError::MissingField),
            }
        },
    }
}

/// Whether the filter keeps an item: every item but a collection hub is
/// kept; a collection hub is kept when the last piece of its identifier is
/// among the custom collections of its section.
pub open spec fn permission_keeps(x: MetaData, data: PlexData) -> Result<bool, TransformError> {
    if !x.is_collection_hub_spec() {
        Ok(true)
    } else {
        match permission_section(x) {
            Err(e) => Err(e),
            Ok(id) => match section_keys(data.sections@, id) {
                None => Err(TransformError::NotFetched),
                Some(keys) => Ok(keys.contains(hub_id_tail(x.hub_identifier->0@))),
            },
        }
    }
}

impl CollectionHubPermissionFilter {
    /// Whether the filter keeps an item (see `permission_keeps`).
    pub fn filter_metadata(&self, item: &MetaData, data: &PlexData) -> (r: Result<bool, TransformError>)
        ensures
            r == permission_keeps(*item, *data),
    {
        if !item.is_collection_hub() {
            return Ok(true);
        }
        let section_id = match item.library_section_id {
            Some(id) => id,
            None => {
                let first = if item.metadata.len() > 0 {
                    &item.metadata[0]
                } else if item.directory.len() > 0 {
                    &item.directory[0]
                } else if item.video.len() > 0 {
                    &item.video[0]
                } else {
                    return Err(TransformError::MissingChildren);
                };
                match first.library_section_id {
                    Some(id) => id,
                    None => return Err(TransformError::MissingField),
                }
            },
        };
        let keys = match find_section(&data.sections, section_id) {
            Some(k) => k,
            None => return Err(TransformError::NotFetched),
        };
        match &item.hub_identifier {
            Some(id) => {
                let pieces = split_char(id.as_str(), '.');
                let last = &pieces[pieces.len() - 1];
                assert(last@ == split_on(id@, '.').last());
                Ok(has_key(keys, last.as_str()))
            },
            None => Err(TransformError::MissingField),
        }
    }
}

} // verus!
