//! The rule that tells which hubs hub restrictions keep.
use vstd::prelude::*;
use crate::config::Config;
use crate::models::MetaData;
use super::restriction_filter::{custom_collection, is_custom_collection};
use super::{PlexData, TransformError};

verus! {

/// The rule for hub restrictions, as a test of which hubs to keep. In a
/// chain of rules it changes nothing.
#[derive(Clone, Copy, Debug, Default)]
pub struct HubRestrictionTransform;

/// Whether hub restrictions keep an item: with them on, a collection hub is
/// kept when its size is not 0 and it names a custom collection of its
/// section; every other item is kept. A collection hub without size fails.
pub open spec fn restriction_keeps(x: MetaData, config: Config, data: PlexData) -> Result<bool, TransformError> {
    if !config.hub_restrictions || !x.is_collection_hub_spec() {
        Ok(true)
    } else if x.size is None {
        Err(TransformError::MissingField)
    } else if x.size->0 == 0 {
        Ok(false)
    } else {
        is_custom_collection(x, data)
    }
}

impl HubRestrictionTransform {
    /// Whether hub restrictions keep an item (see `restriction_keeps`).
    pub fn filter_metadata(&self, item: &MetaData, config: &Config, data: &PlexData) -> (r: Result<bool, TransformError>)
        ensures
            r == restriction_keeps(*item, *config, *data),
    {
        if !config.hub_restrictions || !item.is_collection_hub() {
            return Ok(true);
        }
        let size = match item.size {
            Some(s) => s,
            None => return Err(TransformError::MissingField),
        };
        if size == 0 {
            return Ok(false);
        }
        custom_collection(item, data)
    }
}

} // verus!
