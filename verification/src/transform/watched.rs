//! Dropping watched items.
use vstd::prelude::*;
use crate::config::Config;
use crate::models::MetaData;

verus! {

/// Drops watched items that are no hubs, unless watched items are wanted.
#[derive(Clone, Copy, Debug, Default)]
pub struct WatchedFilter;

impl WatchedFilter {
    pub open spec fn drops_spec(self, x: MetaData, config: Config) -> bool {
        config.exclude_watched && !x.is_hub_spec() && x.is_watched_spec()
    }

    /// Whether the item is dropped: watched items that are no hubs are, when
    /// watched items are excluded.
    pub fn filter_metadata(&self, item: &MetaData, config: &Config) -> (r: bool)
        ensures
            r == self.drops_spec(*item, *config),
    {
        config.exclude_watched && !item.is_hub() && item.is_watched()
    }
}

} // verus!
