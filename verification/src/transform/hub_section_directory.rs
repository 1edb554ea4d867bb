//! The rule that makes collection hubs list videos, not directories.
use vstd::prelude::*;
use crate::models::MetaData;

verus! {

/// The rule that moves the children of a collection hub to `video`.
#[derive(Clone, Copy, Debug, Default)]
pub struct HubSectionDirectoryTransform;

/// What the rule makes of an item: a collection hub with directories has
/// them emptied and its children (see `children_spec`) listed as videos,
/// copies where they come from `metadata`; every other item stays as it is.
pub open spec fn directory_moved(x: MetaData, y: MetaData) -> bool {
    if x.is_collection_hub_spec() && x.directory@.len() > 0 {
        &&& y == (MetaData { directory: y.directory, video: y.video, ..x })
        &&& y.directory@.len() == 0
        &&& if x.metadata@.len() > 0 {
            &&& y.video@.len() == x.metadata@.len()
            &&& forall|i: int| 0 <= i < x.metadata@.len() ==> cloned(x.metadata@[i], #[trigger] y.video@[i])
        } else {
            y.video@ == x.directory@
        }
    } else {
        y == x
    }
}

impl HubSectionDirectoryTransform {
    /// Moves the children of a collection hub to `video` (see
    /// `directory_moved`).
    pub fn transform_metadata(&self, item: MetaData) -> (r: MetaData)
        ensures
            directory_moved(item, r),
    {
        let mut item = item;
        if item.is_collection_hub() && item.directory.len() > 0 {
            if item.metadata.len() > 0 {
                let childs = item.metadata.clone();
                item.directory = Vec::new();
                item.video = childs;
            } else {
                let mut childs: Vec<MetaData> = Vec::new();
                std::mem::swap(&mut childs, &mut item.directory);
                item.video = childs;
            }
        }
        item
    }
}

} // verus!
