//! The rule that caps how many children a collection hub lists.
use vstd::prelude::*;
use crate::models::MetaData;
use super::TransformError;

verus! {

/// The rule that keeps the first `limit` children of collection hubs.
#[derive(Clone, Copy, Debug, Default)]
pub struct HubChildrenLimitTransform {
    pub limit: i32,
}

/// How many of `n` children are kept under `limit`; a negative limit keeps
/// all.
pub open spec fn kept_under(n: nat, limit: i32) -> nat {
    if limit >= 0 && (limit as nat) < n {
        limit as nat
    } else {
        n
    }
}

/// What the rule makes of an item: a collection hub keeps the first
/// children it lists (see `children_list_slot`), as many as the limit
/// allows, and its size becomes their number; any other item stays as it is.
pub open spec fn hub_limited(x: MetaData, y: MetaData, limit: i32) -> bool {
    if x.is_collection_hub_spec() {
        let s = x.children_list_slot();
        let n = kept_under(x.children_spec().len(), limit);
        if x.children_spec().len() > 0 {
            &&& y == (MetaData { size: Some(n as i32), ..x }).with_slot(s, y.slot(s))
            &&& y.slot(s)@ == x.slot(s)@.take(n as int)
        } else {
            y == (MetaData { size: Some(0), ..x })
        }
    } else {
        y == x
    }
}

pub open spec fn hub_limit_error(x: MetaData, limit: i32) -> Option<TransformError> {
    if x.is_collection_hub_spec() && kept_under(x.children_spec().len(), limit) > i32::MAX {
        Some(TransformError::TooLarge)
    } else {
        None
    }
}

impl HubChildrenLimitTransform {
    /// Caps the children of a collection hub (see `hub_limited`).
    pub fn transform_metadata(&self, item: MetaData) -> (r: Result<MetaData, TransformError>)
        ensures
            match r {
                Ok(y) => hub_limit_error(item, self.limit) is None && hub_limited(item, y, self.limit),
                Err(e) => hub_limit_error(item, self.limit) == Some(e),
            },
    {
        if !item.is_collection_hub() {
            return Ok(item);
        }
        let mut item = item;
        let had = item.has_children();
        let s = item.list_slot();
        let mut children = if had {
            item.take_slot(s)
        } else {
            Vec::new()
        };
        let ghost c0 = children@;
        if self.limit >= 0 && (self.limit as usize) < children.len() {
            children.truncate(self.limit as usize);
        } else {
            assert(c0.take(c0.len() as int) == c0);
        }
        assert(children@ == c0.take(kept_under(c0.len(), self.limit) as int));
        if children.len() > i32::MAX as usize {
            return Err(TransformError::TooLarge);
        }
        let n = children.len() as i32;
        if had {
            item.put_slot(s, children);
        }
        item.size = Some(n);
        Ok(item)
    }
}

} // verus!
