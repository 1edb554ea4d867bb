//! The rule that routes a hub's children through the proxy.
use vstd::prelude::*;
use crate::models::MetaData;
use crate::text::{concat, has_prefix, starts_with};

verus! {

/// The rule that points hub keys at the proxy.
#[derive(Clone, Copy, Debug, Default)]
pub struct HubKeyTransform;

/// The key a hub gets: `/replex/`, its style (`shelf` when it has none),
/// then its old key.
pub open spec fn replex_key(style: Option<String>, key: Seq<char>) -> Seq<char> {
    "/replex/"@ + (match style {
        Some(s) => s@,
        None => "shelf"@,
    }) + key
}

/// What the rule makes of an item: a hub with a key not yet under `/replex`
/// gets its key under the proxy; every other item stays as it is.
pub open spec fn hub_keyed(x: MetaData, y: MetaData) -> bool {
    if x.is_hub_spec() && x.key is Some && !has_prefix(x.key->0@, "/replex"@) {
        &&& y == (MetaData { key: y.key, ..x })
        &&& y.key is Some
        &&& y.key->0@ == replex_key(x.style, x.key->0@)
    } else {
        y == x
    }
}

impl HubKeyTransform {
    /// Points a hub key at the proxy (see `hub_keyed`).
    pub fn transform_metadata(&self, item: MetaData) -> (r: MetaData)
        ensures
            hub_keyed(item, r),
    {
        let mut item = item;
        if !item.is_hub() {
            return item;
        }
        let old_key = match &item.key {
            Some(k) => k.clone(),
            None => return item,
        };
        if starts_with(old_key.as_str(), "/replex") {
            return item;
        }
        let style = match &item.style {
            Some(s) => s.clone(),
            None => crate::models::Style::Shelf.name(),
        };
        let k = concat("/replex/", style.as_str());
        let k = concat(k.as_str(), old_key.as_str());
        item.key = Some(k);
        item
    }
}

} // verus!
