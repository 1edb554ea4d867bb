//! The rule that hides what a user has seen: user state and leaf counts.
use vstd::prelude::*;
use crate::config::Config;
use crate::models::{ChildSlot, MetaData, SpecialBool};

verus! {

/// The rule that clears user state and leaf counts as configured.
#[derive(Clone, Copy, Debug, Default)]
pub struct UserStateTransform;

/// `d` is `c` with its user state set to false when user state is disabled,
/// and its leaf count removed when leaf counts are disabled.
pub open spec fn state_reset(c: MetaData, d: MetaData, config: Config) -> bool {
    &&& d == (MetaData {
        user_state: if config.disable_user_state { d.user_state } else { c.user_state },
        leaf_count: if config.disable_leaf_count { None } else { c.leaf_count },
        ..c
    })
    &&& config.disable_user_state ==> (d.user_state is Some && !d.user_state->0.value())
}

/// What the rule makes of an item: when either setting is on, a hub has the
/// children it hands out for change reset, any other item is reset itself.
pub open spec fn user_stated(x: MetaData, y: MetaData, config: Config) -> bool {
    if !config.disable_user_state && !config.disable_leaf_count {
        y == x
    } else if x.is_hub_spec() {
        let s = x.children_mut_slot();
        &&& y == x.with_slot(s, y.slot(s))
        &&& y.slot(s)@.len() == x.slot(s)@.len()
        &&& forall|i: int| 0 <= i < x.slot(s)@.len() ==> #[trigger] state_reset(x.slot(s)@[i], y.slot(s)@[i], config)
    } else {
        state_reset(x, y, config)
    }
}

fn reset_item(c: MetaData, config: &Config) -> (d: MetaData)
    ensures
        state_reset(c, d, *config),
{
    let mut d = c;
    if config.disable_user_state {
        d.user_state = Some(SpecialBool::new(false));
    }
    if config.disable_leaf_count {
        d.leaf_count = None;
    }
    d
}

impl MetaData {
    /// Which list `children_mut` hands out (see `children_mut_slot`).
    pub fn mut_slot(&self) -> (r: ChildSlot)
        ensures
            r == self.children_mut_slot(),
    {
        if self.metadata.len() > 0 {
            ChildSlot::Metadata
        } else if self.video.len() > 0 {
            ChildSlot::Video
        } else if self.directory.len() > 0 {
            ChildSlot::Directory
        } else {
            ChildSlot::Metadata
        }
    }
}

impl UserStateTransform {
    /// Clears user state and leaf counts (see `user_stated`).
    pub fn transform_metadata(&self, item: MetaData, config: &Config) -> (r: MetaData)
        ensures
            user_stated(item, r, *config),
    {
        if !config.disable_user_state && !config.disable_leaf_count {
            return item;
        }
        if !item.is_hub() {
            return reset_item(item, config);
        }
        let mut item = item;
        let ghost x0 = item;
        let s = item.mut_slot();
        let mut xs = item.take_slot(s);
        let ghost xs0 = xs@;
        let mut out: Vec<MetaData> = Vec::new();
        let mut i: usize = 0;
        while i < xs.len()
            invariant
                i <= xs@.len(),
                xs@.len() == xs0.len(),
                forall|k: int| i <= k < xs0.len() ==> xs@[k] == xs0[k],
                out@.len() == i,
                forall|k: int| 0 <= k < i ==> #[trigger] state_reset(xs0[k], out@[k], *config),
            decreases xs0.len() - i,
        {
            let mut c = MetaData::empty(String::new(), String::new());
            std::mem::swap(&mut c, &mut xs[i]);
            out.push(reset_item(c, config));
            i = i + 1;
        }
        item.put_slot(s, out);
        item
    }
}

} // verus!
