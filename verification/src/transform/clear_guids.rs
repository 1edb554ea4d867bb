//! A rule that clears the guids of the items below each child.
use vstd::prelude::*;
use crate::models::{MediaContainer, MetaData};

verus! {

/// The rule that removes the guids of grandchildren.
#[derive(Clone, Copy, Debug, Default)]
pub struct TestTransform;

/// `y` is the child `x` with the guids of the items it hands out for change
/// (see `children_mut_slot`) removed.
pub open spec fn guids_cleared(x: MetaData, y: MetaData) -> bool {
    let s = x.children_mut_slot();
    &&& y == x.with_slot(s, y.slot(s))
    &&& y.slot(s)@.len() == x.slot(s)@.len()
    &&& forall|i: int| 0 <= i < x.slot(s)@.len() ==> {
        let a = #[trigger] x.slot(s)@[i];
        let b = y.slot(s)@[i];
        b == (MetaData { guids: b.guids, ..a }) && b.guids@.len() == 0
    }
}

/// What the rule makes of a container: each child has its children's guids
/// removed.
pub open spec fn test_transformed(c: MediaContainer, d: MediaContainer) -> bool {
    let s = c.children_slot();
    &&& d == c.with_slot(s, d.slot(s))
    &&& d.slot(s)@.len() == c.slot(s)@.len()
    &&& forall|i: int| 0 <= i < c.slot(s)@.len() ==> #[trigger] guids_cleared(c.slot(s)@[i], d.slot(s)@[i])
}

fn clear_child(x: MetaData) -> (y: MetaData)
    ensures
        guids_cleared(x, y),
{
    let mut x = x;
    let ghost x0 = x;
    let s = x.mut_slot();
    let mut xs = x.take_slot(s);
    let ghost xs0 = xs@;
    let mut out: Vec<MetaData> = Vec::new();
    let mut i: usize = 0;
    while i < xs.len()
        invariant
            i <= xs@.len(),
            xs@.len() == xs0.len(),
            forall|k: int| i <= k < xs0.len() ==> xs@[k] == xs0[k],
            out@.len() == i,
            forall|k: int| 0 <= k < i ==> {
                let a = #[trigger] xs0[k];
                let b = out@[k];
                b == (MetaData { guids: b.guids, ..a }) && b.guids@.len() == 0
            },
        decreases xs0.len() - i,
    {
        let mut c = MetaData::empty(String::new(), String::new());
        std::mem::swap(&mut c, &mut xs[i]);
        c.guids = Vec::new();
        out.push(c);
        i = i + 1;
    }
    x.put_slot(s, out);
    x
}

impl TestTransform {
    /// Removes the guids of grandchildren (see `test_transformed`).
    pub fn transform_mediacontainer(&self, item: MediaContainer) -> (r: MediaContainer)
        ensures
            test_transformed(item, r),
    {
        let mut item = item;
        let s = item.slot_of_children();
        let mut xs: Vec<MetaData> = Vec::new();
        match s {
            crate::models::ChildSlot::Hub => std::mem::swap(&mut xs, &mut item.hub),
            crate::models::ChildSlot::Directory => std::mem::swap(&mut xs, &mut item.directory),
            crate::models::ChildSlot::Video => std::mem::swap(&mut xs, &mut item.video),
            crate::models::ChildSlot::Metadata => std::mem::swap(&mut xs, &mut item.metadata),
        }
        let ghost xs0 = xs@;
        let mut out: Vec<MetaData> = Vec::new();
        let mut i: usize = 0;
        while i < xs.len()
            invariant
                i <= xs@.len(),
                xs@.len() == xs0.len(),
                forall|k: int| i <= k < xs0.len() ==> xs@[k] == xs0[k],
                out@.len() == i,
                forall|k: int| 0 <= k < i ==> #[trigger] guids_cleared(xs0[k], out@[k]),
            decreases xs0.len() - i,
        {
            let mut c = MetaData::empty(String::new(), String::new());
            std::mem::swap(&mut c, &mut xs[i]);
            out.push(clear_child(c));
            i = i + 1;
        }
        item.put_slot(s, out);
        item
    }
}

} // verus!
