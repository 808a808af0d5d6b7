//! Paint primitives and the ordered, append-only output list a paint pass
//! builds.  Every primitive carries absolute bounds in the display-list
//! root's coordinate space.

use crate::geometry::Rect;
use vstd::prelude::*;

verus! {

/// One paint primitive.
#[derive(Clone, Copy, PartialEq, Eq, Structural, Debug)]
pub enum DisplayItem {
    /// A solid fill: bounds, red, green, blue.
    SolidColor(Rect, u8, u8, u8),
    /// A window of a shared text run: bounds, run handle, offset, length.
    Text(Rect, usize, usize, usize),
    /// A decoded image: bounds and the shared handle to its pixel data.
    Image(Rect, u64),
    /// A border stroke: bounds, stroke width, red, green, blue.
    Border(Rect, i64, u8, u8, u8),
}

/// The ordered list of primitives produced by one paint pass.
pub struct DisplayList {
    pub list: Vec<DisplayItem>,
}

impl DisplayList {
    pub fn new() -> (r: DisplayList)
        ensures
            r.list@ == Seq::<DisplayItem>::empty(),
    {
        DisplayList { list: Vec::new() }
    }

    /// Append one primitive at the back.
    pub fn append_item(&mut self, item: DisplayItem)
        ensures
            final(self).list@ == old(self).list@.push(item),
    {
        self.list.push(item);
    }

    pub fn len(&self) -> (n: usize)
        ensures
            n == self.list@.len(),
    {
        self.list.len()
    }
}

} // verus!
