use vstd::prelude::*;

use crate::geometry::{Point, Rect};

verus! {

/// Kind of a rectangle part of a region.
#[derive(Clone, Copy, Debug, PartialEq, Eq, Structural)]
pub enum RectangleKind {
    /// This rectangle is added to the region.
    Add,
    /// The intersection of this rectangle with the region is removed from it.
    Subtract,
}

/// The contents of a region: rectangles added and subtracted, in order.
#[derive(Clone, Debug)]
pub struct RegionAttributes {
    /// The rectangles defining this region, in the order they were given.
    pub rects: Vec<(RectangleKind, Rect)>,
}

/// Membership of `p` after folding over `rects` from the first to the last:
/// the last rectangle that holds `p` decides, and none means outside.
pub open spec fn member_after(rects: Seq<(RectangleKind, Rect)>, p: Point) -> bool
    decreases rects.len(),
{
    if rects.len() == 0 {
        false
    } else if rects.last().1.spec_contains(p) {
        rects.last().0 == RectangleKind::Add
    } else {
        member_after(rects.drop_last(), p)
    }
}

impl RegionAttributes {
    /// An empty region.
    pub fn new() -> (r: RegionAttributes)
        ensures
            r.rects@ == Seq::<(RectangleKind, Rect)>::empty(),
    {
        RegionAttributes { rects: Vec::new() }
    }

    /// Appends a rectangle to be added.
    pub fn add(&mut self, rect: Rect)
        ensures
            final(self).rects@ == old(self).rects@.push((RectangleKind::Add, rect)),
    {
        self.rects.push((RectangleKind::Add, rect));
    }

    /// Appends a rectangle to be subtracted.
    pub fn subtract(&mut self, rect: Rect)
        ensures
            final(self).rects@ == old(self).rects@.push((RectangleKind::Subtract, rect)),
    {
        self.rects.push((RectangleKind::Subtract, rect));
    }

    /// Whether `point` is inside the region.
    pub fn contains(&self, point: Point) -> (r: bool)
        ensures
            r == member_after(self.rects@, point),
    {
        let mut inside = false;
        let mut i: usize = 0;
        while i < self.rects.len()
            invariant
                i <= self.rects.len(),
                inside == member_after(self.rects@.subrange(0, i as int), point),
            decreases self.rects.len() - i,
        {
            let (kind, rect) = self.rects[i];
            proof {
                let prefix = self.rects@.subrange(0, i + 1);
                assert(prefix.drop_last() =~= self.rects@.subrange(0, i as int));
            }
            if rect.contains(point) {
                inside = match kind {
                    RectangleKind::Add => true,
                    RectangleKind::Subtract => false,
                };
            }
            i = i + 1;
        }
        assert(self.rects@.subrange(0, i as int) =~= self.rects@);
        inside
    }
}

} // verus!
