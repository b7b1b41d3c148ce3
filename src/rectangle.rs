use vstd::prelude::*;

verus! {

/// An axis-aligned rectangle given by its side lengths.
#[derive(Debug)]
pub struct Rectangle {
    pub width: u32,
    pub height: u32,
}

impl Rectangle {
    /// The area as a mathematical integer.
    pub open spec fn area_spec(&self) -> int {
        self.width * self.height
    }

    pub fn new(width: u32, height: u32) -> (r: Rectangle)
        ensures
            r.width == width,
            r.height == height,
    {
        Rectangle { width, height }
    }

    /// The area; the product must fit in a `u32`.
    pub fn area(&self) -> (r: u32)
        requires
            self.area_spec() <= u32::MAX,
        ensures
            r == self.area_spec(),
    {
        self.width * self.height
    }

    /// Multiplies both sides by `factor`; each product must fit in a `u32`.
    pub fn scale(&mut self, factor: u32)
        requires
            old(self).width * factor <= u32::MAX,
            old(self).height * factor <= u32::MAX,
        ensures
            final(self).width == old(self).width * factor,
            final(self).height == old(self).height * factor,
    {
        self.width = self.width * factor;
        self.height = self.height * factor;
    }

    /// The square whose side is the longer side of `self`.
    pub fn into_square(self) -> (r: Rectangle)
        ensures
            r.width == r.height,
            r.width == (if self.width >= self.height { self.width } else { self.height }),
    {
        let side = self.width.max(self.height);
        Rectangle { width: side, height: side }
    }
}

} // verus!
