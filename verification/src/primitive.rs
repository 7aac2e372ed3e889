//! Pixel dimensions.
use vstd::prelude::*;

verus! {

/// A width and a height, in pixels or in logical units.
#[derive(Debug, Clone, Copy, PartialEq, Eq, Structural)]
pub struct Size {
    pub width: u32,
    pub height: u32,
}

impl Size {
    /// Whether a target of this size covers any pixel. A size without area
    /// is never handed on to a render target.
    pub open spec fn has_area(self) -> bool {
        self.width > 0 && self.height > 0
    }

    /// This size with both dimensions divided by `factor`, rounding down.
    pub open spec fn scaled_down(self, factor: u32) -> Size
        recommends
            factor > 0,
    {
        Size { width: self.width / factor, height: self.height / factor }
    }

    /// The size with the given width and height.
    pub fn new(width: u32, height: u32) -> (size: Self)
        ensures
            size == (Size { width, height }),
    {
        Self { width, height }
    }
}

} // verus!
