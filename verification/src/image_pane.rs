//! The image pane.
//!
//! The image itself is decoded and drawn outside the library; the layout
//! logic only needs its dimensions in terminal cells, so that is what this
//! type holds.

use vstd::prelude::*;

verus! {

/// The image pane: the size of the decoded image, as the layout sees it.
#[derive(Clone, Copy, PartialEq, Eq, Structural, Debug)]
pub struct TestImageWidget {
    pub width: u16,
    pub height: u16,
}

impl TestImageWidget {
    /// A pane for an image of the given size.
    pub fn new(width: u16, height: u16) -> (r: TestImageWidget)
        ensures
            r.width == width,
            r.height == height,
    {
        TestImageWidget { width, height }
    }
}

} // verus!
