//! Terminal dimensions, in character cells.

use vstd::prelude::*;

verus! {

/// Size of the pseudo-terminal. The size is reported in character cells
/// only: the pixel fields exist because the backend's size structure carries
/// them, and they are always zero here.
#[derive(Clone, Copy, Debug, PartialEq, Eq, Structural)]
pub struct Dimensions {
    pub rows: u16,
    pub cols: u16,
    pub pixel_width: u16,
    pub pixel_height: u16,
}

impl Dimensions {
    /// A dimensions value this library hands to the backend never reports a
    /// pixel size.
    pub open spec fn well_formed(self) -> bool {
        self.pixel_width == 0 && self.pixel_height == 0
    }

    /// The size requested from the backend on open and on resize: exactly
    /// the requested cell counts, pixel fields zero.
    pub fn new(cols: u16, rows: u16) -> (d: Dimensions)
        ensures
            d.cols == cols,
            d.rows == rows,
            d.well_formed(),
    {
        Dimensions { rows, cols, pixel_width: 0, pixel_height: 0 }
    }
}

} // verus!
