//! The size of a terminal, in cells and in pixels.

use vstd::prelude::*;

verus! {

/// A size in pixels.
#[derive(Clone, Copy, Debug, PartialEq, Eq, Structural)]
pub struct PixelSize {
    /// The width.
    pub x: usize,
    /// The height.
    pub y: usize,
}

impl PixelSize {
    /// Whether neither the width nor the height of this size exceeds that of
    /// `limit`.
    pub open spec fn within(self, limit: PixelSize) -> bool {
        self.x <= limit.x && self.y <= limit.y
    }

    /// The pixel size of `x` columns and `y` rows of pixels.
    pub fn from_xy(xy: (u32, u32)) -> (r: PixelSize)
        ensures
            r.x == xy.0,
            r.y == xy.1,
    {
        PixelSize { x: xy.0 as usize, y: xy.1 as usize }
    }

    /// Whether neither the width nor the height of this size exceeds that of
    /// `limit`.
    pub fn fits_within(self, limit: PixelSize) -> (r: bool)
        ensures
            r == self.within(limit),
    {
        self.x <= limit.x && self.y <= limit.y
    }
}

/// The size of a terminal.
#[derive(Clone, Copy, Debug, PartialEq, Eq, Structural)]
pub struct TerminalSize {
    /// The width, in columns.
    pub columns: usize,
    /// The height, in rows.
    pub rows: usize,
    /// The size in pixels, where the terminal tells it.
    pub pixels: Option<PixelSize>,
}

impl TerminalSize {
    /// The size to assume of a terminal that does not tell its own: 80 columns
    /// and 24 rows.
    pub fn default_size() -> (r: TerminalSize)
        ensures
            r == (TerminalSize { columns: 80, rows: 24, pixels: None }),
    {
        TerminalSize { columns: 80, rows: 24, pixels: None }
    }
}

} // verus!
