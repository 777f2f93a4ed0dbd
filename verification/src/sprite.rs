//! What drawing a sprite does to the pixel grid.
//!
//! A sprite is a sequence of bytes, one per row, the most significant bit
//! leftmost. It is combined with the grid by exclusive or. The part of it that
//! would fall beyond the right or the bottom edge is not drawn.

use vstd::prelude::*;
use crate::framebuffer::{Screen, DISPLAY_HEIGHT_PX, DISPLAY_WIDTH_PX};

verus! {

/// Columns that a sprite row holds.
pub const SPRITE_WIDTH: usize = 8;

/// Whether the pixel in column `i` of a sprite row is set: bit `7 - i` of
/// the byte.
pub open spec fn sprite_bit(row: u8, i: int) -> bool {
    (row >> ((7 - i) as u8)) & 1u8 == 1u8
}

/// The rectangle of the grid that a drawing touches, and the sprite rows
/// that are drawn into it.
pub struct Stamp {
    /// Leftmost column.
    pub dx: int,
    /// Topmost row.
    pub dy: int,
    /// Columns drawn.
    pub cols: int,
    /// The sprite rows drawn, the topmost first.
    pub sprite: Seq<u8>,
}

impl Stamp {
    /// Of a sprite of `n` rows whose top is at row `dy`, the rows that lie
    /// on the grid.
    pub open spec fn rows_drawn(dy: int, n: int) -> int {
        if n <= DISPLAY_HEIGHT_PX - dy {
            n
        } else {
            DISPLAY_HEIGHT_PX - dy
        }
    }

    /// Of a sprite whose left edge is at column `dx`, the columns that lie
    /// on the grid.
    pub open spec fn cols_drawn(dx: int) -> int {
        if SPRITE_WIDTH <= DISPLAY_WIDTH_PX - dx {
            SPRITE_WIDTH as int
        } else {
            DISPLAY_WIDTH_PX - dx
        }
    }

    /// Whether the drawing touches the pixel at `(x, y)`.
    pub open spec fn covers(self, x: int, y: int) -> bool {
        self.dx <= x < self.dx + self.cols && self.dy <= y < self.dy + self.sprite.len()
    }

    /// Whether the sprite has a set pixel at `(x, y)`.
    pub open spec fn ink(self, x: int, y: int) -> bool {
        self.covers(x, y) && sprite_bit(self.sprite[y - self.dy], x - self.dx)
    }
}

impl Screen {
    /// The grid after the drawing: each pixel that the sprite sets is
    /// flipped, every other pixel is as before. The grid is dirty once a
    /// pixel was touched, whether or not it changed.
    pub open spec fn draw(self, stamp: Stamp) -> Screen {
        Screen {
            pixels: Seq::new(
                DISPLAY_WIDTH_PX as nat,
                |x: int|
                    Seq::new(
                        DISPLAY_HEIGHT_PX as nat,
                        |y: int| self.pixels[x][y] != stamp.ink(x, y),
                    ),
            ),
            dirty: self.dirty || (stamp.cols > 0 && stamp.sprite.len() > 0),
        }
    }

    /// Whether the drawing turns off a pixel that was on.
    pub open spec fn collides(self, stamp: Stamp) -> bool {
        exists|x: int, y: int| #[trigger] stamp.ink(x, y) && self.pixels[x][y]
    }
}

} // verus!
