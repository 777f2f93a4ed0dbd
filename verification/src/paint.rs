//! What to paint: the rectangles of a scaled picture of the grid.
//!
//! Each lit pixel becomes a square of `PIXEL_SCALE_FACTOR` by
//! `PIXEL_SCALE_FACTOR` picture elements. The squares are listed column by
//! column, from left to right, and within a column from top to bottom.

use vstd::prelude::*;
use crate::framebuffer::{Framebuffer, Screen, DISPLAY_HEIGHT_PX, DISPLAY_WIDTH_PX};

verus! {

pub const PIXEL_SCALE_FACTOR: usize = 8;

/// Pixels that the grid holds.
pub const PIXEL_COUNT: usize = 2048;

/// A rectangle of the picture, by its top left corner and its size.
#[derive(Debug, Clone, Copy, PartialEq, Eq, Structural)]
pub struct PixelRect {
    pub x: i32,
    pub y: i32,
    pub width: u32,
    pub height: u32,
}

/// The square that stands for the pixel at `(x, y)`.
pub open spec fn pixel_rect(x: int, y: int) -> PixelRect {
    PixelRect {
        x: (x * PIXEL_SCALE_FACTOR) as i32,
        y: (y * PIXEL_SCALE_FACTOR) as i32,
        width: PIXEL_SCALE_FACTOR as u32,
        height: PIXEL_SCALE_FACTOR as u32,
    }
}

/// The squares of the lit pixels among the first `count` pixels, in
/// painting order. Pixel number `k` of that order is the one at
/// `(k / 32, k % 32)`.
pub open spec fn lit_rects(screen: Screen, count: nat) -> Seq<PixelRect>
    decreases count,
{
    if count == 0 {
        Seq::empty()
    } else {
        let k = (count - 1) as int;
        let x = k / (DISPLAY_HEIGHT_PX as int);
        let y = k % (DISPLAY_HEIGHT_PX as int);
        let earlier = lit_rects(screen, (count - 1) as nat);
        if screen.at(x, y) {
            earlier.push(pixel_rect(x, y))
        } else {
            earlier
        }
    }
}

/// Whether `rect` is the square of a lit pixel among the first `count`.
pub open spec fn is_lit_square(screen: Screen, count: nat, rect: PixelRect) -> bool {
    exists|x: int, y: int|
        Screen::in_bounds(x, y) && x * DISPLAY_HEIGHT_PX + y < count && screen.at(x, y)
            && #[trigger] pixel_rect(x, y) == rect
}

/// The list holds the squares of the lit pixels among the first `count`,
/// and nothing else.
pub proof fn lemma_lit_rects_are_the_lit_pixels(screen: Screen, count: nat)
    requires
        count <= PIXEL_COUNT,
    ensures
        lit_rects(screen, count).len() <= count,
        forall|rect: PixelRect|
            #[trigger] lit_rects(screen, count).contains(rect) <==> is_lit_square(
                screen,
                count,
                rect,
            ),
    decreases count,
{
    if count > 0 {
        let k = (count - 1) as int;
        let kx = k / (DISPLAY_HEIGHT_PX as int);
        let ky = k % (DISPLAY_HEIGHT_PX as int);
        let earlier = lit_rects(screen, (count - 1) as nat);
        let all = lit_rects(screen, count);
        lemma_lit_rects_are_the_lit_pixels(screen, (count - 1) as nat);
        assert forall|rect: PixelRect| #[trigger] all.contains(rect) implies is_lit_square(
            screen,
            count,
            rect,
        ) by {
            let i = choose|i: int| 0 <= i < all.len() && all[i] == rect;
            if i < earlier.len() {
                assert(earlier.contains(rect));
            }
        }
        assert forall|rect: PixelRect| is_lit_square(screen, count, rect) implies #[trigger] all.contains(
            rect,
        ) by {
            let (x, y) = choose|x: int, y: int|
                Screen::in_bounds(x, y) && x * DISPLAY_HEIGHT_PX + y < count && screen.at(x, y)
                    && #[trigger] pixel_rect(x, y) == rect;
            if x * DISPLAY_HEIGHT_PX + y < count - 1 {
                assert(earlier.contains(rect));
                let i = choose|i: int| 0 <= i < earlier.len() && earlier[i] == rect;
                assert(all[i] == rect);
            } else {
                assert(all[all.len() - 1] == rect);
            }
        }
    } else {
        assert forall|rect: PixelRect| #[trigger]
            lit_rects(screen, count).contains(rect) <==> is_lit_square(screen, count, rect) by {}
    }
}

impl Framebuffer {
    /// The squares to fill for a picture of the grid: one for each lit
    /// pixel, in painting order.
    pub fn paint_rects(&self) -> (rects: Vec<PixelRect>)
        ensures
            rects@ == lit_rects(self@, PIXEL_COUNT as nat),
    {
        let mut rects: Vec<PixelRect> = Vec::new();
        for i in 0..DISPLAY_WIDTH_PX
            invariant
                rects@ == lit_rects(self@, (i * DISPLAY_HEIGHT_PX) as nat),
        {
            for j in 0..DISPLAY_HEIGHT_PX
                invariant
                    i < DISPLAY_WIDTH_PX,
                    rects@ == lit_rects(self@, (i * DISPLAY_HEIGHT_PX + j) as nat),
            {
                if self.get(i, j) {
                    rects.push(
                        PixelRect {
                            x: (i * PIXEL_SCALE_FACTOR) as i32,
                            y: (j * PIXEL_SCALE_FACTOR) as i32,
                            width: PIXEL_SCALE_FACTOR as u32,
                            height: PIXEL_SCALE_FACTOR as u32,
                        },
                    );
                }
            }
        }
        rects
    }
}

} // verus!
