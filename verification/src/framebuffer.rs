//! The monochrome 64x32 pixel grid and its dirty flag.
//!
//! The grid knows nothing of colours, scaling or windows. It records which
//! pixels are lit and whether anything was written since the contents were
//! last taken for painting.

use vstd::prelude::*;

verus! {

pub const DISPLAY_WIDTH_PX: usize = 64;

pub const DISPLAY_HEIGHT_PX: usize = 32;

/// The mathematical model of the grid: 64 columns of 32 pixels, addressed as
/// `pixels[x][y]`, and the dirty flag.
#[verifier::ext_equal]
pub struct Screen {
    pub pixels: Seq<Seq<bool>>,
    pub dirty: bool,
}

impl Screen {
    /// The grid has exactly 64 columns of 32 pixels.
    pub open spec fn wf(self) -> bool {
        &&& self.pixels.len() == DISPLAY_WIDTH_PX
        &&& forall|x: int|
            0 <= x < DISPLAY_WIDTH_PX ==> (#[trigger] self.pixels[x]).len() == DISPLAY_HEIGHT_PX
    }

    /// Whether `(x, y)` names a pixel of the grid.
    pub open spec fn in_bounds(x: int, y: int) -> bool {
        0 <= x < DISPLAY_WIDTH_PX && 0 <= y < DISPLAY_HEIGHT_PX
    }

    /// The state of the pixel at `(x, y)`.
    pub open spec fn at(self, x: int, y: int) -> bool {
        self.pixels[x][y]
    }

    /// A grid whose pixels are all off, with the given flag.
    pub open spec fn dark(dirty: bool) -> Screen {
        Screen {
            pixels: Seq::new(
                DISPLAY_WIDTH_PX as nat,
                |x: int| Seq::new(DISPLAY_HEIGHT_PX as nat, |y: int| false),
            ),
            dirty,
        }
    }

    /// The grid of a machine that was just made: all off, nothing to paint.
    pub open spec fn blank() -> Screen {
        Screen::dark(false)
    }

    /// The grid after every pixel was turned off: it is dirty.
    pub open spec fn clear(self) -> Screen {
        Screen::dark(true)
    }

    /// The grid after the pixel at `(x, y)` was written: that pixel holds
    /// `val`, every other pixel is as before, and the grid is dirty.
    pub open spec fn set(self, x: int, y: int, val: bool) -> Screen {
        Screen { pixels: self.pixels.update(x, self.pixels[x].update(y, val)), dirty: true }
    }

    /// The grid after its contents were taken for painting: the same pixels,
    /// no longer dirty.
    pub open spec fn acknowledge(self) -> Screen {
        Screen { pixels: self.pixels, dirty: false }
    }
}

/// The pixel grid. Only `set` and `clear` change a pixel, and both raise the
/// dirty flag.
pub struct Framebuffer {
    pixels: [[bool; DISPLAY_HEIGHT_PX]; DISPLAY_WIDTH_PX],
    /// Set to `true` when a pixel is written; reset when the flag is taken.
    needs_repaint: bool,
}

impl View for Framebuffer {
    type V = Screen;

    closed spec fn view(&self) -> Screen {
        Screen {
            pixels: Seq::new(DISPLAY_WIDTH_PX as nat, |x: int| self.pixels@[x]@),
            dirty: self.needs_repaint,
        }
    }
}

impl Framebuffer {
    /// The model of every grid has 64 columns of 32 pixels.
    pub proof fn lemma_view_wf(&self)
        ensures
            self@.wf(),
    {
    }

    /// A grid with every pixel off and nothing to paint.
    pub fn new() -> (fb: Framebuffer)
        ensures
            fb@ == Screen::blank(),
    {
        let fb = Framebuffer {
            pixels: [[false; DISPLAY_HEIGHT_PX]; DISPLAY_WIDTH_PX],
            needs_repaint: false,
        };
        assert(fb@ =~~= Screen::blank());
        fb
    }

    /// Turns every pixel off and marks the grid dirty.
    pub fn clear(&mut self)
        ensures
            final(self)@ == old(self)@.clear(),
    {
        for i in 0..DISPLAY_WIDTH_PX
            invariant
                forall|x: int, y: int|
                    0 <= x < i && 0 <= y < DISPLAY_HEIGHT_PX ==> !(#[trigger] self.pixels@[x]@[y]),
        {
            for j in 0..DISPLAY_HEIGHT_PX
                invariant
                    i < DISPLAY_WIDTH_PX,
                    forall|x: int, y: int|
                        0 <= x < i && 0 <= y < DISPLAY_HEIGHT_PX ==> !(
                        #[trigger] self.pixels@[x]@[y]),
                    forall|y: int| 0 <= y < j ==> !(#[trigger] self.pixels@[i as int]@[y]),
            {
                self.pixels[i][j] = false;
            }
        }
        self.needs_repaint = true;
        assert(self@ =~~= old(self)@.clear());
    }

    /// The state of the pixel at `(x, y)`.
    pub fn get(&self, x: usize, y: usize) -> (lit: bool)
        requires
            Screen::in_bounds(x as int, y as int),
        ensures
            lit == self@.at(x as int, y as int),
    {
        self.pixels[x][y]
    }

    /// Writes the pixel at `(x, y)` and marks the grid dirty.
    pub fn set(&mut self, x: usize, y: usize, val: bool)
        requires
            Screen::in_bounds(x as int, y as int),
        ensures
            final(self)@ == old(self)@.set(x as int, y as int, val),
    {
        self.pixels[x][y] = val;
        self.needs_repaint = true;
    }

    /// Whether the grid was written since the flag was last taken; resets the
    /// flag and leaves the pixels alone.
    pub fn take_dirty(&mut self) -> (dirty: bool)
        ensures
            dirty == old(self)@.dirty,
            final(self)@ == old(self)@.acknowledge(),
    {
        let dirty = self.needs_repaint;
        self.needs_repaint = false;
        dirty
    }
}

} // verus!
