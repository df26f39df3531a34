//! The framebuffer: a fixed 64x32 grid of boolean pixel states with
//! clear/toggle/read operations under bounds-checked coordinate mapping.
//!
//! A pixel is addressed by `(x, y)` with `0 <= x < 64` and `0 <= y < 32` and
//! stored row-major at index `y * 64 + x`. Toggling reports whether the pixel
//! was lit before the flip; the sprite-drawing path aggregates these reports
//! into the collision flag.

use vstd::prelude::*;
use vstd::pervasive::VecAdditionalExecFns;
use crate::Error;

verus! {

/// Width of the pixel grid.
pub const SCREEN_WIDTH: usize = 64;

/// Height of the pixel grid.
pub const SCREEN_HEIGHT: usize = 32;

/// An all-dark framebuffer: every one of the 64x32 pixels is off.
pub open spec fn blank_fb() -> Seq<bool> {
    Seq::new(2048, |i: int| false)
}

/// The monochrome pixel grid. `vram[y * 64 + x]` is true when the pixel at
/// `(x, y)` is lit.
pub struct Display {
    pub vram: Vec<bool>,
}

impl View for Display {
    type V = Seq<bool>;

    open spec fn view(&self) -> Seq<bool> {
        self.vram@
    }
}

impl Display {
    /// The grid always holds exactly 64 * 32 pixel cells.
    pub open spec fn wf(&self) -> bool {
        self.vram@.len() == 2048
    }

    /// Creates a display with every pixel off.
    pub fn new() -> (d: Display)
        ensures
            d.wf(),
            d@ == blank_fb(),
    {
        let mut vram: Vec<bool> = Vec::new();
        let mut i: usize = 0;
        while i < 2048
            invariant
                i <= 2048,
                vram@.len() == i,
                forall|j: int| 0 <= j < i ==> !vram@[j],
            decreases 2048 - i,
        {
            vram.push(false);
            i += 1;
        }
        let d = Display { vram };
        proof {
            assert(d@ =~= blank_fb());
        }
        d
    }

    /// Turns every pixel off.
    pub fn clear(&mut self)
        requires
            old(self).wf(),
        ensures
            final(self).wf(),
            final(self)@ == blank_fb(),
    {
        let mut i: usize = 0;
        while i < 2048
            invariant
                i <= 2048,
                self.vram@.len() == 2048,
                forall|j: int| 0 <= j < i ==> !self.vram@[j],
            decreases 2048 - i,
        {
            self.vram.set(i, false);
            i += 1;
        }
        proof {
            assert(self@ =~= blank_fb());
        }
    }

    /// XOR-flips the pixel at `(x, y)` and returns whether it was lit before
    /// the toggle; rejects a coordinate outside the 64x32 grid.
    pub fn set_pixel(&mut self, x: usize, y: usize) -> (r: Result<bool, Error>)
        requires
            old(self).wf(),
        ensures
            final(self).wf(),
            x < 64 && y < 32 ==> {
                &&& r == Ok::<bool, Error>(old(self)@[y * 64 + x])
                &&& final(self)@ == old(self)@.update(y * 64 + x, !old(self)@[y * 64 + x])
            },
            !(x < 64 && y < 32) ==> {
                &&& r == Err::<bool, Error>(Error::OutOfRangePixel)
                &&& final(self)@ == old(self)@
            },
    {
        if x < 64 && y < 32 {
            let idx = y * 64 + x;
            let before = self.vram[idx];
            self.vram.set(idx, !before);
            Ok(before)
        } else {
            Err(Error::OutOfRangePixel)
        }
    }

    /// Reads the pixel at `(x, y)`; rejects a coordinate outside the grid.
    pub fn read(&self, x: usize, y: usize) -> (r: Result<bool, Error>)
        requires
            self.wf(),
        ensures
            x < 64 && y < 32 ==> r == Ok::<bool, Error>(self@[y * 64 + x]),
            !(x < 64 && y < 32) ==> r == Err::<bool, Error>(Error::OutOfRangePixel),
    {
        if x < 64 && y < 32 {
            Ok(self.vram[y * 64 + x])
        } else {
            Err(Error::OutOfRangePixel)
        }
    }
}

} // verus!
