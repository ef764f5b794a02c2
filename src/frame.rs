//! The pixel buffer of one frame: its size, how a pixel index maps to a
//! position on the surface, and how a frame of escape counts is coloured.

use rayon::iter::{IndexedParallelIterator, IntoParallelRefIterator, ParallelIterator};
use vstd::arithmetic::div_mod::lemma_fundamental_div_mod;
use vstd::prelude::*;

use crate::palette::{color, color_of};

verus! {

/// Relies on rayon's `collect_into_vec` over `par_iter().map(..)` of a vector:
/// the target is cleared and then holds one item per element, in index order;
/// each item is what the verified `color` returns for that element.
#[verifier::external_body]
fn par_colors(counts: &Vec<u32>, max_iter: u32, target: &mut Vec<u32>)
    requires
        max_iter > 0,
    ensures
        final(target)@.len() == counts@.len(),
        forall|i: int|
            0 <= i < counts@.len() ==> #[trigger] final(target)@[i] == color_of(counts@[i], max_iter),
{
    counts.par_iter().map(|&c| color(c, max_iter)).collect_into_vec(target);
}

/// The iteration bound of a frame of depth `depth`, the depth being
/// `floor(100 - log2(w))` for a viewport `w` wide: the depth itself, held to
/// `[1, u32::MAX]` so that the bound is always positive.
pub open spec fn bound_of(depth: int) -> int {
    if depth < 1 {
        1
    } else if depth > u32::MAX {
        u32::MAX as int
    } else {
        depth
    }
}

/// Iteration bound for a frame of depth `depth` (see `bound_of`).
pub fn iteration_bound(depth: i64) -> (r: u32)
    ensures
        r == bound_of(depth as int),
        r >= 1,
{
    if depth < 1 {
        1
    } else if depth > u32::MAX as i64 {
        u32::MAX
    } else {
        depth as u32
    }
}

/// Column and row of pixel `idx` on a `width` by `height` surface laid out
/// row by row: `(idx mod width, idx div width)`.
pub fn pixel_position(idx: usize, width: usize, height: usize) -> (r: (usize, usize))
    requires
        idx < width * height,
    ensures
        r.0 == idx as int % width as int,
        r.1 == idx as int / width as int,
        r.0 < width,
        r.1 < height,
        r.1 * width + r.0 == idx,
{
    assert(width > 0) by (nonlinear_arith)
        requires
            idx < width * height,
    ;
    let px = idx % width;
    let py = idx / width;
    proof {
        lemma_fundamental_div_mod(idx as int, width as int);
    }
    assert(py < height && py * width + px == idx) by (nonlinear_arith)
        requires
            idx < width * height,
            width > 0,
            px == idx % width,
            py == idx / width,
            idx == width * (idx / width) + idx % width,
    ;
    (px, py)
}

/// Row-major buffer of packed RGB colours, one per pixel of a
/// `width` by `height` surface.
pub struct FrameBuffer {
    width: usize,
    height: usize,
    pixels: Vec<u32>,
}

impl FrameBuffer {
    /// Width of the surface, in pixels.
    pub closed spec fn spec_width(&self) -> nat {
        self.width as nat
    }

    /// Height of the surface, in pixels.
    pub closed spec fn spec_height(&self) -> nat {
        self.height as nat
    }

    /// The colours, row by row: pixel `(x, y)` is at index `y * width + x`.
    pub closed spec fn spec_pixels(&self) -> Seq<u32> {
        self.pixels@
    }

    /// The buffer holds exactly one colour per pixel of the surface.
    pub open spec fn wf(&self) -> bool {
        self.spec_pixels().len() == self.spec_width() * self.spec_height()
    }

    /// An empty buffer for a surface of no pixels.
    pub fn new() -> (r: FrameBuffer)
        ensures
            r.wf(),
            r.spec_width() == 0,
            r.spec_height() == 0,
            r.spec_pixels().len() == 0,
    {
        FrameBuffer { width: 0, height: 0, pixels: Vec::new() }
    }

    /// Sets the surface to `width` by `height`. Where the size changes, the
    /// old colours are dropped and every pixel is zero; otherwise nothing
    /// changes. Returns whether the size changed.
    pub fn resize(&mut self, width: usize, height: usize) -> (changed: bool)
        requires
            old(self).wf(),
            width * height <= usize::MAX,
        ensures
            final(self).wf(),
            final(self).spec_width() == width,
            final(self).spec_height() == height,
            changed == (old(self).spec_width() != width || old(self).spec_height() != height),
            changed ==> forall|i: int|
                0 <= i < final(self).spec_pixels().len() ==> #[trigger] final(self).spec_pixels()[i]
                    == 0,
            !changed ==> final(self).spec_pixels() == old(self).spec_pixels(),
    {
        if width != self.width || height != self.height {
            self.width = width;
            self.height = height;
            self.pixels.clear();
            self.pixels.resize(width * height, 0);
            true
        } else {
            false
        }
    }

    /// Overwrites every pixel with the colour of its escape count.
    pub fn fill(&mut self, counts: &Vec<u32>, max_iter: u32)
        requires
            old(self).wf(),
            counts@.len() == old(self).spec_pixels().len(),
            max_iter > 0,
        ensures
            final(self).wf(),
            final(self).spec_width() == old(self).spec_width(),
            final(self).spec_height() == old(self).spec_height(),
            final(self).spec_pixels().len() == counts@.len(),
            forall|i: int|
                0 <= i < counts@.len() ==> #[trigger] final(self).spec_pixels()[i] == color_of(
                    counts@[i],
                    max_iter,
                ),
    {
        par_colors(counts, max_iter, &mut self.pixels);
    }

    /// Renders one frame onto a `width` by `height` surface: the buffer takes
    /// that size and pixel `i` gets the colour of `counts[i]`, whatever the
    /// buffer held before.
    pub fn render_frame(&mut self, width: usize, height: usize, counts: &Vec<u32>, max_iter: u32)
        requires
            old(self).wf(),
            width * height <= usize::MAX,
            counts@.len() == width * height,
            max_iter > 0,
        ensures
            final(self).wf(),
            final(self).spec_width() == width,
            final(self).spec_height() == height,
            final(self).spec_pixels().len() == width * height,
            forall|i: int|
                0 <= i < counts@.len() ==> #[trigger] final(self).spec_pixels()[i] == color_of(
                    counts@[i],
                    max_iter,
                ),
    {
        self.resize(width, height);
        self.fill(counts, max_iter);
    }

    /// Width of the surface, in pixels.
    pub fn width(&self) -> (r: usize)
        ensures
            r == self.spec_width(),
    {
        self.width
    }

    /// Height of the surface, in pixels.
    pub fn height(&self) -> (r: usize)
        ensures
            r == self.spec_height(),
    {
        self.height
    }

    /// The colours, row by row, ready to present.
    pub fn pixels(&self) -> (r: &Vec<u32>)
        ensures
            r@ == self.spec_pixels(),
    {
        &self.pixels
    }
}

} // verus!
