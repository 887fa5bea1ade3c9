//! Pixel-buffer addressing for the parallel sampler.
//!
//! The renderer hands out one unit of work per output pixel and assembles
//! the results into a flat row-major buffer, y growing downward. The
//! addressing decided here — flat slot from coordinates and back — is what
//! keeps the parallel writes disjoint: distinct pixels own distinct slots,
//! so no two worker tasks ever touch the same memory location.

use vstd::prelude::*;

verus! {

/// The flat row-major slot of pixel `(x, y)` in an image of the given width.
pub open spec fn spec_pixel_slot(x: int, y: int, width: int) -> int {
    y * width + x
}

/// Flat buffer slot of a pixel.
pub fn pixel_slot(x: usize, y: usize, width: usize) -> (i: usize)
    requires
        x < width,
        y * width + x <= usize::MAX,
    ensures
        i as int == spec_pixel_slot(x as int, y as int, width as int),
{
    y * width + x
}

/// Pixel coordinates of a flat buffer slot: the column is the remainder by
/// the width, the row what the column leaves over, divided by the width —
/// the inverse of `pixel_slot`.
pub fn pixel_coords(i: usize, width: usize) -> (xy: (usize, usize))
    requires
        width > 0,
    ensures
        xy.0 < width,
        spec_pixel_slot(xy.0 as int, xy.1 as int, width as int) == i as int,
{
    let x = i % width;
    proof {
        vstd::arithmetic::div_mod::lemma_mod_decreases(i as nat, width as nat);
    }
    let y = (i - x) / width;
    proof {
        assert(i as int - (i as int % width as int) == (i as int / width as int) * (
        width as int)) by {
            vstd::arithmetic::div_mod::lemma_fundamental_div_mod(i as int, width as int);
        }
        assert((i as int / width as int) * (width as int) == (width as int) * (i as int
            / width as int)) by (nonlinear_arith);
        vstd::arithmetic::div_mod::lemma_div_multiples_vanish(i as int / width as int, width as int);
    }
    (x, y)
}

/// Distinct pixels own distinct buffer slots: two per-pixel tasks can never
/// write the same memory location.
pub proof fn lemma_pixel_slot_injective(x1: int, y1: int, x2: int, y2: int, width: int)
    requires
        0 <= x1 < width,
        0 <= x2 < width,
        0 <= y1,
        0 <= y2,
        spec_pixel_slot(x1, y1, width) == spec_pixel_slot(x2, y2, width),
    ensures
        x1 == x2,
        y1 == y2,
{
    assert(y1 == y2 && x1 == x2) by (nonlinear_arith)
        requires
            0 <= x1 < width,
            0 <= x2 < width,
            0 <= y1,
            0 <= y2,
            y1 * width + x1 == y2 * width + x2,
    ;
}

} // verus!
