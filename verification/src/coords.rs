//! The renderer's centered coordinates, mapped to the buffer's
//! top-left-origin, row-major layout.
//!
//! The renderer addresses pixels with `(0, 0)` in the middle of the buffer,
//! `+x` to the right and `+y` up. Before any byte is touched this is turned
//! into a column, a row and a linear offset; a coordinate that falls outside
//! the grid is reported instead of written.

use vstd::arithmetic::div_mod::lemma_fundamental_div_mod_converse;
use vstd::prelude::*;

verus! {

/// The buffer column addressed by centered `x`: `width / 2 + x`, with the
/// truncating division of positive `width`.
pub open spec fn buffer_col(width: int, x: int) -> int {
    width / 2 + x
}

/// The buffer row addressed by centered `y`: `height / 2 - y` (`+y` is up,
/// rows grow downward).
pub open spec fn buffer_row(height: int, y: int) -> int {
    height / 2 - y
}

/// Whether centered `(x, y)` lands inside the `width x height` grid.
pub open spec fn in_bounds(width: int, height: int, x: int, y: int) -> bool {
    &&& 0 <= buffer_col(width, x) < width
    &&& 0 <= buffer_row(height, y) < height
}

/// The linear row-major offset of centered `(x, y)`:
/// `(height/2 - y) * width + (width/2 + x)`.
pub open spec fn pixel_offset(width: int, height: int, x: int, y: int) -> int {
    buffer_row(height, y) * width + buffer_col(width, x)
}

/// An in-bounds coordinate's offset lies inside `[0, width * height)`.
pub proof fn lemma_offset_in_range(width: int, height: int, x: int, y: int)
    requires
        0 < width,
        0 < height,
        in_bounds(width, height, x, y),
    ensures
        0 <= pixel_offset(width, height, x, y) < width * height,
{
    let col = buffer_col(width, x);
    let row = buffer_row(height, y);
    assert(0 <= row * width + col < width * height) by (nonlinear_arith)
        requires
            0 <= col < width,
            0 <= row < height,
    ;
}

/// Two distinct in-bounds centered coordinates never map to the same offset.
pub proof fn lemma_offset_injective(
    width: int,
    height: int,
    x1: int,
    y1: int,
    x2: int,
    y2: int,
)
    requires
        0 < width,
        0 < height,
        in_bounds(width, height, x1, y1),
        in_bounds(width, height, x2, y2),
        pixel_offset(width, height, x1, y1) == pixel_offset(width, height, x2, y2),
    ensures
        x1 == x2,
        y1 == y2,
{
    let off = pixel_offset(width, height, x1, y1);
    lemma_fundamental_div_mod_converse(off, width, buffer_row(height, y1), buffer_col(width, x1));
    lemma_fundamental_div_mod_converse(off, width, buffer_row(height, y2), buffer_col(width, x2));
}

/// Translates centered `(x, y)` into a linear buffer offset, or reports that
/// the coordinate falls outside the grid.
pub fn translate(width: i32, height: i32, x: i32, y: i32) -> (r: Option<usize>)
    requires
        0 < width,
        0 < height,
        (width as int) * (height as int) <= usize::MAX as int,
    ensures
        (r is Some) == in_bounds(width as int, height as int, x as int, y as int),
        r matches Some(off) ==> off == pixel_offset(width as int, height as int, x as int, y as int),
{
    let w: i64 = width as i64;
    let h: i64 = height as i64;
    let col: i64 = w / 2 + (x as i64);
    let row: i64 = h / 2 - (y as i64);
    if 0 <= col && col < w && 0 <= row && row < h {
        proof {
            assert(0 <= row * w && 0 <= row * w + col < w * h) by (nonlinear_arith)
                requires
                    0 <= col < w,
                    0 <= row < h,
            ;
            assert(w * h <= 0x4000000000000000) by (nonlinear_arith)
                requires
                    0 < w <= 0x80000000,
                    0 < h <= 0x80000000,
            ;
        }
        Some((row * w + col) as usize)
    } else {
        None
    }
}

} // verus!
