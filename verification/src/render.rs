//! The frame renderer capability: the one contract between the presentation
//! loop and whatever routine fills the frame.

use crate::canvas::Canvas;
use crate::color::RGBA;
use crate::color::pixel_bytes;
use crate::coords::buffer_col;
use crate::coords::buffer_row;
use crate::coords::in_bounds;
use crate::coords::pixel_offset;
use vstd::arithmetic::div_mod::lemma_fundamental_div_mod_converse;
use vstd::prelude::*;

verus! {

/// A per-frame rendering routine. Once per presented frame it receives the
/// pixel sink for that frame and writes whatever pixels it wants through the
/// sink's write operations.
///
/// An implementation must leave the sink well-formed and must not change its
/// shape: the declared dimensions and format the loop communicated stay in
/// force until the loop itself changes them.
pub trait FrameRenderer {
    fn frame(&mut self, canvas: &mut Canvas)
        requires
            old(canvas).wf(),
        ensures
            final(canvas).wf(),
            final(canvas).spec_width() == old(canvas).spec_width(),
            final(canvas).spec_height() == old(canvas).spec_height(),
            final(canvas).spec_format() == old(canvas).spec_format(),
    ;
}

/// Paints every pixel of the canvas with `color`, row by row, through the
/// sink's centered-coordinate write operation: afterwards every byte of the
/// buffer holds what its position within a slot demands for `color` under
/// the canvas's format.
pub fn fill(canvas: &mut Canvas, color: RGBA)
    requires
        old(canvas).wf(),
    ensures
        final(canvas).wf(),
        final(canvas).spec_width() == old(canvas).spec_width(),
        final(canvas).spec_height() == old(canvas).spec_height(),
        final(canvas).spec_format() == old(canvas).spec_format(),
        final(canvas).bytes().len() == old(canvas).bytes().len(),
        forall|i: int|
            0 <= i < final(canvas).bytes().len() ==> final(canvas).bytes()[i] == pixel_bytes(
                old(canvas).spec_format(),
                color,
            )[i % 4],
{
    let w: i32 = canvas.width();
    let h: i32 = canvas.height();
    let mut row: i32 = 0;
    while row < h
        invariant
            canvas.wf(),
            canvas.spec_width() == old(canvas).spec_width(),
            canvas.spec_height() == old(canvas).spec_height(),
            canvas.spec_format() == old(canvas).spec_format(),
            canvas.bytes().len() == old(canvas).bytes().len(),
            w == canvas.spec_width(),
            h == canvas.spec_height(),
            0 <= row <= h,
            forall|i: int|
                0 <= i < 4 * (row * w) ==> canvas.bytes()[i] == pixel_bytes(
                    canvas.spec_format(),
                    color,
                )[i % 4],
        decreases h - row,
    {
        let mut col: i32 = 0;
        while col < w
            invariant
                canvas.wf(),
                canvas.spec_width() == old(canvas).spec_width(),
                canvas.spec_height() == old(canvas).spec_height(),
                canvas.spec_format() == old(canvas).spec_format(),
                canvas.bytes().len() == old(canvas).bytes().len(),
                w == canvas.spec_width(),
                h == canvas.spec_height(),
                0 <= row < h,
                0 <= col <= w,
                forall|i: int|
                    0 <= i < 4 * (row * w + col) ==> canvas.bytes()[i] == pixel_bytes(
                        canvas.spec_format(),
                        color,
                    )[i % 4],
            decreases w - col,
        {
            let x: i32 = col - w / 2;
            let y: i32 = h / 2 - row;
            let ghost off0: int = row * w + col;
            proof {
                assert(buffer_col(w as int, x as int) == col);
                assert(buffer_row(h as int, y as int) == row);
                assert(in_bounds(w as int, h as int, x as int, y as int));
                assert(pixel_offset(w as int, h as int, x as int, y as int) == off0);
                assert(0 <= off0 && 4 * off0 + 4 <= 4 * (row * w + col) + 4 <= canvas.bytes().len())
                    by (nonlinear_arith)
                    requires
                        0 <= col < w,
                        0 <= row < h,
                        off0 == row * w + col,
                        canvas.bytes().len() == (w as int) * (h as int) * 4,
                ;
            }
            canvas.put_pixel(x, y, color);
            proof {
                assert forall|i: int| 0 <= i < 4 * (row * w + col + 1) implies canvas.bytes()[i]
                    == pixel_bytes(canvas.spec_format(), color)[i % 4] by {
                    if 4 * off0 <= i {
                        lemma_fundamental_div_mod_converse(i, 4, off0, i - 4 * off0);
                    }
                }
            }
            col = col + 1;
        }
        proof {
            assert(4 * (row * w + w) == 4 * ((row + 1) * w)) by (nonlinear_arith);
        }
        row = row + 1;
    }
    proof {
        assert(4 * ((h as int) * w) == canvas.bytes().len()) by (nonlinear_arith)
            requires
                canvas.bytes().len() == (w as int) * (h as int) * 4,
        ;
    }
}

/// A renderer that paints the whole frame with one color.
pub struct FillRenderer {
    pub color: RGBA,
}

impl FrameRenderer for FillRenderer {
    fn frame(&mut self, canvas: &mut Canvas) {
        fill(canvas, self.color);
    }
}

} // verus!
