//! The pixel sink: a backing buffer with its logical dimensions, its color
//! format, and the one sanctioned per-pixel write operation.

use crate::color::PixelFormat;
use crate::color::RGBA;
use crate::color::slot_word;
use crate::color::store_pixel;
use crate::coords::in_bounds;
use crate::coords::lemma_offset_in_range;
use crate::coords::pixel_offset;
use crate::coords::translate;
use vstd::prelude::*;

verus! {

/// A pixel write whose translated offset falls outside the buffer.
#[derive(Clone, Copy, Debug, PartialEq, Eq, Structural)]
pub struct OutOfRange;

/// The frame buffer bridge: the backing buffer together with the logical
/// dimensions and color format the renderer must be told about.
///
/// Every write goes through [`Canvas::write_pixel`] or [`Canvas::put_pixel`];
/// there is no other mutation path, so a write can never land outside the
/// buffer.
pub struct Canvas {
    buffer: Vec<u8>,
    width: i32,
    height: i32,
    format: PixelFormat,
}

impl Canvas {
    /// Well-formed: positive dimensions that match the buffer capacity at
    /// four bytes per pixel.
    pub open spec fn wf(self) -> bool {
        &&& 0 < self.spec_width()
        &&& 0 < self.spec_height()
        &&& self.spec_width() * self.spec_height() * 4 <= usize::MAX as int
        &&& self.bytes().len() == self.spec_width() * self.spec_height() * 4
    }

    /// The logical width in pixels.
    pub closed spec fn spec_width(self) -> int {
        self.width as int
    }

    /// The logical height in pixels.
    pub closed spec fn spec_height(self) -> int {
        self.height as int
    }

    /// The configured color format.
    pub closed spec fn spec_format(self) -> PixelFormat {
        self.format
    }

    /// The bytes of the backing buffer.
    pub closed spec fn bytes(self) -> Seq<u8> {
        self.buffer@
    }

    /// Makes a canvas of the given dimensions with an all-zero buffer.
    pub fn new(width: i32, height: i32, format: PixelFormat) -> (c: Canvas)
        requires
            0 < width,
            0 < height,
            (width as int) * (height as int) * 4 <= usize::MAX as int,
        ensures
            c.wf(),
            c.spec_width() == width,
            c.spec_height() == height,
            c.spec_format() == format,
            c.bytes().len() == (width as int) * (height as int) * 4,
            forall|i: int| 0 <= i < c.bytes().len() ==> c.bytes()[i] == 0u8,
    {
        proof {
            assert((width as int) * (height as int) <= (width as int) * (height as int) * 4
                && (width as int) * (height as int) * 4 == ((width as int) * (height as int)) * 4)
                by (nonlinear_arith)
                requires
                    0 < width,
                    0 < height,
            ;
        }
        let n: usize = (width as usize) * (height as usize) * 4;
        let mut buffer: Vec<u8> = Vec::new();
        while buffer.len() < n
            invariant
                buffer@.len() <= n,
                forall|i: int| 0 <= i < buffer@.len() ==> buffer@[i] == 0u8,
            decreases n - buffer@.len(),
        {
            buffer.push(0u8);
        }
        Canvas { buffer, width, height, format }
    }

    /// Drops the old contents and reallocates for the new dimensions, so that
    /// the declared size and the buffer capacity change together.
    pub fn resize(&mut self, width: i32, height: i32)
        requires
            0 < width,
            0 < height,
            (width as int) * (height as int) * 4 <= usize::MAX as int,
        ensures
            final(self).wf(),
            final(self).spec_width() == width,
            final(self).spec_height() == height,
            final(self).spec_format() == old(self).spec_format(),
            final(self).bytes().len() == (width as int) * (height as int) * 4,
            forall|i: int| 0 <= i < final(self).bytes().len() ==> final(self).bytes()[i] == 0u8,
    {
        *self = Canvas::new(width, height, self.format);
    }

    /// Writes `color` at centered `(x, y)`, or reports `OutOfRange` without
    /// touching the buffer when the translated offset falls outside it.
    pub fn write_pixel(&mut self, x: i32, y: i32, color: RGBA) -> (r: Result<(), OutOfRange>)
        requires
            old(self).wf(),
        ensures
            final(self).wf(),
            final(self).spec_width() == old(self).spec_width(),
            final(self).spec_height() == old(self).spec_height(),
            final(self).spec_format() == old(self).spec_format(),
            (r is Ok) == in_bounds(
                old(self).spec_width(),
                old(self).spec_height(),
                x as int,
                y as int,
            ),
            r is Ok ==> final(self).bytes() == store_pixel(
                old(self).bytes(),
                pixel_offset(old(self).spec_width(), old(self).spec_height(), x as int, y as int),
                old(self).spec_format(),
                color,
            ),
            r is Err ==> final(self).bytes() == old(self).bytes(),
    {
        proof {
            assert((self.width as int) * (self.height as int) <= (self.width as int) * (
            self.height as int) * 4) by (nonlinear_arith)
                requires
                    0 < self.width,
                    0 < self.height,
            ;
        }
        match translate(self.width, self.height, x, y) {
            Some(off) => {
                proof {
                    lemma_offset_in_range(
                        self.width as int,
                        self.height as int,
                        x as int,
                        y as int,
                    );
                    assert(off * 4 + 4 <= (self.width as int) * (self.height as int) * 4)
                        by (nonlinear_arith)
                        requires
                            off < (self.width as int) * (self.height as int),
                    ;
                }
                let base: usize = off * 4;
                match self.format {
                    PixelFormat::PackedRgb => {
                        self.buffer[base] = color.b;
                        self.buffer[base + 1] = color.g;
                        self.buffer[base + 2] = color.r;
                        self.buffer[base + 3] = 0u8;
                    },
                    PixelFormat::PlanarRgba => {
                        self.buffer[base] = color.r;
                        self.buffer[base + 1] = color.g;
                        self.buffer[base + 2] = color.b;
                        self.buffer[base + 3] = color.a;
                    },
                }
                Ok(())
            },
            None => Err(OutOfRange),
        }
    }

    /// The drop-policy variant of the write: an out-of-range coordinate is
    /// silently ignored, for drop-in compatibility with renderers that expect
    /// no error channel.
    pub fn put_pixel(&mut self, x: i32, y: i32, color: RGBA)
        requires
            old(self).wf(),
        ensures
            final(self).wf(),
            final(self).spec_width() == old(self).spec_width(),
            final(self).spec_height() == old(self).spec_height(),
            final(self).spec_format() == old(self).spec_format(),
            in_bounds(old(self).spec_width(), old(self).spec_height(), x as int, y as int)
                ==> final(self).bytes() == store_pixel(
                old(self).bytes(),
                pixel_offset(old(self).spec_width(), old(self).spec_height(), x as int, y as int),
                old(self).spec_format(),
                color,
            ),
            !in_bounds(old(self).spec_width(), old(self).spec_height(), x as int, y as int)
                ==> final(self).bytes() == old(self).bytes(),
    {
        let _ = self.write_pixel(x, y, color);
    }

    /// The logical width in pixels.
    pub fn width(&self) -> (w: i32)
        ensures
            w == self.spec_width(),
    {
        self.width
    }

    /// The logical height in pixels.
    pub fn height(&self) -> (h: i32)
        ensures
            h == self.spec_height(),
    {
        self.height
    }

    /// The configured color format.
    pub fn format(&self) -> (f: PixelFormat)
        ensures
            f == self.spec_format(),
    {
        self.format
    }

    /// The size of the backing buffer in bytes.
    pub fn buffer_len(&self) -> (n: usize)
        ensures
            n == self.bytes().len(),
    {
        self.buffer.len()
    }

    /// A read-only view of the backing buffer, for presentation.
    pub fn buffer(&self) -> (b: &Vec<u8>)
        ensures
            b@ == self.bytes(),
    {
        &self.buffer
    }

    /// The byte stored at position `i` of the backing buffer.
    pub fn byte_at(&self, i: usize) -> (b: u8)
        requires
            i < self.bytes().len(),
        ensures
            b == self.bytes()[i as int],
    {
        self.buffer[i]
    }

    /// The 32-bit word stored at pixel slot `off`, assembled little-endian
    /// from its four bytes.
    pub fn word_at(&self, off: usize) -> (w: u32)
        requires
            self.wf(),
            off < self.spec_width() * self.spec_height(),
        ensures
            w == slot_word(self.bytes(), off as int),
    {
        proof {
            assert(off * 4 + 4 <= (self.width as int) * (self.height as int) * 4)
                by (nonlinear_arith)
                requires
                    off < (self.width as int) * (self.height as int),
            ;
        }
        let base: usize = off * 4;
        (self.buffer[base + 3] as u32) * 0x1000000 + (self.buffer[base + 2] as u32) * 0x10000 + (
        self.buffer[base + 1] as u32) * 0x100 + (self.buffer[base] as u32)
    }
}

} // verus!
