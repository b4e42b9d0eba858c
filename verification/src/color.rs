//! Colors and the two byte layouts a backing buffer may use.

use vstd::prelude::*;

verus! {

/// One pixel's color: four 8-bit channels, passed by value.
#[derive(Clone, Copy, Debug, PartialEq, Eq, Structural)]
pub struct RGBA {
    pub r: u8,
    pub g: u8,
    pub b: u8,
    pub a: u8,
}

/// How a color is laid out in the four bytes of a pixel's slot. The choice is
/// made once per presentation backend, never per pixel.
#[derive(Clone, Copy, Debug, PartialEq, Eq, Structural)]
pub enum PixelFormat {
    /// One 32-bit word per pixel holding `(r << 16) | (g << 8) | b`, stored
    /// little-endian; the top byte is padding and alpha is dropped.
    PackedRgb,
    /// Four independent bytes per pixel, `r, g, b, a` in that order.
    PlanarRgba,
}

/// The 32-bit word the packed format stores for `c`: `(r << 16) | (g << 8) | b`.
pub open spec fn packed_word(c: RGBA) -> int {
    c.r * 0x10000 + c.g * 0x100 + c.b
}

/// The four bytes a pixel's slot holds for color `c` under format `f`.
pub open spec fn pixel_bytes(f: PixelFormat, c: RGBA) -> Seq<u8> {
    match f {
        PixelFormat::PackedRgb => seq![c.b, c.g, c.r, 0u8],
        PixelFormat::PlanarRgba => seq![c.r, c.g, c.b, c.a],
    }
}

/// The buffer contents after storing color `c` with format `f` at pixel slot
/// `off` (bytes `4*off .. 4*off + 4`).
pub open spec fn store_pixel(bytes: Seq<u8>, off: int, f: PixelFormat, c: RGBA) -> Seq<u8> {
    bytes.update(4 * off, pixel_bytes(f, c)[0]).update(4 * off + 1, pixel_bytes(f, c)[1]).update(
        4 * off + 2,
        pixel_bytes(f, c)[2],
    ).update(4 * off + 3, pixel_bytes(f, c)[3])
}

/// The 32-bit word encoded little-endian by the four bytes of slot `off`.
pub open spec fn slot_word(bytes: Seq<u8>, off: int) -> int {
    bytes[4 * off + 3] * 0x1000000 + bytes[4 * off + 2] * 0x10000 + bytes[4 * off + 1] * 0x100
        + bytes[4 * off]
}

/// A store touches nothing but the four bytes of its own slot: every byte
/// outside `4*off .. 4*off + 4` keeps its value, and the length is kept.
pub proof fn lemma_store_pixel_frame(bytes: Seq<u8>, off: int, f: PixelFormat, c: RGBA, i: int)
    requires
        0 <= off,
        4 * off + 4 <= bytes.len(),
        0 <= i < bytes.len(),
        !(4 * off <= i < 4 * off + 4),
    ensures
        store_pixel(bytes, off, f, c).len() == bytes.len(),
        store_pixel(bytes, off, f, c)[i] == bytes[i],
{
}

/// Packed round trip: after storing a color in the packed format, the word
/// read back from its slot is exactly `(r << 16) | (g << 8) | b`; the alpha
/// channel does not reach the buffer.
pub proof fn lemma_packed_round_trip(bytes: Seq<u8>, off: int, c: RGBA)
    requires
        0 <= off,
        4 * off + 4 <= bytes.len(),
    ensures
        slot_word(store_pixel(bytes, off, PixelFormat::PackedRgb, c), off) == packed_word(c),
{
}

/// Alpha is dropped entirely by the packed format: two colors that agree on
/// red, green and blue store the same bytes whatever their alpha.
pub proof fn lemma_packed_ignores_alpha(bytes: Seq<u8>, off: int, c1: RGBA, c2: RGBA)
    requires
        c1.r == c2.r,
        c1.g == c2.g,
        c1.b == c2.b,
    ensures
        store_pixel(bytes, off, PixelFormat::PackedRgb, c1) == store_pixel(
            bytes,
            off,
            PixelFormat::PackedRgb,
            c2,
        ),
{
}

/// Planar round trip: after storing a color in the planar format, the four
/// bytes of its slot read back as exactly `r, g, b, a`.
pub proof fn lemma_planar_round_trip(bytes: Seq<u8>, off: int, c: RGBA)
    requires
        0 <= off,
        4 * off + 4 <= bytes.len(),
    ensures
        store_pixel(bytes, off, PixelFormat::PlanarRgba, c)[4 * off] == c.r,
        store_pixel(bytes, off, PixelFormat::PlanarRgba, c)[4 * off + 1] == c.g,
        store_pixel(bytes, off, PixelFormat::PlanarRgba, c)[4 * off + 2] == c.b,
        store_pixel(bytes, off, PixelFormat::PlanarRgba, c)[4 * off + 3] == c.a,
{
}

} // verus!
