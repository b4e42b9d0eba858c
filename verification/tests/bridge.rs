//! Tests of the frame buffer bridge: coordinate translation, both pixel
//! formats, and the bounds policy.

use raytracer::Canvas;
use raytracer::PixelFormat;
use raytracer::RGBA;

fn color(r: u8, g: u8, b: u8, a: u8) -> RGBA {
    RGBA { r, g, b, a }
}

#[test]
fn center_targets_middle_offset() {
    let mut c = Canvas::new(512, 512, PixelFormat::PlanarRgba);
    c.write_pixel(0, 0, color(9, 8, 7, 6)).unwrap();
    let off: usize = 256 * 512 + 256;
    assert_eq!(c.byte_at(off * 4), 9);
    assert_eq!(c.byte_at(off * 4 + 1), 8);
    assert_eq!(c.byte_at(off * 4 + 2), 7);
    assert_eq!(c.byte_at(off * 4 + 3), 6);
}

#[test]
fn top_left_corner_offset_zero() {
    // The top-left corner is row 0, column 0: centered (-256, 256), since
    // +y points up and row = height/2 - y.
    let mut c = Canvas::new(512, 512, PixelFormat::PlanarRgba);
    c.write_pixel(-256, 256, color(1, 2, 3, 4)).unwrap();
    assert_eq!(c.byte_at(0), 1);
    assert_eq!(c.byte_at(1), 2);
    assert_eq!(c.byte_at(2), 3);
    assert_eq!(c.byte_at(3), 4);
    // (-256, -256) translates to row 512, one past the last row: refused.
    assert!(c.write_pixel(-256, -256, color(1, 2, 3, 4)).is_err());
}

#[test]
fn truncating_division_boundary() {
    // (255, 255) lands on row 1 (one below the center row), last column.
    let mut c = Canvas::new(512, 512, PixelFormat::PlanarRgba);
    c.write_pixel(255, 255, color(5, 5, 5, 5)).unwrap();
    let off: usize = 1 * 512 + 511;
    assert_eq!(c.byte_at(off * 4), 5);
}

#[test]
fn odd_dimensions_truncate() {
    // width = height = 3: the center (0, 0) is row 3/2 = 1, column 1.
    let mut c = Canvas::new(3, 3, PixelFormat::PlanarRgba);
    c.write_pixel(0, 0, color(42, 0, 0, 0)).unwrap();
    let off: usize = 1 * 3 + 1;
    assert_eq!(c.byte_at(off * 4), 42);
}

#[test]
fn distinct_coordinates_distinct_offsets() {
    let mut c = Canvas::new(8, 8, PixelFormat::PlanarRgba);
    c.write_pixel(1, 2, color(10, 0, 0, 0)).unwrap();
    c.write_pixel(3, -1, color(20, 0, 0, 0)).unwrap();
    // Both writes survive: they touched different slots.
    let off1: usize = (4 - 2) * 8 + (4 + 1);
    let off2: usize = (4 + 1) * 8 + (4 + 3);
    assert_eq!(c.byte_at(off1 * 4), 10);
    assert_eq!(c.byte_at(off2 * 4), 20);
}

#[test]
fn packed_round_trip() {
    let mut c = Canvas::new(512, 512, PixelFormat::PackedRgb);
    c.write_pixel(0, 0, color(0xAB, 0xCD, 0xEF, 0x77)).unwrap();
    let off: usize = 256 * 512 + 256;
    let word = c.word_at(off);
    assert_eq!(word, (0xABu32 << 16) | (0xCDu32 << 8) | 0xEFu32);
}

#[test]
fn packed_drops_alpha() {
    let mut c1 = Canvas::new(4, 4, PixelFormat::PackedRgb);
    let mut c2 = Canvas::new(4, 4, PixelFormat::PackedRgb);
    c1.write_pixel(1, 1, color(1, 2, 3, 0)).unwrap();
    c2.write_pixel(1, 1, color(1, 2, 3, 255)).unwrap();
    for i in 0..c1.buffer_len() {
        assert_eq!(c1.byte_at(i), c2.byte_at(i));
    }
}

#[test]
fn planar_round_trip() {
    let mut c = Canvas::new(512, 512, PixelFormat::PlanarRgba);
    c.write_pixel(-10, 99, color(0x12, 0x34, 0x56, 0x78)).unwrap();
    let off: usize = (256 - 99) * 512 + (256 - 10);
    assert_eq!(c.byte_at(off * 4), 0x12);
    assert_eq!(c.byte_at(off * 4 + 1), 0x34);
    assert_eq!(c.byte_at(off * 4 + 2), 0x56);
    assert_eq!(c.byte_at(off * 4 + 3), 0x78);
}

#[test]
fn out_of_range_is_harmless() {
    let mut c = Canvas::new(512, 512, PixelFormat::PlanarRgba);
    assert!(c.write_pixel(10000, 10000, color(1, 1, 1, 1)).is_err());
    // The drop-policy write ignores it silently.
    c.put_pixel(10000, 10000, color(1, 1, 1, 1));
    // Nothing inside the buffer was touched either.
    for i in 0..c.buffer_len() {
        assert_eq!(c.byte_at(i), 0);
    }
}

#[test]
fn new_canvas_is_zeroed() {
    let c = Canvas::new(16, 8, PixelFormat::PackedRgb);
    assert_eq!(c.width(), 16);
    assert_eq!(c.height(), 8);
    assert_eq!(c.format(), PixelFormat::PackedRgb);
    assert_eq!(c.buffer_len(), 16 * 8 * 4);
    assert!(c.buffer().iter().all(|&b| b == 0));
}

#[test]
fn put_pixel_writes_like_write_pixel() {
    let mut c = Canvas::new(8, 8, PixelFormat::PlanarRgba);
    c.put_pixel(0, 0, color(7, 7, 7, 7));
    let off: usize = 4 * 8 + 4;
    assert_eq!(c.byte_at(off * 4), 7);
}
