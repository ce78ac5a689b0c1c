//! Tests of the pixel surface lifecycle and the gradient payload.

use framehost::surface::PixelSurface;

fn expected_pixel(x: i32, y: i32, ox: i32, oy: i32) -> u32 {
    ((((y + oy) & 0xFF) << 8) | ((x + ox) & 0xFF)) as u32
}

#[test]
fn resize_sets_dimensions_stride_and_block_size() {
    let mut s = PixelSurface::new_empty();
    s.resize(2, 3);
    assert_eq!(s.width, 2);
    assert_eq!(s.height, 3);
    assert_eq!(s.stride, 8);
    assert_eq!(s.bytes_per_pixel, 4);
    assert_eq!(s.buffer.len(), 24);
    assert!(s.is_paintable());
}

#[test]
fn resize_to_zero_area_leaves_surface_unpaintable() {
    let mut s = PixelSurface::new_empty();
    s.resize(0, 0);
    assert_eq!(s.width, 0);
    assert_eq!(s.height, 0);
    assert_eq!(s.stride, 0);
    assert_eq!(s.buffer.len(), 0);
    assert!(!s.is_paintable());

    s.resize(5, 0);
    assert_eq!(s.width, 5);
    assert_eq!(s.stride, 20);
    assert_eq!(s.buffer.len(), 0);
    assert!(!s.is_paintable());
}

#[test]
fn failed_allocation_records_requested_size_but_stays_unpaintable() {
    let mut s = PixelSurface::new_empty();
    s.resize(4, 4);
    assert!(s.is_paintable());
    s.apply_resize(1280, 720, false);
    assert_eq!(s.width, 1280);
    assert_eq!(s.height, 720);
    assert_eq!(s.stride, 1280 * 4);
    assert_eq!(s.buffer.len(), 0);
    assert!(!s.is_paintable());
}

#[test]
fn resize_twice_is_structurally_idempotent() {
    let mut s = PixelSurface::new_empty();
    s.resize(7, 5);
    let (w1, h1, p1, n1) = (s.width, s.height, s.stride, s.buffer.len());
    s.resize(7, 5);
    assert_eq!((s.width, s.height, s.stride, s.buffer.len()), (w1, h1, p1, n1));
    assert!(s.buffer.iter().all(|b| *b == 0));
}

#[test]
fn resize_starts_from_a_zeroed_block() {
    let mut s = PixelSurface::new_empty();
    s.resize(3, 2);
    assert!(s.buffer.iter().all(|b| *b == 0));
    assert_eq!(s.pixel(2, 1), 0);
}

#[test]
fn fill_round_trip_small_surface() {
    let mut s = PixelSurface::new_empty();
    s.resize(3, 2);
    s.fill_gradient(7, 11);
    for y in 0..2 {
        for x in 0..3 {
            assert_eq!(s.pixel(x, y), expected_pixel(x, y, 7, 11));
        }
    }
}

#[test]
fn fill_wraps_around_byte_boundary() {
    let mut s = PixelSurface::new_empty();
    s.resize(4, 1);
    s.fill_gradient(254, 255);
    assert_eq!(s.pixel(0, 0), expected_pixel(0, 0, 254, 255));
    assert_eq!(s.pixel(1, 0), expected_pixel(1, 0, 254, 255));
    assert_eq!(s.pixel(2, 0), 0xFF00);
    assert_eq!(s.pixel(3, 0), 0xFF01);
}

#[test]
fn fill_with_negative_offsets_wraps_like_the_shift() {
    let mut s = PixelSurface::new_empty();
    s.resize(2, 2);
    s.fill_gradient(-1, -300);
    assert_eq!(s.pixel(0, 0), expected_pixel(0, 0, -1, -300));
    assert_eq!(s.pixel(0, 0), (212 << 8) | 255);
    assert_eq!(s.pixel(1, 1), expected_pixel(1, 1, -1, -300));
}

#[test]
fn fill_on_unpaintable_surface_is_a_no_op() {
    let mut s = PixelSurface::new_empty();
    s.fill_gradient(10, 20);
    assert_eq!(s.buffer.len(), 0);
    assert_eq!(s.width, 0);

    s.apply_resize(8, 8, false);
    s.fill_gradient(10, 20);
    assert_eq!(s.buffer.len(), 0);
    assert_eq!(s.width, 8);
}

#[test]
fn fill_writes_zero_to_the_high_pixel_bytes() {
    let mut s = PixelSurface::new_empty();
    s.resize(1, 1);
    s.fill_gradient(200, 200);
    let p = s.pixel(0, 0);
    assert_eq!(p >> 16, 0);
    assert_eq!(p, (200 << 8) | 200);
    assert_eq!(s.buffer[2], 0);
    assert_eq!(s.buffer[3], 0);
}
