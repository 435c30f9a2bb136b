use raytrace::rtw_image::{clamp, pixel_at};

#[test]
fn clamp_below_low() {
    assert_eq!(clamp(-5, 0, 10), 0);
}

#[test]
fn clamp_inside() {
    assert_eq!(clamp(5, 0, 10), 5);
    assert_eq!(clamp(0, 0, 10), 0);
}

#[test]
fn clamp_at_and_above_high() {
    assert_eq!(clamp(10, 0, 10), 9);
    assert_eq!(clamp(99, 0, 10), 9);
}

#[test]
fn pixel_lookup_row_major() {
    // a 2x2 image whose bytes are just their own offsets
    let data: Vec<u8> = (0..12).collect();
    assert_eq!(pixel_at(&data, 2, 2, 0, 0), (0, 1, 2));
    assert_eq!(pixel_at(&data, 2, 2, 1, 0), (3, 4, 5));
    assert_eq!(pixel_at(&data, 2, 2, 0, 1), (6, 7, 8));
    assert_eq!(pixel_at(&data, 2, 2, 1, 1), (9, 10, 11));
}

#[test]
fn pixel_lookup_clamps_to_the_edge() {
    let data: Vec<u8> = (0..12).collect();
    // off the left/top: nearest is (0, 0)
    assert_eq!(pixel_at(&data, 2, 2, -5, -1), (0, 1, 2));
    // off the right/bottom: nearest is (1, 1)
    assert_eq!(pixel_at(&data, 2, 2, 7, 100), (9, 10, 11));
    // mixed
    assert_eq!(pixel_at(&data, 2, 2, -1, 1), (6, 7, 8));
}

#[test]
fn pixel_lookup_single_pixel() {
    let data: Vec<u8> = vec![10, 20, 30];
    assert_eq!(pixel_at(&data, 1, 1, 0, 0), (10, 20, 30));
    assert_eq!(pixel_at(&data, 1, 1, -9, 9), (10, 20, 30));
}
