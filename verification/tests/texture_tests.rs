use rust_tracer::texture::{checker_is_even, TextureImage};

#[test]
fn checker_parity_at_origin_cell() {
    assert!(checker_is_even(0, 0, 0));
}

#[test]
fn checker_parity_alternates_per_axis() {
    assert!(!checker_is_even(1, 0, 0));
    assert!(!checker_is_even(0, 1, 0));
    assert!(!checker_is_even(0, 0, 1));
    assert!(checker_is_even(1, 1, 0));
    assert!(checker_is_even(1, 2, 3));
    assert!(!checker_is_even(1, 2, 4));
}

#[test]
fn checker_parity_on_negative_cells() {
    assert!(!checker_is_even(-1, 0, 0));
    assert!(checker_is_even(-1, -1, 0));
    assert!(checker_is_even(-2, 0, 0));
    assert!(!checker_is_even(-3, -2, -2));
}

#[test]
fn checker_parity_at_extreme_cells() {
    assert!(checker_is_even(i64::MAX, i64::MAX, 0));
    assert!(!checker_is_even(i64::MAX, i64::MAX, i64::MAX));
    assert!(checker_is_even(i64::MIN, 0, 0));
    assert!(!checker_is_even(i64::MIN, i64::MAX, 0));
}

#[test]
fn texture_image_accepts_only_full_grids() {
    assert!(TextureImage::new(2, 2, vec![0; 12]).is_some());
    assert!(TextureImage::new(2, 2, vec![0; 11]).is_none());
    assert!(TextureImage::new(2, 2, vec![0; 13]).is_none());
    assert!(TextureImage::new(0, 0, vec![]).is_some());
}

#[test]
fn texture_image_dimensions() {
    let img = TextureImage::new(3, 2, vec![7; 18]).unwrap();
    assert_eq!(img.width(), 3);
    assert_eq!(img.height(), 2);
}

#[test]
fn texel_reads_row_major_triplets() {
    let bytes: Vec<u8> = (0..12).collect();
    let img = TextureImage::new(2, 2, bytes).unwrap();
    assert_eq!(img.texel(0, 0), (0, 1, 2));
    assert_eq!(img.texel(1, 0), (3, 4, 5));
    assert_eq!(img.texel(0, 1), (6, 7, 8));
    assert_eq!(img.texel(1, 1), (9, 10, 11));
}
