use terrain_raster::raster::{holds_samples, CanonicalRaster};

#[test]
fn raster_new_accepts_exactly_four_samples_per_pixel() {
    let made = CanonicalRaster::new(2, 3, vec![7; 24]);
    let raster = made.expect("24 samples are 2 * 3 * 4");
    assert_eq!(raster.width(), 2);
    assert_eq!(raster.height(), 3);
    assert_eq!(raster.samples().len(), 24);
    assert_eq!(raster.samples()[5], 7);
    assert_eq!(raster.into_samples(), vec![7; 24]);
}

#[test]
fn raster_new_refuses_any_other_length() {
    assert!(CanonicalRaster::new(2, 3, vec![0; 23]).is_none());
    assert!(CanonicalRaster::new(2, 3, vec![0; 25]).is_none());
    assert!(CanonicalRaster::new(2, 3, Vec::new()).is_none());
    assert!(CanonicalRaster::new(1, 1, vec![0; 1]).is_none());
}

#[test]
fn raster_without_pixels_is_a_raster() {
    let raster = CanonicalRaster::new(0, 9, Vec::new()).expect("no pixels, no samples");
    assert_eq!(raster.width(), 0);
    assert_eq!(raster.height(), 9);
    assert!(raster.samples().is_empty());
    assert!(CanonicalRaster::new(0, 0, vec![1, 2, 3, 4]).is_none());
}

#[test]
fn holds_samples_counts_without_overflow() {
    assert!(holds_samples(3, 5, 4, 60));
    assert!(holds_samples(3, 5, 3, 45));
    assert!(holds_samples(3, 5, 1, 15));
    assert!(!holds_samples(3, 5, 1, 16));
    assert!(holds_samples(0, 5, 4, 0));
    assert!(holds_samples(7, 7, 0, 0));
    assert!(holds_samples(2, 3, 7, 42));
    assert!(!holds_samples(u32::MAX, u32::MAX, usize::MAX, usize::MAX));
    assert!(!holds_samples(u32::MAX, u32::MAX, 4, 4));
    assert!(!holds_samples(u32::MAX, u32::MAX, 4, usize::MAX));
    assert!(!holds_samples(65536, 65536, 4, 0));
}
