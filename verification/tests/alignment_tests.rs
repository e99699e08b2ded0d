use hdr_oxide::alignment::{
    align_images, alignment_not_possible, check_alignment_inputs, enough_correspondences,
    enough_matches, select_correspondences,
};
use hdr_oxide::error::HdrError;
use image::{DynamicImage, RgbImage};
use std::path::PathBuf;

#[test]
fn test_alignment_unavailable_leaves_images() {
    let mut images = vec![
        (PathBuf::from("a.jpg"), DynamicImage::ImageRgb8(RgbImage::new(2, 2))),
        (PathBuf::from("b.jpg"), DynamicImage::ImageRgb8(RgbImage::new(2, 2))),
    ];
    match align_images(&mut images) {
        Err(HdrError::Alignment(msg)) => assert_eq!(
            msg,
            "Image alignment requires 'alignment' feature. Build with: cargo build --features alignment"
        ),
        _ => panic!("expected an alignment error"),
    }
    assert_eq!(images.len(), 2);
    assert_eq!(images[1].0, PathBuf::from("b.jpg"));
}

#[test]
fn test_alignment_needs_two_images() {
    match check_alignment_inputs(1) {
        Err(HdrError::Alignment(msg)) => assert_eq!(msg, "Need at least 2 images for alignment"),
        _ => panic!("expected an alignment error"),
    }
    assert!(check_alignment_inputs(2).is_ok());
}

#[test]
fn test_match_thresholds() {
    assert!(!enough_matches(14));
    assert!(enough_matches(15));
    assert!(!enough_correspondences(9));
    assert!(enough_correspondences(10));
}

#[test]
fn test_correspondences_use_first_fifty_valid_matches() {
    let mut matches: Vec<(i32, i32)> = (0..60).map(|k| (k, k)).collect();
    matches[3] = (-1, 2);
    matches[4] = (2, 500);
    let pairs = select_correspondences(&matches, 100, 100);
    assert_eq!(pairs.len(), 48);
    assert_eq!(pairs[0], (0, 0));
    assert_eq!(pairs[3], (5, 5));
    assert_eq!(pairs[47], (49, 49));
    let few = select_correspondences(&[(1, 1), (7, 1)], 5, 5);
    assert_eq!(few, vec![(1, 1)]);
}

#[test]
fn test_alignment_failure_wraps_cause() {
    let cause = HdrError::Alignment("No features in reference".to_string());
    match alignment_not_possible(&cause) {
        HdrError::Alignment(msg) => assert_eq!(
            msg,
            "Alignment not possible: Alignment error: No features in reference"
        ),
        _ => panic!("expected an alignment error"),
    }
}
