use hdr_oxide::error::HdrError;
use hdr_oxide::merge::{check_merge_dimensions, merge_progress_due};

#[test]
fn test_merge_check_rejects_no_images() {
    match check_merge_dimensions(&[]) {
        Err(HdrError::Merge(msg)) => assert_eq!(msg, "No images to merge"),
        _ => panic!("expected a merge error"),
    }
}

#[test]
fn test_merge_check_accepts_equal_sizes() {
    assert_eq!(check_merge_dimensions(&[(10, 10)]).unwrap(), (10, 10));
    assert_eq!(check_merge_dimensions(&[(4, 3), (4, 3), (4, 3)]).unwrap(), (4, 3));
}

#[test]
fn test_merge_check_names_first_mismatch() {
    match check_merge_dimensions(&[(10, 10), (20, 20)]) {
        Err(HdrError::Merge(msg)) => assert_eq!(
            msg,
            "Image 1 has different dimensions (20x20) than first image (10x10)"
        ),
        _ => panic!("expected a merge error"),
    }
    match check_merge_dimensions(&[(8, 6), (8, 6), (6, 8), (1, 1)]) {
        Err(HdrError::Merge(msg)) => assert_eq!(
            msg,
            "Image 2 has different dimensions (6x8) than first image (8x6)"
        ),
        _ => panic!("expected a merge error"),
    }
}

#[test]
fn test_merge_progress_due_after_a_hundredth() {
    assert!(merge_progress_due(250, 100, 10_000));
    assert!(!merge_progress_due(150, 100, 10_000));
    assert!(!merge_progress_due(50, 100, 10_000));
    assert!(merge_progress_due(0, 100, 50));
}
