use hdr_oxide::commands::{check_enough_images, prefers_parallel_merge};
use hdr_oxide::error::HdrError;

#[test]
fn test_create_needs_two_images() {
    match check_enough_images(1) {
        Err(HdrError::InvalidInput(msg)) => assert_eq!(msg, "Need at least 2 images to create HDR"),
        _ => panic!("expected an invalid-input error"),
    }
    assert!(check_enough_images(0).is_err());
    assert!(check_enough_images(2).is_ok());
}

#[test]
fn test_large_images_merge_in_parallel() {
    assert!(!prefers_parallel_merge(1000, 500));
    assert!(prefers_parallel_merge(1001, 500));
    assert!(!prefers_parallel_merge(0, 70000));
}
