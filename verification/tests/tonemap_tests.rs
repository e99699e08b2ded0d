use hdr_oxide::error::HdrError;
use hdr_oxide::tonemap::{
    join_rows, progress_interval, rgb8_image_from_rows, should_report_progress, TonemapMethod,
};

#[test]
fn test_method_names_select_operators() {
    assert_eq!(TonemapMethod::from_name("reinhard"), TonemapMethod::Reinhard);
    assert_eq!(TonemapMethod::from_name("filmic"), TonemapMethod::Filmic);
    assert_eq!(TonemapMethod::from_name("gamma"), TonemapMethod::Gamma);
}

#[test]
fn test_method_names_ignore_case() {
    assert_eq!(TonemapMethod::from_name("REINHARD"), TonemapMethod::Reinhard);
    assert_eq!(TonemapMethod::from_name("Filmic"), TonemapMethod::Filmic);
    assert_eq!(TonemapMethod::from_name("GaMmA"), TonemapMethod::Gamma);
}

#[test]
fn test_unknown_method_name_falls_back_to_reinhard() {
    assert_eq!(TonemapMethod::from_name("unknown_method"), TonemapMethod::Reinhard);
    assert_eq!(TonemapMethod::from_name(""), TonemapMethod::Reinhard);
    assert_eq!(TonemapMethod::parse("unknown_method"), None);
    assert_eq!(TonemapMethod::parse("Gamma"), Some(TonemapMethod::Gamma));
    assert_eq!(TonemapMethod::from_lowercase_name("Gamma"), None);
}

#[test]
fn test_progress_interval_is_a_hundredth() {
    assert_eq!(progress_interval(10_000), 100);
    assert_eq!(progress_interval(250), 2);
    assert_eq!(progress_interval(99), 1);
    assert_eq!(progress_interval(0), 1);
}

#[test]
fn test_progress_reported_on_boundaries() {
    assert!(should_report_progress(0, 7));
    assert!(should_report_progress(14, 7));
    assert!(!should_report_progress(15, 7));
}

#[test]
fn test_join_rows_keeps_order() {
    let rows = vec![vec![1u8, 2, 3], vec![], vec![4, 5, 6]];
    assert_eq!(join_rows(&rows), vec![1, 2, 3, 4, 5, 6]);
}

#[test]
fn test_rows_become_rgb8_image() {
    let rows = vec![vec![10u8; 6], vec![20u8; 6]];
    let img = rgb8_image_from_rows(2, 2, &rows).unwrap();
    assert_eq!(img.width(), 2);
    assert_eq!(img.height(), 2);
    let rgb = img.to_rgb8();
    assert_eq!(rgb.get_pixel(1, 1).0, [20, 20, 20]);
    assert_eq!(rgb.get_pixel(0, 0).0, [10, 10, 10]);
}

#[test]
fn test_short_rows_fail_to_make_image() {
    let rows = vec![vec![10u8; 6], vec![20u8; 5]];
    match rgb8_image_from_rows(2, 2, &rows) {
        Err(HdrError::Tonemap(msg)) => assert_eq!(msg, "Failed to create image buffer"),
        _ => panic!("expected a tone-mapping error"),
    }
}

#[test]
fn test_method_name_equals_its_lowercase_form() {
    for name in ["GaMMa", "FILMIC", "ReinHard", "Unknown"] {
        assert_eq!(
            TonemapMethod::from_name(name),
            TonemapMethod::from_name(&name.to_lowercase())
        );
    }
}
