use hdr_oxide::error::HdrError;
use hdr_oxide::loader::{
    check_has_inputs, decode_image, exposure_from_rationals, exposure_rational, exposure_source,
    image_from_decoded, split_fraction, ExposureSource,
};
use image::GenericImageView;

#[test]
fn test_manual_exposures_take_precedence() {
    let manual = vec!["1/1000".to_string(), "1/125".to_string()];
    let offsets = vec![0, 3];
    assert_eq!(
        exposure_source(1, "b.jpg", Some(&manual), Some(&offsets)).unwrap(),
        ExposureSource::Manual(1)
    );
}

#[test]
fn test_missing_manual_exposure_is_reported() {
    let manual = vec!["1/1000".to_string()];
    match exposure_source(2, "c.jpg", Some(&manual), None) {
        Err(HdrError::InvalidInput(msg)) => {
            assert_eq!(msg, "Exposure not provided for image c.jpg (index 2)")
        }
        _ => panic!("expected an invalid-input error"),
    }
}

#[test]
fn test_ev_offsets_default_to_zero() {
    let offsets = vec![0, 3, 7];
    assert_eq!(
        exposure_source(2, "c.jpg", None, Some(&offsets)).unwrap(),
        ExposureSource::ExifScaled(7)
    );
    assert_eq!(
        exposure_source(5, "f.jpg", None, Some(&offsets)).unwrap(),
        ExposureSource::ExifScaled(0)
    );
}

#[test]
fn test_exif_is_the_fallback_source() {
    assert_eq!(exposure_source(0, "a.jpg", None, None).unwrap(), ExposureSource::ExifOrDefault);
}

#[test]
fn test_no_input_images_rejected() {
    match check_has_inputs(0) {
        Err(HdrError::InvalidInput(msg)) => assert_eq!(msg, "No input images provided"),
        _ => panic!("expected an invalid-input error"),
    }
    assert!(check_has_inputs(3).is_ok());
}

#[test]
fn test_split_fraction_at_first_slash() {
    assert_eq!(split_fraction("1/125"), Some(("1".to_string(), "125".to_string())));
    assert_eq!(split_fraction("1/x"), Some(("1".to_string(), "x".to_string())));
    assert_eq!(split_fraction("1/2/3"), Some(("1".to_string(), "2/3".to_string())));
    assert_eq!(split_fraction("/"), Some((String::new(), String::new())));
    assert_eq!(split_fraction("0.008"), None);
    assert_eq!(split_fraction(""), None);
}

/// A little-endian TIFF whose Exif IFD holds one ExposureTime of 1/125 s.
fn tiff_with_exposure() -> Vec<u8> {
    let mut b: Vec<u8> = vec![0x49, 0x49, 0x2A, 0x00, 0x08, 0x00, 0x00, 0x00];
    b.extend_from_slice(&[0x01, 0x00, 0x69, 0x87, 0x04, 0x00, 0x01, 0x00, 0x00, 0x00]);
    b.extend_from_slice(&[0x1A, 0x00, 0x00, 0x00, 0x00, 0x00, 0x00, 0x00]);
    b.extend_from_slice(&[0x01, 0x00, 0x9A, 0x82, 0x05, 0x00, 0x01, 0x00, 0x00, 0x00]);
    b.extend_from_slice(&[0x2C, 0x00, 0x00, 0x00, 0x00, 0x00, 0x00, 0x00]);
    b.extend_from_slice(&[0x01, 0x00, 0x00, 0x00, 0x7D, 0x00, 0x00, 0x00]);
    b
}

fn exif_message(r: Result<(u32, u32), HdrError>) -> String {
    match r {
        Err(HdrError::Exif(msg)) => msg,
        other => panic!("expected an EXIF error, got {:?}", other),
    }
}

#[test]
fn test_exposure_read_from_exif_bytes() {
    assert_eq!(exposure_rational(&tiff_with_exposure()).unwrap(), (1, 125));
}

#[test]
fn test_exposure_from_unreadable_bytes() {
    assert_eq!(exif_message(exposure_rational(b"not an image")), "Could not read EXIF data");
    assert_eq!(exif_message(exposure_rational(&[])), "Could not read EXIF data");
}

#[test]
fn test_exposure_chosen_from_found_rationals() {
    assert_eq!(exposure_from_rationals(Some(Some(vec![(1, 60), (1, 30)]))).unwrap(), (1, 60));
    assert_eq!(
        exif_message(exposure_from_rationals(Some(Some(vec![])))),
        "Could not find exposure time in EXIF data"
    );
    assert_eq!(
        exif_message(exposure_from_rationals(Some(None))),
        "Could not find exposure time in EXIF data"
    );
    assert_eq!(exif_message(exposure_from_rationals(None)), "Could not read EXIF data");
}

fn png_bytes() -> Vec<u8> {
    let raw = image::RgbImage::from_raw(2, 1, vec![10, 20, 30, 40, 50, 60]).unwrap();
    let img = image::DynamicImage::ImageRgb8(raw);
    let mut bytes = Vec::new();
    img.write_to(&mut std::io::Cursor::new(&mut bytes), image::ImageFormat::Png).unwrap();
    bytes
}

#[test]
fn test_decode_image_by_extension() {
    let img = decode_image(&png_bytes(), "shot.png").unwrap();
    assert_eq!(img.dimensions(), (2, 1));
    assert_eq!(img.to_rgb8().into_raw(), vec![10, 20, 30, 40, 50, 60]);
}

#[test]
fn test_decode_image_errors() {
    match decode_image(&png_bytes(), "shot.xyz") {
        Err(HdrError::Image(msg)) => assert!(!msg.is_empty()),
        _ => panic!("expected an image error for an unknown extension"),
    }
    match decode_image(b"garbage", "shot.png") {
        Err(HdrError::Image(msg)) => assert!(!msg.is_empty()),
        _ => panic!("expected an image error for undecodable bytes"),
    }
    match image_from_decoded(Err("bad data".to_string())) {
        Err(HdrError::Image(msg)) => assert_eq!(msg, "bad data"),
        _ => panic!("expected an image error"),
    }
}

#[test]
fn test_decode_image_without_extension_leaves_format_undetermined() {
    let bytes = png_bytes();
    let message = |path: &str| match decode_image(&bytes, path) {
        Err(HdrError::Image(msg)) => msg,
        _ => panic!("expected an image error"),
    };
    assert_eq!(message("shot."), message("shot"));
    assert!(message("shot.").contains("could not be determined"));
}
