use hdr_oxide::error::HdrError;

#[test]
fn test_error_messages_name_their_kind() {
    let cases = vec![
        (HdrError::Image("bad".to_string()), "Image error: bad"),
        (HdrError::Alignment("bad".to_string()), "Alignment error: bad"),
        (HdrError::Merge("bad".to_string()), "HDR merge error: bad"),
        (HdrError::Tonemap("bad".to_string()), "Tonemap error: bad"),
        (HdrError::Exr("bad".to_string()), "EXR error: bad"),
        (HdrError::Exif("bad".to_string()), "EXIF error: bad"),
        (HdrError::Io("bad".to_string()), "I/O error: bad"),
        (HdrError::InvalidInput("bad".to_string()), "Invalid input: bad"),
    ];
    for (err, expected) in cases {
        assert_eq!(err.to_string(), expected);
    }
}

#[test]
fn test_error_message_with_empty_detail() {
    assert_eq!(HdrError::Io(String::new()).to_string(), "I/O error: ");
}
