use hdr_oxide::raster::PixelFormat;

#[test]
fn test_pixel_format_labels() {
    assert_eq!(PixelFormat::Rgb8.label(), "8-bit RGB");
    assert_eq!(PixelFormat::Rgba32F.label(), "32-bit float RGBA");
    assert_eq!(PixelFormat::Luma8.label(), "8-bit Grayscale");
    assert_eq!(PixelFormat::LumaA16.label(), "16-bit Grayscale+Alpha");
    assert_eq!(PixelFormat::Unknown.label(), "Unknown");
}
