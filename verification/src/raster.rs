//! The `image` crate's image type as the library sees it, and the calls
//! into that crate that the library's logic makes.

use vstd::prelude::*;

verus! {

/// `image::DynamicImage`, carried through the library without looking inside.
#[verifier::external_type_specification]
#[verifier::external_body]
pub struct ExDynamicImage(::image::DynamicImage);

/// The (width, height) of an image.
pub uninterp spec fn image_size(img: ::image::DynamicImage) -> (u32, u32);

/// The bytes of an 8-bit RGB image's buffer, as its `as_raw` returns them:
/// the samples row by row, followed by any bytes the buffer holds past
/// `3 * width * height`.
pub uninterp spec fn rgb8_samples(img: ::image::DynamicImage) -> Seq<u8>;

/// Calls `ImageBuffer::<Rgb<u8>, Vec<u8>>::from_raw` and wraps the buffer as
/// `DynamicImage::ImageRgb8`. The crate's source returns a buffer exactly when
/// `3 * width * height` (checked for overflow) is at most the data's length,
/// and that buffer has the given size and stores the data as given.
#[verifier::external_body]
pub(crate) fn rgb8_from_raw(width: u32, height: u32, data: Vec<u8>) -> (img: Option<::image::DynamicImage>)
    ensures
        img is Some <==> 3 * width * height <= data@.len(),
        img matches Some(i) ==> image_size(i) == (width, height) && rgb8_samples(i) == data@,
{
    ::image::ImageBuffer::<::image::Rgb<u8>, Vec<u8>>::from_raw(width, height, data).map(
        ::image::DynamicImage::ImageRgb8,
    )
}

/// The pixel layouts an image can be stored in.
#[derive(Debug, Clone, Copy, PartialEq, Eq, Structural)]
pub enum PixelFormat {
    Rgb8,
    Rgba8,
    Rgb16,
    Rgba16,
    Rgb32F,
    Rgba32F,
    Luma8,
    LumaA8,
    Luma16,
    LumaA16,
    Unknown,
}

/// The description of each pixel format shown by `info`.
pub open spec fn format_label(f: PixelFormat) -> Seq<char> {
    match f {
        PixelFormat::Rgb8 => "8-bit RGB"@,
        PixelFormat::Rgba8 => "8-bit RGBA"@,
        PixelFormat::Rgb16 => "16-bit RGB"@,
        PixelFormat::Rgba16 => "16-bit RGBA"@,
        PixelFormat::Rgb32F => "32-bit float RGB"@,
        PixelFormat::Rgba32F => "32-bit float RGBA"@,
        PixelFormat::Luma8 => "8-bit Grayscale"@,
        PixelFormat::LumaA8 => "8-bit Grayscale+Alpha"@,
        PixelFormat::Luma16 => "16-bit Grayscale"@,
        PixelFormat::LumaA16 => "16-bit Grayscale+Alpha"@,
        PixelFormat::Unknown => "Unknown"@,
    }
}

impl PixelFormat {
    /// A human-readable description of the format.
    pub fn label(&self) -> (s: &'static str)
        ensures
            s@ == format_label(*self),
    {
        match self {
            PixelFormat::Rgb8 => "8-bit RGB",
            PixelFormat::Rgba8 => "8-bit RGBA",
            PixelFormat::Rgb16 => "16-bit RGB",
            PixelFormat::Rgba16 => "16-bit RGBA",
            PixelFormat::Rgb32F => "32-bit float RGB",
            PixelFormat::Rgba32F => "32-bit float RGBA",
            PixelFormat::Luma8 => "8-bit Grayscale",
            PixelFormat::LumaA8 => "8-bit Grayscale+Alpha",
            PixelFormat::Luma16 => "16-bit Grayscale",
            PixelFormat::LumaA16 => "16-bit Grayscale+Alpha",
            PixelFormat::Unknown => "Unknown",
        }
    }
}

} // verus!
