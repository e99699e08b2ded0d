//! Loading source images: decoding their bytes, reading the exposure time
//! from their EXIF data, and choosing where each exposure time comes from.
//! Reading files and the floating-point exposure values live outside the
//! verified library.

use vstd::prelude::*;
use crate::error::{HdrError, error_detail};
use crate::text::{decimal, decimal_string};
use crate::pathname::{path_extension, path_extension_of};

verus! {

/// Where the exposure time of one source image comes from.
#[derive(Debug, Clone, Copy, PartialEq, Eq, Structural)]
pub enum ExposureSource {
    /// The manual exposure string at this index.
    Manual(usize),
    /// The EXIF exposure time, scaled by two to the power of this EV offset.
    ExifScaled(i32),
    /// The EXIF exposure time, or 1/125 s where it cannot be read.
    ExifOrDefault,
}

/// The exposure source of image `index` for the manual exposure count and EV offsets given,
/// or `None` when manual exposures are given but none for this image.
pub open spec fn exposure_source_spec(index: int, manual_len: Option<nat>, ev_offsets: Option<Seq<i32>>) -> Option<ExposureSource> {
    match manual_len {
        Some(n) => if index < n { Some(ExposureSource::Manual(index as usize)) } else { None },
        None => match ev_offsets {
            Some(offsets) => Some(ExposureSource::ExifScaled(
                if index < offsets.len() { offsets[index] } else { 0 },
            )),
            None => Some(ExposureSource::ExifOrDefault),
        },
    }
}

/// The message when no manual exposure is given for image `index` at `path`.
pub open spec fn missing_exposure_message(path: Seq<char>, index: nat) -> Seq<char> {
    "Exposure not provided for image "@ + path + " (index "@ + decimal(index) + ")"@
}

/// Chooses where the exposure time of image `index` comes from: manual
/// exposures take precedence, then EV offsets (an image past the end of the
/// offsets gets offset 0), then the EXIF data. With manual exposures that
/// stop before this image it fails with an invalid-input error naming the
/// image by `path` and index.
pub fn exposure_source(
    index: usize,
    path: &str,
    manual: Option<&[String]>,
    ev_offsets: Option<&[i32]>,
) -> (r: Result<ExposureSource, HdrError>)
    ensures
        ({
            let manual_len = match manual {
                Some(m) => Some(m@.len()),
                None => None,
            };
            let ev = match ev_offsets {
                Some(o) => Some(o@),
                None => None,
            };
            match exposure_source_spec(index as int, manual_len, ev) {
                Some(s) => r == Ok::<ExposureSource, HdrError>(s),
                None => r matches Err(e) && e is InvalidInput && error_detail(e)
                    == missing_exposure_message(path@, index as nat),
            }
        }),
{
    match manual {
        Some(list) => {
            if index < list.len() {
                Ok(ExposureSource::Manual(index))
            } else {
                let mut s = String::from_str("Exposure not provided for image ");
                s.append(path);
                s.append(" (index ");
                s.append(decimal_string(index as u64).as_str());
                s.append(")");
                Err(HdrError::InvalidInput(s))
            }
        },
        None => match ev_offsets {
            Some(offsets) => {
                let offset = if index < offsets.len() {
                    offsets[index]
                } else {
                    0
                };
                Ok(ExposureSource::ExifScaled(offset))
            },
            None => Ok(ExposureSource::ExifOrDefault),
        },
    }
}

/// Splits an exposure written as a fraction (`1/125`) at its first `/` into
/// numerator and denominator text; `None` when there is no `/`, as for a
/// decimal exposure (`0.008`).
pub fn split_fraction(s: &str) -> (r: Option<(String, String)>)
    ensures
        r is None <==> !s@.contains('/'),
        r matches Some((num, den)) ==> exists|i: int|
            0 <= i < s@.len() && s@[i] == '/' && (forall|j: int| 0 <= j < i ==> s@[j] != '/')
                && num@ == s@.subrange(0, i) && den@ == s@.subrange(i + 1, s@.len() as int),
{
    let n = s.unicode_len();
    let mut i: usize = 0;
    while i < n
        invariant
            n == s@.len(),
            i <= n,
            forall|j: int| 0 <= j < i ==> s@[j] != '/',
        decreases n - i,
    {
        if s.get_char(i) == '/' {
            let num = String::from_str(s.substring_char(0, i));
            let den = String::from_str(s.substring_char(i + 1, n));
            return Some((num, den));
        }
        i = i + 1;
    }
    assert(!s@.contains('/')) by {
        if s@.contains('/') {
            let j = choose|j: int| 0 <= j < s@.len() && s@[j] == '/';
            assert(s@[j] != '/');
        }
    }
    None
}

/// Loading needs at least one input path.
pub fn check_has_inputs(count: usize) -> (r: Result<(), HdrError>)
    ensures
        r is Ok <==> count > 0,
        r matches Err(e) ==> e is InvalidInput && error_detail(e) == "No input images provided"@,
{
    if count == 0 {
        Err(HdrError::InvalidInput(String::from_str("No input images provided")))
    } else {
        Ok(())
    }
}

/// The outcome of decoding `bytes` as an image in the format that the
/// extension of `path` names: the image, or the message of the error.
pub uninterp spec fn decoded_image(bytes: Seq<u8>, path: Seq<char>) -> Result<::image::DynamicImage, Seq<char>>;

/// The view of a decoding outcome, the message taken by its characters.
pub open spec fn decoded_view(decoded: Result<::image::DynamicImage, String>) -> Result<::image::DynamicImage, Seq<char>> {
    match decoded {
        Ok(img) => Ok(img),
        Err(m) => Err(m@),
    }
}

/// `r` is the image of `expected`, or an image error with its message.
pub open spec fn image_outcome(r: Result<::image::DynamicImage, HdrError>, expected: Result<::image::DynamicImage, Seq<char>>) -> bool {
    match expected {
        Ok(img) => r == Ok::<::image::DynamicImage, HdrError>(img),
        Err(m) => r matches Err(e) && e is Image && error_detail(e) == m,
    }
}

/// Calls `image::ImageFormat::from_path` to pick the format from the
/// extension of `path`, then `image::ImageReader::with_format(..).decode()`
/// on `bytes`; an error of either comes back as its `Display` text. Claimed:
/// the outcome depends on `bytes` and `path` alone (`decoded_image`); which
/// image or message it is stays unsaid.
#[verifier::external_body]
fn decode_with_format_of_path(bytes: &[u8], path: &str) -> (r: Result<::image::DynamicImage, String>)
    ensures
        decoded_view(r) == decoded_image(bytes@, path@),
{
    let format = ::image::ImageFormat::from_path(path).map_err(|e| e.to_string())?;
    ::image::ImageReader::with_format(std::io::Cursor::new(bytes), format).decode().map_err(|e| e.to_string())
}

/// Turns a decoding outcome into the library's result: a failure becomes
/// an image error carrying the decoder's message.
pub fn image_from_decoded(decoded: Result<::image::DynamicImage, String>) -> (r: Result<::image::DynamicImage, HdrError>)
    ensures
        image_outcome(r, decoded_view(decoded)),
{
    match decoded {
        Ok(img) => Ok(img),
        Err(m) => Err(HdrError::Image(m)),
    }
}

/// The outcome of decoding `bytes` with no format chosen.
pub uninterp spec fn decoded_without_format(bytes: Seq<u8>) -> Result<::image::DynamicImage, Seq<char>>;

/// Calls `image::ImageReader::new(..).decode()` on `bytes` without choosing
/// a format; an error comes back as its `Display` text. Claimed: the outcome
/// depends on `bytes` alone (`decoded_without_format`), and it is an error,
/// since `decode` asks for a format before it reads anything.
#[verifier::external_body]
fn decode_without_format(bytes: &[u8]) -> (r: Result<::image::DynamicImage, String>)
    ensures
        decoded_view(r) == decoded_without_format(bytes@),
        r is Err,
{
    ::image::ImageReader::new(std::io::Cursor::new(bytes)).decode().map_err(|e| e.to_string())
}

/// Whether `path` has an extension that is not empty.
pub open spec fn names_extension(path: Seq<char>) -> bool {
    path_extension_of(path) matches Some(e) && e.len() > 0
}

/// Law: the format is left undetermined only for a path without an
/// extension or with an empty one; every non-empty extension, whatever its
/// length or letters, names the format to decode with.
pub proof fn lemma_every_extension_names_a_format(path: Seq<char>)
    ensures
        names_extension(path) <==> (path_extension_of(path) matches Some(e) && e.len() > 0),
        forall|e: Seq<char>| path_extension_of(path) == Some(e) && e.len() > 0 ==> names_extension(path),
{
}

/// Decodes the bytes of an image file in the format that the extension of
/// its `path` names; a path without an extension, or with an empty one,
/// leaves the format undetermined.
pub fn decode_image(bytes: &[u8], path: &str) -> (r: Result<::image::DynamicImage, HdrError>)
    ensures
        image_outcome(
            r,
            if names_extension(path@) {
                decoded_image(bytes@, path@)
            } else {
                decoded_without_format(bytes@)
            },
        ),
        !names_extension(path@) ==> r is Err,
        match path_extension_of(path@) {
            Some(e) => if e.len() > 0 {
                image_outcome(r, decoded_image(bytes@, path@))
            } else {
                image_outcome(r, decoded_without_format(bytes@))
            },
            None => image_outcome(r, decoded_without_format(bytes@)),
        },
{
    let ext = path_extension(path);
    let has_extension = match &ext {
        Some(e) => e.as_str().unicode_len() > 0,
        None => false,
    };
    let decoded = if has_extension {
        decode_with_format_of_path(bytes, path)
    } else {
        decode_without_format(bytes)
    };
    image_from_decoded(decoded)
}

/// What the EXIF reader finds in the bytes of an image file for the
/// primary image's exposure time: `None` when the EXIF data cannot be read,
/// `Some(None)` when there is no such field of rationals, and otherwise the
/// field's rationals as (numerator, denominator) pairs.
pub uninterp spec fn exif_exposure_rationals(bytes: Seq<u8>) -> Option<Option<Seq<(u32, u32)>>>;

/// The view of what the EXIF reader found.
pub open spec fn rationals_view(found: Option<Option<Vec<(u32, u32)>>>) -> Option<Option<Seq<(u32, u32)>>> {
    match found {
        None => None,
        Some(None) => Some(None),
        Some(Some(v)) => Some(Some(v@)),
    }
}

/// The exposure time as a rational, or the message of the failure, given
/// what the EXIF reader found: its first rational when there is one.
pub open spec fn exposure_choice(found: Option<Option<Seq<(u32, u32)>>>) -> Result<(u32, u32), Seq<char>> {
    match found {
        None => Err("Could not read EXIF data"@),
        Some(None) => Err("Could not find exposure time in EXIF data"@),
        Some(Some(s)) => if s.len() > 0 {
            Ok(s[0])
        } else {
            Err("Could not find exposure time in EXIF data"@)
        },
    }
}

/// `r` is the rational of `expected`, or an EXIF error with its message.
pub open spec fn exif_outcome(r: Result<(u32, u32), HdrError>, expected: Result<(u32, u32), Seq<char>>) -> bool {
    match expected {
        Ok(q) => r == Ok::<(u32, u32), HdrError>(q),
        Err(m) => r matches Err(e) && e is Exif && error_detail(e) == m,
    }
}

/// Calls kamadak-exif's `Reader::read_from_container` on `bytes` and then
/// `Exif::get_field` for `Tag::ExposureTime` of `In::PRIMARY`: `None` when
/// reading fails, `Some(None)` when the field is missing or its value is not
/// `Value::Rational`, otherwise the rationals' numerators and denominators.
/// Claimed: the result depends on `bytes` alone (`exif_exposure_rationals`).
#[verifier::external_body]
fn read_exposure_rationals(bytes: &[u8]) -> (r: Option<Option<Vec<(u32, u32)>>>)
    ensures
        rationals_view(r) == exif_exposure_rationals(bytes@),
{
    match ::exif::Reader::new().read_from_container(&mut std::io::Cursor::new(bytes)) {
        Err(_) => None,
        Ok(data) => match data.get_field(::exif::Tag::ExposureTime, ::exif::In::PRIMARY) {
            None => Some(None),
            Some(field) => match &field.value {
                ::exif::Value::Rational(v) => Some(Some(v.iter().map(|q| (q.num, q.denom)).collect())),
                _ => Some(None),
            },
        },
    }
}

/// Picks the exposure time from what the EXIF reader found: its first
/// rational, or an EXIF error saying that the data could not be read or
/// that it holds no exposure time.
pub fn exposure_from_rationals(found: Option<Option<Vec<(u32, u32)>>>) -> (r: Result<(u32, u32), HdrError>)
    ensures
        exif_outcome(r, exposure_choice(rationals_view(found))),
{
    match found {
        None => Err(HdrError::Exif(String::from_str("Could not read EXIF data"))),
        Some(None) => Err(HdrError::Exif(String::from_str("Could not find exposure time in EXIF data"))),
        Some(Some(v)) => {
            if v.len() > 0 {
                Ok(v[0])
            } else {
                Err(HdrError::Exif(String::from_str("Could not find exposure time in EXIF data")))
            }
        },
    }
}

/// The exposure time recorded in the EXIF data of an image file's bytes,
/// as a rational (numerator, denominator).
pub fn exposure_rational(bytes: &[u8]) -> (r: Result<(u32, u32), HdrError>)
    ensures
        exif_outcome(r, exposure_choice(exif_exposure_rationals(bytes@))),
{
    let found = read_exposure_rationals(bytes);
    exposure_from_rationals(found)
}

} // verus!
