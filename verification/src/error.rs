//! The library's error type.

use vstd::prelude::*;

verus! {

/// Errors of HDR creation; each carries a human-readable detail message.
#[derive(Debug)]
pub enum HdrError {
    Image(String),
    Alignment(String),
    Merge(String),
    Tonemap(String),
    Exr(String),
    Exif(String),
    Io(String),
    InvalidInput(String),
}

/// The prefix that names the kind of an error in its message.
pub open spec fn error_prefix(e: HdrError) -> Seq<char> {
    match e {
        HdrError::Image(_) => "Image error: "@,
        HdrError::Alignment(_) => "Alignment error: "@,
        HdrError::Merge(_) => "HDR merge error: "@,
        HdrError::Tonemap(_) => "Tonemap error: "@,
        HdrError::Exr(_) => "EXR error: "@,
        HdrError::Exif(_) => "EXIF error: "@,
        HdrError::Io(_) => "I/O error: "@,
        HdrError::InvalidInput(_) => "Invalid input: "@,
    }
}

/// The detail message an error carries.
pub open spec fn error_detail(e: HdrError) -> Seq<char> {
    match e {
        HdrError::Image(m) => m@,
        HdrError::Alignment(m) => m@,
        HdrError::Merge(m) => m@,
        HdrError::Tonemap(m) => m@,
        HdrError::Exr(m) => m@,
        HdrError::Exif(m) => m@,
        HdrError::Io(m) => m@,
        HdrError::InvalidInput(m) => m@,
    }
}

impl HdrError {
    /// The message shown to users: the kind's prefix followed by the detail.
    pub fn to_string(&self) -> (s: String)
        ensures
            s@ == error_prefix(*self) + error_detail(*self),
    {
        let (prefix, detail) = match self {
            HdrError::Image(m) => ("Image error: ", m),
            HdrError::Alignment(m) => ("Alignment error: ", m),
            HdrError::Merge(m) => ("HDR merge error: ", m),
            HdrError::Tonemap(m) => ("Tonemap error: ", m),
            HdrError::Exr(m) => ("EXR error: ", m),
            HdrError::Exif(m) => ("EXIF error: ", m),
            HdrError::Io(m) => ("I/O error: ", m),
            HdrError::InvalidInput(m) => ("Invalid input: ", m),
        };
        let mut s = String::from_str(prefix);
        s.append(detail.as_str());
        s
    }
}

} // verus!
