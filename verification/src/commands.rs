//! The decisions of the `create` command.

use vstd::prelude::*;
use crate::error::{HdrError, error_detail};

verus! {

/// Images above this many pixels are merged in parallel.
pub const PARALLEL_MERGE_MIN_PIXELS: u32 = 500_000;

/// An HDR image needs at least two exposures.
pub fn check_enough_images(count: usize) -> (r: Result<(), HdrError>)
    ensures
        r is Ok <==> count >= 2,
        r matches Err(e) ==> e is InvalidInput && error_detail(e)
            == "Need at least 2 images to create HDR"@,
{
    if count < 2 {
        Err(HdrError::InvalidInput(String::from_str("Need at least 2 images to create HDR")))
    } else {
        Ok(())
    }
}

/// Whether images of this size are merged in parallel: when they have more
/// than 500,000 pixels. The pixel count is a `u32` product, so the size must
/// not overflow it.
pub fn prefers_parallel_merge(width: u32, height: u32) -> (r: bool)
    requires
        width * height <= u32::MAX,
    ensures
        r == (width * height > PARALLEL_MERGE_MIN_PIXELS),
{
    let pixel_count = width * height;
    pixel_count > PARALLEL_MERGE_MIN_PIXELS
}

} // verus!
