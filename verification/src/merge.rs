//! The integer parts of merging exposures: checking that the images can be
//! merged and pacing progress reports. The weighted per-pixel average is
//! floating-point arithmetic and lives outside the verified library.

use vstd::prelude::*;
use crate::error::{HdrError, error_detail};
use crate::text::{decimal, decimal_string};

verus! {

/// The message for image `i` whose size `w`x`h` differs from the first image's `w0`x`h0`.
pub open spec fn mismatch_message(i: nat, w: nat, h: nat, w0: nat, h0: nat) -> Seq<char> {
    "Image "@ + decimal(i) + " has different dimensions ("@ + decimal(w) + "x"@ + decimal(h)
        + ") than first image ("@ + decimal(w0) + "x"@ + decimal(h0) + ")"@
}

/// Every image has the first image's size.
pub open spec fn all_same_size(dims: Seq<(u32, u32)>) -> bool {
    forall|i: int| 0 <= i < dims.len() ==> #[trigger] dims[i] == dims[0]
}

/// Image `i` is the first one whose size differs from the first image's.
pub open spec fn is_first_mismatch(dims: Seq<(u32, u32)>, i: int) -> bool {
    &&& 1 <= i < dims.len()
    &&& dims[i] != dims[0]
    &&& forall|j: int| 1 <= j < i ==> #[trigger] dims[j] == dims[0]
}

fn mismatch_text(i: usize, w: u32, h: u32, w0: u32, h0: u32) -> (s: String)
    ensures
        s@ == mismatch_message(i as nat, w as nat, h as nat, w0 as nat, h0 as nat),
{
    let mut s = String::from_str("Image ");
    s.append(decimal_string(i as u64).as_str());
    s.append(" has different dimensions (");
    s.append(decimal_string(w as u64).as_str());
    s.append("x");
    s.append(decimal_string(h as u64).as_str());
    s.append(") than first image (");
    s.append(decimal_string(w0 as u64).as_str());
    s.append("x");
    s.append(decimal_string(h0 as u64).as_str());
    s.append(")");
    s
}

/// Checks the sizes (width, height) of the images to merge and returns the
/// common size. There must be at least one image, and every image must have
/// the first image's size; otherwise the error names the first image that
/// differs.
pub fn check_merge_dimensions(dims: &[(u32, u32)]) -> (r: Result<(u32, u32), HdrError>)
    ensures
        r is Ok <==> dims@.len() > 0 && all_same_size(dims@),
        r matches Ok(d) ==> d == dims@[0],
        dims@.len() == 0 ==> (r matches Err(e) && e is Merge && error_detail(e)
            == "No images to merge"@),
        dims@.len() > 0 ==> (r matches Err(e) ==> e is Merge && exists|i: int|
            is_first_mismatch(dims@, i) && error_detail(e) == mismatch_message(
                i as nat,
                dims@[i].0 as nat,
                dims@[i].1 as nat,
                dims@[0].0 as nat,
                dims@[0].1 as nat,
            )),
{
    if dims.len() == 0 {
        return Err(HdrError::Merge(String::from_str("No images to merge")));
    }
    let (w0, h0) = dims[0];
    let mut i: usize = 1;
    while i < dims.len()
        invariant
            1 <= i <= dims@.len(),
            dims@[0] == (w0, h0),
            forall|j: int| 0 <= j < i ==> #[trigger] dims@[j] == dims@[0],
        decreases dims@.len() - i,
    {
        let (w, h) = dims[i];
        if w != w0 || h != h0 {
            let msg = mismatch_text(i, w, h, w0, h0);
            assert(is_first_mismatch(dims@, i as int));
            return Err(HdrError::Merge(msg));
        }
        i = i + 1;
    }
    Ok((w0, h0))
}

/// Whether the parallel merge reports progress at this count: when at least a
/// hundredth of the total has passed since the last report.
pub fn merge_progress_due(count: usize, last_reported: usize, total: usize) -> (r: bool)
    ensures
        r == ((if count >= last_reported { count - last_reported } else { 0 }) >= total / 100),
{
    count.saturating_sub(last_reported) >= total / 100
}

} // verus!
