//! The decisions of aligning hand-held exposures to the first one: how many
//! feature matches and point correspondences an image needs before it is
//! warped. Feature detection, matching, homography and warping are not part
//! of this library; `align_images` reports that alignment is unavailable.

use vstd::prelude::*;
use crate::error::{HdrError, error_detail, error_prefix};

verus! {

/// `std::path::PathBuf`, carried through the library without looking inside.
#[verifier::external_type_specification]
#[verifier::external_body]
pub struct ExPathBuf(std::path::PathBuf);

/// Fewer matches than this leave an image unaligned.
pub const MIN_MATCHES: usize = 15;

/// At most this many of the matches become point correspondences.
pub const MAX_CORRESPONDENCES: usize = 50;

/// Fewer correspondences than this leave an image unaligned.
pub const MIN_CORRESPONDENCES: usize = 10;

/// The message that alignment is unavailable.
pub open spec fn unavailable_message() -> Seq<char> {
    "Image alignment requires 'alignment' feature. Build with: cargo build --features alignment"@
}

/// Aligns the images to the first one. Without feature matching it
/// reports that alignment is unavailable and leaves the images as they are.
pub fn align_images(images: &mut Vec<(std::path::PathBuf, ::image::DynamicImage)>) -> (r: Result<(), HdrError>)
    ensures
        final(images)@ == old(images)@,
        r matches Err(e) && e is Alignment && error_detail(e) == unavailable_message(),
{
    Err(HdrError::Alignment(String::from_str(
        "Image alignment requires 'alignment' feature. Build with: cargo build --features alignment",
    )))
}

/// Alignment needs a reference image and at least one image to align to it.
pub fn check_alignment_inputs(count: usize) -> (r: Result<(), HdrError>)
    ensures
        r is Ok <==> count >= 2,
        r matches Err(e) ==> e is Alignment && error_detail(e) == "Need at least 2 images for alignment"@,
{
    if count < 2 {
        Err(HdrError::Alignment(String::from_str("Need at least 2 images for alignment")))
    } else {
        Ok(())
    }
}

/// Whether there are enough feature matches to estimate a homography.
pub fn enough_matches(count: usize) -> (r: bool)
    ensures
        r == (count >= MIN_MATCHES),
{
    count >= MIN_MATCHES
}

/// Whether there are enough point correspondences to estimate a homography.
pub fn enough_correspondences(count: usize) -> (r: bool)
    ensures
        r == (count >= MIN_CORRESPONDENCES),
{
    count >= MIN_CORRESPONDENCES
}

/// A match (query index into the reference keypoints, train index into the
/// current image's keypoints) is usable when both indices name keypoints.
pub open spec fn usable_match(m: (i32, i32), reference_count: nat, current_count: nat) -> bool {
    0 <= m.0 < reference_count && 0 <= m.1 < current_count
}

/// The usable matches among `matches`, in order, as index pairs.
pub open spec fn usable_matches(matches: Seq<(i32, i32)>, reference_count: nat, current_count: nat) -> Seq<(usize, usize)>
    decreases matches.len(),
{
    if matches.len() == 0 {
        seq![]
    } else {
        let rest = usable_matches(matches.drop_last(), reference_count, current_count);
        let m = matches.last();
        if usable_match(m, reference_count, current_count) {
            rest.push((m.0 as usize, m.1 as usize))
        } else {
            rest
        }
    }
}

/// The positions in `matches` of its usable matches, in increasing order:
/// the correspondences are exactly the (query, train) pairs at these positions.
proof fn usable_positions(matches: Seq<(i32, i32)>, reference_count: nat, current_count: nat) -> (idx: Seq<int>)
    ensures
        idx.len() == usable_matches(matches, reference_count, current_count).len(),
        forall|k: int|
            0 <= k < idx.len() ==> {
                let j = #[trigger] idx[k];
                &&& 0 <= j < matches.len()
                &&& 0 <= matches[j].0 < reference_count
                &&& 0 <= matches[j].1 < current_count
                &&& usable_matches(matches, reference_count, current_count)[k]
                    == (matches[j].0 as usize, matches[j].1 as usize)
            },
        forall|k1: int, k2: int| 0 <= k1 < k2 < idx.len() ==> #[trigger] idx[k1] < #[trigger] idx[k2],
        forall|j: int|
            0 <= j < matches.len() && 0 <= (#[trigger] matches[j]).0 < reference_count && 0 <= matches[j].1
                < current_count ==> exists|k: int| 0 <= k < idx.len() && idx[k] == j,
    decreases matches.len(),
{
    if matches.len() == 0 {
        Seq::empty()
    } else {
        let init = matches.drop_last();
        let rest = usable_positions(init, reference_count, current_count);
        let n = matches.len() - 1;
        let m = matches.last();
        assert forall|j: int| 0 <= j < init.len() implies #[trigger] init[j] == matches[j] by {}
        if usable_match(m, reference_count, current_count) {
            let idx = rest.push(n);
            assert forall|k: int| 0 <= k < idx.len() implies {
                let j = #[trigger] idx[k];
                &&& 0 <= j < matches.len()
                &&& 0 <= matches[j].0 < reference_count
                &&& 0 <= matches[j].1 < current_count
                &&& usable_matches(matches, reference_count, current_count)[k]
                    == (matches[j].0 as usize, matches[j].1 as usize)
            } by {
                if k < rest.len() {
                    assert(idx[k] == rest[k]);
                    assert(init[rest[k]] == matches[rest[k]]);
                }
            }
            assert forall|j: int|
                0 <= j < matches.len() && 0 <= (#[trigger] matches[j]).0 < reference_count && 0
                    <= matches[j].1 < current_count implies exists|k: int| 0 <= k < idx.len() && idx[k] == j by {
                if j < n {
                    assert(init[j] == matches[j]);
                    let k = choose|k: int| 0 <= k < rest.len() && rest[k] == j;
                    assert(idx[k] == j);
                } else {
                    assert(idx[rest.len() as int] == j);
                }
            }
            idx
        } else {
            assert forall|k: int| 0 <= k < rest.len() implies {
                let j = #[trigger] rest[k];
                &&& 0 <= j < matches.len()
                &&& 0 <= matches[j].0 < reference_count
                &&& 0 <= matches[j].1 < current_count
                &&& usable_matches(matches, reference_count, current_count)[k]
                    == (matches[j].0 as usize, matches[j].1 as usize)
            } by {
                assert(init[rest[k]] == matches[rest[k]]);
            }
            assert forall|j: int|
                0 <= j < matches.len() && 0 <= (#[trigger] matches[j]).0 < reference_count && 0
                    <= matches[j].1 < current_count implies exists|k: int| 0 <= k < rest.len() && rest[k] == j by {
                if j < n {
                    assert(init[j] == matches[j]);
                } else {
                    assert(m == matches[j]);
                }
            }
            rest
        }
    }
}

/// Law: the correspondences are the usable matches taken in order, each as
/// (reference keypoint, current keypoint): every one is the (query, train)
/// pair of a match whose indices name keypoints of the reference and the
/// current image, they come in the order of their matches, and no usable
/// match is left out.
pub proof fn lemma_correspondences_follow_matches(matches: Seq<(i32, i32)>, reference_count: nat, current_count: nat)
    ensures
        exists|idx: Seq<int>|
            #![trigger idx.len()]
            {
            &&& idx.len() == usable_matches(matches, reference_count, current_count).len()
            &&& forall|k: int|
                0 <= k < usable_matches(matches, reference_count, current_count).len() ==> {
                    &&& 0 <= #[trigger] idx[k] < matches.len()
                    &&& 0 <= matches[idx[k]].0 < reference_count
                    &&& 0 <= matches[idx[k]].1 < current_count
                    &&& usable_matches(matches, reference_count, current_count)[k].0 == matches[idx[k]].0
                    &&& usable_matches(matches, reference_count, current_count)[k].1 == matches[idx[k]].1
                }
            &&& forall|k1: int, k2: int| 0 <= k1 < k2 < usable_matches(matches, reference_count, current_count).len() ==> #[trigger] idx[k1] < #[trigger] idx[k2]
            &&& forall|j: int|
                0 <= j < matches.len() && 0 <= (#[trigger] matches[j]).0 < reference_count && 0
                    <= matches[j].1 < current_count ==> exists|k: int| 0 <= k < usable_matches(matches, reference_count, current_count).len() && idx[k] == j
        },
{
    let idx = usable_positions(matches, reference_count, current_count);
    let r = usable_matches(matches, reference_count, current_count);
    assert forall|k: int| 0 <= k < r.len() implies {
        let j = #[trigger] idx[k];
        &&& 0 <= j < matches.len()
        &&& 0 <= matches[j].0 < reference_count
        &&& 0 <= matches[j].1 < current_count
        &&& r[k].0 == matches[j].0
        &&& r[k].1 == matches[j].1
    } by {
        let j = idx[k];
        assert(r[k] == (matches[j].0 as usize, matches[j].1 as usize));
    }
}

/// The point correspondences taken from the matches: of the first 50
/// matches, those whose indices name keypoints of both images, in order.
pub fn select_correspondences(matches: &[(i32, i32)], reference_count: usize, current_count: usize) -> (r: Vec<(usize, usize)>)
    ensures
        r@ == usable_matches(
            matches@.take(if matches@.len() < MAX_CORRESPONDENCES { matches@.len() as int } else { MAX_CORRESPONDENCES as int }),
            reference_count as nat,
            current_count as nat,
        ),
{
    let limit = if matches.len() < MAX_CORRESPONDENCES {
        matches.len()
    } else {
        MAX_CORRESPONDENCES
    };
    let mut r: Vec<(usize, usize)> = Vec::new();
    let mut i: usize = 0;
    while i < limit
        invariant
            limit <= matches@.len(),
            limit == (if matches@.len() < MAX_CORRESPONDENCES { matches@.len() as int } else { MAX_CORRESPONDENCES as int }),
            i <= limit,
            r@ == usable_matches(matches@.take(i as int), reference_count as nat, current_count as nat),
        decreases limit - i,
    {
        let (q, t) = matches[i];
        assert(matches@.take(i + 1).drop_last() =~= matches@.take(i as int));
        assert(matches@.take(i + 1).last() == matches@[i as int]);
        if q >= 0 && (q as usize) < reference_count && t >= 0 && (t as usize) < current_count {
            r.push((q as usize, t as usize));
        }
        i = i + 1;
    }
    r
}

/// The error of an alignment that failed for the given cause.
pub fn alignment_not_possible(cause: &HdrError) -> (e: HdrError)
    ensures
        e is Alignment,
        error_detail(e) == "Alignment not possible: "@ + error_prefix(*cause) + error_detail(*cause),
{
    let mut msg = String::from_str("Alignment not possible: ");
    msg.append(cause.to_string().as_str());
    HdrError::Alignment(msg)
}

} // verus!
