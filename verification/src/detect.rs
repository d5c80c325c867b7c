//! Motion decision: how much of a foreground mask is lit.

use vstd::prelude::*;
use crate::frame::FrameError;

verus! {

/// The test for a mask pixel that is not background: foreground and shadow
/// both count.
pub open spec fn lit() -> spec_fn(u8) -> bool {
    |level: u8| level != 0
}

/// Number of non-zero pixels of a mask.
pub open spec fn count_non_zero(mask: Seq<u8>) -> nat {
    mask.filter(lit()).len()
}

/// Whether a mask shows motion: strictly more than `threshold` pixels lit.
pub open spec fn motion_in(mask: Seq<u8>, threshold: u32) -> bool {
    count_non_zero(mask) > threshold
}

/// Counts the non-zero pixels of a mask.
pub fn lit_pixels(mask: &[u8]) -> (count: usize)
    ensures
        count == count_non_zero(mask@),
        count <= mask@.len(),
        (forall|i: int| 0 <= i < mask@.len() ==> mask@[i] == 0) ==> count == 0,
        (forall|i: int| 0 <= i < mask@.len() ==> mask@[i] != 0) ==> count == mask@.len(),
{
    proof {
        if forall|i: int| 0 <= i < mask@.len() ==> mask@[i] == 0 {
            law_dark_mask_is_still(mask@, 0);
        }
        if forall|i: int| 0 <= i < mask@.len() ==> mask@[i] != 0 {
            lemma_lit_mask_counts_all(mask@);
        }
    }
    let mut count: usize = 0;
    let mut i: usize = 0;
    proof {
        reveal(Seq::filter);
    }
    while i < mask.len()
        invariant
            i <= mask@.len(),
            count <= i,
            count == count_non_zero(mask@.take(i as int)),
        decreases mask@.len() - i,
    {
        proof {
            let seen = mask@.take(i as int);
            assert(mask@.take(i + 1) =~= seen.push(mask@[i as int]));
            seen.lemma_filter_push(mask@[i as int], lit());
        }
        if mask[i] != 0 {
            count = count + 1;
        }
        i = i + 1;
    }
    assert(mask@.take(i as int) =~= mask@);
    count
}

/// Decides whether a mask shows motion.
pub fn detect_motion(mask: &[u8], threshold: u32) -> (motion: bool)
    ensures
        motion == motion_in(mask@, threshold),
        motion ==> mask@.len() > threshold,
        (forall|i: int| 0 <= i < mask@.len() ==> mask@[i] == 0) ==> !motion,
        (forall|i: int| 0 <= i < mask@.len() ==> mask@[i] != 0) ==> motion == (mask@.len()
            > threshold),
{
    lit_pixels(mask) as u64 > threshold as u64
}

/// What scoring the host's answer to a detection request gives: the motion
/// decision, or a detection failure when there is no mask or the mask does
/// not hold one byte for each of the `pixels` that were sent.
pub open spec fn scored(pixels: int, mask: Option<Seq<u8>>, threshold: u32) -> Result<
    bool,
    FrameError,
> {
    match mask {
        Some(bytes) if bytes.len() == pixels => Ok(motion_in(bytes, threshold)),
        _ => Err(FrameError::Detection),
    }
}

/// Scores the host's answer to a detection request on an image of `pixels`
/// pixels.
pub fn score_mask(pixels: u64, mask: &Option<Vec<u8>>, threshold: u32) -> (result: Result<
    bool,
    FrameError,
>)
    ensures
        result == scored(
            pixels as int,
            match *mask {
                Some(bytes) => Some(bytes@),
                None => None,
            },
            threshold,
        ),
{
    match mask {
        Some(bytes) => {
            if bytes.len() as u64 == pixels {
                Ok(detect_motion(bytes.as_slice(), threshold))
            } else {
                Err(FrameError::Detection)
            }
        },
        None => Err(FrameError::Detection),
    }
}

/// A mask without a lit pixel never shows motion, whatever the threshold.
pub proof fn law_dark_mask_is_still(mask: Seq<u8>, threshold: u32)
    requires
        forall|i: int| 0 <= i < mask.len() ==> mask[i] == 0,
    ensures
        count_non_zero(mask) == 0,
        !motion_in(mask, threshold),
{
    mask.lemma_all_neg_filter_empty(lit());
}

/// A mask whose every pixel is lit counts all of them.
pub proof fn lemma_lit_mask_counts_all(mask: Seq<u8>)
    requires
        forall|i: int| 0 <= i < mask.len() ==> mask[i] != 0,
    ensures
        count_non_zero(mask) == mask.len(),
    decreases mask.len(),
{
    reveal(Seq::filter);
    if mask.len() > 0 {
        lemma_lit_mask_counts_all(mask.drop_last());
    }
}

/// A run of more than `threshold` lit pixels, wherever it lies in the mask,
/// shows motion.
pub proof fn law_lit_block_is_motion(mask: Seq<u8>, start: int, end: int, threshold: u32)
    requires
        0 <= start <= end <= mask.len(),
        forall|i: int| start <= i < end ==> mask[i] != 0,
        end - start > threshold,
    ensures
        count_non_zero(mask) >= end - start,
        motion_in(mask, threshold),
{
    let before = mask.subrange(0, start);
    let block = mask.subrange(start, end);
    let after = mask.subrange(end, mask.len() as int);
    assert(mask =~= before + block + after);
    Seq::filter_distributes_over_add(before + block, after, lit());
    Seq::filter_distributes_over_add(before, block, lit());
    lemma_lit_mask_counts_all(block);
}

} // verus!
