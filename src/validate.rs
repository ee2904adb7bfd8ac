//! The rules a composition request must satisfy before any command is built.
use vstd::prelude::*;

use crate::domain::{CompositionRequest, SlideTiming, ValidationError};

verus! {

/// Smallest accepted inset width, in thousandths of the canvas width.
pub const MIN_OVERLAY_PERMILLE: u32 = 50;

/// Largest accepted inset width, in thousandths of the canvas width.
pub const MAX_OVERLAY_PERMILLE: u32 = 500;

/// Every slide index equals its position: 0, 1, 2, ...
pub open spec fn indices_contiguous(t: Seq<SlideTiming>) -> bool {
    forall|i: int| 0 <= i < t.len() ==> (#[trigger] t[i]).slide_index == i
}

/// Each time is strictly smaller than the next one.
pub open spec fn strictly_increasing(t: Seq<SlideTiming>) -> bool {
    forall|i: int| 0 <= i < t.len() - 1 ==> (#[trigger] t[i]).time_millis < t[i + 1].time_millis
}

/// The outcome of validating a timing sequence: the first failing check, or success.
pub open spec fn timings_verdict(t: Seq<SlideTiming>) -> Result<(), ValidationError> {
    if t.len() == 0 {
        Err(ValidationError::EmptyTimings)
    } else if !indices_contiguous(t) {
        Err(ValidationError::InvalidSlideIndices)
    } else if !strictly_increasing(t) {
        Err(ValidationError::NonIncreasingTimings)
    } else {
        Ok(())
    }
}

pub open spec fn width_in_range(w: u32) -> bool {
    MIN_OVERLAY_PERMILLE <= w <= MAX_OVERLAY_PERMILLE
}

/// The outcome of validating a request: the width first, then the timings.
pub open spec fn request_verdict(w: u32, t: Seq<SlideTiming>) -> Result<(), ValidationError> {
    if !width_in_range(w) {
        Err(ValidationError::OverlayWidthOutOfRange(w))
    } else {
        timings_verdict(t)
    }
}

/// Checks that the timings are non-empty, indexed 0, 1, 2, ... in order, and
/// strictly increasing in time.
pub fn validate_timings(timings: &[SlideTiming]) -> (r: Result<(), ValidationError>)
    ensures
        r == timings_verdict(timings@),
{
    if timings.len() == 0 {
        return Err(ValidationError::EmptyTimings);
    }
    let mut i: usize = 0;
    while i < timings.len()
        invariant
            0 <= i <= timings@.len(),
            forall|j: int| 0 <= j < i ==> (#[trigger] timings@[j]).slide_index == j,
        decreases timings@.len() - i,
    {
        if timings[i].slide_index as usize != i {
            return Err(ValidationError::InvalidSlideIndices);
        }
        i = i + 1;
    }
    let mut k: usize = 0;
    while k < timings.len() - 1
        invariant
            timings@.len() >= 1,
            0 <= k < timings@.len(),
            indices_contiguous(timings@),
            forall|j: int| 0 <= j < k ==> (#[trigger] timings@[j]).time_millis < timings@[j + 1].time_millis,
        decreases timings@.len() - k,
    {
        if !(timings[k].time_millis < timings[k + 1].time_millis) {
            return Err(ValidationError::NonIncreasingTimings);
        }
        k = k + 1;
    }
    Ok(())
}

/// Checks the inset width against 50..=500 thousandths, then the timings.
/// Only the first failing check is reported.
pub fn validate_request(req: &CompositionRequest) -> (r: Result<(), ValidationError>)
    ensures
        r == request_verdict(req.overlay_width_permille, req.timings@),
{
    let w = req.overlay_width_permille;
    if !(w >= MIN_OVERLAY_PERMILLE && w <= MAX_OVERLAY_PERMILLE) {
        return Err(ValidationError::OverlayWidthOutOfRange(w));
    }
    validate_timings(req.timings.as_slice())
}

/// A non-empty sequence indexed 0, 1, 2, ... with strictly increasing times is accepted.
pub proof fn law_well_formed_timings_accepted(t: Seq<SlideTiming>)
    requires
        t.len() > 0,
        indices_contiguous(t),
        strictly_increasing(t),
    ensures
        timings_verdict(t) == Ok::<(), ValidationError>(()),
{
}

/// The empty sequence is rejected as empty.
pub proof fn law_empty_timings_rejected(t: Seq<SlideTiming>)
    requires
        t.len() == 0,
    ensures
        timings_verdict(t) == Err::<(), ValidationError>(ValidationError::EmptyTimings),
{
}

/// A sequence whose second index is 2 after a first index of 0 has a gap and
/// is rejected for its indices, whatever its times.
pub proof fn law_index_gap_rejected(t: Seq<SlideTiming>)
    requires
        t.len() >= 2,
        t[0].slide_index == 0,
        t[1].slide_index == 2,
    ensures
        timings_verdict(t) == Err::<(), ValidationError>(ValidationError::InvalidSlideIndices),
{
    assert(t[1].slide_index != 1);
}

/// A correctly indexed sequence in which some time is not below the next one
/// is rejected as non-increasing.
pub proof fn law_non_increasing_rejected(t: Seq<SlideTiming>, i: int)
    requires
        0 <= i < t.len() - 1,
        t[i].time_millis >= t[i + 1].time_millis,
        indices_contiguous(t),
    ensures
        timings_verdict(t) == Err::<(), ValidationError>(ValidationError::NonIncreasingTimings),
{
}

/// A width outside 50..=500 thousandths is rejected, and the error carries it.
pub proof fn law_width_out_of_range_rejected(w: u32, t: Seq<SlideTiming>)
    requires
        w < MIN_OVERLAY_PERMILLE || w > MAX_OVERLAY_PERMILLE,
    ensures
        request_verdict(w, t) == Err::<(), ValidationError>(ValidationError::OverlayWidthOutOfRange(w)),
{
}

} // verus!
