//! Segment lifecycle: one bounded-duration container file at a time.
//!
//! A segment is created open, counts the frames actually written to it,
//! and is finalized either on rotation or on shutdown. At finalize time a
//! segment that received fewer frames than expected is discarded (its file
//! removed) rather than queued for delivery: a short segment signals a
//! session that stopped mid-window, not data worth uploading.
use vstd::arithmetic::mul::lemma_mul_upper_bound;
use vstd::prelude::*;

verus! {

/// State of one container segment.
#[derive(Clone, Copy, PartialEq, Eq, Structural, Debug)]
pub enum SegmentState {
    Open,
    Finalizing,
    Committed,
    Discarded,
}

/// Frames a full segment is expected to hold: frame rate times target
/// duration, saturating at the counter's range.
pub open spec fn spec_expected_frames(fps: nat, segment_duration_secs: nat) -> nat {
    if fps * segment_duration_secs <= u64::MAX {
        fps * segment_duration_secs
    } else {
        u64::MAX as nat
    }
}

/// The completeness policy: a finalized segment is kept if and only if it
/// received at least the expected number of frames.
pub open spec fn spec_keep_segment(actual: nat, expected: nat) -> bool {
    actual >= expected
}

/// Computes the expected frame count of a full segment.
pub fn expected_frame_count(fps: u32, segment_duration_secs: u64) -> (n: u64)
    ensures
        n == spec_expected_frames(fps as nat, segment_duration_secs as nat),
{
    proof {
        lemma_mul_upper_bound(fps as int, u32::MAX as int, segment_duration_secs as int,
            u64::MAX as int);
    }
    let wide: u128 = (fps as u128) * (segment_duration_secs as u128);
    if wide <= u64::MAX as u128 {
        wide as u64
    } else {
        u64::MAX
    }
}

/// One container segment covering a bounded wall-clock window.
pub struct Segment {
    /// Where the container file is written.
    pub path: String,
    /// Frames a full segment of this configuration holds.
    pub expected_frame_count: u64,
    /// Frames actually handed to the container writer.
    pub actual_frame_count: u64,
    pub state: SegmentState,
}

impl Segment {
    /// Whether the segment deserves to be kept at finalize time.
    pub open spec fn keep(self) -> bool {
        spec_keep_segment(self.actual_frame_count as nat, self.expected_frame_count as nat)
    }

    /// Opens a fresh segment: no frame written yet.
    pub fn open_segment(path: String, expected_frame_count: u64) -> (s: Self)
        ensures
            s.path == path,
            s.expected_frame_count == expected_frame_count,
            s.actual_frame_count == 0,
            s.state is Open,
    {
        Segment { path, expected_frame_count, actual_frame_count: 0, state: SegmentState::Open }
    }

    /// Counts one frame written to the open segment. The count saturates
    /// at the top of its range rather than wrapping.
    pub fn record_frame(&mut self)
        requires
            old(self).state is Open,
        ensures
            final(self).actual_frame_count == if old(self).actual_frame_count < u64::MAX {
                old(self).actual_frame_count + 1
            } else {
                u64::MAX as int
            },
            final(self).path == old(self).path,
            final(self).expected_frame_count == old(self).expected_frame_count,
            final(self).state == old(self).state,
    {
        if self.actual_frame_count < u64::MAX {
            self.actual_frame_count = self.actual_frame_count + 1;
        }
    }

    /// Hands the segment off for finalization; no more frames arrive.
    pub fn begin_finalize(&mut self)
        requires
            old(self).state is Open,
        ensures
            final(self).state is Finalizing,
            final(self).path == old(self).path,
            final(self).expected_frame_count == old(self).expected_frame_count,
            final(self).actual_frame_count == old(self).actual_frame_count,
    {
        self.state = SegmentState::Finalizing;
    }

    /// Applies the completeness policy to a finalized segment: the caller
    /// must remove the file from disk exactly when `keep` is false.
    pub fn complete_finalize(&mut self) -> (keep: bool)
        requires
            old(self).state is Finalizing,
        ensures
            keep == old(self).keep(),
            final(self).state == if keep {
                SegmentState::Committed
            } else {
                SegmentState::Discarded
            },
            final(self).path == old(self).path,
            final(self).expected_frame_count == old(self).expected_frame_count,
            final(self).actual_frame_count == old(self).actual_frame_count,
    {
        if self.actual_frame_count >= self.expected_frame_count {
            self.state = SegmentState::Committed;
            true
        } else {
            self.state = SegmentState::Discarded;
            false
        }
    }
}

/// Segment completeness policy: with `expected = fps * segment duration`,
/// a segment finalized with fewer frames than expected is discarded, and
/// one that reached the expected count is kept.
pub proof fn lemma_segment_completeness_policy(fps: nat, segment_duration_secs: nat, actual: nat)
    requires
        fps * segment_duration_secs <= u64::MAX,
    ensures
        actual < fps * segment_duration_secs ==> !spec_keep_segment(
            actual,
            spec_expected_frames(fps, segment_duration_secs),
        ),
        actual >= fps * segment_duration_secs ==> spec_keep_segment(
            actual,
            spec_expected_frames(fps, segment_duration_secs),
        ),
{
}

} // verus!
