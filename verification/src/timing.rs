//! Tick arithmetic for the capture streams.
//!
//! All sample timestamps are counted in 100 ns ticks, starting at 0 at
//! stream start. Video timestamps are derived by exact multiplication of
//! the frame index and the frame interval, so they are free of wall-clock
//! jitter; audio timestamps accumulate the exact duration of each delivered
//! chunk. The pacer reproduces the fixed-step schedule of the video
//! producer: an overrun never captures two frames back to back, the
//! deadline simply advances by one interval per captured frame.
use vstd::arithmetic::div_mod::{lemma_div_is_ordered_by_denominator, lemma_div_non_zero};
use vstd::arithmetic::mul::{lemma_mul_inequality, lemma_mul_strict_inequality};
use vstd::prelude::*;

verus! {

/// Number of 100 ns ticks in one second.
pub const TICKS_PER_SECOND: u64 = 10_000_000;

/// Duration of one video frame in ticks, at a fixed frame rate.
///
/// Frame rates above the tick resolution cannot be told apart by integer
/// tick timestamps, so they are excluded.
pub fn frame_interval_ticks(fps: u32) -> (interval: u64)
    requires
        1 <= fps <= TICKS_PER_SECOND,
    ensures
        interval == TICKS_PER_SECOND as int / fps as int,
        1 <= interval <= TICKS_PER_SECOND,
{
    proof {
        lemma_div_non_zero(TICKS_PER_SECOND as int, fps as int);
        lemma_div_is_ordered_by_denominator(TICKS_PER_SECOND as int, 1, fps as int);
    }
    TICKS_PER_SECOND / (fps as u64)
}

/// Timestamp of the video frame with the given index: exact multiplication,
/// not a measured wall-clock delta.
pub fn frame_timestamp(frame_index: u32, interval: u64) -> (ts: u64)
    requires
        interval <= TICKS_PER_SECOND,
    ensures
        ts == frame_index * interval,
{
    proof {
        lemma_mul_inequality(frame_index as int, u32::MAX as int, interval as int);
    }
    (frame_index as u64) * interval
}

/// Video timestamps derived from the frame index are strictly increasing.
pub proof fn lemma_frame_timestamps_strictly_increasing(i: int, j: int, interval: int)
    requires
        0 <= i < j,
        1 <= interval,
    ensures
        i * interval < j * interval,
{
    lemma_mul_strict_inequality(i, j, interval);
}

/// Running tick counter of the audio stream. Each delivered chunk is
/// stamped with the current count, which then advances by the chunk's
/// exact duration, so the stream's timestamps never decrease.
pub struct AudioClock {
    pub ticks: u64,
}

/// Duration in ticks of `frame_count` audio frames at `sample_rate`
/// frames per second.
pub fn chunk_duration_ticks(frame_count: u32, sample_rate: u32) -> (d: u64)
    requires
        1 <= sample_rate,
    ensures
        d == (TICKS_PER_SECOND * frame_count) as int / sample_rate as int,
{
    proof {
        lemma_mul_inequality(frame_count as int, u32::MAX as int, TICKS_PER_SECOND as int);
    }
    (TICKS_PER_SECOND * frame_count as u64) / (sample_rate as u64)
}

impl AudioClock {
    /// A fresh stream starts at tick 0.
    pub fn new() -> (clock: Self)
        ensures
            clock.ticks == 0,
    {
        AudioClock { ticks: 0 }
    }

    /// Stamps one chunk: returns the chunk's timestamp and advances the
    /// counter by the chunk's duration, saturating at the top of the
    /// counter's range so the count never decreases.
    pub fn stamp_chunk(&mut self, duration: u64) -> (ts: u64)
        ensures
            ts == old(self).ticks,
            final(self).ticks == if old(self).ticks + duration <= u64::MAX {
                old(self).ticks + duration
            } else {
                u64::MAX as int
            },
            old(self).ticks <= final(self).ticks,
    {
        let ts = self.ticks;
        if self.ticks <= u64::MAX - duration {
            self.ticks = self.ticks + duration;
        } else {
            self.ticks = u64::MAX;
        }
        ts
    }
}

/// One decision of the fixed-step video schedule.
pub enum PaceStep {
    /// The next deadline has not arrived: wait this many nanoseconds.
    Wait { nanos: u64 },
    /// The deadline has passed: capture one frame now.
    Capture,
}

/// Fixed-step scheduler of the video producer, counting wall-clock
/// nanoseconds. The deadline advances by exactly one interval per captured
/// frame; an overrun is never compensated by a back-to-back capture.
pub struct FramePacer {
    pub next_due_ns: u64,
    pub interval_ns: u64,
}

impl FramePacer {
    /// Starts the schedule at the given instant.
    pub fn new(start_ns: u64, fps: u32) -> (pacer: Self)
        requires
            1 <= fps <= 1_000_000_000,
        ensures
            pacer.next_due_ns == start_ns,
            pacer.interval_ns == 1_000_000_000 as int / fps as int,
            1 <= pacer.interval_ns <= 1_000_000_000,
    {
        proof {
            lemma_div_non_zero(1_000_000_000, fps as int);
            lemma_div_is_ordered_by_denominator(1_000_000_000, 1, fps as int);
        }
        FramePacer { next_due_ns: start_ns, interval_ns: 1_000_000_000u64 / (fps as u64) }
    }

    /// Decides what the producer does at instant `now_ns`: wait out the
    /// remainder of the current interval, or capture and move the deadline
    /// forward one interval (saturating at the top of the range).
    pub fn step(&mut self, now_ns: u64) -> (decision: PaceStep)
        ensures
            now_ns < old(self).next_due_ns ==> {
                &&& decision == (PaceStep::Wait { nanos: (old(self).next_due_ns - now_ns) as u64 })
                &&& *final(self) == *old(self)
            },
            now_ns >= old(self).next_due_ns ==> {
                &&& decision == PaceStep::Capture
                &&& final(self).next_due_ns == if old(self).next_due_ns + old(self).interval_ns
                    <= u64::MAX {
                    old(self).next_due_ns + old(self).interval_ns
                } else {
                    u64::MAX as int
                }
                &&& final(self).interval_ns == old(self).interval_ns
            },
    {
        if now_ns < self.next_due_ns {
            PaceStep::Wait { nanos: self.next_due_ns - now_ns }
        } else {
            if self.next_due_ns <= u64::MAX - self.interval_ns {
                self.next_due_ns = self.next_due_ns + self.interval_ns;
            } else {
                self.next_due_ns = u64::MAX;
            }
            PaceStep::Capture
        }
    }
}

} // verus!
