//! The segmented screen recorder's configuration and decision engine.
//!
//! The engine owns every decision of the recording loop — when to rotate
//! the open segment, whether a finished segment is kept under the
//! completeness policy, and the fixed-step frame pacing — while the
//! capture source, the encoder and the container writer live in the
//! surrounding application and ask it what to do next.
use crate::segment::{expected_frame_count, spec_expected_frames, spec_keep_segment};
use crate::timing::FramePacer;
use vstd::prelude::*;
use vstd::slice::slice_index_get;
use vstd::string::StringSliceAdditionalSpecFns;
use vstd::arithmetic::mul::lemma_mul_upper_bound;
use vstd::utf8::encode_utf8_decode_utf8;

verus! {

/// The container a segment is written into.
#[derive(Clone, Copy, PartialEq, Eq, Structural, Debug)]
pub enum Container {
    Avi,
    Webm,
    Mp4,
}

/// Which audio the recorder captures alongside the screen.
#[derive(Clone, Copy, PartialEq, Eq, Structural, Debug)]
pub enum AudioSource {
    Microphone,
    System,
    Both,
}

/// Everything a recording session is configured with.
pub struct RecorderConfig {
    pub output_dir: String,
    pub base_name: String,
    pub segment_duration_secs: u64,
    pub fps: u32,
    pub container: Container,
    pub display_index: usize,
    pub record_all: bool,
    pub combine_all: bool,
    pub flip_vertical: bool,
    pub flip_horizontal: bool,
    pub video_bitrate_kbps: u32,
    pub scale_max_width: Option<u32>,
    pub include_audio: bool,
    pub audio_bitrate_kbps: u32,
    pub audio_source: AudioSource,
}

/// Equality of two string slices, character for character.
fn str_eq(a: &str, b: &str) -> (r: bool)
    ensures
        r == (a@ == b@),
{
    let ab = a.as_bytes();
    let bb = b.as_bytes();
    let n = ab.len();
    if n != bb.len() {
        proof {
            if a@ == b@ {
                assert(false);
            }
        }
        return false;
    }
    let mut i: usize = 0;
    while i < n
        invariant
            n == ab@.len(),
            n == bb@.len(),
            ab@ == a.spec_bytes(),
            bb@ == b.spec_bytes(),
            i <= n,
            forall|j: int| 0 <= j < i ==> ab@[j] == bb@[j],
        decreases n - i,
    {
        if *slice_index_get(ab, i) != *slice_index_get(bb, i) {
            proof {
                if a@ == b@ {
                    assert(false);
                }
            }
            return false;
        }
        i = i + 1;
    }
    proof {
        assert(a.spec_bytes() =~= b.spec_bytes());
        encode_utf8_decode_utf8(a@);
        encode_utf8_decode_utf8(b@);
    }
    true
}

/// Parses a container name; anything unknown falls back to Mp4.
pub fn container_from_str(s: &str) -> (c: Container)
    ensures
        s@ == "Avi"@ ==> c is Avi,
        s@ == "Webm"@ ==> c is Webm,
        s@ != "Avi"@ && s@ != "Webm"@ ==> c is Mp4,
{
    proof {
        reveal_strlit("Avi");
        reveal_strlit("Webm");
        assert("Avi"@.len() == 3);
        assert("Webm"@.len() == 4);
        assert("Avi"@ != "Webm"@);
    }
    if str_eq(s, "Avi") {
        Container::Avi
    } else if str_eq(s, "Webm") {
        Container::Webm
    } else {
        Container::Mp4
    }
}

/// Parses an audio source name; anything unknown falls back to Both.
pub fn audio_source_from_str(s: &str) -> (a: AudioSource)
    ensures
        s@ == "Microphone"@ ==> a is Microphone,
        s@ == "System"@ ==> a is System,
        s@ != "Microphone"@ && s@ != "System"@ ==> a is Both,
{
    proof {
        reveal_strlit("Microphone");
        reveal_strlit("System");
        assert("Microphone"@.len() == 10);
        assert("System"@.len() == 6);
        assert("Microphone"@ != "System"@);
    }
    if str_eq(s, "Microphone") {
        AudioSource::Microphone
    } else if str_eq(s, "System") {
        AudioSource::System
    } else {
        AudioSource::Both
    }
}

/// The audio geometry discovered once per session from the loopback
/// device; immutable for the session's lifetime.
#[derive(Clone, Copy, PartialEq, Eq, Structural, Debug)]
pub struct AudioFormat {
    pub sample_rate: u32,
    pub channels: u32,
    pub bits_per_sample: u32,
}

impl AudioFormat {
    /// Bytes of one frame across all channels, when it fits the writer's
    /// 32-bit field.
    pub fn block_alignment(&self) -> (r: Option<u32>)
        ensures
            match r {
                Some(v) => v == self.channels * (self.bits_per_sample as int / 8) && v
                    <= u32::MAX,
                None => self.channels * (self.bits_per_sample as int / 8) > u32::MAX,
            },
    {
        proof {
            lemma_mul_upper_bound(self.channels as int, u32::MAX as int,
                self.bits_per_sample as int / 8, u32::MAX as int);
        }
        let wide: u64 = (self.channels as u64) * ((self.bits_per_sample / 8) as u64);
        if wide <= u32::MAX as u64 {
            Some(wide as u32)
        } else {
            None
        }
    }

    /// Bytes one second of audio occupies, when it fits the writer's
    /// 32-bit field.
    pub fn bytes_per_second(&self) -> (r: Option<u32>)
        ensures
            match r {
                Some(v) => v == self.sample_rate * (self.channels * (self.bits_per_sample as int
                    / 8)) && v <= u32::MAX,
                None => self.sample_rate * (self.channels * (self.bits_per_sample as int / 8))
                    > u32::MAX || self.channels * (self.bits_per_sample as int / 8) > u32::MAX,
            },
    {
        match self.block_alignment() {
            Some(align) => {
                proof {
                    lemma_mul_upper_bound(self.sample_rate as int, u32::MAX as int,
                        align as int, u32::MAX as int);
                }
                let wide: u64 = (self.sample_rate as u64) * (align as u64);
                if wide <= u32::MAX as u64 {
                    Some(wide as u32)
                } else {
                    None
                }
            },
            None => None,
        }
    }
}

/// Audio frames in a chunk of interleaved samples.
pub fn frames_in_chunk(sample_count: usize, channels: u32) -> (r: usize)
    requires
        1 <= channels,
    ensures
        r == sample_count as int / channels as int,
{
    sample_count / (channels as usize)
}

/// Whether the wait for the audio format has outlived its budget: the
/// session then proceeds without an audio stream.
pub fn audio_wait_expired(elapsed_ms: u64) -> (expired: bool)
    ensures
        expired == (elapsed_ms > 5000),
{
    elapsed_ms > 5000
}

/// One decision of the recording loop.
pub enum RecorderStep {
    /// The segment window is over: finalize the open segment — removing
    /// its file exactly when `keep_finished` is false — and open a fresh
    /// writer with the same geometry.
    Rotate { keep_finished: bool },
    /// The next frame deadline has not arrived: wait this long.
    Wait { nanos: u64 },
    /// The deadline passed: capture and encode one frame now.
    CaptureFrame,
}

/// The recording loop's decision engine: segment rotation, the
/// completeness policy and frame pacing, over a monotonic nanosecond
/// clock supplied by the caller.
pub struct RecordingEngine {
    /// Frames a full segment holds: frame rate times window length.
    pub expected_frames: u64,
    /// Frames encoded into the open segment so far.
    pub frames_in_segment: u64,
    /// When the open segment's window began.
    pub segment_start_ns: u64,
    /// Length of one segment window.
    pub segment_duration_ns: u64,
    pub pacer: FramePacer,
}

impl RecordingEngine {
    /// Starts a session at instant `now_ns`. A frame rate of zero is
    /// treated as one; the window length saturates at the clock's range.
    pub fn new(fps: u32, segment_duration_secs: u64, now_ns: u64) -> (e: Self)
        ensures
            e.expected_frames == spec_expected_frames(fps as nat, segment_duration_secs as nat),
            e.frames_in_segment == 0,
            e.segment_start_ns == now_ns,
            e.segment_duration_ns == if segment_duration_secs * 1_000_000_000 <= u64::MAX {
                segment_duration_secs * 1_000_000_000
            } else {
                u64::MAX as int
            },
            e.pacer.next_due_ns == now_ns,
            e.pacer.interval_ns == 1_000_000_000 as int / (if fps == 0 {
                1int
            } else {
                fps as int
            }),
    {
        let effective_fps: u64 = if fps == 0 {
            1
        } else {
            fps as u64
        };
        let duration_ns: u64 = if segment_duration_secs <= u64::MAX / 1_000_000_000 {
            segment_duration_secs * 1_000_000_000
        } else {
            u64::MAX
        };
        proof {
            if segment_duration_secs > u64::MAX as u64 / 1_000_000_000 {
                assert(segment_duration_secs * 1_000_000_000 > u64::MAX) by (nonlinear_arith)
                    requires
                        segment_duration_secs > u64::MAX as int / 1_000_000_000,
                ;
            }
        }
        RecordingEngine {
            expected_frames: expected_frame_count(fps, segment_duration_secs),
            frames_in_segment: 0,
            segment_start_ns: now_ns,
            segment_duration_ns: duration_ns,
            pacer: FramePacer {
                next_due_ns: now_ns,
                interval_ns: 1_000_000_000u64 / effective_fps,
            },
        }
    }

    /// Decides what the loop does at instant `now_ns`. The rotation
    /// check comes before pacing: a finished window is rotated first,
    /// and the finished segment is kept exactly when it reached the
    /// expected frame count.
    pub fn step(&mut self, now_ns: u64) -> (decision: RecorderStep)
        requires
            old(self).segment_start_ns <= now_ns,
        ensures
            ({
                let elapsed = now_ns - old(self).segment_start_ns;
                if elapsed >= old(self).segment_duration_ns {
                    &&& decision == (RecorderStep::Rotate {
                        keep_finished: spec_keep_segment(
                            old(self).frames_in_segment as nat,
                            old(self).expected_frames as nat,
                        ),
                    })
                    &&& final(self).frames_in_segment == 0
                    &&& final(self).segment_start_ns == now_ns
                    &&& final(self).pacer == old(self).pacer
                } else {
                    &&& (decision matches RecorderStep::Wait { nanos } ==> now_ns < old(
                        self,
                    ).pacer.next_due_ns && nanos == old(self).pacer.next_due_ns - now_ns
                        && *final(self) == *old(self))
                    &&& (decision is CaptureFrame ==> now_ns >= old(self).pacer.next_due_ns
                        && final(self).frames_in_segment == old(self).frames_in_segment
                        && final(self).segment_start_ns == old(self).segment_start_ns
                        && final(self).pacer.interval_ns == old(self).pacer.interval_ns
                        && final(self).pacer.next_due_ns == if old(self).pacer.next_due_ns + old(
                        self,
                    ).pacer.interval_ns <= u64::MAX {
                        old(self).pacer.next_due_ns + old(self).pacer.interval_ns
                    } else {
                        u64::MAX as int
                    })
                    &&& !(decision is Rotate)
                }
            }),
            final(self).expected_frames == old(self).expected_frames,
            final(self).segment_duration_ns == old(self).segment_duration_ns,
    {
        let elapsed = now_ns - self.segment_start_ns;
        if elapsed >= self.segment_duration_ns {
            let keep_finished = self.frames_in_segment >= self.expected_frames;
            self.frames_in_segment = 0;
            self.segment_start_ns = now_ns;
            RecorderStep::Rotate { keep_finished }
        } else {
            match self.pacer.step(now_ns) {
                crate::timing::PaceStep::Wait { nanos } => RecorderStep::Wait { nanos },
                crate::timing::PaceStep::Capture => RecorderStep::CaptureFrame,
            }
        }
    }

    /// Counts one frame successfully encoded into the open segment,
    /// saturating at the counter's range.
    pub fn frame_encoded(&mut self)
        ensures
            final(self).frames_in_segment == if old(self).frames_in_segment < u64::MAX {
                old(self).frames_in_segment + 1
            } else {
                u64::MAX as int
            },
            final(self).expected_frames == old(self).expected_frames,
            final(self).segment_start_ns == old(self).segment_start_ns,
            final(self).segment_duration_ns == old(self).segment_duration_ns,
            final(self).pacer == old(self).pacer,
    {
        if self.frames_in_segment < u64::MAX {
            self.frames_in_segment = self.frames_in_segment + 1;
        }
    }

    /// The completeness policy at shutdown: whether the last, possibly
    /// short segment deserves to be kept. The caller removes the file
    /// exactly when this is false.
    pub fn keep_final_segment(&self) -> (keep: bool)
        ensures
            keep == spec_keep_segment(
                self.frames_in_segment as nat,
                self.expected_frames as nat,
            ),
    {
        self.frames_in_segment >= self.expected_frames
    }
}

/// What the session loop does after one recording finished.
pub enum AfterRecording {
    /// The segment was recorded: hand it to the uploader in the
    /// background and start the next recording at once.
    UploadAndContinue,
    /// The recording failed: its file is already gone; rest this long
    /// before the next attempt.
    Backoff { backoff_secs: u64 },
}

/// Decides how the session loop continues after one recording.
pub fn after_recording(recording_succeeded: bool) -> (next: AfterRecording)
    ensures
        recording_succeeded ==> next is UploadAndContinue,
        !recording_succeeded ==> next == (AfterRecording::Backoff { backoff_secs: 30 }),
{
    if recording_succeeded {
        AfterRecording::UploadAndContinue
    } else {
        AfterRecording::Backoff { backoff_secs: 30 }
    }
}

/// A configured recording session, ready to run.
pub struct Recorder {
    pub cfg: RecorderConfig,
}

impl Recorder {
    pub fn new(cfg: RecorderConfig) -> (r: Self)
        ensures
            r.cfg == cfg,
    {
        Recorder { cfg }
    }

    /// The decision engine of this session, started at instant `now_ns`.
    pub fn start_engine(&self, now_ns: u64) -> (e: RecordingEngine)
        ensures
            e.expected_frames == spec_expected_frames(
                self.cfg.fps as nat,
                self.cfg.segment_duration_secs as nat,
            ),
            e.frames_in_segment == 0,
            e.segment_start_ns == now_ns,
    {
        RecordingEngine::new(self.cfg.fps, self.cfg.segment_duration_secs, now_ns)
    }
}

} // verus!
