//! Stream synchronizer: interleaves the independently clocked audio and
//! video streams into one container in timestamp order.
//!
//! For each video frame, every queued audio chunk whose timestamp is
//! strictly below the frame's timestamp is written first, in arrival
//! order; the first chunk at or above it stays queued for a later frame.
//! Audio that arrives "too early" therefore waits in an explicit
//! lookahead buffer, never in the channel, since channels cannot peek.
//! The writes handed to the muxer keep each track's timestamps monotone,
//! and every audio write precedes, in timestamp, every later video write.
use vstd::prelude::*;

verus! {

/// One sample of a capture stream: a raw payload stamped in 100 ns ticks.
pub struct TimedSample {
    pub payload: Vec<u8>,
    pub timestamp: u64,
}

/// The container track a sample is written to.
#[derive(Clone, Copy, PartialEq, Eq, Structural, Debug)]
pub enum Track {
    Video,
    Audio,
}

/// One write handed to the container writer.
pub struct MuxWrite {
    pub track: Track,
    pub timestamp: u64,
    pub payload: Vec<u8>,
}

/// What the write history remembers of one write.
#[derive(Clone, Copy, PartialEq, Eq, Structural, Debug)]
pub struct WriteRec {
    pub track: Track,
    pub timestamp: u64,
}

/// The records of a batch of writes.
pub open spec fn recs_of(writes: Seq<MuxWrite>) -> Seq<WriteRec> {
    writes.map_values(|w: MuxWrite| WriteRec { track: w.track, timestamp: w.timestamp })
}

/// Timestamps of a queue of samples never decrease.
pub open spec fn ts_nondecreasing(s: Seq<TimedSample>) -> bool {
    forall|i: int, j: int|
        0 <= i <= j < s.len() ==> s[i].timestamp <= s[j].timestamp
}

/// Video writes carry strictly increasing timestamps.
pub open spec fn video_strictly_increasing(h: Seq<WriteRec>) -> bool {
    forall|i: int, j: int|
        0 <= i < j < h.len() && h[i].track is Video && h[j].track is Video
            ==> h[i].timestamp < h[j].timestamp
}

/// Audio writes carry non-decreasing timestamps.
pub open spec fn audio_nondecreasing(h: Seq<WriteRec>) -> bool {
    forall|i: int, j: int|
        0 <= i < j < h.len() && h[i].track is Audio && h[j].track is Audio
            ==> h[i].timestamp <= h[j].timestamp
}

/// Every audio write comes strictly before, in timestamp, every video
/// write that follows it in the container.
pub open spec fn audio_precedes_video(h: Seq<WriteRec>) -> bool {
    forall|i: int, j: int|
        0 <= i < j < h.len() && h[i].track is Audio && h[j].track is Video
            ==> h[i].timestamp < h[j].timestamp
}

/// Length of the prefix of the audio queue that belongs before a video
/// frame with timestamp `video_ts`.
pub open spec fn drain_count(s: Seq<TimedSample>, video_ts: int) -> nat
    decreases s.len(),
{
    if s.len() == 0 || s[0].timestamp >= video_ts {
        0
    } else {
        1 + drain_count(s.subrange(1, s.len() as int), video_ts)
    }
}

proof fn lemma_drain_count_le_len(s: Seq<TimedSample>, video_ts: int)
    ensures
        drain_count(s, video_ts) <= s.len(),
    decreases s.len(),
{
    if s.len() > 0 && s[0].timestamp < video_ts {
        lemma_drain_count_le_len(s.subrange(1, s.len() as int), video_ts);
    }
}

/// The consumer half of the recording engine: drains the video channel
/// frame by frame and places queued audio around each frame.
pub struct Synchronizer {
    /// Audio accepted from its channel but not yet written: the explicit
    /// lookahead, in arrival order.
    pub pending_audio: Vec<TimedSample>,
    /// Timestamp of the last video frame written, if any.
    pub last_video: Option<u64>,
    /// Timestamp of the last audio chunk accepted, if any.
    pub last_audio_accepted: Option<u64>,
    /// Every write handed to the muxer so far, oldest first.
    pub history: Ghost<Seq<WriteRec>>,
}

impl Synchronizer {
    pub open spec fn hist(&self) -> Seq<WriteRec> {
        self.history@
    }

    pub open spec fn wf(&self) -> bool {
        &&& ts_nondecreasing(self.pending_audio@)
        &&& video_strictly_increasing(self.hist())
        &&& audio_nondecreasing(self.hist())
        &&& audio_precedes_video(self.hist())
        &&& match self.last_video {
            None => self.hist().len() == 0,
            Some(t) => forall|i: int|
                0 <= i < self.hist().len() ==> if self.hist()[i].track is Video {
                    self.hist()[i].timestamp <= t
                } else {
                    self.hist()[i].timestamp < t
                },
        }
        &&& match self.last_audio_accepted {
            None => self.pending_audio@.len() == 0 && forall|i: int|
                0 <= i < self.hist().len() ==> self.hist()[i].track is Video,
            Some(t) => {
                &&& forall|j: int|
                    0 <= j < self.pending_audio@.len() ==> self.pending_audio@[j].timestamp <= t
                &&& forall|i: int|
                    0 <= i < self.hist().len() && self.hist()[i].track is Audio
                        ==> self.hist()[i].timestamp <= t
            },
        }
        &&& forall|i: int, j: int|
            0 <= i < self.hist().len() && 0 <= j < self.pending_audio@.len() && self.hist()[i].track
                is Audio ==> self.hist()[i].timestamp <= self.pending_audio@[j].timestamp
    }

    /// A fresh session: nothing queued, nothing written.
    pub fn new() -> (s: Self)
        ensures
            s.wf(),
            s.pending_audio@.len() == 0,
            s.hist().len() == 0,
            s.last_video is None,
            s.last_audio_accepted is None,
    {
        Synchronizer {
            pending_audio: Vec::new(),
            last_video: None,
            last_audio_accepted: None,
            history: Ghost(Seq::empty()),
        }
    }

    /// Accepts one audio chunk from the producer. Chunks arrive with
    /// non-decreasing timestamps, stamped by the producer's running tick
    /// counter.
    pub fn push_audio(&mut self, chunk: TimedSample)
        requires
            old(self).wf(),
            match old(self).last_audio_accepted {
                None => true,
                Some(t) => chunk.timestamp >= t,
            },
        ensures
            final(self).wf(),
            final(self).pending_audio@ == old(self).pending_audio@.push(chunk),
            final(self).hist() == old(self).hist(),
            final(self).last_video == old(self).last_video,
            final(self).last_audio_accepted == Some(chunk.timestamp),
    {
        proof {
            if old(self).last_audio_accepted is None {
                assert(forall|i: int|
                    0 <= i < self.hist().len() ==> self.hist()[i].track is Video);
            }
        }
        self.last_audio_accepted = Some(chunk.timestamp);
        self.pending_audio.push(chunk);
    }

    /// Takes the next video frame and returns the writes owed to the
    /// muxer for it: first the queued audio strictly older than the
    /// frame, in arrival order, then the frame itself. Video timestamps
    /// grow strictly, frame by frame, by construction.
    pub fn take_video(&mut self, video: TimedSample) -> (writes: Vec<MuxWrite>)
        requires
            old(self).wf(),
            match old(self).last_video {
                None => true,
                Some(t) => video.timestamp > t,
            },
        ensures
            final(self).wf(),
            ({
                let k = drain_count(old(self).pending_audio@, video.timestamp as int);
                &&& writes@.len() == k + 1
                &&& forall|i: int|
                    0 <= i < k ==> {
                        &&& (#[trigger] writes@[i]).track is Audio
                        &&& writes@[i].timestamp == old(self).pending_audio@[i].timestamp
                        &&& writes@[i].timestamp < video.timestamp
                        &&& writes@[i].payload == old(self).pending_audio@[i].payload
                    }
                &&& writes@[k as int].track is Video
                &&& writes@[k as int].timestamp == video.timestamp
                &&& writes@[k as int].payload == video.payload
                &&& final(self).pending_audio@ == old(self).pending_audio@.subrange(
                    k as int,
                    old(self).pending_audio@.len() as int,
                )
            }),
            final(self).hist() == old(self).hist() + recs_of(writes@),
            final(self).last_video == Some(video.timestamp),
            final(self).last_audio_accepted == old(self).last_audio_accepted,
    {
        let ghost orig = *old(self);
        let ghost old_pending = self.pending_audio@;
        let vts = video.timestamp;
        let mut writes: Vec<MuxWrite> = Vec::new();
        proof {
            lemma_drain_count_le_len(old_pending, vts as int);
        }
        loop
            invariant
                orig.wf(),
                vts == video.timestamp,
                self.last_video == orig.last_video,
                self.last_audio_accepted == orig.last_audio_accepted,
                self.history == orig.history,
                old_pending == orig.pending_audio@,
                writes@.len() + self.pending_audio@.len() == old_pending.len(),
                self.pending_audio@ == old_pending.subrange(
                    writes@.len() as int,
                    old_pending.len() as int,
                ),
                drain_count(old_pending, vts as int) == writes@.len() + drain_count(
                    self.pending_audio@,
                    vts as int,
                ),
                forall|i: int|
                    0 <= i < writes@.len() ==> {
                        &&& (#[trigger] writes@[i]).track is Audio
                        &&& writes@[i].timestamp == old_pending[i].timestamp
                        &&& writes@[i].timestamp < vts
                        &&& writes@[i].payload == old_pending[i].payload
                    },
            ensures
                self.last_video == orig.last_video,
                self.last_audio_accepted == orig.last_audio_accepted,
                self.history == orig.history,
                writes@.len() + self.pending_audio@.len() == old_pending.len(),
                self.pending_audio@ == old_pending.subrange(
                    writes@.len() as int,
                    old_pending.len() as int,
                ),
                drain_count(old_pending, vts as int) == writes@.len() + drain_count(
                    self.pending_audio@,
                    vts as int,
                ),
                self.pending_audio@.len() == 0 || self.pending_audio@[0].timestamp >= vts,
                forall|i: int|
                    0 <= i < writes@.len() ==> {
                        &&& (#[trigger] writes@[i]).track is Audio
                        &&& writes@[i].timestamp == old_pending[i].timestamp
                        &&& writes@[i].timestamp < vts
                        &&& writes@[i].payload == old_pending[i].payload
                    },
            decreases self.pending_audio.len(),
        {
            if self.pending_audio.len() == 0 || self.pending_audio[0].timestamp >= vts {
                break;
            }
            let ghost before = self.pending_audio@;
            let chunk = self.pending_audio.remove(0);
            proof {
                assert(before.subrange(1, before.len() as int) =~= old_pending.subrange(
                    writes@.len() as int + 1,
                    old_pending.len() as int,
                ));
            }
            let ts = chunk.timestamp;
            writes.push(MuxWrite { track: Track::Audio, timestamp: ts, payload: chunk.payload });
        }
        let ghost k = writes@.len();
        proof {
            assert(drain_count(self.pending_audio@, vts as int) == 0);
            assert(k == drain_count(old_pending, vts as int));
        }
        writes.push(MuxWrite { track: Track::Video, timestamp: vts, payload: video.payload });
        self.last_video = Some(vts);
        proof {
            self.history@ = orig.hist() + recs_of(writes@);
        }
        proof {
            let h0 = orig.hist();
            let h1 = self.hist();
            let n0 = h0.len() as int;
            assert forall|i: int| 0 <= i < h1.len() implies if h1[i].track is Video {
                h1[i].timestamp <= vts
            } else {
                h1[i].timestamp < vts
            } by {
                if i < n0 {
                    match orig.last_video {
                        None => {},
                        Some(t) => {
                            assert(h1[i] == h0[i]);
                        },
                    }
                } else {
                    assert(h1[i] == recs_of(writes@)[i - n0]);
                }
            }
            assert(video_strictly_increasing(h1)) by {
                assert forall|i: int, j: int|
                    0 <= i < j < h1.len() && h1[i].track is Video && h1[j].track
                        is Video implies h1[i].timestamp < h1[j].timestamp by {
                    if j < n0 {
                    } else if i < n0 {
                        assert(h1[j].timestamp == vts);
                        match orig.last_video {
                            None => {
                                assert(false);
                            },
                            Some(t) => {},
                        }
                    } else {
                        assert(i - n0 < k && j - n0 <= k);
                        assert(h1[i].track is Audio);
                    }
                }
            }
            assert(audio_nondecreasing(h1)) by {
                assert forall|i: int, j: int|
                    0 <= i < j < h1.len() && h1[i].track is Audio && h1[j].track
                        is Audio implies h1[i].timestamp <= h1[j].timestamp by {
                    if j < n0 {
                    } else if i < n0 {
                        assert(h1[j].timestamp == old_pending[j - n0].timestamp);
                    } else {
                        assert(h1[i].timestamp == old_pending[i - n0].timestamp);
                        assert(h1[j].timestamp == old_pending[j - n0].timestamp);
                    }
                }
            }
            assert(audio_precedes_video(h1)) by {
                assert forall|i: int, j: int|
                    0 <= i < j < h1.len() && h1[i].track is Audio && h1[j].track
                        is Video implies h1[i].timestamp < h1[j].timestamp by {
                    if j < n0 {
                    } else if i < n0 {
                        assert(h1[j].timestamp == vts);
                        match orig.last_video {
                            None => {
                                assert(false);
                            },
                            Some(t) => {},
                        }
                    } else {
                        assert(h1[j].timestamp == vts);
                        assert(h1[i].timestamp == old_pending[i - n0].timestamp);
                    }
                }
            }
            assert forall|i: int, j: int|
                0 <= i < h1.len() && 0 <= j < self.pending_audio@.len() && h1[i].track
                    is Audio implies h1[i].timestamp <= self.pending_audio@[j].timestamp by {
                assert(self.pending_audio@[j] == old_pending[k + j]);
                if i < n0 {
                } else {
                    assert(h1[i].timestamp == old_pending[i - n0].timestamp);
                }
            }
            match orig.last_audio_accepted {
                None => {
                    assert(forall|i: int|
                        0 <= i < h1.len() ==> h1[i].track is Video);
                },
                Some(t) => {
                    assert forall|i: int|
                        0 <= i < h1.len() && h1[i].track is Audio implies h1[i].timestamp
                            <= t by {
                        if i >= n0 {
                            assert(h1[i].timestamp == old_pending[i - n0].timestamp);
                        }
                    }
                },
            }
        }
        writes
    }
}

/// Monotonicity of a completed session: the video timestamps handed to
/// the muxer are strictly increasing, and every audio chunk written
/// before a video frame carries a timestamp strictly below that frame's.
pub proof fn lemma_session_monotonicity(s: &Synchronizer)
    requires
        s.wf(),
    ensures
        video_strictly_increasing(s.hist()),
        audio_precedes_video(s.hist()),
        audio_nondecreasing(s.hist()),
{
}

} // verus!
