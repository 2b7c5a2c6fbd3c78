use capture_agent::sync::{Synchronizer, TimedSample, Track};

fn sample(payload: u8, timestamp: u64) -> TimedSample {
    TimedSample { payload: vec![payload], timestamp }
}

#[test]
fn audio_older_than_frame_goes_first() {
    let mut sync = Synchronizer::new();
    sync.push_audio(sample(10, 0));
    sync.push_audio(sample(11, 100_000));
    sync.push_audio(sample(12, 400_000));

    let writes = sync.take_video(sample(1, 333_333));
    assert_eq!(writes.len(), 3);
    assert_eq!(writes[0].track, Track::Audio);
    assert_eq!(writes[0].timestamp, 0);
    assert_eq!(writes[0].payload, vec![10]);
    assert_eq!(writes[1].track, Track::Audio);
    assert_eq!(writes[1].timestamp, 100_000);
    assert_eq!(writes[2].track, Track::Video);
    assert_eq!(writes[2].timestamp, 333_333);
    assert_eq!(writes[2].payload, vec![1]);

    // The chunk stamped at 400_000 stays queued for a later frame.
    assert_eq!(sync.pending_audio.len(), 1);
    assert_eq!(sync.pending_audio[0].timestamp, 400_000);

    let writes = sync.take_video(sample(2, 666_666));
    assert_eq!(writes.len(), 2);
    assert_eq!(writes[0].track, Track::Audio);
    assert_eq!(writes[0].timestamp, 400_000);
    assert_eq!(writes[1].track, Track::Video);
    assert_eq!(writes[1].timestamp, 666_666);
    assert_eq!(sync.pending_audio.len(), 0);
}

#[test]
fn session_interleaving_is_monotone() {
    let mut sync = Synchronizer::new();
    let mut audio_ts = 0u64;
    let mut all_writes = Vec::new();
    for frame in 1..=5u64 {
        sync.push_audio(sample(0, audio_ts));
        audio_ts += 250_000;
        sync.push_audio(sample(0, audio_ts));
        audio_ts += 250_000;
        let writes = sync.take_video(sample(0, frame * 333_333));
        all_writes.extend(writes);
    }
    let mut last_video: Option<u64> = None;
    let mut last_audio: Option<u64> = None;
    for (i, w) in all_writes.iter().enumerate() {
        match w.track {
            Track::Video => {
                if let Some(t) = last_video {
                    assert!(w.timestamp > t, "video timestamps strictly increase");
                }
                // Every audio write before this frame is strictly older.
                for earlier in &all_writes[..i] {
                    if earlier.track == Track::Audio {
                        assert!(earlier.timestamp < w.timestamp);
                    }
                }
                last_video = Some(w.timestamp);
            }
            Track::Audio => {
                if let Some(t) = last_audio {
                    assert!(w.timestamp >= t, "audio timestamps never decrease");
                }
                last_audio = Some(w.timestamp);
            }
        }
    }
}

#[test]
fn video_only_session_works_without_audio() {
    let mut sync = Synchronizer::new();
    let writes = sync.take_video(sample(7, 0));
    assert_eq!(writes.len(), 1);
    assert_eq!(writes[0].track, Track::Video);
    let writes = sync.take_video(sample(8, 333_333));
    assert_eq!(writes.len(), 1);
    assert_eq!(writes[0].timestamp, 333_333);
}

#[test]
fn early_audio_waits_for_its_frame() {
    let mut sync = Synchronizer::new();
    sync.push_audio(sample(9, 500_000));
    let writes = sync.take_video(sample(1, 333_333));
    assert_eq!(writes.len(), 1, "a chunk at or past the frame stays queued");
    assert_eq!(writes[0].track, Track::Video);
    let writes = sync.take_video(sample(2, 666_666));
    assert_eq!(writes.len(), 2);
    assert_eq!(writes[0].track, Track::Audio);
    assert_eq!(writes[0].timestamp, 500_000);
}
