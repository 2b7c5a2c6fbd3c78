use capture_agent::recorder::{RecorderStep, RecordingEngine};
use capture_agent::segment::{expected_frame_count, Segment, SegmentState};

#[test]
fn expected_frames_is_fps_times_duration() {
    assert_eq!(expected_frame_count(30, 30), 900);
    assert_eq!(expected_frame_count(15, 60), 900);
    assert_eq!(expected_frame_count(0, 30), 0);
}

#[test]
fn expected_frames_saturates() {
    assert_eq!(expected_frame_count(u32::MAX, u64::MAX), u64::MAX);
}

#[test]
fn short_segment_is_discarded() {
    // fps=30, duration=30s: expected 900; stopping after 450 frames
    // produces a deleted file.
    let mut seg = Segment::open_segment("seg.mp4".to_string(), expected_frame_count(30, 30));
    for _ in 0..450 {
        seg.record_frame();
    }
    seg.begin_finalize();
    let keep = seg.complete_finalize();
    assert!(!keep);
    assert_eq!(seg.state, SegmentState::Discarded);
}

#[test]
fn full_segment_is_retained() {
    let mut seg = Segment::open_segment("seg.mp4".to_string(), expected_frame_count(30, 30));
    for _ in 0..900 {
        seg.record_frame();
    }
    seg.begin_finalize();
    let keep = seg.complete_finalize();
    assert!(keep);
    assert_eq!(seg.state, SegmentState::Committed);
}

#[test]
fn overfull_segment_is_retained() {
    let mut seg = Segment::open_segment("seg.mp4".to_string(), 900);
    for _ in 0..1000 {
        seg.record_frame();
    }
    seg.begin_finalize();
    assert!(seg.complete_finalize());
}

#[test]
fn engine_rotates_when_window_elapses() {
    let mut engine = RecordingEngine::new(30, 30, 0);
    assert_eq!(engine.expected_frames, 900);
    for _ in 0..450 {
        engine.frame_encoded();
    }
    // Mid-window: no rotation yet.
    match engine.step(29_999_999_999) {
        RecorderStep::Rotate { .. } => panic!("window not over"),
        _ => {}
    }
    // Window over: rotate, and the short segment is not kept.
    match engine.step(30_000_000_000) {
        RecorderStep::Rotate { keep_finished } => assert!(!keep_finished),
        _ => panic!("window was over"),
    }
    assert_eq!(engine.frames_in_segment, 0);
    assert_eq!(engine.segment_start_ns, 30_000_000_000);
}

#[test]
fn engine_keeps_complete_segment_on_rotation() {
    let mut engine = RecordingEngine::new(30, 30, 0);
    for _ in 0..900 {
        engine.frame_encoded();
    }
    match engine.step(30_000_000_000) {
        RecorderStep::Rotate { keep_finished } => assert!(keep_finished),
        _ => panic!("window was over"),
    }
}

#[test]
fn engine_final_segment_policy() {
    let mut engine = RecordingEngine::new(30, 30, 0);
    for _ in 0..899 {
        engine.frame_encoded();
    }
    assert!(!engine.keep_final_segment());
    engine.frame_encoded();
    assert!(engine.keep_final_segment());
}

#[test]
fn engine_paces_frames_between_rotations() {
    let mut engine = RecordingEngine::new(10, 30, 0);
    match engine.step(0) {
        RecorderStep::CaptureFrame => {}
        _ => panic!("first deadline is at start"),
    }
    match engine.step(1) {
        RecorderStep::Wait { nanos } => assert_eq!(nanos, 99_999_999),
        _ => panic!("next deadline one interval later"),
    }
}
