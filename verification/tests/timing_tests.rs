use capture_agent::timing::{
    chunk_duration_ticks, frame_interval_ticks, frame_timestamp, AudioClock, FramePacer, PaceStep,
    TICKS_PER_SECOND,
};

#[test]
fn tick_unit_is_100ns() {
    assert_eq!(TICKS_PER_SECOND, 10_000_000);
}

#[test]
fn frame_interval_at_30fps() {
    assert_eq!(frame_interval_ticks(30), 333_333);
}

#[test]
fn frame_interval_at_1fps() {
    assert_eq!(frame_interval_ticks(1), 10_000_000);
}

#[test]
fn frame_timestamps_are_exact_multiples() {
    let interval = frame_interval_ticks(30);
    assert_eq!(frame_timestamp(0, interval), 0);
    assert_eq!(frame_timestamp(1, interval), 333_333);
    assert_eq!(frame_timestamp(2, interval), 666_666);
    assert_eq!(frame_timestamp(900, interval), 299_999_700);
}

#[test]
fn frame_timestamps_strictly_increase() {
    let interval = frame_interval_ticks(15);
    let mut last = frame_timestamp(0, interval);
    for i in 1..100u32 {
        let ts = frame_timestamp(i, interval);
        assert!(ts > last);
        last = ts;
    }
}

#[test]
fn audio_chunk_duration_at_48khz() {
    assert_eq!(chunk_duration_ticks(480, 48_000), 100_000);
    assert_eq!(chunk_duration_ticks(48_000, 48_000), 10_000_000);
}

#[test]
fn audio_clock_stamps_then_advances() {
    let mut clock = AudioClock::new();
    assert_eq!(clock.stamp_chunk(100_000), 0);
    assert_eq!(clock.stamp_chunk(50_000), 100_000);
    assert_eq!(clock.ticks, 150_000);
}

#[test]
fn audio_clock_saturates() {
    let mut clock = AudioClock::new();
    clock.ticks = u64::MAX - 10;
    assert_eq!(clock.stamp_chunk(100), u64::MAX - 10);
    assert_eq!(clock.ticks, u64::MAX);
}

#[test]
fn pacer_captures_at_deadline_then_waits() {
    let mut pacer = FramePacer::new(1_000, 30);
    assert_eq!(pacer.interval_ns, 33_333_333);
    match pacer.step(1_000) {
        PaceStep::Capture => {}
        PaceStep::Wait { .. } => panic!("deadline had arrived"),
    }
    assert_eq!(pacer.next_due_ns, 33_334_333);
    match pacer.step(1_001) {
        PaceStep::Wait { nanos } => assert_eq!(nanos, 33_333_332),
        PaceStep::Capture => panic!("deadline had not arrived"),
    }
}

#[test]
fn pacer_does_not_capture_back_to_back_after_overrun() {
    let mut pacer = FramePacer::new(0, 10);
    match pacer.step(1_000_000_000) {
        PaceStep::Capture => {}
        PaceStep::Wait { .. } => panic!("overrun must capture"),
    }
    assert_eq!(pacer.next_due_ns, 100_000_000);
    match pacer.step(1_000_000_001) {
        PaceStep::Capture => {}
        PaceStep::Wait { .. } => panic!("still overrun: proceeds at its own pace"),
    }
    assert_eq!(pacer.next_due_ns, 200_000_000);
}
