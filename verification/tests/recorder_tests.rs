use capture_agent::frame::{bgra_to_rgb, flip_frame_vertically, scaled_dimensions};
use capture_agent::recorder::{
    after_recording, audio_source_from_str, audio_wait_expired, container_from_str,
    frames_in_chunk, AfterRecording, AudioFormat, AudioSource, Container, Recorder,
    RecorderConfig,
};

#[test]
fn container_names_parse_with_mp4_fallback() {
    assert_eq!(container_from_str("Avi"), Container::Avi);
    assert_eq!(container_from_str("Webm"), Container::Webm);
    assert_eq!(container_from_str("Mp4"), Container::Mp4);
    assert_eq!(container_from_str("mkv"), Container::Mp4);
    assert_eq!(container_from_str(""), Container::Mp4);
}

#[test]
fn audio_source_names_parse_with_both_fallback() {
    assert_eq!(audio_source_from_str("Microphone"), AudioSource::Microphone);
    assert_eq!(audio_source_from_str("System"), AudioSource::System);
    assert_eq!(audio_source_from_str("Both"), AudioSource::Both);
    assert_eq!(audio_source_from_str("anything"), AudioSource::Both);
}

#[test]
fn audio_geometry_derivations() {
    let format = AudioFormat { sample_rate: 48_000, channels: 2, bits_per_sample: 32 };
    assert_eq!(format.block_alignment(), Some(8));
    assert_eq!(format.bytes_per_second(), Some(384_000));
    assert_eq!(frames_in_chunk(960, 2), 480);
}

#[test]
fn audio_geometry_overflow_is_reported() {
    let format = AudioFormat { sample_rate: u32::MAX, channels: u32::MAX, bits_per_sample: 32 };
    assert_eq!(format.block_alignment(), None);
    assert_eq!(format.bytes_per_second(), None);
}

#[test]
fn audio_wait_budget_is_five_seconds() {
    assert!(!audio_wait_expired(0));
    assert!(!audio_wait_expired(5_000));
    assert!(audio_wait_expired(5_001));
}

#[test]
fn failed_recording_backs_off_thirty_seconds() {
    match after_recording(false) {
        AfterRecording::Backoff { backoff_secs } => assert_eq!(backoff_secs, 30),
        AfterRecording::UploadAndContinue => panic!("failure must back off"),
    }
    match after_recording(true) {
        AfterRecording::UploadAndContinue => {}
        AfterRecording::Backoff { .. } => panic!("success uploads and continues"),
    }
}

#[test]
fn recorder_keeps_its_configuration() {
    let cfg = RecorderConfig {
        output_dir: "out".to_string(),
        base_name: "recording".to_string(),
        segment_duration_secs: 30,
        fps: 15,
        container: Container::Mp4,
        display_index: 0,
        record_all: false,
        combine_all: false,
        flip_vertical: true,
        flip_horizontal: false,
        video_bitrate_kbps: 4000,
        scale_max_width: None,
        include_audio: true,
        audio_bitrate_kbps: 128,
        audio_source: AudioSource::Both,
    };
    let recorder = Recorder::new(cfg);
    assert_eq!(recorder.cfg.fps, 15);
    let engine = recorder.start_engine(0);
    assert_eq!(engine.expected_frames, 450);
}

#[test]
fn flip_reverses_scanlines() {
    // Two rows of two BGRA pixels each.
    let frame: Vec<u8> = (0u8..16).collect();
    let flipped = flip_frame_vertically(&frame, 2, 2);
    let mut expected: Vec<u8> = (8u8..16).collect();
    expected.extend(0u8..8);
    assert_eq!(flipped, expected);
}

#[test]
fn flip_of_empty_frame_is_empty() {
    assert_eq!(flip_frame_vertically(&Vec::new(), 0, 0), Vec::<u8>::new());
}

#[test]
fn bgra_pixels_become_rgb() {
    let bgra = vec![1, 2, 3, 4, 5, 6, 7, 8];
    assert_eq!(bgra_to_rgb(&bgra), vec![3, 2, 1, 7, 6, 5]);
}

#[test]
fn width_cap_scales_preserving_aspect() {
    assert_eq!(scaled_dimensions(1920, 1080, Some(960)), (960, 540));
    assert_eq!(scaled_dimensions(1920, 1080, None), (1920, 1080));
    assert_eq!(scaled_dimensions(1920, 1080, Some(0)), (1920, 1080));
    assert_eq!(scaled_dimensions(800, 600, Some(1024)), (800, 600));
    assert_eq!(scaled_dimensions(1000, 999, Some(100)), (100, 99));
}
