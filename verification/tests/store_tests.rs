use capture_agent::store::{
    artifact_file_name, date_partition_name, fresh_artifact_file_name, name_has_extension,
    today_partition_name, ArtifactKind,
};

#[test]
fn date_partition_is_zero_padded() {
    assert_eq!(date_partition_name(2026, 10, 11), "2026-10-11");
    assert_eq!(date_partition_name(5, 1, 2), "0005-01-02");
    assert_eq!(date_partition_name(987, 12, 31), "0987-12-31");
    assert_eq!(date_partition_name(12345, 6, 7), "12345-06-07");
}

#[test]
fn kind_directories_match_the_layout() {
    assert_eq!(ArtifactKind::VideoSegment.pending_dir_name(), "video_recordings_pending");
    assert_eq!(ArtifactKind::Screenshot.pending_dir_name(), "screenshots_pending");
    assert_eq!(ArtifactKind::ActivityLog.pending_dir_name(), "activity_logs_pending");
}

#[test]
fn file_names_follow_the_scheme() {
    assert_eq!(
        artifact_file_name(ArtifactKind::ActivityLog, "2026-10-11_120000_001", "abc"),
        "activity_2026-10-11_120000_001_abc.json"
    );
    assert_eq!(
        artifact_file_name(ArtifactKind::Screenshot, "20261011_120000_001", "abc"),
        "screenshot_20261011_120000_001_abc.png"
    );
    assert_eq!(
        artifact_file_name(ArtifactKind::VideoSegment, "t", "u"),
        "video_t_u.mp4"
    );
}

#[test]
fn upload_timeouts_scale_with_kind() {
    assert_eq!(ArtifactKind::VideoSegment.upload_timeout_secs(), 60);
    assert_eq!(ArtifactKind::Screenshot.upload_timeout_secs(), 10);
    assert_eq!(ArtifactKind::ActivityLog.upload_timeout_secs(), 15);
}

#[test]
fn mime_types_match_the_extensions() {
    assert_eq!(ArtifactKind::VideoSegment.mime_type(), "video/mp4");
    assert_eq!(ArtifactKind::Screenshot.mime_type(), "image/png");
    assert_eq!(ArtifactKind::ActivityLog.mime_type(), "application/json");
}

#[test]
fn extension_filter_checks_the_suffix() {
    assert!(name_has_extension("screenshot_x_y.png", ".png"));
    assert!(!name_has_extension("screenshot_x_y.png", ".jpg"));
    assert!(!name_has_extension("png", ".png"));
    assert!(name_has_extension("a.b.png", ".png"));
}

#[test]
fn fresh_file_names_carry_kind_prefix_and_extension() {
    let name = fresh_artifact_file_name(ArtifactKind::ActivityLog);
    assert!(name.starts_with("activity_"));
    assert!(name_has_extension(&name, ".json"));
    let name = fresh_artifact_file_name(ArtifactKind::Screenshot);
    assert!(name.starts_with("screenshot_"));
    assert!(name_has_extension(&name, ".png"));
    let name = fresh_artifact_file_name(ArtifactKind::VideoSegment);
    assert!(name.starts_with("video_"));
    assert!(name_has_extension(&name, ".mp4"));
}

#[test]
fn fresh_file_names_are_unique() {
    let a = fresh_artifact_file_name(ArtifactKind::Screenshot);
    let b = fresh_artifact_file_name(ArtifactKind::Screenshot);
    assert_ne!(a, b, "the random suffix keeps names collision free");
}

#[test]
fn today_partition_has_date_shape() {
    let name = today_partition_name().expect("the clock is past year 0");
    let bytes = name.as_bytes();
    assert_eq!(bytes.len(), 10);
    assert_eq!(bytes[4], b'-');
    assert_eq!(bytes[7], b'-');
    for (i, b) in bytes.iter().enumerate() {
        if i != 4 && i != 7 {
            assert!(b.is_ascii_digit());
        }
    }
}
