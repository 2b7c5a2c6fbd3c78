use capture_agent::pipeline::ArtifactPipeline;

#[test]
fn persist_makes_the_artifact_visible() {
    let mut p = ArtifactPipeline::new();
    assert!(!p.on_disk);
    p.persist_done();
    assert!(p.persisted);
    assert!(p.on_disk, "persisted means recoverable and visible to the sweep");
    assert!(!p.delivered);
}

#[test]
fn failure_leaves_the_file_for_the_sweep() {
    let mut p = ArtifactPipeline::new();
    p.persist_done();
    let remove = p.record_attempt(false);
    assert!(!remove, "a failed attempt never removes the file");
    assert!(p.on_disk);
    assert!(!p.delivered);
}

#[test]
fn success_owes_the_store_a_removal() {
    let mut p = ArtifactPipeline::new();
    p.persist_done();
    assert!(!p.record_attempt(false));
    let remove = p.record_attempt(true);
    assert!(remove);
    assert!(p.delivered);
    p.confirm_removed();
    assert!(!p.on_disk);
}

#[test]
fn failed_removal_keeps_the_artifact_deliverable_again() {
    // Removal after a confirmed delivery may fail at the filesystem; the
    // artifact then stays visible and may be uploaded once more, which
    // the server contract tolerates.
    let mut p = ArtifactPipeline::new();
    p.persist_done();
    assert!(p.record_attempt(true));
    assert!(p.on_disk, "still on disk until a removal is confirmed");
    assert!(p.record_attempt(true), "the next sweep may deliver it again");
    p.confirm_removed();
    assert!(!p.on_disk);
}
