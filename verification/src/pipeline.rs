//! Life of one artifact: durable persist first, network after.
//!
//! Every capture subsystem runs each artifact through the same
//! discipline: write the payload fully, flush and sync it to stable
//! storage, and only then attempt an upload; remove the file only after
//! a confirmed delivery. The pipeline records that discipline as a state
//! machine with an event log, so the ordering — no upload attempt before
//! the persist, no removal before a confirmed delivery — is an invariant
//! of every reachable state. The surrounding application performs the
//! writes, the sync and the upload, and reports each step here.
use vstd::prelude::*;

verus! {

/// One event in the life of an artifact.
#[derive(Clone, Copy, PartialEq, Eq, Structural, Debug)]
pub enum ArtifactEvent {
    /// The payload reached stable storage: written, flushed, synced.
    Persisted,
    /// One upload attempt finished, with its outcome.
    UploadAttempted { delivered: bool },
    /// The file was removed after a confirmed delivery.
    Removed,
}

/// The delivery discipline of one artifact, from capture to removal.
pub struct ArtifactPipeline {
    /// Whether the artifact has reached stable storage.
    pub persisted: bool,
    /// Whether some upload attempt has been confirmed.
    pub delivered: bool,
    /// Whether the file is still visible in the pending store.
    pub on_disk: bool,
    /// Everything that happened to the artifact, oldest first.
    pub log: Ghost<Seq<ArtifactEvent>>,
}

impl ArtifactPipeline {
    pub open spec fn wf(&self) -> bool {
        &&& self.persisted == (self.log@.len() > 0)
        &&& self.log@.len() > 0 ==> self.log@[0] is Persisted
        &&& forall|i: int| 0 < i < self.log@.len() ==> !((#[trigger] self.log@[i]) is Persisted)
        &&& self.delivered == exists|i: int|
            0 <= i < self.log@.len() && (#[trigger] self.log@[i]) == (ArtifactEvent::UploadAttempted { delivered: true })
        &&& forall|i: int|
            0 <= i < self.log@.len() && (#[trigger] self.log@[i]) is Removed ==> exists|j: int|
                0 <= j < i && (#[trigger] self.log@[j]) == (ArtifactEvent::UploadAttempted { delivered: true })
        &&& self.on_disk == (self.persisted && forall|i: int|
            0 <= i < self.log@.len() ==> !((#[trigger] self.log@[i]) is Removed))
    }

    /// A freshly captured artifact: nothing has happened to it yet.
    pub fn new() -> (p: Self)
        ensures
            p.wf(),
            !p.persisted,
            !p.delivered,
            !p.on_disk,
            p.log@.len() == 0,
    {
        ArtifactPipeline { persisted: false, delivered: false, on_disk: false, log: Ghost(
            Seq::empty(),
        ) }
    }

    /// The payload reached stable storage: from here on the artifact
    /// survives a crash and is visible to the sweep.
    pub fn persist_done(&mut self)
        requires
            old(self).wf(),
            !old(self).persisted,
        ensures
            final(self).wf(),
            final(self).persisted,
            final(self).on_disk,
            !final(self).delivered,
            final(self).log@ == old(self).log@.push(ArtifactEvent::Persisted),
    {
        proof {
            assert(self.log@.len() == 0);
        }
        self.persisted = true;
        self.on_disk = true;
        proof {
            self.log@ = self.log@.push(ArtifactEvent::Persisted);
        }
    }

    /// One upload attempt finished. Returns whether the caller now owes
    /// the store a removal: exactly on a confirmed delivery. A failure
    /// changes nothing on disk — the artifact stays for the next sweep.
    pub fn record_attempt(&mut self, delivered: bool) -> (remove_file: bool)
        requires
            old(self).wf(),
            old(self).persisted,
            old(self).on_disk,
        ensures
            final(self).wf(),
            remove_file == delivered,
            final(self).persisted,
            final(self).on_disk,
            final(self).delivered == (old(self).delivered || delivered),
            final(self).log@ == old(self).log@.push(
                ArtifactEvent::UploadAttempted { delivered },
            ),
    {
        let ghost n = self.log@.len() as int;
        if delivered {
            self.delivered = true;
        }
        proof {
            self.log@ = self.log@.push(ArtifactEvent::UploadAttempted { delivered });
            if self.delivered {
                if old(self).delivered {
                    let i = choose|i: int|
                        0 <= i < old(self).log@.len() && (#[trigger] old(self).log@[i]) == (ArtifactEvent::UploadAttempted { delivered: true });
                    assert(self.log@[i] == (ArtifactEvent::UploadAttempted {
                        delivered: true,
                    }));
                } else {
                    assert(self.log@[n] == (ArtifactEvent::UploadAttempted {
                        delivered: true,
                    }));
                }
            }
        }
        delivered
    }

    /// The file's removal from the pending store went through, after a
    /// confirmed delivery.
    pub fn confirm_removed(&mut self)
        requires
            old(self).wf(),
            old(self).delivered,
            old(self).on_disk,
        ensures
            final(self).wf(),
            !final(self).on_disk,
            final(self).delivered,
            final(self).log@ == old(self).log@.push(ArtifactEvent::Removed),
    {
        let ghost n = self.log@.len() as int;
        self.on_disk = false;
        proof {
            self.log@ = self.log@.push(ArtifactEvent::Removed);
            assert(self.log@[n] is Removed);
            assert(self.log@[0] == old(self).log@[0]);
            assert forall|i: int|
                0 < i < self.log@.len() implies !((#[trigger] self.log@[i]) is Persisted) by {
                if i < n {
                    assert(self.log@[i] == old(self).log@[i]);
                }
            }
            let j = choose|j: int|
                0 <= j < old(self).log@.len() && (#[trigger] old(self).log@[j])
                    == (ArtifactEvent::UploadAttempted { delivered: true });
            assert(self.log@[j] == (ArtifactEvent::UploadAttempted { delivered: true }));
            let i = choose|i: int|
                0 <= i < old(self).log@.len() && (#[trigger] old(self).log@[i])
                    == (ArtifactEvent::UploadAttempted { delivered: true });
            assert forall|m: int|
                0 <= m < self.log@.len() && (#[trigger] self.log@[m]) is Removed implies exists|
                j: int,
            |
                0 <= j < m && (#[trigger] self.log@[j]) == (ArtifactEvent::UploadAttempted { delivered: true }) by {
                if m < old(self).log@.len() {
                    assert(old(self).log@[m] is Removed);
                } else {
                    assert(self.log@[i] == (ArtifactEvent::UploadAttempted {
                        delivered: true,
                    }));
                }
            }
        }
    }
}

/// Durable persist before network: in every reachable artifact state,
/// any upload attempt in the log comes after the persist that made the
/// artifact durable, and any removal comes after a confirmed delivery.
pub proof fn lemma_persist_before_upload(p: &ArtifactPipeline)
    requires
        p.wf(),
    ensures
        forall|i: int|
            0 <= i < p.log@.len() && (#[trigger] p.log@[i]) is UploadAttempted ==> 0 < i
                && p.log@[0] is Persisted,
        forall|i: int|
            0 <= i < p.log@.len() && (#[trigger] p.log@[i]) is Removed ==> exists|j: int|
                0 <= j < i && (#[trigger] p.log@[j]) == (ArtifactEvent::UploadAttempted {
                    delivered: true,
                }),
{
    assert forall|i: int|
        0 <= i < p.log@.len() && (#[trigger] p.log@[i]) is UploadAttempted implies 0 < i
        && p.log@[0] is Persisted by {
        assert(p.log@[0] is Persisted);
        assert(!(p.log@[i] is Persisted));
    }
}

} // verus!
