//! The acquisition pipeline as a state machine. The embedding program
//! performs each outside effect (create the directory, open the transfer,
//! write a chunk, compute the digest, rename) and reports its outcome; the
//! machine decides what happens next, which progress snapshot to emit, and
//! which file to remove. Its contracts pin the safety rules of the
//! pipeline: nothing is ever installed at the target path without a matching
//! digest, a failed run leaves no staging file behind and writes nothing to
//! the target, and the target is ordered removed only by the defensive
//! cleanup after a transport-level failure.

use vstd::prelude::*;
use crate::errors::AcquisitionError;
use crate::hasher::{digest_bytes, sha256_of};
use crate::hexutil::{ci_equal, eq_ignore_case, hex_lower_of, is_lower_hex};
use crate::progress::{DownloadProgress, ProgressStatus, percent_of, percent_done};

verus! {

/// Caller-supplied contract for one acquisition: where the artifact comes
/// from, where it is installed, and what it must hash to.
pub struct ArtifactDescriptor {
    pub url: String,
    /// Final installed location; never written during transfer.
    pub target_path: String,
    pub expected_size: u64,
    /// Lowercase hex 256-bit digest the downloaded bytes must have.
    pub expected_checksum: String,
}

impl ArtifactDescriptor {
    /// The descriptor's invariant: the expected checksum is a lowercase hex
    /// 256-bit digest.
    pub open spec fn wf(&self) -> bool {
        &&& self.expected_checksum@.len() == 64
        &&& forall|i: int|
            0 <= i < 64 ==> is_lower_hex(#[trigger] self.expected_checksum@[i])
    }

    /// Checks the descriptor's invariant.
    pub fn is_well_formed(&self) -> (r: bool)
        ensures
            r == self.wf(),
    {
        let s = self.expected_checksum.as_str();
        let n: usize = s.unicode_len();
        if n != 64 {
            return false;
        }
        let mut i: usize = 0;
        while i < 64
            invariant
                s@ == self.expected_checksum@,
                s@.len() == 64,
                i <= 64,
                forall|j: int| 0 <= j < i ==> is_lower_hex(#[trigger] s@[j]),
            decreases 64 - i,
        {
            let c: u32 = s.get_char(i) as u32;
            if !((48 <= c && c <= 57) || (97 <= c && c <= 102)) {
                return false;
            }
            i = i + 1;
        }
        true
    }
}

/// The staging location for a target path: the target with the transfer
/// marker appended. It is never the target path itself, so a transfer can
/// never write the final location directly.
pub fn staging_path_of(target_path: &str) -> (r: String)
    ensures
        r@ == target_path@ + ".tmp"@,
        r@.len() > target_path@.len(),
        r@ != target_path@,
{
    proof {
        reveal_strlit(".tmp");
    }
    let mut r = String::from_str(target_path);
    r.append(".tmp");
    r
}

/// Where the machine stands in the pipeline; each non-terminal phase names
/// the outside effect whose outcome it is waiting for.
#[derive(Clone, Copy, Debug, PartialEq, Eq, Structural)]
pub enum DownloadPhase {
    /// Waiting for the parent directory of the target path.
    Preparing,
    /// Waiting for the transfer to open and answer.
    Connecting,
    /// Waiting for the staging file to be created.
    Staging,
    /// Receiving body chunks into the staging file.
    Receiving,
    /// Waiting for the digest of the staging file.
    Verifying,
    /// Digest matched; waiting for the rename onto the target path.
    Installing,
    /// The verified artifact stands at the target path.
    Complete,
    /// The run failed; any staging file it created has been ordered removed.
    Failed,
}

/// File the embedding program must remove now, if any.
#[derive(Clone, Copy, Debug, PartialEq, Eq, Structural)]
pub enum CleanupAction {
    Nothing,
    /// Remove a partial file left at the target path by an earlier failed
    /// run that is being overwritten by this call.
    RemoveTarget,
    /// Remove the staging file of this run.
    RemoveStaging,
}

/// What one step of the machine asks of the embedding program.
pub struct DownloadStep {
    /// Snapshot to hand to the progress sink, best-effort.
    pub progress: Option<DownloadProgress>,
    pub cleanup: CleanupAction,
    /// Present exactly when the run has just failed.
    pub error: Option<AcquisitionError>,
}

/// Outcome of writing one body chunk.
#[derive(Clone, Copy, Debug, PartialEq, Eq, Structural)]
pub enum ChunkEvent {
    /// A chunk of this many bytes was read and written to the staging file.
    Received(u64),
    /// The next chunk could not be read from the transfer.
    ReadFailed,
    /// The chunk could not be written to the staging file.
    WriteFailed,
}

/// State machine of one acquisition run. The ghost fields record which
/// effects the machine has ordered, so the safety rules can be stated
/// against them.
pub struct DownloadMachine {
    desc: ArtifactDescriptor,
    phase: DownloadPhase,
    bytes: u64,
    /// The machine ordered the staging file created.
    staging_created: Ghost<bool>,
    /// The machine ordered the staging file removed (or consumed by the
    /// final rename) after creating it.
    staging_gone: Ghost<bool>,
    /// The machine ordered the verified staging file renamed onto the
    /// target path.
    target_installed: Ghost<bool>,
    /// The machine ordered the defensive removal of a leftover partial
    /// file at the target path; only a transport-level failure does.
    target_removed: Ghost<bool>,
    /// The digest the embedding program reported for the staging file, once
    /// one was reported.
    reported_digest: Ghost<Seq<char>>,
    /// Every progress snapshot handed out so far, in emission order.
    emitted: Ghost<Seq<DownloadProgress>>,
}

/// What every emitted snapshot of one run must say: the descriptor's
/// expected size as the total, zero progress on the starting snapshot, the
/// exact byte share while downloading, and the full share once validation
/// begins.
pub open spec fn snapshot_content_ok(p: DownloadProgress, total: u64) -> bool {
    &&& p.total_bytes == total
    &&& (p.status == ProgressStatus::Starting ==> p.bytes_downloaded == 0 && p.percentage == 0)
    &&& (p.status == ProgressStatus::Downloading ==> p.percentage == percent_of(
        p.bytes_downloaded,
        total,
    ))
    &&& (p.status == ProgressStatus::Validating ==> p.percentage == 100)
    &&& (p.status == ProgressStatus::Completed ==> p.percentage == 100)
}

/// The stage labels of a snapshot sequence.
pub open spec fn statuses_of(s: Seq<DownloadProgress>) -> Seq<ProgressStatus> {
    s.map_values(|p: DownloadProgress| p.status)
}

/// Shape of a well-formed emission log: one `Starting`, then only
/// `Downloading`, then at most one `Validating` and one `Completed`.
pub open spec fn emission_shape_ok(st: Seq<ProgressStatus>, phase: DownloadPhase) -> bool {
    match phase {
        DownloadPhase::Preparing => st =~= Seq::<ProgressStatus>::empty(),
        DownloadPhase::Connecting | DownloadPhase::Staging => st =~= seq![
            ProgressStatus::Starting,
        ],
        DownloadPhase::Receiving => {
            &&& st.len() >= 2
            &&& st[0] == ProgressStatus::Starting
            &&& forall|i: int| 1 <= i < st.len() ==> st[i] == ProgressStatus::Downloading
        },
        DownloadPhase::Verifying | DownloadPhase::Installing => {
            &&& st.len() >= 3
            &&& st[0] == ProgressStatus::Starting
            &&& forall|i: int| 1 <= i < st.len() - 1 ==> st[i] == ProgressStatus::Downloading
            &&& st.last() == ProgressStatus::Validating
        },
        DownloadPhase::Complete => {
            &&& st.len() >= 4
            &&& st[0] == ProgressStatus::Starting
            &&& forall|i: int| 1 <= i < st.len() - 2 ==> st[i] == ProgressStatus::Downloading
            &&& st[st.len() - 2] == ProgressStatus::Validating
            &&& st.last() == ProgressStatus::Completed
        },
        DownloadPhase::Failed => true,
    }
}

impl DownloadMachine {
    /// The machine's invariant, preserved by every step.
    pub closed spec fn inv(&self) -> bool {
        &&& self.desc.wf()
        &&& emission_shape_ok(statuses_of(self.emitted@), self.phase)
        &&& forall|i: int|
            0 <= i < self.emitted@.len() ==> snapshot_content_ok(
                #[trigger] self.emitted@[i],
                self.desc.expected_size,
            )
        // No staging file exists before the staging phase is passed.
        &&& match self.phase {
            DownloadPhase::Preparing | DownloadPhase::Connecting | DownloadPhase::Staging => {
                !self.staging_created@ && !self.staging_gone@ && self.bytes == 0
            },
            // The staging file exists exactly while bytes stream into it
            // and while it waits for verification and installation.
            DownloadPhase::Receiving | DownloadPhase::Verifying | DownloadPhase::Installing => {
                self.staging_created@ && !self.staging_gone@
            },
            // The final rename consumed the staging path.
            DownloadPhase::Complete => self.staging_created@ && self.staging_gone@,
            // A failed run has removed the staging file it created.
            DownloadPhase::Failed => self.staging_created@ ==> self.staging_gone@,
        }
        // The target path is only ever touched by the one final rename.
        &&& (self.target_installed@ <==> self.phase == DownloadPhase::Complete)
        // The defensive removal of a leftover at the target path is
        // ordered only when a transport failure ends the run.
        &&& (self.target_removed@ ==> self.phase == DownloadPhase::Failed)
        // Nothing is installed unless the reported digest matched the
        // expected checksum, ignoring case.
        &&& (self.phase == DownloadPhase::Installing || self.phase == DownloadPhase::Complete
            ==> ci_equal(self.reported_digest@, self.desc.expected_checksum@))
    }

    pub closed spec fn phase(&self) -> DownloadPhase {
        self.phase
    }

    pub closed spec fn descriptor(&self) -> ArtifactDescriptor {
        self.desc
    }

    pub closed spec fn bytes_received(&self) -> u64 {
        self.bytes
    }

    pub closed spec fn emitted_log(&self) -> Seq<DownloadProgress> {
        self.emitted@
    }

    pub closed spec fn staging_file_present(&self) -> bool {
        self.staging_created@ && !self.staging_gone@
    }

    pub closed spec fn target_written(&self) -> bool {
        self.target_installed@
    }

    pub closed spec fn target_cleanup_ordered(&self) -> bool {
        self.target_removed@
    }

    pub closed spec fn reported_digest_log(&self) -> Seq<char> {
        self.reported_digest@
    }

    /// A fresh run for one descriptor, waiting for the parent directory of
    /// the target path to be ensured.
    pub fn new(desc: ArtifactDescriptor) -> (m: DownloadMachine)
        requires
            desc.wf(),
        ensures
            m.inv(),
            m.phase() == DownloadPhase::Preparing,
            m.descriptor() == desc,
            m.emitted_log() == Seq::<DownloadProgress>::empty(),
            !m.staging_file_present(),
            !m.target_written(),
    {
        DownloadMachine {
            desc,
            phase: DownloadPhase::Preparing,
            bytes: 0,
            staging_created: Ghost(false),
            staging_gone: Ghost(false),
            target_installed: Ghost(false),
            target_removed: Ghost(false),
            reported_digest: Ghost(Seq::<char>::empty()),
            emitted: Ghost(Seq::<DownloadProgress>::empty()),
        }
    }

    /// Outcome of ensuring the parent directory: on success the starting
    /// snapshot is emitted before any network activity; on failure the run
    /// ends with `DirectoryCreationFailed` and nothing to clean up.
    pub fn directory_result(&mut self, ok: bool) -> (out: DownloadStep)
        requires
            old(self).inv(),
            old(self).phase() == DownloadPhase::Preparing,
        ensures
            final(self).inv(),
            final(self).descriptor() == old(self).descriptor(),
            final(self).staging_file_present() == old(self).staging_file_present(),
            !final(self).target_written(),
            ok ==> {
                &&& final(self).phase() == DownloadPhase::Connecting
                &&& out.progress == Some(DownloadProgress {
                    bytes_downloaded: 0u64,
                    total_bytes: old(self).descriptor().expected_size,
                    percentage: 0u64,
                    status: ProgressStatus::Starting,
                })
                &&& final(self).emitted_log() == old(self).emitted_log().push(out.progress->Some_0)
                &&& out.error is None
            },
            !ok ==> {
                &&& final(self).phase() == DownloadPhase::Failed
                &&& out.progress is None
                &&& out.error == Some(AcquisitionError::DirectoryCreationFailed)
                &&& final(self).emitted_log() == old(self).emitted_log()
            },
            out.cleanup == CleanupAction::Nothing,
    {
        if ok {
            let p = DownloadProgress {
                bytes_downloaded: 0,
                total_bytes: self.desc.expected_size,
                percentage: 0,
                status: ProgressStatus::Starting,
            };
            self.phase = DownloadPhase::Connecting;
            proof {
                self.emitted@ = self.emitted@.push(p);
                assert(statuses_of(self.emitted@) =~= seq![ProgressStatus::Starting]);
            }
            DownloadStep { progress: Some(p), cleanup: CleanupAction::Nothing, error: None }
        } else {
            self.phase = DownloadPhase::Failed;
            DownloadStep {
                progress: None,
                cleanup: CleanupAction::Nothing,
                error: Some(AcquisitionError::DirectoryCreationFailed),
            }
        }
    }

    /// Outcome of opening the transfer: `None` is a transport-level failure
    /// (DNS, connect, TLS, timeout) and orders a defensive removal of any
    /// partial file a prior failed run left at the target path; `Some`
    /// carries the HTTP status code, and a non-success code ends the run
    /// with `RemoteUnavailable` and nothing to clean up.
    pub fn response_result(&mut self, status: Option<u16>) -> (out: DownloadStep)
        requires
            old(self).inv(),
            old(self).phase() == DownloadPhase::Connecting,
        ensures
            final(self).inv(),
            final(self).descriptor() == old(self).descriptor(),
            final(self).emitted_log() == old(self).emitted_log(),
            final(self).staging_file_present() == old(self).staging_file_present(),
            !final(self).target_written(),
            out.progress is None,
            status is None ==> {
                &&& final(self).phase() == DownloadPhase::Failed
                &&& out.error == Some(AcquisitionError::TransportError)
                &&& out.cleanup == CleanupAction::RemoveTarget
                &&& final(self).target_cleanup_ordered()
            },
            status is Some ==> !final(self).target_cleanup_ordered(),
            status matches Some(code) ==> {
                &&& (200 <= code < 300) ==> {
                    &&& final(self).phase() == DownloadPhase::Staging
                    &&& out.error is None
                    &&& out.cleanup == CleanupAction::Nothing
                }
                &&& !(200 <= code < 300) ==> {
                    &&& final(self).phase() == DownloadPhase::Failed
                    &&& out.error == Some(AcquisitionError::RemoteUnavailable(code))
                    &&& out.cleanup == CleanupAction::Nothing
                }
            },
    {
        match status {
            None => {
                self.phase = DownloadPhase::Failed;
                proof {
                    self.target_removed@ = true;
                }
                DownloadStep {
                    progress: None,
                    cleanup: CleanupAction::RemoveTarget,
                    error: Some(AcquisitionError::TransportError),
                }
            },
            Some(code) => {
                if 200 <= code && code < 300 {
                    self.phase = DownloadPhase::Staging;
                    DownloadStep {
                        progress: None,
                        cleanup: CleanupAction::Nothing,
                        error: None,
                    }
                } else {
                    self.phase = DownloadPhase::Failed;
                    DownloadStep {
                        progress: None,
                        cleanup: CleanupAction::Nothing,
                        error: Some(AcquisitionError::RemoteUnavailable(code)),
                    }
                }
            },
        }
    }

    /// Outcome of creating the staging file at the target path with the
    /// transfer suffix. On success the run starts receiving at zero bytes;
    /// on failure it ends with `DiskWriteFailed`, and no file was created.
    pub fn staging_result(&mut self, ok: bool) -> (out: DownloadStep)
        requires
            old(self).inv(),
            old(self).phase() == DownloadPhase::Staging,
        ensures
            final(self).inv(),
            final(self).descriptor() == old(self).descriptor(),
            !final(self).target_written(),
            out.cleanup == CleanupAction::Nothing,
            ok ==> {
                &&& final(self).phase() == DownloadPhase::Receiving
                &&& final(self).bytes_received() == 0
                &&& final(self).staging_file_present()
                &&& out.progress == Some(DownloadProgress {
                    bytes_downloaded: 0u64,
                    total_bytes: old(self).descriptor().expected_size,
                    percentage: 0u64,
                    status: ProgressStatus::Downloading,
                })
                &&& final(self).emitted_log() == old(self).emitted_log().push(out.progress->Some_0)
                &&& out.error is None
            },
            !ok ==> {
                &&& final(self).phase() == DownloadPhase::Failed
                &&& !final(self).staging_file_present()
                &&& out.progress is None
                &&& out.error == Some(AcquisitionError::DiskWriteFailed)
                &&& final(self).emitted_log() == old(self).emitted_log()
            },
    {
        if ok {
            let p = DownloadProgress {
                bytes_downloaded: 0,
                total_bytes: self.desc.expected_size,
                percentage: 0,
                status: ProgressStatus::Downloading,
            };
            self.phase = DownloadPhase::Receiving;
            self.bytes = 0;
            proof {
                self.staging_created@ = true;
                self.emitted@ = self.emitted@.push(p);
                assert(statuses_of(self.emitted@)
                    =~= statuses_of(old(self).emitted@).push(ProgressStatus::Downloading));
            }
            DownloadStep { progress: Some(p), cleanup: CleanupAction::Nothing, error: None }
        } else {
            self.phase = DownloadPhase::Failed;
            DownloadStep {
                progress: None,
                cleanup: CleanupAction::Nothing,
                error: Some(AcquisitionError::DiskWriteFailed),
            }
        }
    }

    /// Outcome of handling one body chunk. A received chunk advances the
    /// byte count (saturating) and emits a fresh downloading snapshot; a
    /// read failure ends the run with `TransferInterrupted`, a write failure
    /// with `DiskWriteFailed`, and either orders the staging file removed.
    pub fn chunk_result(&mut self, ev: ChunkEvent) -> (out: DownloadStep)
        requires
            old(self).inv(),
            old(self).phase() == DownloadPhase::Receiving,
        ensures
            final(self).inv(),
            final(self).descriptor() == old(self).descriptor(),
            !final(self).target_written(),
            ev matches ChunkEvent::Received(n) ==> {
                &&& final(self).phase() == DownloadPhase::Receiving
                &&& final(self).bytes_received() == if old(self).bytes_received() + n
                    <= u64::MAX {
                    (old(self).bytes_received() + n) as u64
                } else {
                    u64::MAX
                }
                &&& final(self).staging_file_present()
                &&& out.progress == Some(DownloadProgress {
                    bytes_downloaded: final(self).bytes_received(),
                    total_bytes: old(self).descriptor().expected_size,
                    percentage: percent_of(
                        final(self).bytes_received(),
                        old(self).descriptor().expected_size,
                    ),
                    status: ProgressStatus::Downloading,
                })
                &&& final(self).emitted_log() == old(self).emitted_log().push(out.progress->Some_0)
                &&& out.cleanup == CleanupAction::Nothing
                &&& out.error is None
            },
            ev == ChunkEvent::ReadFailed ==> {
                &&& final(self).phase() == DownloadPhase::Failed
                &&& !final(self).staging_file_present()
                &&& out.progress is None
                &&& out.cleanup == CleanupAction::RemoveStaging
                &&& out.error == Some(AcquisitionError::TransferInterrupted)
                &&& final(self).emitted_log() == old(self).emitted_log()
            },
            ev == ChunkEvent::WriteFailed ==> {
                &&& final(self).phase() == DownloadPhase::Failed
                &&& !final(self).staging_file_present()
                &&& out.progress is None
                &&& out.cleanup == CleanupAction::RemoveStaging
                &&& out.error == Some(AcquisitionError::DiskWriteFailed)
                &&& final(self).emitted_log() == old(self).emitted_log()
            },
    {
        match ev {
            ChunkEvent::Received(n) => {
                let new_bytes: u64 = if n <= u64::MAX - self.bytes {
                    self.bytes + n
                } else {
                    u64::MAX
                };
                self.bytes = new_bytes;
                let p = DownloadProgress {
                    bytes_downloaded: new_bytes,
                    total_bytes: self.desc.expected_size,
                    percentage: percent_done(new_bytes, self.desc.expected_size),
                    status: ProgressStatus::Downloading,
                };
                proof {
                    self.emitted@ = self.emitted@.push(p);
                    assert(statuses_of(self.emitted@)
                        =~= statuses_of(old(self).emitted@).push(ProgressStatus::Downloading));
                }
                DownloadStep { progress: Some(p), cleanup: CleanupAction::Nothing, error: None }
            },
            ChunkEvent::ReadFailed => {
                self.phase = DownloadPhase::Failed;
                proof {
                    self.staging_gone@ = true;
                }
                DownloadStep {
                    progress: None,
                    cleanup: CleanupAction::RemoveStaging,
                    error: Some(AcquisitionError::TransferInterrupted),
                }
            },
            ChunkEvent::WriteFailed => {
                self.phase = DownloadPhase::Failed;
                proof {
                    self.staging_gone@ = true;
                }
                DownloadStep {
                    progress: None,
                    cleanup: CleanupAction::RemoveStaging,
                    error: Some(AcquisitionError::DiskWriteFailed),
                }
            },
        }
    }

    /// The body ended and the staging file handle was flushed and released;
    /// the validating snapshot is emitted at the full share of the bytes
    /// actually received.
    pub fn stream_finished(&mut self) -> (out: DownloadStep)
        requires
            old(self).inv(),
            old(self).phase() == DownloadPhase::Receiving,
        ensures
            final(self).inv(),
            final(self).descriptor() == old(self).descriptor(),
            final(self).bytes_received() == old(self).bytes_received(),
            final(self).staging_file_present(),
            !final(self).target_written(),
            final(self).phase() == DownloadPhase::Verifying,
            out.progress == Some(DownloadProgress {
                bytes_downloaded: old(self).bytes_received(),
                total_bytes: old(self).descriptor().expected_size,
                percentage: 100u64,
                status: ProgressStatus::Validating,
            }),
            final(self).emitted_log() == old(self).emitted_log().push(out.progress->Some_0),
            out.cleanup == CleanupAction::Nothing,
            out.error is None,
    {
        let p = DownloadProgress {
            bytes_downloaded: self.bytes,
            total_bytes: self.desc.expected_size,
            percentage: 100,
            status: ProgressStatus::Validating,
        };
        self.phase = DownloadPhase::Verifying;
        proof {
            self.emitted@ = self.emitted@.push(p);
            assert(statuses_of(self.emitted@)
                =~= statuses_of(old(self).emitted@).push(ProgressStatus::Validating));
        }
        DownloadStep { progress: Some(p), cleanup: CleanupAction::Nothing, error: None }
    }

    /// The digest of the staging file, as reported by the embedding
    /// program. A match, ignoring ASCII case, moves the run to
    /// installation; a mismatch ends it with `ChecksumMismatch` carrying
    /// both digests, and orders the staging file removed.
    pub fn digest_result(&mut self, actual: String) -> (out: DownloadStep)
        requires
            old(self).inv(),
            old(self).phase() == DownloadPhase::Verifying,
        ensures
            final(self).inv(),
            final(self).descriptor() == old(self).descriptor(),
            final(self).emitted_log() == old(self).emitted_log(),
            !final(self).target_written(),
            final(self).reported_digest_log() == actual@,
            out.progress is None,
            ci_equal(actual@, old(self).descriptor().expected_checksum@) ==> {
                &&& final(self).phase() == DownloadPhase::Installing
                &&& final(self).staging_file_present()
                &&& out.cleanup == CleanupAction::Nothing
                &&& out.error is None
            },
            !ci_equal(actual@, old(self).descriptor().expected_checksum@) ==> {
                &&& final(self).phase() == DownloadPhase::Failed
                &&& !final(self).staging_file_present()
                &&& out.cleanup == CleanupAction::RemoveStaging
                &&& out.error == Some(AcquisitionError::ChecksumMismatch {
                    expected: old(self).descriptor().expected_checksum,
                    actual,
                })
            },
    {
        proof {
            self.reported_digest@ = actual@;
        }
        let matched = eq_ignore_case(actual.as_str(), self.desc.expected_checksum.as_str());
        if matched {
            self.phase = DownloadPhase::Installing;
            DownloadStep { progress: None, cleanup: CleanupAction::Nothing, error: None }
        } else {
            self.phase = DownloadPhase::Failed;
            proof {
                self.staging_gone@ = true;
            }
            let expected = self.desc.expected_checksum.clone();
            DownloadStep {
                progress: None,
                cleanup: CleanupAction::RemoveStaging,
                error: Some(AcquisitionError::ChecksumMismatch { expected, actual }),
            }
        }
    }

    /// Verifies downloaded bytes held in memory: digests them and applies
    /// the comparison, so a run verified this way completes only if the
    /// SHA-256 digest of exactly these bytes matches the descriptor's
    /// expected checksum.
    pub fn verify_bytes(&mut self, data: &[u8]) -> (out: DownloadStep)
        requires
            old(self).inv(),
            old(self).phase() == DownloadPhase::Verifying,
        ensures
            final(self).inv(),
            final(self).descriptor() == old(self).descriptor(),
            final(self).emitted_log() == old(self).emitted_log(),
            !final(self).target_written(),
            final(self).reported_digest_log() == hex_lower_of(sha256_of(data@)),
            out.progress is None,
            ci_equal(hex_lower_of(sha256_of(data@)), old(self).descriptor().expected_checksum@)
                ==> {
                &&& final(self).phase() == DownloadPhase::Installing
                &&& final(self).staging_file_present()
                &&& out.error is None
            },
            !ci_equal(hex_lower_of(sha256_of(data@)), old(self).descriptor().expected_checksum@)
                ==> {
                &&& final(self).phase() == DownloadPhase::Failed
                &&& !final(self).staging_file_present()
                &&& out.cleanup == CleanupAction::RemoveStaging
                &&& out.error is Some
            },
    {
        let actual = digest_bytes(data);
        self.digest_result(actual)
    }

    /// The digest of the staging file could not be computed (it could not
    /// be read back); the run ends with `DiskWriteFailed` and orders the
    /// staging file removed.
    pub fn digest_failed(&mut self) -> (out: DownloadStep)
        requires
            old(self).inv(),
            old(self).phase() == DownloadPhase::Verifying,
        ensures
            final(self).inv(),
            final(self).descriptor() == old(self).descriptor(),
            final(self).emitted_log() == old(self).emitted_log(),
            !final(self).target_written(),
            final(self).phase() == DownloadPhase::Failed,
            !final(self).staging_file_present(),
            out.progress is None,
            out.cleanup == CleanupAction::RemoveStaging,
            out.error == Some(AcquisitionError::DiskWriteFailed),
    {
        self.phase = DownloadPhase::Failed;
        proof {
            self.staging_gone@ = true;
        }
        DownloadStep {
            progress: None,
            cleanup: CleanupAction::RemoveStaging,
            error: Some(AcquisitionError::DiskWriteFailed),
        }
    }

    /// Outcome of the single atomic rename of the staging file onto the
    /// target path. Success completes the run and emits the completed
    /// snapshot; failure ends it with `InstallFailed` and orders the
    /// staging file removed. Either way the staging path is gone
    /// afterwards.
    pub fn rename_result(&mut self, ok: bool) -> (out: DownloadStep)
        requires
            old(self).inv(),
            old(self).phase() == DownloadPhase::Installing,
        ensures
            final(self).inv(),
            final(self).descriptor() == old(self).descriptor(),
            !final(self).staging_file_present(),
            ok ==> {
                &&& final(self).phase() == DownloadPhase::Complete
                &&& final(self).target_written()
                &&& out.progress == Some(DownloadProgress {
                    bytes_downloaded: old(self).bytes_received(),
                    total_bytes: old(self).descriptor().expected_size,
                    percentage: 100u64,
                    status: ProgressStatus::Completed,
                })
                &&& final(self).emitted_log() == old(self).emitted_log().push(out.progress->Some_0)
                &&& out.cleanup == CleanupAction::Nothing
                &&& out.error is None
            },
            !ok ==> {
                &&& final(self).phase() == DownloadPhase::Failed
                &&& !final(self).target_written()
                &&& out.progress is None
                &&& out.cleanup == CleanupAction::RemoveStaging
                &&& out.error == Some(AcquisitionError::InstallFailed)
                &&& final(self).emitted_log() == old(self).emitted_log()
            },
    {
        if ok {
            let p = DownloadProgress {
                bytes_downloaded: self.bytes,
                total_bytes: self.desc.expected_size,
                percentage: 100,
                status: ProgressStatus::Completed,
            };
            self.phase = DownloadPhase::Complete;
            proof {
                self.staging_gone@ = true;
                self.target_installed@ = true;
                self.emitted@ = self.emitted@.push(p);
                assert(statuses_of(self.emitted@)
                    =~= statuses_of(old(self).emitted@).push(ProgressStatus::Completed));
            }
            DownloadStep { progress: Some(p), cleanup: CleanupAction::Nothing, error: None }
        } else {
            self.phase = DownloadPhase::Failed;
            proof {
                self.staging_gone@ = true;
            }
            DownloadStep {
                progress: None,
                cleanup: CleanupAction::RemoveStaging,
                error: Some(AcquisitionError::InstallFailed),
            }
        }
    }

    /// Reads the current phase.
    pub fn current_phase(&self) -> (p: DownloadPhase)
        ensures
            p == self.phase(),
    {
        self.phase
    }
}

/// A run that completed installed only bytes whose reported digest matches
/// the descriptor's expected checksum, ignoring ASCII case.
pub proof fn lemma_complete_digest_matches(m: DownloadMachine)
    requires
        m.inv(),
        m.phase() == DownloadPhase::Complete,
    ensures
        ci_equal(m.reported_digest_log(), m.descriptor().expected_checksum@),
        m.target_written(),
{
}

/// A failed run leaves no staging file behind and never writes the target
/// path.
pub proof fn lemma_failed_run_clean(m: DownloadMachine)
    requires
        m.inv(),
        m.phase() == DownloadPhase::Failed,
    ensures
        !m.staging_file_present(),
        !m.target_written(),
{
}

/// The target path is written only by the final rename of a completed run,
/// and its one other touch, the defensive removal of a leftover partial
/// file, is ordered only when a transport failure ends the run; every
/// other outcome leaves the target exactly as it was before the call.
pub proof fn lemma_target_touched_only_at_the_edges(m: DownloadMachine)
    requires
        m.inv(),
    ensures
        m.target_written() <==> m.phase() == DownloadPhase::Complete,
        m.target_cleanup_ordered() ==> m.phase() == DownloadPhase::Failed,
{
}

/// A completed run emitted its snapshots in order: one `Starting`, then
/// only `Downloading`, then `Validating`, then `Completed` last.
pub proof fn lemma_complete_emission_order(m: DownloadMachine)
    requires
        m.inv(),
        m.phase() == DownloadPhase::Complete,
    ensures
        statuses_of(m.emitted_log()).len() >= 4,
        statuses_of(m.emitted_log())[0] == ProgressStatus::Starting,
        forall|i: int|
            1 <= i < statuses_of(m.emitted_log()).len() - 2
                ==> statuses_of(m.emitted_log())[i] == ProgressStatus::Downloading,
        statuses_of(m.emitted_log())[statuses_of(m.emitted_log()).len() - 2]
            == ProgressStatus::Validating,
        statuses_of(m.emitted_log()).last() == ProgressStatus::Completed,
        forall|i: int|
            0 <= i < m.emitted_log().len() ==> snapshot_content_ok(
                #[trigger] m.emitted_log()[i],
                m.descriptor().expected_size,
            ),
{
}

} // verus!
