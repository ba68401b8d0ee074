use voice_intelligence::download::{
    staging_path_of, ArtifactDescriptor, ChunkEvent, CleanupAction, DownloadMachine, DownloadPhase,
};
use voice_intelligence::errors::AcquisitionError;
use voice_intelligence::hasher::digest_bytes;
use voice_intelligence::progress::{percent_done, DownloadProgress, ProgressStatus};

#[test]
fn percent_is_the_floored_share_and_saturates() {
    assert_eq!(percent_done(0, 1000), 0);
    assert_eq!(percent_done(500, 1000), 50);
    assert_eq!(percent_done(999, 1000), 99);
    assert_eq!(percent_done(123, 0), 0);
    assert_eq!(percent_done(u64::MAX, 1), u64::MAX);
}

fn descriptor(expected_checksum: &str, expected_size: u64) -> ArtifactDescriptor {
    ArtifactDescriptor {
        url: String::from("https://host/model.bin"),
        target_path: String::from("/m/base.bin"),
        expected_size,
        expected_checksum: String::from(expected_checksum),
    }
}

#[test]
fn staging_path_carries_the_transfer_marker() {
    assert_eq!(staging_path_of("/m/base.bin"), "/m/base.bin.tmp");
    assert_eq!(staging_path_of(""), ".tmp");
}

#[test]
fn descriptor_well_formedness() {
    let good = descriptor(
        "e3b0c44298fc1c149afbf4c8996fb92427ae41e4649b934ca495991b7852b855",
        1,
    );
    assert!(good.is_well_formed());
    let short = descriptor("abc123", 1);
    assert!(!short.is_well_formed());
    let upper = descriptor(
        "E3B0C44298FC1C149AFBF4C8996FB92427AE41E4649B934CA495991B7852B855",
        1,
    );
    assert!(!upper.is_well_formed());
}

#[test]
fn successful_run_installs_and_reports_in_order() {
    let body = vec![7u8; 1000];
    let checksum = digest_bytes(&body);
    let mut m = DownloadMachine::new(descriptor(&checksum, 1000));
    let mut statuses: Vec<ProgressStatus> = Vec::new();
    let mut snapshots: Vec<DownloadProgress> = Vec::new();
    let mut record = |p: Option<DownloadProgress>| {
        if let Some(p) = p {
            statuses.push(p.status);
            snapshots.push(p);
        }
    };

    let s = m.directory_result(true);
    assert!(s.error.is_none());
    record(s.progress);
    let s = m.response_result(Some(200));
    assert!(s.error.is_none());
    record(s.progress);
    let s = m.staging_result(true);
    assert!(s.error.is_none());
    record(s.progress);
    let s = m.chunk_result(ChunkEvent::Received(500));
    assert!(s.error.is_none());
    record(s.progress);
    let s = m.chunk_result(ChunkEvent::Received(500));
    assert!(s.error.is_none());
    record(s.progress);
    let s = m.stream_finished();
    assert!(s.error.is_none());
    record(s.progress);
    let s = m.digest_result(checksum.clone());
    assert!(s.error.is_none());
    assert_eq!(s.cleanup, CleanupAction::Nothing);
    record(s.progress);
    let s = m.rename_result(true);
    assert!(s.error.is_none());
    record(s.progress);

    assert_eq!(m.current_phase(), DownloadPhase::Complete);
    assert_eq!(
        statuses,
        vec![
            ProgressStatus::Starting,
            ProgressStatus::Downloading,
            ProgressStatus::Downloading,
            ProgressStatus::Downloading,
            ProgressStatus::Validating,
            ProgressStatus::Completed,
        ]
    );
    // The starting snapshot is emitted at zero of the expected size.
    assert_eq!(snapshots[0].bytes_downloaded, 0);
    assert_eq!(snapshots[0].total_bytes, 1000);
    assert_eq!(snapshots[0].percentage, 0);
    // Mid-stream the percentage tracks the received bytes.
    assert_eq!(snapshots[2].bytes_downloaded, 500);
    assert_eq!(snapshots[2].percentage, 50);
    assert_eq!(snapshots[3].bytes_downloaded, 1000);
    assert_eq!(snapshots[3].percentage, 100);
    // Validation and completion report the full share.
    assert_eq!(snapshots[4].percentage, 100);
    assert_eq!(snapshots[5].percentage, 100);
}

#[test]
fn mismatched_digest_fails_and_cleans_staging() {
    let body = vec![7u8; 1000];
    let checksum = digest_bytes(&body);
    let mut m = DownloadMachine::new(descriptor(&checksum, 1000));
    m.directory_result(true);
    m.response_result(Some(200));
    m.staging_result(true);
    m.chunk_result(ChunkEvent::Received(1000));
    m.stream_finished();
    let other = digest_bytes(b"not the body");
    let s = m.digest_result(other.clone());
    assert_eq!(s.cleanup, CleanupAction::RemoveStaging);
    assert_eq!(
        s.error,
        Some(AcquisitionError::ChecksumMismatch {
            expected: checksum,
            actual: other,
        })
    );
    assert_eq!(m.current_phase(), DownloadPhase::Failed);
}

#[test]
fn verifying_the_received_bytes_in_memory() {
    let body = b"the whole artifact";
    let checksum = digest_bytes(body);
    let mut m = DownloadMachine::new(descriptor(&checksum, body.len() as u64));
    m.directory_result(true);
    m.response_result(Some(200));
    m.staging_result(true);
    m.chunk_result(ChunkEvent::Received(body.len() as u64));
    m.stream_finished();
    let s = m.verify_bytes(body);
    assert!(s.error.is_none());
    assert_eq!(m.current_phase(), DownloadPhase::Installing);

    // The same bytes with one bit flipped can never be installed.
    let mut altered = body.to_vec();
    altered[0] ^= 1;
    let mut m = DownloadMachine::new(descriptor(&checksum, body.len() as u64));
    m.directory_result(true);
    m.response_result(Some(200));
    m.staging_result(true);
    m.chunk_result(ChunkEvent::Received(altered.len() as u64));
    m.stream_finished();
    let s = m.verify_bytes(&altered);
    assert!(matches!(
        s.error,
        Some(AcquisitionError::ChecksumMismatch { .. })
    ));
    assert_eq!(m.current_phase(), DownloadPhase::Failed);
}

#[test]
fn digest_comparison_ignores_case() {
    let body = b"payload";
    let checksum = digest_bytes(body);
    let mut m = DownloadMachine::new(descriptor(&checksum, 7));
    m.directory_result(true);
    m.response_result(Some(200));
    m.staging_result(true);
    m.chunk_result(ChunkEvent::Received(7));
    m.stream_finished();
    let s = m.digest_result(checksum.to_uppercase());
    assert!(s.error.is_none());
    assert_eq!(m.current_phase(), DownloadPhase::Installing);
}

#[test]
fn directory_failure_is_fatal_before_any_transfer() {
    let checksum = digest_bytes(b"x");
    let mut m = DownloadMachine::new(descriptor(&checksum, 1));
    let s = m.directory_result(false);
    assert_eq!(s.error, Some(AcquisitionError::DirectoryCreationFailed));
    assert!(s.progress.is_none());
    assert_eq!(s.cleanup, CleanupAction::Nothing);
    assert_eq!(m.current_phase(), DownloadPhase::Failed);
}

#[test]
fn transport_failure_orders_target_cleanup() {
    let checksum = digest_bytes(b"x");
    let mut m = DownloadMachine::new(descriptor(&checksum, 1));
    m.directory_result(true);
    let s = m.response_result(None);
    assert_eq!(s.error, Some(AcquisitionError::TransportError));
    assert_eq!(s.cleanup, CleanupAction::RemoveTarget);
    assert_eq!(m.current_phase(), DownloadPhase::Failed);
}

#[test]
fn non_success_status_is_remote_unavailable() {
    let checksum = digest_bytes(b"x");
    let mut m = DownloadMachine::new(descriptor(&checksum, 1));
    m.directory_result(true);
    let s = m.response_result(Some(404));
    assert_eq!(s.error, Some(AcquisitionError::RemoteUnavailable(404)));
    assert_eq!(s.cleanup, CleanupAction::Nothing);
}

#[test]
fn staging_create_failure_is_disk_write_failed() {
    let checksum = digest_bytes(b"x");
    let mut m = DownloadMachine::new(descriptor(&checksum, 1));
    m.directory_result(true);
    m.response_result(Some(200));
    let s = m.staging_result(false);
    assert_eq!(s.error, Some(AcquisitionError::DiskWriteFailed));
    assert_eq!(s.cleanup, CleanupAction::Nothing);
}

#[test]
fn chunk_read_failure_interrupts_and_cleans_staging() {
    let checksum = digest_bytes(b"x");
    let mut m = DownloadMachine::new(descriptor(&checksum, 1));
    m.directory_result(true);
    m.response_result(Some(200));
    m.staging_result(true);
    let s = m.chunk_result(ChunkEvent::ReadFailed);
    assert_eq!(s.error, Some(AcquisitionError::TransferInterrupted));
    assert_eq!(s.cleanup, CleanupAction::RemoveStaging);
}

#[test]
fn chunk_write_failure_cleans_staging() {
    let checksum = digest_bytes(b"x");
    let mut m = DownloadMachine::new(descriptor(&checksum, 1));
    m.directory_result(true);
    m.response_result(Some(200));
    m.staging_result(true);
    let s = m.chunk_result(ChunkEvent::WriteFailed);
    assert_eq!(s.error, Some(AcquisitionError::DiskWriteFailed));
    assert_eq!(s.cleanup, CleanupAction::RemoveStaging);
}

#[test]
fn unreadable_staging_file_cleans_staging() {
    let checksum = digest_bytes(b"x");
    let mut m = DownloadMachine::new(descriptor(&checksum, 1));
    m.directory_result(true);
    m.response_result(Some(200));
    m.staging_result(true);
    m.chunk_result(ChunkEvent::Received(1));
    m.stream_finished();
    let s = m.digest_failed();
    assert_eq!(s.error, Some(AcquisitionError::DiskWriteFailed));
    assert_eq!(s.cleanup, CleanupAction::RemoveStaging);
}

#[test]
fn rename_failure_is_install_failed() {
    let body = b"bytes";
    let checksum = digest_bytes(body);
    let mut m = DownloadMachine::new(descriptor(&checksum, 5));
    m.directory_result(true);
    m.response_result(Some(200));
    m.staging_result(true);
    m.chunk_result(ChunkEvent::Received(5));
    m.stream_finished();
    m.digest_result(checksum);
    let s = m.rename_result(false);
    assert_eq!(s.error, Some(AcquisitionError::InstallFailed));
    assert_eq!(s.cleanup, CleanupAction::RemoveStaging);
    assert_eq!(m.current_phase(), DownloadPhase::Failed);
}

#[test]
fn zero_expected_size_reports_zero_percent() {
    let checksum = digest_bytes(b"x");
    let mut m = DownloadMachine::new(descriptor(&checksum, 0));
    m.directory_result(true);
    m.response_result(Some(200));
    m.staging_result(true);
    let s = m.chunk_result(ChunkEvent::Received(123));
    let p = s.progress.unwrap();
    assert_eq!(p.bytes_downloaded, 123);
    assert_eq!(p.percentage, 0);
}
