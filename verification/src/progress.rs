//! Progress snapshot values. Each snapshot is independent and ephemeral;
//! delivery to a sink is best-effort and never influences the pipeline.

use vstd::prelude::*;

verus! {

/// Stage label of a download progress snapshot.
#[derive(Clone, Copy, Debug, PartialEq, Eq, Structural)]
pub enum ProgressStatus {
    Starting,
    Downloading,
    Validating,
    Completed,
    Failed,
}

/// One download progress snapshot. `percentage` is in whole percent,
/// rounded down.
#[derive(Clone, Debug, PartialEq, Eq, Structural)]
pub struct DownloadProgress {
    pub bytes_downloaded: u64,
    pub total_bytes: u64,
    pub percentage: u64,
    pub status: ProgressStatus,
}

/// Whole-percent share of `bytes` in `total`, rounded down; 0 when `total`
/// is 0, and saturated should the quotient not fit.
pub open spec fn percent_of(bytes: u64, total: u64) -> u64 {
    if total == 0 {
        0u64
    } else if bytes * 100 / (total as int) > u64::MAX {
        u64::MAX
    } else {
        (bytes * 100 / (total as int)) as u64
    }
}

/// Computes `percent_of` without overflow.
pub fn percent_done(bytes: u64, total: u64) -> (r: u64)
    ensures
        r == percent_of(bytes, total),
{
    if total == 0 {
        0
    } else {
        let q: u128 = (bytes as u128) * 100 / (total as u128);
        if q > u64::MAX as u128 {
            u64::MAX
        } else {
            q as u64
        }
    }
}

/// Stage of one transcription run, a fixed ordered sequence.
#[derive(Clone, Copy, Debug, PartialEq, Eq, Structural)]
pub enum TranscriptionStage {
    LoadingModel,
    ProcessingAudio,
    Finalizing,
    Complete,
}

/// One transcription progress snapshot. `percent` is the position in the
/// unit interval scaled to whole percent.
#[derive(Clone, Copy, Debug, PartialEq, Eq, Structural)]
pub struct TranscriptionProgress {
    pub stage: TranscriptionStage,
    pub percent: u8,
}

} // verus!
