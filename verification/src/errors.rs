//! Closed error taxonomies for the acquisition pipeline and the engine
//! session, so callers can branch on the failure kind.

use vstd::prelude::*;

verus! {

/// Why an acquisition failed. Every variant implies that no unverified data
/// was installed at the target path.
#[derive(Clone, Debug, PartialEq, Eq)]
pub enum AcquisitionError {
    /// The parent directory of the target path could not be created.
    DirectoryCreationFailed,
    /// The transfer could not be opened: DNS, connect, TLS or timeout failure.
    TransportError,
    /// The remote answered with a non-success HTTP status code.
    RemoteUnavailable(u16),
    /// A body chunk could not be read from the open transfer.
    TransferInterrupted,
    /// The staging file could not be created, written, or read back.
    DiskWriteFailed,
    /// The digest of the downloaded bytes does not match the descriptor.
    ChecksumMismatch { expected: String, actual: String },
    /// The verified staging file could not be renamed onto the target path.
    InstallFailed,
}

/// Why a load request was not honoured.
#[derive(Clone, Debug, PartialEq, Eq)]
pub enum LoadError {
    /// No file exists at the requested model path.
    FileNotFound,
    /// The inference engine could not be constructed from the file.
    EngineInitFailed,
}

/// Why a transcription request was not honoured.
#[derive(Clone, Debug, PartialEq, Eq)]
pub enum TranscribeError {
    /// No engine instance is currently loaded.
    NotLoaded,
    /// The loaded engine failed while processing the audio.
    EngineFailed,
}

} // verus!
