//! Lifecycle of a local speech-to-text inference engine: acquiring the model
//! artifact with integrity guarantees (staged download, digest verification,
//! atomic installation) and a serialized session for loading, querying and
//! running the engine.
//!
//! All I/O (network transfer, file handling, the inference call itself) is
//! driven by the embedding program; this crate holds the decision logic,
//! verified: the download state machine, the digest and hex-comparison rules,
//! and the engine session's state transitions.

pub mod model;
pub mod errors;
pub mod progress;
pub mod hexutil;
pub mod hasher;
pub mod download;
pub mod session;
pub mod transcript;
