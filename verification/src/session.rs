//! The engine session: a single-slot container for at most one loaded
//! inference engine. The embedding program owns the real engine handle and
//! the exclusion lock around this state; it reports the outcome of each
//! outside step (does the file exist, did the engine construct), and the
//! session applies the one decision rule: state changes only on the single
//! success path of a load, and an unload always empties the slot.

use vstd::prelude::*;
use crate::errors::{LoadError, TranscribeError};
use crate::model::ModelVariant;
use crate::progress::TranscriptionProgress;
use crate::transcript::{FlowPhase, TranscribeFlow};

verus! {

/// What the session holds of a loaded engine: the variant and the file the
/// engine was constructed from. The opaque engine handle itself lives with
/// the embedding program, keyed to this record.
#[verifier::ext_equal]
pub struct LoadedEngine {
    pub variant: ModelVariant,
    pub model_path: String,
}

/// Outcome of the outside steps of a load request, reported by the
/// embedding program.
#[derive(Clone, Copy, Debug, PartialEq, Eq, Structural)]
pub enum LoadOutcome {
    /// No file exists at the requested path; no construction was attempted.
    PathMissing,
    /// The file exists but the engine could not be constructed from it.
    EngineFailed,
    /// The engine was constructed and is ready.
    EngineReady,
}

/// Process-wide single-slot engine state. Created empty; populated only by
/// a successful load; emptied by unload.
#[verifier::ext_equal]
pub struct EngineSession {
    slot: Option<LoadedEngine>,
}

/// The session state immediately after process start, and after any unload:
/// nothing loaded.
pub closed spec fn initial_session() -> EngineSession {
    EngineSession { slot: None }
}

impl EngineSession {
    /// What the session holds.
    pub closed spec fn loaded(&self) -> Option<LoadedEngine> {
        self.slot
    }

    /// The variant of the held engine, or absence.
    pub closed spec fn status_spec(&self) -> Option<ModelVariant> {
        match self.slot {
            Some(e) => Some(e.variant),
            None => None,
        }
    }

    /// A fresh session holding nothing.
    pub fn new() -> (s: EngineSession)
        ensures
            s == initial_session(),
            s.status_spec() is None,
    {
        EngineSession { slot: None }
    }

    /// The variant of the currently loaded engine, or absence. A plain
    /// state read.
    pub fn status(&self) -> (r: Option<ModelVariant>)
        ensures
            r == self.status_spec(),
    {
        match &self.slot {
            Some(e) => Some(e.variant),
            None => None,
        }
    }

    /// Applies a load request given the reported outcome of its outside
    /// steps. Only `EngineReady` changes the session: the new engine record
    /// replaces whatever was held, wholesale. On `PathMissing` the request
    /// fails with `FileNotFound`, on `EngineFailed` with `EngineInitFailed`,
    /// and either way the previously held state is untouched.
    pub fn load(&mut self, path: String, variant: ModelVariant, outcome: LoadOutcome) -> (r:
        Result<(), LoadError>)
        ensures
            outcome == LoadOutcome::EngineReady ==> {
                &&& r == Result::<(), LoadError>::Ok(())
                &&& final(self).loaded() == Some(LoadedEngine { variant, model_path: path })
                &&& final(self).status_spec() == Some(variant)
            },
            outcome == LoadOutcome::PathMissing ==> {
                &&& r == Result::<(), LoadError>::Err(LoadError::FileNotFound)
                &&& *final(self) == *old(self)
            },
            outcome == LoadOutcome::EngineFailed ==> {
                &&& r == Result::<(), LoadError>::Err(LoadError::EngineInitFailed)
                &&& *final(self) == *old(self)
            },
    {
        match outcome {
            LoadOutcome::EngineReady => {
                self.slot = Some(LoadedEngine { variant, model_path: path });
                Ok(())
            },
            LoadOutcome::PathMissing => Err(LoadError::FileNotFound),
            LoadOutcome::EngineFailed => Err(LoadError::EngineInitFailed),
        }
    }

    /// Releases the held engine record, if any. Idempotent, cannot fail:
    /// unloading when nothing is loaded is a no-op success.
    pub fn unload(&mut self)
        ensures
            *final(self) == initial_session(),
            final(self).status_spec() is None,
    {
        self.slot = None;
        proof {
            assert(*self =~= initial_session());
        }
    }

    /// Opens a transcription run. With nothing loaded the request fails
    /// with `NotLoaded` and no run exists, so no progress snapshot is ever
    /// produced for it; otherwise a fresh run over the held engine record
    /// is handed back, having emitted nothing yet. The session itself is
    /// read, not changed.
    pub fn begin_transcribe(&self) -> (r: Result<TranscribeFlow, TranscribeError>)
        ensures
            self.loaded() is None ==> r == Result::<TranscribeFlow, TranscribeError>::Err(
                TranscribeError::NotLoaded,
            ),
            self.loaded() is Some ==> {
                &&& r is Ok
                &&& r->Ok_0.fresh()
                &&& r->Ok_0.inv()
                &&& r->Ok_0.phase() == FlowPhase::Created
                &&& r->Ok_0.emitted_log() == Seq::<TranscriptionProgress>::empty()
            },
    {
        match &self.slot {
            Some(_) => Ok(TranscribeFlow::new()),
            None => Err(TranscribeError::NotLoaded),
        }
    }
}

/// Unloading twice in a row is the same as unloading once: both succeed and
/// either way the session ends up holding nothing.
pub proof fn lemma_unload_idempotent(s1: EngineSession, s2: EngineSession)
    requires
        s1 == initial_session(),
        s2 == initial_session(),
    ensures
        s2 == s1,
        s1.status_spec() is None,
        s2.status_spec() is None,
{
}

/// The status read reflects the lifecycle exactly: a fresh or just-unloaded
/// session reports absence, and a session just populated by a successful
/// load reports the loaded variant.
pub proof fn lemma_status_reflects_lifecycle(s: EngineSession, v: ModelVariant)
    ensures
        initial_session().status_spec() is None,
        s.loaded() matches Some(e) && e.variant == v ==> s.status_spec() == Some(v),
{
}

} // verus!
