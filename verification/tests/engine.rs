use voice_intelligence::errors::{LoadError, TranscribeError};
use voice_intelligence::model::{ModelVariant, SystemMemory};
use voice_intelligence::progress::TranscriptionStage;
use voice_intelligence::session::{EngineSession, LoadOutcome};
use voice_intelligence::transcript::assemble_transcript;

#[test]
fn status_is_absent_at_start() {
    let s = EngineSession::new();
    assert_eq!(s.status(), None);
}

#[test]
fn status_reports_loaded_variant() {
    let mut s = EngineSession::new();
    let r = s.load(
        String::from("/m/base.bin"),
        ModelVariant::Base,
        LoadOutcome::EngineReady,
    );
    assert_eq!(r, Ok(()));
    assert_eq!(s.status(), Some(ModelVariant::Base));
}

#[test]
fn load_missing_path_reports_file_not_found_and_keeps_state() {
    let mut s = EngineSession::new();
    let r = s.load(
        String::from("/m/nope.bin"),
        ModelVariant::Tiny,
        LoadOutcome::PathMissing,
    );
    assert_eq!(r, Err(LoadError::FileNotFound));
    assert_eq!(s.status(), None);

    // The same failure leaves an already-loaded engine untouched.
    s.load(
        String::from("/m/small.bin"),
        ModelVariant::Small,
        LoadOutcome::EngineReady,
    )
    .unwrap();
    let r = s.load(
        String::from("/m/nope.bin"),
        ModelVariant::Large,
        LoadOutcome::PathMissing,
    );
    assert_eq!(r, Err(LoadError::FileNotFound));
    assert_eq!(s.status(), Some(ModelVariant::Small));
}

#[test]
fn failed_engine_construction_keeps_previous_instance() {
    let mut s = EngineSession::new();
    s.load(
        String::from("/m/base.bin"),
        ModelVariant::Base,
        LoadOutcome::EngineReady,
    )
    .unwrap();
    let r = s.load(
        String::from("/m/bad.bin"),
        ModelVariant::Medium,
        LoadOutcome::EngineFailed,
    );
    assert_eq!(r, Err(LoadError::EngineInitFailed));
    assert_eq!(s.status(), Some(ModelVariant::Base));
}

#[test]
fn reload_replaces_previous_instance_wholesale() {
    let mut s = EngineSession::new();
    s.load(
        String::from("/m/base.bin"),
        ModelVariant::Base,
        LoadOutcome::EngineReady,
    )
    .unwrap();
    s.load(
        String::from("/m/large.bin"),
        ModelVariant::Large,
        LoadOutcome::EngineReady,
    )
    .unwrap();
    assert_eq!(s.status(), Some(ModelVariant::Large));
}

#[test]
fn unload_is_idempotent() {
    let mut s = EngineSession::new();
    s.load(
        String::from("/m/base.bin"),
        ModelVariant::Base,
        LoadOutcome::EngineReady,
    )
    .unwrap();
    s.unload();
    assert_eq!(s.status(), None);
    s.unload();
    assert_eq!(s.status(), None);
}

#[test]
fn transcribe_without_load_is_rejected_with_no_progress() {
    let s = EngineSession::new();
    match s.begin_transcribe() {
        Err(e) => assert_eq!(e, TranscribeError::NotLoaded),
        Ok(_) => panic!("a run must not open without a loaded engine"),
    }
}

#[test]
fn transcription_stages_are_emitted_in_order() {
    let mut s = EngineSession::new();
    s.load(
        String::from("/m/base.bin"),
        ModelVariant::Small,
        LoadOutcome::EngineReady,
    )
    .unwrap();
    let mut flow = s.begin_transcribe().unwrap();
    let p1 = flow.note_preparing();
    assert_eq!(p1.stage, TranscriptionStage::LoadingModel);
    assert_eq!(p1.percent, 0);
    let p2 = flow.note_processing();
    assert_eq!(p2.stage, TranscriptionStage::ProcessingAudio);
    assert_eq!(p2.percent, 33);
    let p3 = flow.note_finalizing();
    assert_eq!(p3.stage, TranscriptionStage::Finalizing);
    assert_eq!(p3.percent, 66);
    let (text, p4) = flow.finish(&vec![String::from("hello"), String::from("there")]);
    assert_eq!(p4.stage, TranscriptionStage::Complete);
    assert_eq!(p4.percent, 100);
    assert_eq!(text, "hello there");
}

#[test]
fn silence_yields_empty_transcript() {
    // An inference run over silence produces no text segments; the
    // assembled transcript is empty and no error is raised.
    let mut s = EngineSession::new();
    s.load(
        String::from("/m/base.bin"),
        ModelVariant::Small,
        LoadOutcome::EngineReady,
    )
    .unwrap();
    let mut flow = s.begin_transcribe().unwrap();
    flow.note_preparing();
    flow.note_processing();
    flow.note_finalizing();
    let (text, _) = flow.finish(&Vec::new());
    assert_eq!(text, "");
}

#[test]
fn transcript_assembly_joins_and_trims() {
    assert_eq!(assemble_transcript(&Vec::new()), "");
    assert_eq!(assemble_transcript(&vec![String::from("a")]), "a");
    assert_eq!(
        assemble_transcript(&vec![String::from("one"), String::from("two")]),
        "one two"
    );
    assert_eq!(assemble_transcript(&vec![String::from("   ")]), "");
    assert_eq!(
        assemble_transcript(&vec![String::from("\t padded \n")]),
        "padded"
    );
    // Interior spacing of a segment is kept; only the ends are trimmed.
    assert_eq!(
        assemble_transcript(&vec![String::from(" a  b "), String::from("c")]),
        "a  b  c"
    );
}

#[test]
fn variant_filenames_are_canonical() {
    assert_eq!(ModelVariant::Tiny.to_filename(), "ggml-tiny.bin");
    assert_eq!(ModelVariant::Base.to_filename(), "ggml-base.bin");
    assert_eq!(ModelVariant::Small.to_filename(), "ggml-small.bin");
    assert_eq!(ModelVariant::Medium.to_filename(), "ggml-medium.bin");
    assert_eq!(ModelVariant::Large.to_filename(), "ggml-large-v3.bin");
}

#[test]
fn memory_statistics_compute_used_bytes() {
    let m = SystemMemory::from_readings(1000, 400, 300);
    assert_eq!(m.total, 1000);
    assert_eq!(m.available, 400);
    assert_eq!(m.free, 300);
    assert_eq!(m.used, 600);
    // A reading larger than the total cannot drive `used` negative.
    let m = SystemMemory::from_readings(100, 400, 50);
    assert_eq!(m.used, 0);
}
