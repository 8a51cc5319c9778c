use std::io::Cursor;

use subtitle_generator::audio::{parse_wav_file, MediaError};
use subtitle_generator::model::ModelError;
use subtitle_generator::pipeline::{
    transcribe_progress, Command, Outcome, PipelineError, PipelineRun, ProgressEvent, Stage,
    StageFailure,
};
use subtitle_generator::subtitle::{format_srt, TranscriptSegment};
use subtitle_generator::transcribe::segment_from_engine;

fn silent_wav(seconds: u32) -> Vec<u8> {
    let spec = hound::WavSpec {
        channels: 1,
        sample_rate: 16000,
        bits_per_sample: 16,
        sample_format: hound::SampleFormat::Int,
    };
    let mut cursor = Cursor::new(Vec::new());
    {
        let mut writer = hound::WavWriter::new(&mut cursor, spec).unwrap();
        for _ in 0..(16000 * seconds) {
            writer.write_sample(0i16).unwrap();
        }
        writer.finalize().unwrap();
    }
    cursor.into_inner()
}

#[test]
fn successful_run_visits_every_stage_once() {
    let (mut run, step) = PipelineRun::new("out.srt".to_string());
    assert_eq!(step.command, Command::CheckInput);
    assert_eq!(step.event, ProgressEvent::Started);
    let expected = [
        (Stage::ModelCheck, Command::EnsureModel),
        (Stage::AudioExtract, Command::ExtractAudio),
        (Stage::Decode, Command::DecodeAudio),
        (Stage::Transcribe, Command::Transcribe),
        (Stage::WriteSubtitle, Command::WriteSubtitle),
        (Stage::Cleanup, Command::RemoveTempAudio),
    ];
    for (stage, command) in expected {
        let step = run.advance(Outcome::Succeeded);
        assert_eq!(run.stage, stage);
        assert_eq!(step.command, command);
        assert_eq!(step.event, ProgressEvent::Stage(stage, 0));
    }
    let last = run.advance(Outcome::Succeeded);
    assert_eq!(run.stage, Stage::Done);
    assert_eq!(last.command, Command::Stop);
    assert_eq!(last.event, ProgressEvent::Completed("out.srt".to_string()));
    assert_eq!(run.cleanup_warning, None);
}

#[test]
fn missing_input_fails_at_once() {
    let (mut run, _) = PipelineRun::new("out.srt".to_string());
    let err = PipelineError::InputNotFound("video.mp4".to_string());
    let step = run.advance(Outcome::Failed(err.clone()));
    assert_eq!(run.stage, Stage::Failed);
    assert_eq!(step.command, Command::Stop);
    assert_eq!(step.event, ProgressEvent::Failed(StageFailure { stage: Stage::Init, error: err }));
}

#[test]
fn model_failure_ends_without_cleanup() {
    let (mut run, _) = PipelineRun::new("out.srt".to_string());
    run.advance(Outcome::Succeeded);
    let err = PipelineError::Model(ModelError::SizeUnknown);
    let step = run.advance(Outcome::Failed(err.clone()));
    assert_eq!(run.stage, Stage::Failed);
    assert_eq!(step.event, ProgressEvent::Failed(StageFailure { stage: Stage::ModelCheck, error: err }));
}

#[test]
fn extraction_failure_still_cleans_up() {
    let (mut run, _) = PipelineRun::new("out.srt".to_string());
    run.advance(Outcome::Succeeded);
    run.advance(Outcome::Succeeded);
    assert_eq!(run.stage, Stage::AudioExtract);
    let err = PipelineError::Media(MediaError::ToolFailed("boom".to_string()));
    let step = run.advance(Outcome::Failed(err.clone()));
    assert_eq!(run.stage, Stage::Cleanup);
    assert_eq!(step.command, Command::RemoveTempAudio);
    assert_eq!(step.event, ProgressEvent::Stage(Stage::Cleanup, 0));
    let step = run.advance(Outcome::Succeeded);
    assert_eq!(run.stage, Stage::Failed);
    assert_eq!(step.command, Command::Stop);
    assert_eq!(step.event, ProgressEvent::Failed(StageFailure { stage: Stage::AudioExtract, error: err }));
}

#[test]
fn cleanup_failure_is_only_a_warning() {
    let (mut run, _) = PipelineRun::new("subs.srt".to_string());
    for _ in 0..6 {
        run.advance(Outcome::Succeeded);
    }
    assert_eq!(run.stage, Stage::Cleanup);
    let warn = PipelineError::Cleanup("busy".to_string());
    let step = run.advance(Outcome::Failed(warn.clone()));
    assert_eq!(run.stage, Stage::Done);
    assert_eq!(step.event, ProgressEvent::Completed("subs.srt".to_string()));
    assert_eq!(run.cleanup_warning, Some(warn));
}

#[test]
fn write_failure_is_reported_after_cleanup_failure() {
    let (mut run, _) = PipelineRun::new("subs.srt".to_string());
    for _ in 0..5 {
        run.advance(Outcome::Succeeded);
    }
    assert_eq!(run.stage, Stage::WriteSubtitle);
    let err = PipelineError::SubtitleWrite("read-only".to_string());
    run.advance(Outcome::Failed(err.clone()));
    let step = run.advance(Outcome::Failed(PipelineError::Cleanup("gone".to_string())));
    assert_eq!(run.stage, Stage::Failed);
    assert_eq!(step.event, ProgressEvent::Failed(StageFailure { stage: Stage::WriteSubtitle, error: err }));
}

#[test]
fn engine_progress_is_forwarded() {
    assert_eq!(transcribe_progress(42), ProgressEvent::Stage(Stage::Transcribe, 42));
    assert_eq!(transcribe_progress(-3), ProgressEvent::Stage(Stage::Transcribe, 0));
    assert_eq!(transcribe_progress(250), ProgressEvent::Stage(Stage::Transcribe, 100));
}

#[test]
fn silent_audio_with_stub_recogniser() {
    let bytes = silent_wav(2);
    let (mut run, _) = PipelineRun::new("out.srt".to_string());
    run.advance(Outcome::Succeeded);
    run.advance(Outcome::Succeeded);
    run.advance(Outcome::Succeeded);
    assert_eq!(run.stage, Stage::Decode);
    let samples = parse_wav_file(&bytes).unwrap();
    assert_eq!(samples.len(), 32000);
    assert!(samples.iter().all(|s| *s == 0));
    run.advance(Outcome::Succeeded);
    assert_eq!(run.stage, Stage::Transcribe);
    let segments: Vec<TranscriptSegment> = vec![segment_from_engine(0, 150, "hello".to_string())];
    run.advance(Outcome::Succeeded);
    assert_eq!(run.stage, Stage::WriteSubtitle);
    let doc = format_srt(&segments);
    assert_eq!(doc, "1\n00:00:00,000 --> 00:00:01,500\nhello\n\n");
    run.advance(Outcome::Succeeded);
    let last = run.advance(Outcome::Succeeded);
    assert_eq!(last.event, ProgressEvent::Completed("out.srt".to_string()));
}
