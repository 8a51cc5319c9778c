//! The pipeline orchestrator, as a stage machine. The caller performs the
//! command of each step and reports its outcome; the machine decides what
//! comes next and which progress event to publish.
use vstd::prelude::*;
use crate::audio::MediaError;
use crate::model::ModelError;
use crate::transcribe::{clamp_percent, engine_percent, TranscriptionError};

verus! {

/// The stages of one run, in the order they are attempted.
#[derive(Clone, Copy, Debug, PartialEq, Eq, Structural)]
pub enum Stage {
    Init,
    ModelCheck,
    AudioExtract,
    Decode,
    Transcribe,
    WriteSubtitle,
    Cleanup,
    Done,
    Failed,
}

/// The position of a stage in a run; a run only moves forward.
pub open spec fn rank(s: Stage) -> int {
    match s {
        Stage::Init => 0,
        Stage::ModelCheck => 1,
        Stage::AudioExtract => 2,
        Stage::Decode => 3,
        Stage::Transcribe => 4,
        Stage::WriteSubtitle => 5,
        Stage::Cleanup => 6,
        Stage::Done => 7,
        Stage::Failed => 7,
    }
}

/// Whether a run has ended.
pub open spec fn is_terminal(s: Stage) -> bool {
    s == Stage::Done || s == Stage::Failed
}

/// Whether the temporary audio file may exist once `s` has been attempted,
/// so that a failure there must still go through `Cleanup`.
pub open spec fn holds_temp_audio(s: Stage) -> bool {
    s == Stage::AudioExtract || s == Stage::Decode || s == Stage::Transcribe || s
        == Stage::WriteSubtitle
}

/// The stage that follows `s` when `s` succeeds.
pub open spec fn next_stage(s: Stage) -> Stage {
    match s {
        Stage::Init => Stage::ModelCheck,
        Stage::ModelCheck => Stage::AudioExtract,
        Stage::AudioExtract => Stage::Decode,
        Stage::Decode => Stage::Transcribe,
        Stage::Transcribe => Stage::WriteSubtitle,
        Stage::WriteSubtitle => Stage::Cleanup,
        _ => Stage::Done,
    }
}

/// A failure of one stage of a run.
#[derive(Clone, Debug, PartialEq, Eq)]
pub enum PipelineError {
    /// The input video does not exist; holds its path.
    InputNotFound(String),
    Model(ModelError),
    Media(MediaError),
    Transcription(TranscriptionError),
    /// The subtitle file could not be written.
    SubtitleWrite(String),
    /// The temporary audio file could not be removed; only ever a warning.
    Cleanup(String),
}

/// The first failure of a run, with the stage where it happened.
#[derive(Clone, Debug, PartialEq, Eq)]
pub struct StageFailure {
    pub stage: Stage,
    pub error: PipelineError,
}

/// What a run publishes to its observer, in order.
#[derive(Clone, Debug, PartialEq, Eq)]
pub enum ProgressEvent {
    Started,
    /// A stage is under way, with the percentage of it that is done.
    Stage(Stage, u32),
    /// The run succeeded; holds the path of the subtitle file.
    Completed(String),
    Failed(StageFailure),
}

/// The work the caller performs for a step.
#[derive(Clone, Copy, Debug, PartialEq, Eq, Structural)]
pub enum Command {
    CheckInput,
    EnsureModel,
    ExtractAudio,
    DecodeAudio,
    Transcribe,
    WriteSubtitle,
    RemoveTempAudio,
    Stop,
}

/// The command that performs stage `s`.
pub open spec fn command_for(s: Stage) -> Command {
    match s {
        Stage::Init => Command::CheckInput,
        Stage::ModelCheck => Command::EnsureModel,
        Stage::AudioExtract => Command::ExtractAudio,
        Stage::Decode => Command::DecodeAudio,
        Stage::Transcribe => Command::Transcribe,
        Stage::WriteSubtitle => Command::WriteSubtitle,
        Stage::Cleanup => Command::RemoveTempAudio,
        _ => Command::Stop,
    }
}

/// How the command of the current stage went.
#[derive(Clone, Debug, PartialEq, Eq)]
pub enum Outcome {
    Succeeded,
    Failed(PipelineError),
}

/// What the caller is to do next, and the event to publish.
pub struct Step {
    pub command: Command,
    pub event: ProgressEvent,
}

/// One run of the pipeline.
pub struct PipelineRun {
    pub stage: Stage,
    /// Where the subtitle file is written.
    pub output_path: String,
    /// The first failure, held while the temporary audio file is removed.
    pub failure: Option<StageFailure>,
    /// Why removing the temporary audio file failed, if it did.
    pub cleanup_warning: Option<PipelineError>,
}

fn command_of(s: Stage) -> (r: Command)
    ensures
        r == command_for(s),
{
    match s {
        Stage::Init => Command::CheckInput,
        Stage::ModelCheck => Command::EnsureModel,
        Stage::AudioExtract => Command::ExtractAudio,
        Stage::Decode => Command::DecodeAudio,
        Stage::Transcribe => Command::Transcribe,
        Stage::WriteSubtitle => Command::WriteSubtitle,
        Stage::Cleanup => Command::RemoveTempAudio,
        _ => Command::Stop,
    }
}

fn stage_after(s: Stage) -> (r: Stage)
    ensures
        r == next_stage(s),
{
    match s {
        Stage::Init => Stage::ModelCheck,
        Stage::ModelCheck => Stage::AudioExtract,
        Stage::AudioExtract => Stage::Decode,
        Stage::Decode => Stage::Transcribe,
        Stage::Transcribe => Stage::WriteSubtitle,
        Stage::WriteSubtitle => Stage::Cleanup,
        _ => Stage::Done,
    }
}

impl PipelineRun {
    /// A failure is held only while cleaning up.
    pub open spec fn wf(&self) -> bool {
        self.failure is Some ==> self.stage == Stage::Cleanup
    }

    /// Starts a run that writes its subtitles to `output_path`. The first
    /// command checks that the input video exists, before any other work.
    pub fn new(output_path: String) -> (r: (PipelineRun, Step))
        ensures
            r.0.wf(),
            r.0.stage == Stage::Init,
            r.0.output_path == output_path,
            r.0.failure is None,
            r.0.cleanup_warning is None,
            r.1.command == Command::CheckInput,
            r.1.event == ProgressEvent::Started,
    {
        (
            PipelineRun { stage: Stage::Init, output_path, failure: None, cleanup_warning: None },
            Step { command: Command::CheckInput, event: ProgressEvent::Started },
        )
    }

    /// Takes the outcome of the current stage's command and moves the run on.
    /// A success leads to the next stage. A failure ends the run, through
    /// `Cleanup` where the temporary audio file may exist; the run then ends
    /// failed with that first failure, whatever the cleanup did. A failed
    /// cleanup is kept as a warning only.
    pub fn advance(&mut self, outcome: Outcome) -> (r: Step)
        requires
            old(self).wf(),
            !is_terminal(old(self).stage),
        ensures
            final(self).wf(),
            rank(final(self).stage) > rank(old(self).stage),
            final(self).output_path == old(self).output_path,
            r.command == command_for(final(self).stage),
            old(self).stage != Stage::Cleanup ==> final(self).cleanup_warning
                == old(self).cleanup_warning,
            old(self).stage != Stage::Cleanup && outcome is Succeeded ==> {
                &&& final(self).stage == next_stage(old(self).stage)
                &&& final(self).failure is None
                &&& r.event == ProgressEvent::Stage(final(self).stage, 0)
            },
            old(self).stage != Stage::Cleanup && holds_temp_audio(old(self).stage) ==> (
            outcome matches Outcome::Failed(e) ==> {
                &&& final(self).stage == Stage::Cleanup
                &&& final(self).failure == Some(StageFailure { stage: old(self).stage, error: e })
                &&& r.event == ProgressEvent::Stage(Stage::Cleanup, 0)
            }),
            old(self).stage != Stage::Cleanup && !holds_temp_audio(old(self).stage) ==> (
            outcome matches Outcome::Failed(e) ==> {
                &&& final(self).stage == Stage::Failed
                &&& r.event == ProgressEvent::Failed(
                    StageFailure { stage: old(self).stage, error: e },
                )
            }),
            old(self).stage == Stage::Cleanup ==> {
                &&& final(self).cleanup_warning == match outcome {
                    Outcome::Failed(e) => Some(e),
                    Outcome::Succeeded => None,
                }
                &&& old(self).failure is None ==> final(self).stage == Stage::Done && r.event
                    == ProgressEvent::Completed(old(self).output_path)
                &&& old(self).failure matches Some(f) ==> final(self).stage == Stage::Failed
                    && r.event == ProgressEvent::Failed(f)
            },
            is_terminal(final(self).stage) && rank(old(self).stage) >= rank(Stage::AudioExtract)
                ==> old(self).stage == Stage::Cleanup,
    {
        if self.stage == Stage::Cleanup {
            self.cleanup_warning = match outcome {
                Outcome::Failed(e) => Some(e),
                Outcome::Succeeded => None,
            };
            match self.failure.take() {
                None => {
                    self.stage = Stage::Done;
                    Step {
                        command: Command::Stop,
                        event: ProgressEvent::Completed(self.output_path.clone()),
                    }
                },
                Some(f) => {
                    self.stage = Stage::Failed;
                    Step { command: Command::Stop, event: ProgressEvent::Failed(f) }
                },
            }
        } else {
            let current = self.stage;
            match outcome {
                Outcome::Succeeded => {
                    let next = stage_after(current);
                    self.stage = next;
                    Step { command: command_of(next), event: ProgressEvent::Stage(next, 0) }
                },
                Outcome::Failed(e) => {
                    let temp = match current {
                        Stage::AudioExtract | Stage::Decode | Stage::Transcribe
                        | Stage::WriteSubtitle => true,
                        _ => false,
                    };
                    if temp {
                        self.stage = Stage::Cleanup;
                        self.failure = Some(StageFailure { stage: current, error: e });
                        Step {
                            command: Command::RemoveTempAudio,
                            event: ProgressEvent::Stage(Stage::Cleanup, 0),
                        }
                    } else {
                        self.stage = Stage::Failed;
                        Step {
                            command: Command::Stop,
                            event: ProgressEvent::Failed(StageFailure { stage: current, error: e }),
                        }
                    }
                },
            }
        }
    }
}

/// The event that forwards the recogniser's progress while transcribing.
pub fn transcribe_progress(percent: i32) -> (r: ProgressEvent)
    ensures
        r == ProgressEvent::Stage(Stage::Transcribe, clamp_percent(percent as int) as u32),
{
    ProgressEvent::Stage(Stage::Transcribe, engine_percent(percent))
}

} // verus!
