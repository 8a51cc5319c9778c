//! The state machine behind the desktop front end. The front end renders the
//! state and reports what the user did and what the background run produced;
//! every change of state goes through the methods here.
use vstd::prelude::*;
use vstd::string::StringExecFns;
use crate::config::{AppConfig, Config};

verus! {

/// Where the front end stands.
#[derive(Clone, Debug, PartialEq, Eq)]
pub enum AppStatus {
    /// Waiting for a video to be chosen.
    Initial,
    /// A video is chosen; subtitles can be generated.
    FileSelected,
    /// A run is in flight.
    Processing,
    /// Subtitles are ready to be saved.
    Completed,
    /// The subtitles were saved.
    SaveSuccess,
    /// Something failed; only a restart is offered.
    Error(String),
}

pub ghost enum StatusView {
    Initial,
    FileSelected,
    Processing,
    Completed,
    SaveSuccess,
    Error(Seq<char>),
}

impl View for AppStatus {
    type V = StatusView;

    open spec fn view(&self) -> StatusView {
        match self {
            AppStatus::Initial => StatusView::Initial,
            AppStatus::FileSelected => StatusView::FileSelected,
            AppStatus::Processing => StatusView::Processing,
            AppStatus::Completed => StatusView::Completed,
            AppStatus::SaveSuccess => StatusView::SaveSuccess,
            AppStatus::Error(m) => StatusView::Error(m@),
        }
    }
}

/// How saving the subtitles went.
#[derive(Clone, Debug, PartialEq, Eq)]
pub enum SaveOutcome {
    /// Written to the path held.
    Saved(String),
    /// Writing failed, for the reason held.
    Failed(String),
    /// The user chose no destination.
    Cancelled,
}

pub ghost enum SaveOutcomeView {
    Saved(Seq<char>),
    Failed(Seq<char>),
    Cancelled,
}

impl View for SaveOutcome {
    type V = SaveOutcomeView;

    open spec fn view(&self) -> SaveOutcomeView {
        match self {
            SaveOutcome::Saved(p) => SaveOutcomeView::Saved(p@),
            SaveOutcome::Failed(m) => SaveOutcomeView::Failed(m@),
            SaveOutcome::Cancelled => SaveOutcomeView::Cancelled,
        }
    }
}

pub ghost struct SessionView {
    pub status: StatusView,
    pub input: Option<Seq<char>>,
    pub output: Option<Seq<char>>,
    pub model: Seq<char>,
    pub language: Seq<char>,
    pub progress: nat,
    pub content: Option<Seq<char>>,
}

/// The state of the front end: the chosen video and subtitle file, the
/// settings a run uses, and what the run in flight last reported.
pub struct SubtitleSession {
    input_path: Option<String>,
    output_path: Option<String>,
    language: String,
    model: String,
    status: AppStatus,
    progress: u32,
    subtitle_content: Option<String>,
}

impl View for SubtitleSession {
    type V = SessionView;

    closed spec fn view(&self) -> SessionView {
        SessionView {
            status: self.status@,
            input: self.input_path.deep_view(),
            output: self.output_path.deep_view(),
            model: self.model@,
            language: self.language@,
            progress: self.progress as nat,
            content: self.subtitle_content.deep_view(),
        }
    }
}

/// A chosen video is held whenever one is shown as chosen or being
/// processed, and subtitles are held whenever they are offered for saving.
pub open spec fn session_wf(v: SessionView) -> bool {
    &&& (v.status == StatusView::FileSelected || v.status == StatusView::Processing) ==> v.input is Some
    &&& v.status == StatusView::Completed ==> v.content is Some
    &&& v.progress <= 100
}

/// Back to the start: no video, no subtitle file, no result.
pub open spec fn reset_spec(v: SessionView) -> SessionView {
    SessionView {
        status: StatusView::Initial,
        input: None,
        output: None,
        progress: 0,
        content: None,
        ..v
    }
}

/// The user picked a video (`Some`) or closed the dialog (`None`).
pub open spec fn select_spec(v: SessionView, picked: Option<Seq<char>>) -> SessionView {
    if v.status == StatusView::Initial || v.status == StatusView::FileSelected {
        match picked {
            Some(p) => SessionView { status: StatusView::FileSelected, input: Some(p), ..v },
            None => if v.status == StatusView::FileSelected {
                reset_spec(v)
            } else {
                v
            },
        }
    } else {
        v
    }
}

/// The user asked for subtitles: only a chosen video starts a run.
pub open spec fn start_spec(v: SessionView) -> SessionView {
    if v.status == StatusView::FileSelected {
        SessionView { status: StatusView::Processing, progress: 0, ..v }
    } else {
        v
    }
}

/// The run in flight reported `percent` done.
pub open spec fn progress_spec(v: SessionView, percent: nat) -> SessionView {
    if v.status == StatusView::Processing {
        SessionView {
            progress: if percent > 100 {
                100
            } else {
                percent
            },
            ..v
        }
    } else {
        v
    }
}

/// The run in flight produced the subtitles `content`.
pub open spec fn complete_spec(v: SessionView, content: Seq<char>) -> SessionView {
    if v.status == StatusView::Processing {
        SessionView { status: StatusView::Completed, progress: 100, content: Some(content), ..v }
    } else {
        v
    }
}

/// The run in flight failed with `message`.
pub open spec fn fail_spec(v: SessionView, message: Seq<char>) -> SessionView {
    if v.status == StatusView::Processing {
        SessionView { status: StatusView::Error(message), progress: 0, ..v }
    } else {
        v
    }
}

/// Saving the subtitles ended with `outcome`.
pub open spec fn save_spec(v: SessionView, outcome: SaveOutcomeView) -> SessionView {
    if v.status == StatusView::Completed {
        match outcome {
            SaveOutcomeView::Saved(p) => SessionView {
                status: StatusView::SaveSuccess,
                output: Some(p),
                ..v
            },
            SaveOutcomeView::Failed(m) => SessionView { status: StatusView::Error(m), ..v },
            SaveOutcomeView::Cancelled => reset_spec(v),
        }
    } else {
        v
    }
}

/// The user moved on after a successful save.
pub open spec fn next_spec(v: SessionView) -> SessionView {
    if v.status == StatusView::SaveSuccess {
        reset_spec(v)
    } else {
        v
    }
}

/// The user restarted after a failure.
pub open spec fn restart_spec(v: SessionView) -> SessionView {
    if v.status is Error {
        reset_spec(v)
    } else {
        v
    }
}

/// Where a run started from `input` writes its subtitles before they are saved.
pub fn temp_subtitle_path(input: &str) -> (r: String)
    ensures
        r@ == input@ + ".temp.srt"@,
{
    let mut s = String::from_str(input);
    s.append(".temp.srt");
    s
}

/// The file name offered when saving the subtitles of a video whose file
/// stem is `stem`.
pub fn default_subtitle_name(stem: Option<&str>) -> (r: String)
    ensures
        stem matches Some(s) ==> r@ == s@ + ".srt"@,
        stem is None ==> r@ == "output.srt"@,
{
    match stem {
        Some(s) => {
            let mut name = String::from_str(s);
            name.append(".srt");
            name
        },
        None => String::from_str("output.srt"),
    }
}

impl SubtitleSession {
    pub closed spec fn wf(&self) -> bool {
        session_wf(self@)
    }

    /// A session waiting for a video, with the model and language of `config`.
    pub fn new(config: &Config) -> (r: SubtitleSession)
        ensures
            r.wf(),
            r@.status == StatusView::Initial,
            r@.input is None,
            r@.output is None,
            r@.content is None,
            r@.progress == 0,
            r@.model == config.base.model@,
            r@.language == config.base.language@,
    {
        SubtitleSession {
            input_path: None,
            output_path: None,
            language: String::from_str(config.language()),
            model: String::from_str(config.model()),
            status: AppStatus::Initial,
            progress: 0,
            subtitle_content: None,
        }
    }

    /// Where the front end stands.
    pub fn status(&self) -> (r: &AppStatus)
        ensures
            r@ == self@.status,
    {
        &self.status
    }

    /// The chosen video, if any.
    pub fn input_path(&self) -> (r: &Option<String>)
        ensures
            r.deep_view() == self@.input,
    {
        &self.input_path
    }

    /// Where the subtitles were saved, if they were.
    pub fn output_path(&self) -> (r: &Option<String>)
        ensures
            r.deep_view() == self@.output,
    {
        &self.output_path
    }

    /// The percentage of the run in flight that is done.
    pub fn progress(&self) -> (r: u32)
        ensures
            r == self@.progress,
    {
        self.progress
    }

    /// The subtitles produced by the last run, until they are saved or dropped.
    pub fn subtitle_content(&self) -> (r: &Option<String>)
        ensures
            r.deep_view() == self@.content,
    {
        &self.subtitle_content
    }

    /// Back to the start: no video, no subtitle file, no result.
    pub fn reset_to_initial(&mut self)
        requires
            old(self).wf(),
        ensures
            final(self).wf(),
            final(self)@ == reset_spec(old(self)@),
    {
        self.input_path = None;
        self.output_path = None;
        self.status = AppStatus::Initial;
        self.progress = 0;
        self.subtitle_content = None;
    }

    /// The user picked the video `picked`, or closed the dialog (`None`).
    pub fn select_input_file(&mut self, picked: Option<String>)
        requires
            old(self).wf(),
        ensures
            final(self).wf(),
            final(self)@ == select_spec(old(self)@, picked.deep_view()),
    {
        match self.status {
            AppStatus::Initial | AppStatus::FileSelected => {
                match picked {
                    Some(p) => {
                        self.input_path = Some(p);
                        self.status = AppStatus::FileSelected;
                    },
                    None => {
                        if let AppStatus::FileSelected = self.status {
                            self.reset_to_initial();
                        }
                    },
                }
            },
            _ => {},
        }
    }

    /// The user asked for subtitles. From a chosen video this starts a run
    /// and returns its settings; the run writes to a temporary file beside
    /// the video. In any other state, and above all while a run is in flight,
    /// nothing happens and `None` is returned.
    pub fn start_processing(&mut self) -> (r: Option<AppConfig>)
        requires
            old(self).wf(),
        ensures
            final(self).wf(),
            final(self)@ == start_spec(old(self)@),
            r is Some <==> old(self)@.status == StatusView::FileSelected,
            r matches Some(c) ==> {
                &&& old(self)@.input == Some(c.input@)
                &&& c.output@ == c.input@ + ".temp.srt"@
                &&& c.model@ == old(self)@.model
                &&& c.language@ == old(self)@.language
            },
    {
        if let AppStatus::FileSelected = self.status {
            match &self.input_path {
                Some(input) => {
                    let config = AppConfig {
                        input: input.clone(),
                        output: temp_subtitle_path(input.as_str()),
                        model: self.model.clone(),
                        language: self.language.clone(),
                    };
                    self.status = AppStatus::Processing;
                    self.progress = 0;
                    Some(config)
                },
                None => None,
            }
        } else {
            None
        }
    }

    /// The run in flight reported `percent` done (held at 100 at most).
    pub fn record_progress(&mut self, percent: u32)
        requires
            old(self).wf(),
        ensures
            final(self).wf(),
            final(self)@ == progress_spec(old(self)@, percent as nat),
    {
        if let AppStatus::Processing = self.status {
            self.progress = if percent > 100 {
                100
            } else {
                percent
            };
        }
    }

    /// The run in flight produced the subtitles `content`.
    pub fn complete(&mut self, content: String)
        requires
            old(self).wf(),
        ensures
            final(self).wf(),
            final(self)@ == complete_spec(old(self)@, content@),
    {
        if let AppStatus::Processing = self.status {
            self.status = AppStatus::Completed;
            self.progress = 100;
            self.subtitle_content = Some(content);
        }
    }

    /// The run in flight failed with `message`.
    pub fn fail(&mut self, message: String)
        requires
            old(self).wf(),
        ensures
            final(self).wf(),
            final(self)@ == fail_spec(old(self)@, message@),
    {
        if let AppStatus::Processing = self.status {
            self.status = AppStatus::Error(message);
            self.progress = 0;
        }
    }

    /// Saving the subtitles ended with `outcome`.
    pub fn save_subtitle_file(&mut self, outcome: SaveOutcome)
        requires
            old(self).wf(),
        ensures
            final(self).wf(),
            final(self)@ == save_spec(old(self)@, outcome@),
    {
        if let AppStatus::Completed = self.status {
            match outcome {
                SaveOutcome::Saved(p) => {
                    self.output_path = Some(p);
                    self.status = AppStatus::SaveSuccess;
                },
                SaveOutcome::Failed(m) => {
                    self.status = AppStatus::Error(m);
                },
                SaveOutcome::Cancelled => {
                    self.reset_to_initial();
                },
            }
        }
    }

    /// The user moved on after a successful save.
    pub fn next(&mut self)
        requires
            old(self).wf(),
        ensures
            final(self).wf(),
            final(self)@ == next_spec(old(self)@),
    {
        if let AppStatus::SaveSuccess = self.status {
            self.reset_to_initial();
        }
    }

    /// The user restarted after a failure.
    pub fn restart(&mut self)
        requires
            old(self).wf(),
        ensures
            final(self).wf(),
            final(self)@ == restart_spec(old(self)@),
    {
        if let AppStatus::Error(_) = self.status {
            self.reset_to_initial();
        }
    }
}

/// From the start, choosing a video, starting, receiving the subtitles,
/// saving them and moving on passes through `FileSelected`, `Processing`,
/// `Completed` and `SaveSuccess`, and comes back to `Initial` with no video
/// and no subtitle file chosen.
pub proof fn lemma_save_round(
    v: SessionView,
    video: Seq<char>,
    content: Seq<char>,
    saved_to: Seq<char>,
)
    requires
        session_wf(v),
        v.status == StatusView::Initial,
    ensures
        ({
            let a = select_spec(v, Some(video));
            let b = start_spec(a);
            let c = complete_spec(b, content);
            let d = save_spec(c, SaveOutcomeView::Saved(saved_to));
            let e = next_spec(d);
            &&& a.status == StatusView::FileSelected
            &&& b.status == StatusView::Processing
            &&& c.status == StatusView::Completed
            &&& d.status == StatusView::SaveSuccess
            &&& e.status == StatusView::Initial
            &&& e.input is None
            &&& e.output is None
        }),
{
}

/// A failure reported while a run is in flight shows as `Error` with its
/// message, and a restart then comes back to `Initial` with no video and no
/// subtitle file chosen.
pub proof fn lemma_failure_restart(v: SessionView, message: Seq<char>)
    requires
        session_wf(v),
        v.status == StatusView::Processing,
    ensures
        fail_spec(v, message).status == StatusView::Error(message),
        restart_spec(fail_spec(v, message)).status == StatusView::Initial,
        restart_spec(fail_spec(v, message)).input is None,
        restart_spec(fail_spec(v, message)).output is None,
{
}

} // verus!
