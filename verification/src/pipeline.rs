//! The transcription pipeline as a state machine.
//!
//! A run goes through the stages `Init`, `ResolveSource`, `AcquireMedia`,
//! `ExtractAudio`, `Transcribe` and `Persist` to `Done`. The machine decides;
//! it does nothing outside itself. Each step takes the event that the last
//! action ended in and answers with the next action for the caller to
//! perform. The first failure ends the run with an error that names the
//! stage it happened in.

use vstd::prelude::*;
use crate::commands::{
    download_command, download_command_of, extract_command, extract_command_of, metadata_command,
    metadata_command_of, normalize_command, normalize_command_of, tool_failure_of, tool_result,
    ToolCommand, ToolCommandView, ToolOutput, ToolOutputView,
};
use crate::json::pretty_text;
use crate::output::{
    document_of, file_name, file_name_of, json_content, markdown_of, markdown_report, OutputKind,
};
use crate::source::{
    check_local, classify, fetch_metadata, fetched_of, get_local_metadata, is_remote,
    local_metadata_of, missing_file_message, Fetched, SourceKind,
};
use crate::speech::{
    decoding_plan, forced_language, join_segments, missing_model_message, threads_for,
    transcript_of, DecodingPlan, WhisperTranscriber, GREEDY_BEST_OF,
};
use crate::text::{first_chars, take_chars, texts, word_count, word_total};
use crate::types::{
    text_of, OutputFiles, OutputFilesView, TranscriptionOptions, TranscriptionOptionsView,
    TranscriptionResult, TranscriptionResultView, VideoMetadata, VideoMetadataView,
};

verus! {

/// The most characters of a transcript that its preview shows.
pub const PREVIEW_CHARS: usize = 500;

/// The stages of a run, in their order.
#[derive(Debug, Clone, Copy, PartialEq, Eq, Structural)]
pub enum Stage {
    Init,
    ResolveSource,
    AcquireMedia,
    ExtractAudio,
    Transcribe,
    Persist,
    Done,
}

impl Stage {
    /// The place of the stage in the order of the stages.
    pub open spec fn rank(self) -> nat {
        match self {
            Stage::Init => 0,
            Stage::ResolveSource => 1,
            Stage::AcquireMedia => 2,
            Stage::ExtractAudio => 3,
            Stage::Transcribe => 4,
            Stage::Persist => 5,
            Stage::Done => 6,
        }
    }

    pub open spec fn name(self) -> Seq<char> {
        match self {
            Stage::Init => "Init"@,
            Stage::ResolveSource => "ResolveSource"@,
            Stage::AcquireMedia => "AcquireMedia"@,
            Stage::ExtractAudio => "ExtractAudio"@,
            Stage::Transcribe => "Transcribe"@,
            Stage::Persist => "Persist"@,
            Stage::Done => "Done"@,
        }
    }

    /// The name of the stage.
    pub fn as_str(&self) -> (out: &'static str)
        ensures
            out@ == self.name(),
    {
        match self {
            Stage::Init => "Init",
            Stage::ResolveSource => "ResolveSource",
            Stage::AcquireMedia => "AcquireMedia",
            Stage::ExtractAudio => "ExtractAudio",
            Stage::Transcribe => "Transcribe",
            Stage::Persist => "Persist",
            Stage::Done => "Done",
        }
    }
}

/// Why a run failed: the stage it failed in, and the cause.
#[derive(Debug, Clone, PartialEq, Eq)]
pub struct PipelineError {
    pub stage: Stage,
    pub message: String,
}

pub struct PipelineErrorView {
    pub stage: Stage,
    pub message: Seq<char>,
}

impl View for PipelineError {
    type V = PipelineErrorView;

    open spec fn view(&self) -> PipelineErrorView {
        PipelineErrorView { stage: self.stage, message: self.message@ }
    }
}

impl PipelineErrorView {
    /// The error in words: the stage's name, a colon and the cause.
    pub open spec fn description(self) -> Seq<char> {
        self.stage.name() + ": "@ + self.message
    }
}

impl PipelineError {
    /// The error in words: the stage's name, a colon and the cause.
    pub fn describe(&self) -> (out: String)
        ensures
            out@ == self@.description(),
    {
        let mut out = String::from_str(self.stage.as_str());
        out.append(": ");
        out.append(self.message.as_str());
        out
    }
}

/// The places in the caller's scratch directories that a run works with.
#[derive(Debug, Clone, PartialEq, Eq)]
pub struct Workspace {
    /// The output template that the fetcher downloads to.
    pub download_template: String,
    /// Where the fetcher leaves the downloaded sound.
    pub downloaded_audio: String,
    /// Where the converter leaves the extracted sound.
    pub extracted_audio: String,
}

pub struct WorkspaceView {
    pub download_template: Seq<char>,
    pub downloaded_audio: Seq<char>,
    pub extracted_audio: Seq<char>,
}

impl View for Workspace {
    type V = WorkspaceView;

    open spec fn view(&self) -> WorkspaceView {
        WorkspaceView {
            download_template: self.download_template@,
            downloaded_audio: self.downloaded_audio@,
            extracted_audio: self.extracted_audio@,
        }
    }
}

/// What a run is waiting for. Each stage but the last is made of one or
/// more of these.
#[derive(Debug, Clone, Copy, PartialEq, Eq, Structural)]
pub enum Phase {
    /// Not started.
    Idle,
    /// The output directory is being made.
    CreatingDirectory,
    /// A local path is being looked at.
    CheckingLocal,
    /// The fetcher is asked for the video's description.
    FetchingMetadata,
    /// The fetcher is downloading.
    Downloading,
    /// The download is being looked for.
    CheckingDownload,
    /// The converter is extracting the sound of the download.
    Extracting,
    /// The extracted sound is being looked for.
    CheckingExtracted,
    /// The converter is making normalized samples.
    Normalizing,
    /// The model's weight file is being looked for.
    CheckingModel,
    /// The speech engine is at work.
    Inferring,
    WritingText,
    WritingJson,
    WritingMarkdown,
    /// The run is over, with a result or with an error.
    Finished,
}

impl Phase {
    /// The stage that the phase is part of.
    pub open spec fn stage(self) -> Stage {
        match self {
            Phase::Idle | Phase::CreatingDirectory => Stage::Init,
            Phase::CheckingLocal => Stage::ResolveSource,
            Phase::FetchingMetadata | Phase::Downloading | Phase::CheckingDownload => Stage::AcquireMedia,
            Phase::Extracting | Phase::CheckingExtracted | Phase::Normalizing => Stage::ExtractAudio,
            Phase::CheckingModel | Phase::Inferring => Stage::Transcribe,
            Phase::WritingText | Phase::WritingJson | Phase::WritingMarkdown => Stage::Persist,
            Phase::Finished => Stage::Done,
        }
    }

    /// The place of the phase in the order in which a run goes through them.
    pub open spec fn rank(self) -> nat {
        match self {
            Phase::Idle => 0,
            Phase::CreatingDirectory => 1,
            Phase::CheckingLocal => 2,
            Phase::FetchingMetadata => 3,
            Phase::Downloading => 4,
            Phase::CheckingDownload => 5,
            Phase::Extracting => 6,
            Phase::CheckingExtracted => 7,
            Phase::Normalizing => 8,
            Phase::CheckingModel => 9,
            Phase::Inferring => 10,
            Phase::WritingText => 11,
            Phase::WritingJson => 12,
            Phase::WritingMarkdown => 13,
            Phase::Finished => 14,
        }
    }

    /// What went wrong where the action of the phase could not be carried
    /// out at all; empty where the cause says it all.
    pub open spec fn failure_context(self) -> Seq<char> {
        match self {
            Phase::CreatingDirectory => "Failed to create output directory"@,
            Phase::FetchingMetadata => "Failed to run yt-dlp. Is it installed?"@,
            Phase::Downloading => "Failed to run yt-dlp"@,
            Phase::Extracting => "Failed to run ffmpeg. Is it installed?"@,
            Phase::Normalizing => "Failed to run ffmpeg"@,
            _ => ""@,
        }
    }

    /// The stage that the phase is part of.
    pub fn stage_of(self) -> (out: Stage)
        ensures
            out == self.stage(),
    {
        match self {
            Phase::Idle | Phase::CreatingDirectory => Stage::Init,
            Phase::CheckingLocal => Stage::ResolveSource,
            Phase::FetchingMetadata | Phase::Downloading | Phase::CheckingDownload => Stage::AcquireMedia,
            Phase::Extracting | Phase::CheckingExtracted | Phase::Normalizing => Stage::ExtractAudio,
            Phase::CheckingModel | Phase::Inferring => Stage::Transcribe,
            Phase::WritingText | Phase::WritingJson | Phase::WritingMarkdown => Stage::Persist,
            Phase::Finished => Stage::Done,
        }
    }
}

/// How an action ended.
#[derive(Debug)]
pub enum Event {
    /// The run is to begin.
    Start,
    /// The directory is there.
    DirectoryReady,
    /// A path was looked at: whether something is there, and the stem of
    /// its file name where it has one.
    PathProbed { exists: bool, stem: Option<String> },
    /// A tool ran and ended.
    ToolFinished(ToolOutput),
    /// A weight file was looked for at `path`.
    ModelProbed { path: String, exists: bool },
    /// The speech engine gave its segments.
    Transcribed { segments: Vec<String> },
    /// The file was written, at `path`.
    FileWritten { path: String },
    /// The action could not be carried out.
    Failed { message: String },
}

pub enum EventView {
    Start,
    DirectoryReady,
    PathProbed { exists: bool, stem: Option<Seq<char>> },
    ToolFinished(ToolOutputView),
    ModelProbed { path: Seq<char>, exists: bool },
    Transcribed { segments: Seq<Seq<char>> },
    FileWritten { path: Seq<char> },
    Failed { message: Seq<char> },
}

impl View for Event {
    type V = EventView;

    open spec fn view(&self) -> EventView {
        match *self {
            Event::Start => EventView::Start,
            Event::DirectoryReady => EventView::DirectoryReady,
            Event::PathProbed { exists, stem } => EventView::PathProbed { exists, stem: text_of(stem) },
            Event::ToolFinished(output) => EventView::ToolFinished(output@),
            Event::ModelProbed { path, exists } => EventView::ModelProbed { path: path@, exists },
            Event::Transcribed { segments } => EventView::Transcribed { segments: texts(segments@) },
            Event::FileWritten { path } => EventView::FileWritten { path: path@ },
            Event::Failed { message } => EventView::Failed { message: message@ },
        }
    }
}

pub struct DecodingPlanView {
    pub language: Option<Seq<char>>,
    pub translate: bool,
    pub threads: i32,
    pub best_of: i32,
}

/// The view of a decoding plan.
pub open spec fn plan_view(plan: DecodingPlan) -> DecodingPlanView {
    DecodingPlanView {
        language: text_of(plan.language),
        translate: plan.translate,
        threads: plan.threads,
        best_of: plan.best_of,
    }
}

/// What the caller is to do next.
#[derive(Debug)]
pub enum Action {
    /// Make the directory and those above it, if they are not there.
    CreateDirectory { path: String },
    /// Look whether something is at the path.
    ProbePath { path: String },
    /// Run the tool and wait for its end.
    RunTool(ToolCommand),
    /// Look for the weight file in the model cache.
    ProbeModel { dir: String, file_name: String },
    /// Run the speech engine on the samples, which are 32-bit little-endian
    /// floats, with the model at `model_path`.
    Infer { model_path: String, samples: Vec<u8>, plan: DecodingPlan },
    /// Write the file `name` in `dir`.
    WriteFile { dir: String, name: String, content: String },
    /// The run is over.
    Finish(Result<TranscriptionResult, PipelineError>),
}

pub enum ActionView {
    CreateDirectory { path: Seq<char> },
    ProbePath { path: Seq<char> },
    RunTool(ToolCommandView),
    ProbeModel { dir: Seq<char>, file_name: Seq<char> },
    Infer { model_path: Seq<char>, samples: Seq<u8>, plan: DecodingPlanView },
    WriteFile { dir: Seq<char>, name: Seq<char>, content: Seq<char> },
    Finish(Result<TranscriptionResultView, PipelineErrorView>),
}

impl View for Action {
    type V = ActionView;

    open spec fn view(&self) -> ActionView {
        match *self {
            Action::CreateDirectory { path } => ActionView::CreateDirectory { path: path@ },
            Action::ProbePath { path } => ActionView::ProbePath { path: path@ },
            Action::RunTool(command) => ActionView::RunTool(command@),
            Action::ProbeModel { dir, file_name } => ActionView::ProbeModel {
                dir: dir@,
                file_name: file_name@,
            },
            Action::Infer { model_path, samples, plan } => ActionView::Infer {
                model_path: model_path@,
                samples: samples@,
                plan: plan_view(plan),
            },
            Action::WriteFile { dir, name, content } => ActionView::WriteFile {
                dir: dir@,
                name: name@,
                content: content@,
            },
            Action::Finish(Ok(result)) => ActionView::Finish(Ok(result@)),
            Action::Finish(Err(error)) => ActionView::Finish(Err(error@)),
        }
    }
}

/// One run of the pipeline.
#[derive(Debug)]
pub struct Pipeline {
    options: TranscriptionOptions,
    workspace: Workspace,
    whisper: WhisperTranscriber,
    available_threads: Option<usize>,
    phase: Phase,
    metadata: VideoMetadata,
    samples: Vec<u8>,
    transcript: String,
    txt: String,
    json: String,
}

/// What a run holds: what it was started with, what it waits for, and what
/// it has gathered. What has not been gathered yet is empty.
pub struct PipelineView {
    pub options: TranscriptionOptionsView,
    pub workspace: WorkspaceView,
    pub models_dir: Seq<char>,
    pub available_threads: Option<usize>,
    pub phase: Phase,
    pub metadata: VideoMetadataView,
    pub samples: Seq<u8>,
    pub transcript: Seq<char>,
    pub txt: Seq<char>,
    pub json: Seq<char>,
}

impl View for Pipeline {
    type V = PipelineView;

    closed spec fn view(&self) -> PipelineView {
        PipelineView {
            options: self.options@,
            workspace: self.workspace@,
            models_dir: self.whisper.models_dir@,
            available_threads: self.available_threads,
            phase: self.phase,
            metadata: self.metadata@,
            samples: self.samples@,
            transcript: self.transcript@,
            txt: self.txt@,
            json: self.json@,
        }
    }
}

/// The description of a video of which nothing is known yet.
pub open spec fn no_metadata() -> VideoMetadataView {
    VideoMetadataView {
        video_id: Seq::<char>::empty(),
        title: Seq::<char>::empty(),
        channel: Seq::<char>::empty(),
        duration: 0,
        upload_date: Seq::<char>::empty(),
        platform: Seq::<char>::empty(),
        url: Seq::<char>::empty(),
    }
}

/// A run that has not started.
pub open spec fn fresh(
    options: TranscriptionOptionsView,
    workspace: WorkspaceView,
    models_dir: Seq<char>,
    available_threads: Option<usize>,
) -> PipelineView {
    PipelineView {
        options,
        workspace,
        models_dir,
        available_threads,
        phase: Phase::Idle,
        metadata: no_metadata(),
        samples: Seq::<u8>::empty(),
        transcript: Seq::<char>::empty(),
        txt: Seq::<char>::empty(),
        json: Seq::<char>::empty(),
    }
}

/// The preview of a transcript: all of it where it has at most 500
/// characters, else its first 500 and three dots.
pub open spec fn preview_of(transcript: Seq<char>) -> Seq<char> {
    if transcript.len() > PREVIEW_CHARS {
        first_chars(transcript, PREVIEW_CHARS as nat) + "..."@
    } else {
        transcript
    }
}

/// What a run that has written its three files reports.
pub open spec fn result_of(s: PipelineView, md: Seq<char>) -> TranscriptionResultView {
    TranscriptionResultView {
        success: true,
        files: OutputFilesView { txt: s.txt, json: s.json, md },
        metadata: s.metadata,
        transcript: s.transcript,
        transcript_preview: preview_of(s.transcript),
        word_count: word_total(s.transcript) as usize,
        model_used: s.options.model,
    }
}

/// What one step leads to.
pub enum Verdict {
    /// The run goes on in the given state with the given action.
    Goes(PipelineView, ActionView),
    /// The run fails in the given stage with the given message.
    Fails(Stage, Seq<char>),
    /// The run fails in the given stage; the message is that of the decoder
    /// that turned the tool's output down.
    FailsOnOutput(Stage),
}

/// The cause of a failure to carry out the action of `phase`.
pub open spec fn start_failure_of(phase: Phase, cause: Seq<char>) -> Seq<char> {
    if phase.failure_context().len() == 0 {
        cause
    } else {
        phase.failure_context() + ": "@ + cause
    }
}

/// The message for an event that the phase does not wait for.
pub open spec fn unexpected_event() -> Seq<char> {
    "Unexpected event"@
}

/// The state `s` in another phase.
pub open spec fn in_phase(s: PipelineView, phase: Phase) -> PipelineView {
    PipelineView { phase, ..s }
}

/// The action that writes one of the three files of the run.
pub open spec fn write_of(s: PipelineView, kind: OutputKind, content: Seq<char>) -> ActionView {
    ActionView::WriteFile {
        dir: s.options.output_dir,
        name: file_name_of(s.metadata, kind),
        content,
    }
}

/// The action that has the converter normalize `input`.
pub open spec fn normalize_of(input: Seq<char>) -> ActionView {
    ActionView::RunTool(normalize_command_of(input))
}

/// What the step from state `s` on event `e` leads to.
pub open spec fn verdict(s: PipelineView, e: EventView) -> Verdict {
    let url = s.options.url;
    match (s.phase, e) {
        (Phase::Finished, _) => Verdict::Fails(Stage::Done, unexpected_event()),
        (Phase::Idle, EventView::Start) => Verdict::Goes(
            in_phase(s, Phase::CreatingDirectory),
            ActionView::CreateDirectory { path: s.options.output_dir },
        ),
        (Phase::CreatingDirectory, EventView::DirectoryReady) => if is_remote(url) {
            Verdict::Goes(
                in_phase(s, Phase::FetchingMetadata),
                ActionView::RunTool(metadata_command_of(url)),
            )
        } else {
            Verdict::Goes(in_phase(s, Phase::CheckingLocal), ActionView::ProbePath { path: url })
        },
        (Phase::CheckingLocal, EventView::PathProbed { exists, stem }) => if exists {
            Verdict::Goes(
                PipelineView {
                    phase: Phase::Normalizing,
                    metadata: local_metadata_of(url, stem),
                    ..s
                },
                normalize_of(url),
            )
        } else {
            Verdict::Fails(Stage::ResolveSource, missing_file_message(url))
        },
        (Phase::FetchingMetadata, EventView::ToolFinished(output)) => match fetched_of(
            url,
            output,
        ) {
            Fetched::Described(metadata) => Verdict::Goes(
                PipelineView { phase: Phase::Downloading, metadata, ..s },
                ActionView::RunTool(download_command_of(url, s.workspace.download_template)),
            ),
            Fetched::Failed(report) => Verdict::Fails(Stage::AcquireMedia, report),
            Fetched::Undecodable => Verdict::FailsOnOutput(Stage::AcquireMedia),
        },
        (Phase::Downloading, EventView::ToolFinished(output)) => if output.success {
            Verdict::Goes(
                in_phase(s, Phase::CheckingDownload),
                ActionView::ProbePath { path: s.workspace.downloaded_audio },
            )
        } else {
            Verdict::Fails(
                Stage::AcquireMedia,
                tool_failure_of("yt-dlp failed to download video"@, output.stderr),
            )
        },
        (Phase::CheckingDownload, EventView::PathProbed { exists, stem }) => if exists {
            Verdict::Goes(
                in_phase(s, Phase::Extracting),
                ActionView::RunTool(
                    extract_command_of(s.workspace.downloaded_audio, s.workspace.extracted_audio),
                ),
            )
        } else {
            Verdict::Fails(Stage::AcquireMedia, "Downloaded audio file not found"@)
        },
        (Phase::Extracting, EventView::ToolFinished(output)) => if output.success {
            Verdict::Goes(
                in_phase(s, Phase::CheckingExtracted),
                ActionView::ProbePath { path: s.workspace.extracted_audio },
            )
        } else {
            Verdict::Fails(
                Stage::ExtractAudio,
                tool_failure_of("ffmpeg failed to extract audio"@, output.stderr),
            )
        },
        (Phase::CheckingExtracted, EventView::PathProbed { exists, stem }) => if exists {
            Verdict::Goes(in_phase(s, Phase::Normalizing), normalize_of(s.workspace.extracted_audio))
        } else {
            Verdict::Fails(Stage::ExtractAudio, "Extracted audio file not found"@)
        },
        (Phase::Normalizing, EventView::ToolFinished(output)) => if output.success {
            Verdict::Goes(
                PipelineView { phase: Phase::CheckingModel, samples: output.stdout, ..s },
                ActionView::ProbeModel {
                    dir: s.models_dir,
                    file_name: s.options.model.weight_file(),
                },
            )
        } else {
            Verdict::Fails(Stage::ExtractAudio, tool_failure_of("ffmpeg failed"@, output.stderr))
        },
        (Phase::CheckingModel, EventView::ModelProbed { path, exists }) => if exists {
            Verdict::Goes(
                PipelineView { phase: Phase::Inferring, samples: Seq::<u8>::empty(), ..s },
                ActionView::Infer {
                    model_path: path,
                    samples: s.samples,
                    plan: DecodingPlanView {
                        language: forced_language(s.options.language),
                        translate: false,
                        threads: threads_for(s.available_threads),
                        best_of: GREEDY_BEST_OF,
                    },
                },
            )
        } else {
            Verdict::Fails(Stage::Transcribe, missing_model_message(path, s.options.model))
        },
        (Phase::Inferring, EventView::Transcribed { segments }) => {
            let t = PipelineView {
                phase: Phase::WritingText,
                transcript: transcript_of(segments),
                ..s
            };
            Verdict::Goes(t, write_of(t, OutputKind::Text, t.transcript))
        },
        (Phase::WritingText, EventView::FileWritten { path }) => {
            let t = PipelineView { phase: Phase::WritingJson, txt: path, ..s };
            Verdict::Goes(
                t,
                write_of(
                    t,
                    OutputKind::Json,
                    pretty_text(document_of(s.metadata, s.transcript, s.options.model)),
                ),
            )
        },
        (Phase::WritingJson, EventView::FileWritten { path }) => {
            let t = PipelineView { phase: Phase::WritingMarkdown, json: path, ..s };
            Verdict::Goes(
                t,
                write_of(
                    t,
                    OutputKind::Markdown,
                    markdown_of(s.metadata, s.transcript, s.options.model),
                ),
            )
        },
        (Phase::WritingMarkdown, EventView::FileWritten { path }) => Verdict::Goes(
            in_phase(s, Phase::Finished),
            ActionView::Finish(Ok(result_of(s, path))),
        ),
        (Phase::Idle, EventView::Failed { message }) => Verdict::Fails(
            Stage::Init,
            unexpected_event(),
        ),
        (_, EventView::Failed { message }) => Verdict::Fails(
            s.phase.stage(),
            start_failure_of(s.phase, message),
        ),
        _ => Verdict::Fails(s.phase.stage(), unexpected_event()),
    }
}

/// Whether `a` ends the run with an error of the given stage.
pub open spec fn fails_in(a: ActionView, stage: Stage) -> bool {
    match a {
        ActionView::Finish(Err(error)) => error.stage == stage,
        _ => false,
    }
}

/// Whether state `t` and action `a` are what `v` allows after state `s`.
pub open spec fn meets(v: Verdict, s: PipelineView, t: PipelineView, a: ActionView) -> bool {
    match v {
        Verdict::Goes(next, action) => t == next && a == action,
        Verdict::Fails(stage, message) => t == in_phase(s, Phase::Finished) && a
            == ActionView::Finish(Err(PipelineErrorView { stage, message })),
        Verdict::FailsOnOutput(stage) => t == in_phase(s, Phase::Finished) && fails_in(a, stage),
    }
}

fn unexpected_message() -> (out: String)
    ensures
        out@ == unexpected_event(),
{
    String::from_str("Unexpected event")
}

fn start_failure(phase: Phase, cause: String) -> (out: String)
    ensures
        out@ == start_failure_of(phase, cause@),
{
    let context = match phase {
        Phase::CreatingDirectory => "Failed to create output directory",
        Phase::FetchingMetadata => "Failed to run yt-dlp. Is it installed?",
        Phase::Downloading => "Failed to run yt-dlp",
        Phase::Extracting => "Failed to run ffmpeg. Is it installed?",
        Phase::Normalizing => "Failed to run ffmpeg",
        _ => "",
    };
    proof {
        reveal_strlit("Failed to create output directory");
        reveal_strlit("Failed to run yt-dlp. Is it installed?");
        reveal_strlit("Failed to run yt-dlp");
        reveal_strlit("Failed to run ffmpeg. Is it installed?");
        reveal_strlit("Failed to run ffmpeg");
        reveal_strlit("");
    }
    if context.unicode_len() == 0 {
        cause
    } else {
        let mut out = String::from_str(context);
        out.append(": ");
        out.append(cause.as_str());
        out
    }
}

/// The preview of a transcript.
pub fn preview(transcript: &str) -> (out: String)
    ensures
        out@ == preview_of(transcript@),
{
    if transcript.unicode_len() > PREVIEW_CHARS {
        let mut out = take_chars(transcript, PREVIEW_CHARS);
        out.append("...");
        out
    } else {
        String::from_str(transcript)
    }
}

fn empty_metadata() -> (out: VideoMetadata)
    ensures
        out@ == no_metadata(),
{
    VideoMetadata {
        video_id: String::new(),
        title: String::new(),
        channel: String::new(),
        duration: 0,
        upload_date: String::new(),
        platform: String::new(),
        url: String::new(),
    }
}

fn opt_str(s: &Option<String>) -> (out: Option<&str>)
    ensures
        match out {
            Some(r) => text_of(*s) == Some(r@),
            None => text_of(*s) is None,
        },
{
    match s {
        Some(s) => Some(s.as_str()),
        None => None,
    }
}

impl Pipeline {
    /// A run for `options` that has not started. `workspace` names the
    /// caller's scratch places, `models_dir` the model cache, and
    /// `available_threads` the number of execution units where it is known.
    pub fn new(
        options: TranscriptionOptions,
        workspace: Workspace,
        whisper: WhisperTranscriber,
        available_threads: Option<usize>,
    ) -> (out: Pipeline)
        ensures
            out@ == fresh(options@, workspace@, whisper.models_dir@, available_threads),
    {
        Pipeline {
            options,
            workspace,
            whisper,
            available_threads,
            phase: Phase::Idle,
            metadata: empty_metadata(),
            samples: Vec::new(),
            transcript: String::new(),
            txt: String::new(),
            json: String::new(),
        }
    }

    /// What the run is waiting for.
    pub fn phase(&self) -> (out: Phase)
        ensures
            out == self@.phase,
    {
        self.phase
    }

    /// The stage that the run is in.
    pub fn stage(&self) -> (out: Stage)
        ensures
            out == self@.phase.stage(),
    {
        self.phase.stage_of()
    }

    /// Whether the run is over.
    pub fn is_finished(&self) -> (out: bool)
        ensures
            out == (self@.phase == Phase::Finished),
    {
        self.phase == Phase::Finished
    }

    fn fail(self, stage: Stage, message: String) -> (out: (Pipeline, Action))
        ensures
            out.0@ == in_phase(self@, Phase::Finished),
            out.1@ == ActionView::Finish(Err(PipelineErrorView { stage, message: message@ })),
    {
        let mut next = self;
        next.phase = Phase::Finished;
        (next, Action::Finish(Err(PipelineError { stage, message })))
    }

    fn unexpected(self) -> (out: (Pipeline, Action))
        ensures
            out.0@ == in_phase(self@, Phase::Finished),
            out.1@ == ActionView::Finish(
                Err(PipelineErrorView { stage: self@.phase.stage(), message: unexpected_event() }),
            ),
    {
        let stage = self.phase.stage_of();
        self.fail(stage, unexpected_message())
    }

    fn write(&self, kind: OutputKind, content: String) -> (out: Action)
        ensures
            out@ == write_of(self@, kind, content@),
    {
        Action::WriteFile {
            dir: self.options.output_dir.clone(),
            name: file_name(&self.metadata, kind),
            content,
        }
    }

    fn on_start(self) -> (out: (Pipeline, Action))
        requires
            self@.phase == Phase::Idle,
        ensures
            meets(verdict(self@, EventView::Start), self@, out.0@, out.1@),
    {
        let path = self.options.output_dir.clone();
        let mut next = self;
        next.phase = Phase::CreatingDirectory;
        (next, Action::CreateDirectory { path })
    }

    fn on_directory_ready(self) -> (out: (Pipeline, Action))
        requires
            self@.phase == Phase::CreatingDirectory,
        ensures
            meets(verdict(self@, EventView::DirectoryReady), self@, out.0@, out.1@),
    {
        match classify(self.options.url.as_str()) {
            SourceKind::Remote => {
                let action = Action::RunTool(metadata_command(self.options.url.as_str()));
                let mut next = self;
                next.phase = Phase::FetchingMetadata;
                (next, action)
            },
            SourceKind::Local => {
                let action = Action::ProbePath { path: self.options.url.clone() };
                let mut next = self;
                next.phase = Phase::CheckingLocal;
                (next, action)
            },
        }
    }

    fn on_path_probed(self, exists: bool, stem: Option<String>) -> (out: (Pipeline, Action))
        requires
            self@.phase != Phase::Finished,
        ensures
            meets(
                verdict(self@, EventView::PathProbed { exists, stem: text_of(stem) }),
                self@,
                out.0@,
                out.1@,
            ),
    {
        match self.phase {
            Phase::CheckingLocal => match check_local(self.options.url.as_str(), exists) {
                Ok(_) => {
                    let metadata = get_local_metadata(self.options.url.as_str(), opt_str(&stem));
                    let action = Action::RunTool(normalize_command(self.options.url.as_str()));
                    let mut next = self;
                    next.phase = Phase::Normalizing;
                    next.metadata = metadata;
                    (next, action)
                },
                Err(message) => self.fail(Stage::ResolveSource, message),
            },
            Phase::CheckingDownload => {
                if exists {
                    let action = Action::RunTool(
                        extract_command(
                            self.workspace.downloaded_audio.as_str(),
                            self.workspace.extracted_audio.as_str(),
                        ),
                    );
                    let mut next = self;
                    next.phase = Phase::Extracting;
                    (next, action)
                } else {
                    self.fail(
                        Stage::AcquireMedia,
                        String::from_str("Downloaded audio file not found"),
                    )
                }
            },
            Phase::CheckingExtracted => {
                if exists {
                    let action = Action::RunTool(
                        normalize_command(self.workspace.extracted_audio.as_str()),
                    );
                    let mut next = self;
                    next.phase = Phase::Normalizing;
                    (next, action)
                } else {
                    self.fail(
                        Stage::ExtractAudio,
                        String::from_str("Extracted audio file not found"),
                    )
                }
            },
            _ => self.unexpected(),
        }
    }

    fn on_metadata_fetched(self, output: ToolOutput) -> (out: (Pipeline, Action))
        requires
            self@.phase == Phase::FetchingMetadata,
        ensures
            meets(verdict(self@, EventView::ToolFinished(output@)), self@, out.0@, out.1@),
    {
        match fetch_metadata(self.options.url.as_str(), output) {
            Ok(metadata) => {
                let action = Action::RunTool(
                    download_command(
                        self.options.url.as_str(),
                        self.workspace.download_template.as_str(),
                    ),
                );
                let mut next = self;
                next.phase = Phase::Downloading;
                next.metadata = metadata;
                (next, action)
            },
            Err(message) => self.fail(Stage::AcquireMedia, message),
        }
    }

    fn on_tool_finished(self, output: ToolOutput) -> (out: (Pipeline, Action))
        requires
            self@.phase != Phase::Finished,
        ensures
            meets(verdict(self@, EventView::ToolFinished(output@)), self@, out.0@, out.1@),
    {
        match self.phase {
            Phase::FetchingMetadata => self.on_metadata_fetched(output),
            Phase::Downloading => match tool_result("yt-dlp failed to download video", output) {
                Ok(_) => {
                    let action = Action::ProbePath { path: self.workspace.downloaded_audio.clone() };
                    let mut next = self;
                    next.phase = Phase::CheckingDownload;
                    (next, action)
                },
                Err(message) => self.fail(Stage::AcquireMedia, message),
            },
            Phase::Extracting => match tool_result("ffmpeg failed to extract audio", output) {
                Ok(_) => {
                    let action = Action::ProbePath { path: self.workspace.extracted_audio.clone() };
                    let mut next = self;
                    next.phase = Phase::CheckingExtracted;
                    (next, action)
                },
                Err(message) => self.fail(Stage::ExtractAudio, message),
            },
            Phase::Normalizing => match tool_result("ffmpeg failed", output) {
                Ok(samples) => {
                    let action = Action::ProbeModel {
                        dir: self.whisper.models_dir.clone(),
                        file_name: self.options.model.model_filename(),
                    };
                    let mut next = self;
                    next.phase = Phase::CheckingModel;
                    next.samples = samples;
                    (next, action)
                },
                Err(message) => self.fail(Stage::ExtractAudio, message),
            },
            _ => self.unexpected(),
        }
    }

    fn on_model_probed(self, path: String, exists: bool) -> (out: (Pipeline, Action))
        requires
            self@.phase == Phase::CheckingModel,
        ensures
            meets(
                verdict(self@, EventView::ModelProbed { path: path@, exists }),
                self@,
                out.0@,
                out.1@,
            ),
    {
        match self.whisper.get_model_path(self.options.model, path.as_str(), exists) {
            Ok(model_path) => {
                let plan = decoding_plan(opt_str(&self.options.language), self.available_threads);
                let Pipeline {
                    options,
                    workspace,
                    whisper,
                    available_threads,
                    phase,
                    metadata,
                    samples,
                    transcript,
                    txt,
                    json,
                } = self;
                let next = Pipeline {
                    options,
                    workspace,
                    whisper,
                    available_threads,
                    phase: Phase::Inferring,
                    metadata,
                    samples: Vec::new(),
                    transcript,
                    txt,
                    json,
                };
                (next, Action::Infer { model_path, samples, plan })
            },
            Err(message) => self.fail(Stage::Transcribe, message),
        }
    }

    fn on_transcribed(self, segments: Vec<String>) -> (out: (Pipeline, Action))
        requires
            self@.phase == Phase::Inferring,
        ensures
            meets(
                verdict(self@, EventView::Transcribed { segments: texts(segments@) }),
                self@,
                out.0@,
                out.1@,
            ),
    {
        let transcript = join_segments(&segments);
        let mut next = self;
        next.phase = Phase::WritingText;
        next.transcript = transcript;
        let action = next.write(OutputKind::Text, next.transcript.clone());
        (next, action)
    }

    fn on_file_written(self, path: String) -> (out: (Pipeline, Action))
        requires
            self@.phase != Phase::Finished,
        ensures
            meets(verdict(self@, EventView::FileWritten { path: path@ }), self@, out.0@, out.1@),
    {
        match self.phase {
            Phase::WritingText => {
                match json_content(&self.metadata, self.transcript.as_str(), self.options.model) {
                    Ok(content) => {
                        let mut next = self;
                        next.phase = Phase::WritingJson;
                        next.txt = path;
                        let action = next.write(OutputKind::Json, content);
                        (next, action)
                    },
                    Err(message) => self.fail(Stage::Persist, message),
                }
            },
            Phase::WritingJson => {
                let content = markdown_report(
                    &self.metadata,
                    self.transcript.as_str(),
                    self.options.model,
                );
                let mut next = self;
                next.phase = Phase::WritingMarkdown;
                next.json = path;
                let action = next.write(OutputKind::Markdown, content);
                (next, action)
            },
            Phase::WritingMarkdown => {
                let result = TranscriptionResult {
                    success: true,
                    files: OutputFiles { txt: self.txt.clone(), json: self.json.clone(), md: path },
                    metadata: self.metadata.duplicate(),
                    transcript: self.transcript.clone(),
                    transcript_preview: preview(self.transcript.as_str()),
                    word_count: word_count(self.transcript.as_str()),
                    model_used: self.options.model,
                };
                let mut next = self;
                next.phase = Phase::Finished;
                (next, Action::Finish(Ok(result)))
            },
            _ => self.unexpected(),
        }
    }

    /// One step of the run: from the state and the event that the last
    /// action ended in, to the next state and the next action. What the
    /// step leads to is what [`verdict`] says.
    pub fn step(self, event: Event) -> (out: (Pipeline, Action))
        ensures
            meets(verdict(self@, event@), self@, out.0@, out.1@),
    {
        if self.phase == Phase::Finished {
            let message = unexpected_message();
            return self.fail(Stage::Done, message);
        }
        match event {
            Event::Failed { message } => {
                if self.phase == Phase::Idle {
                    self.unexpected()
                } else {
                    let stage = self.phase.stage_of();
                    let message = start_failure(self.phase, message);
                    self.fail(stage, message)
                }
            },
            Event::Start => {
                if self.phase == Phase::Idle {
                    self.on_start()
                } else {
                    self.unexpected()
                }
            },
            Event::DirectoryReady => {
                if self.phase == Phase::CreatingDirectory {
                    self.on_directory_ready()
                } else {
                    self.unexpected()
                }
            },
            Event::PathProbed { exists, stem } => self.on_path_probed(exists, stem),
            Event::ToolFinished(output) => self.on_tool_finished(output),
            Event::ModelProbed { path, exists } => {
                if self.phase == Phase::CheckingModel {
                    self.on_model_probed(path, exists)
                } else {
                    self.unexpected()
                }
            },
            Event::Transcribed { segments } => {
                if self.phase == Phase::Inferring {
                    self.on_transcribed(segments)
                } else {
                    self.unexpected()
                }
            },
            Event::FileWritten { path } => self.on_file_written(path),
        }
    }
}

} // verus!
