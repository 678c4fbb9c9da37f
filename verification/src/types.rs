//! The values that a transcription request and its result are made of.

use vstd::prelude::*;
use crate::text::{lowercase, lowercase_of, same_text};

verus! {

/// The five sizes of the speech-recognition model.
#[derive(Debug, Clone, Copy, PartialEq, Eq, Structural)]
pub enum WhisperModel {
    Tiny,
    Base,
    Small,
    Medium,
    Large,
}

/// The size that a lower-case name stands for, if it names one.
pub open spec fn model_named(lower: Seq<char>) -> Option<WhisperModel> {
    if lower == "tiny"@ {
        Some(WhisperModel::Tiny)
    } else if lower == "base"@ {
        Some(WhisperModel::Base)
    } else if lower == "small"@ {
        Some(WhisperModel::Small)
    } else if lower == "medium"@ {
        Some(WhisperModel::Medium)
    } else if lower == "large"@ {
        Some(WhisperModel::Large)
    } else {
        None
    }
}

/// The message with which a name that stands for no size is turned down.
pub open spec fn invalid_model_message(name: Seq<char>) -> Seq<char> {
    "Invalid whisper model: "@ + name
}

impl WhisperModel {
    /// The lower-case name of the size.
    pub open spec fn name(self) -> Seq<char> {
        match self {
            WhisperModel::Tiny => "tiny"@,
            WhisperModel::Base => "base"@,
            WhisperModel::Small => "small"@,
            WhisperModel::Medium => "medium"@,
            WhisperModel::Large => "large"@,
        }
    }

    /// The capitalised name of the size, as reports print it.
    pub open spec fn label(self) -> Seq<char> {
        match self {
            WhisperModel::Tiny => "Tiny"@,
            WhisperModel::Base => "Base"@,
            WhisperModel::Small => "Small"@,
            WhisperModel::Medium => "Medium"@,
            WhisperModel::Large => "Large"@,
        }
    }

    /// The name of the weight file of the size.
    pub open spec fn weight_file(self) -> Seq<char> {
        "ggml-"@ + self.name() + ".bin"@
    }

    /// The lower-case name of the size.
    pub fn as_str(&self) -> (out: &'static str)
        ensures
            out@ == self.name(),
    {
        match self {
            WhisperModel::Tiny => "tiny",
            WhisperModel::Base => "base",
            WhisperModel::Small => "small",
            WhisperModel::Medium => "medium",
            WhisperModel::Large => "large",
        }
    }

    /// The capitalised name of the size.
    pub fn debug_name(&self) -> (out: &'static str)
        ensures
            out@ == self.label(),
    {
        match self {
            WhisperModel::Tiny => "Tiny",
            WhisperModel::Base => "Base",
            WhisperModel::Small => "Small",
            WhisperModel::Medium => "Medium",
            WhisperModel::Large => "Large",
        }
    }

    /// The name of the weight file of the size: `ggml-<name>.bin`.
    pub fn model_filename(&self) -> (out: String)
        ensures
            out@ == self.weight_file(),
    {
        let mut out = String::from_str("ggml-");
        out.append(self.as_str());
        out.append(".bin");
        out
    }

    /// The size that an already lower-case name stands for.
    pub fn from_lowercase(lower: &str) -> (out: Option<WhisperModel>)
        ensures
            out == model_named(lower@),
    {
        if same_text(lower, "tiny") {
            Some(WhisperModel::Tiny)
        } else if same_text(lower, "base") {
            Some(WhisperModel::Base)
        } else if same_text(lower, "small") {
            Some(WhisperModel::Small)
        } else if same_text(lower, "medium") {
            Some(WhisperModel::Medium)
        } else if same_text(lower, "large") {
            Some(WhisperModel::Large)
        } else {
            None
        }
    }

    /// The size that a name stands for, whatever the case of its letters;
    /// any other name is turned down with a message that holds it.
    pub fn from_str(s: &str) -> (out: Result<WhisperModel, String>)
        ensures
            match model_named(lowercase_of(s@)) {
                Some(m) => out == Ok::<WhisperModel, String>(m),
                None => out is Err && out->Err_0@ == invalid_model_message(s@),
            },
    {
        let lower = lowercase(s);
        match WhisperModel::from_lowercase(lower.as_str()) {
            Some(m) => Ok(m),
            None => {
                let mut message = String::from_str("Invalid whisper model: ");
                message.append(s);
                Err(message)
            },
        }
    }

    /// The size that a request's `model` argument selects: the one it names,
    /// and `Base` where it is absent or names none.
    pub fn from_argument(argument: Option<&str>) -> (out: WhisperModel)
        ensures
            out == match argument {
                Some(s) => match model_named(lowercase_of(s@)) {
                    Some(m) => m,
                    None => WhisperModel::Base,
                },
                None => WhisperModel::Base,
            },
    {
        match argument {
            Some(s) => match WhisperModel::from_str(s) {
                Ok(m) => m,
                Err(_) => WhisperModel::Base,
            },
            None => WhisperModel::Base,
        }
    }
}

/// One transcription request.
#[derive(Debug, Clone, PartialEq, Eq)]
pub struct TranscriptionOptions {
    /// A URL, or the path of a local file.
    pub url: String,
    pub output_dir: String,
    pub model: WhisperModel,
    /// A language code, or `auto`.
    pub language: Option<String>,
}

pub struct TranscriptionOptionsView {
    pub url: Seq<char>,
    pub output_dir: Seq<char>,
    pub model: WhisperModel,
    pub language: Option<Seq<char>>,
}

/// The view of a text that may be absent.
pub open spec fn text_of(s: Option<String>) -> Option<Seq<char>> {
    match s {
        Some(s) => Some(s@),
        None => None,
    }
}

impl View for TranscriptionOptions {
    type V = TranscriptionOptionsView;

    open spec fn view(&self) -> TranscriptionOptionsView {
        TranscriptionOptionsView {
            url: self.url@,
            output_dir: self.output_dir@,
            model: self.model,
            language: text_of(self.language),
        }
    }
}

/// What is known of a video.
#[derive(Debug, Clone, PartialEq, Eq)]
pub struct VideoMetadata {
    pub video_id: String,
    pub title: String,
    pub channel: String,
    /// In seconds.
    pub duration: u64,
    pub upload_date: String,
    pub platform: String,
    /// The reference that the video was asked for by.
    pub url: String,
}

pub struct VideoMetadataView {
    pub video_id: Seq<char>,
    pub title: Seq<char>,
    pub channel: Seq<char>,
    pub duration: u64,
    pub upload_date: Seq<char>,
    pub platform: Seq<char>,
    pub url: Seq<char>,
}

impl View for VideoMetadata {
    type V = VideoMetadataView;

    open spec fn view(&self) -> VideoMetadataView {
        VideoMetadataView {
            video_id: self.video_id@,
            title: self.title@,
            channel: self.channel@,
            duration: self.duration,
            upload_date: self.upload_date@,
            platform: self.platform@,
            url: self.url@,
        }
    }
}

impl VideoMetadata {
    /// A copy that holds the same.
    pub fn duplicate(&self) -> (out: VideoMetadata)
        ensures
            out@ == self@,
    {
        VideoMetadata {
            video_id: self.video_id.clone(),
            title: self.title.clone(),
            channel: self.channel.clone(),
            duration: self.duration,
            upload_date: self.upload_date.clone(),
            platform: self.platform.clone(),
            url: self.url.clone(),
        }
    }
}

/// The paths of the three files of one transcript.
#[derive(Debug, Clone, PartialEq, Eq)]
pub struct OutputFiles {
    pub txt: String,
    pub json: String,
    pub md: String,
}

pub struct OutputFilesView {
    pub txt: Seq<char>,
    pub json: Seq<char>,
    pub md: Seq<char>,
}

impl View for OutputFiles {
    type V = OutputFilesView;

    open spec fn view(&self) -> OutputFilesView {
        OutputFilesView { txt: self.txt@, json: self.json@, md: self.md@ }
    }
}

/// What a finished transcription reports.
#[derive(Debug, Clone, PartialEq, Eq)]
pub struct TranscriptionResult {
    pub success: bool,
    pub files: OutputFiles,
    pub metadata: VideoMetadata,
    pub transcript: String,
    pub transcript_preview: String,
    pub word_count: usize,
    pub model_used: WhisperModel,
}

pub struct TranscriptionResultView {
    pub success: bool,
    pub files: OutputFilesView,
    pub metadata: VideoMetadataView,
    pub transcript: Seq<char>,
    pub transcript_preview: Seq<char>,
    pub word_count: usize,
    pub model_used: WhisperModel,
}

impl View for TranscriptionResult {
    type V = TranscriptionResultView;

    open spec fn view(&self) -> TranscriptionResultView {
        TranscriptionResultView {
            success: self.success,
            files: self.files@,
            metadata: self.metadata@,
            transcript: self.transcript@,
            transcript_preview: self.transcript_preview@,
            word_count: self.word_count,
            model_used: self.model_used,
        }
    }
}

} // verus!
