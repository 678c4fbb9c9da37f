//! The speech engine's side of a transcription: which weight file a model
//! needs, how the decoder is set up, and how its segments become one text.
//!
//! The inference itself is the caller's: it works on floating-point samples.

use vstd::prelude::*;
use crate::text::{same_text, texts, trim, trimmed};
use crate::types::{text_of, WhisperModel};

verus! {

/// The number of decoder threads where the machine does not say how many
/// execution units it has.
pub const DEFAULT_THREADS: i32 = 4;

/// What is known of one weight file: where it would be, whether it is
/// there, and its size in megabytes where that could be read.
#[derive(Debug, Clone, PartialEq, Eq)]
pub struct ModelFile {
    pub path: String,
    pub exists: bool,
    pub megabytes: Option<String>,
}

pub struct ModelFileView {
    pub path: Seq<char>,
    pub exists: bool,
    pub megabytes: Option<Seq<char>>,
}

impl View for ModelFile {
    type V = ModelFileView;

    open spec fn view(&self) -> ModelFileView {
        ModelFileView { path: self.path@, exists: self.exists, megabytes: text_of(self.megabytes) }
    }
}

/// What is known of the weight files of the five models.
#[derive(Debug, Clone, PartialEq, Eq)]
pub struct ModelFiles {
    pub tiny: ModelFile,
    pub base: ModelFile,
    pub small: ModelFile,
    pub medium: ModelFile,
    pub large: ModelFile,
}

/// The number of candidates that greedy decoding keeps: the best path
/// alone, so that decoding is deterministic.
pub const GREEDY_BEST_OF: i32 = 1;

/// How the decoder is set up for one run. Decoding is greedy: it takes the
/// best path, without sampling.
#[derive(Debug, Clone, PartialEq, Eq)]
pub struct DecodingPlan {
    /// The language that recognition is held to, if any.
    pub language: Option<String>,
    pub translate: bool,
    pub threads: i32,
    /// The number of candidates that greedy decoding keeps.
    pub best_of: i32,
}

/// The language that a request holds recognition to: the one it names,
/// unless it names none or `auto`.
pub open spec fn forced_language(language: Option<Seq<char>>) -> Option<Seq<char>> {
    match language {
        Some(l) => if l == "auto"@ {
            None
        } else {
            Some(l)
        },
        None => None,
    }
}

/// The number of decoder threads on a machine with `available` execution
/// units: as many, but no more than an `i32` holds, and 4 where the number
/// is not known.
pub open spec fn threads_for(available: Option<usize>) -> i32 {
    match available {
        Some(n) => if n <= i32::MAX {
            n as i32
        } else {
            i32::MAX
        },
        None => DEFAULT_THREADS,
    }
}

/// The message for a weight file that is not there: it names the path, and
/// says how to get the file.
pub open spec fn missing_model_message(path: Seq<char>, model: WhisperModel) -> Seq<char> {
    "Whisper model not found: "@ + path + "\n\nPlease download it using:\nbash scripts/download-models.sh "@
        + model.name() + "\n\nOr download manually from:\nhttps://huggingface.co/ggerganov/whisper.cpp/resolve/main/"@
        + model.weight_file()
}

/// The segments in order, each followed by one space.
pub open spec fn spaced(segments: Seq<Seq<char>>) -> Seq<char>
    decreases segments.len(),
{
    if segments.len() == 0 {
        Seq::<char>::empty()
    } else {
        spaced(segments.drop_last()) + segments.last() + " "@
    }
}

/// The transcript that the segments make: each followed by one space, and
/// the whole without the white space at its ends.
pub open spec fn transcript_of(segments: Seq<Seq<char>>) -> Seq<char> {
    trimmed(spaced(segments))
}

/// The line of the status report for one model.
pub open spec fn model_line(model: WhisperModel, file: ModelFileView) -> Seq<char> {
    if file.exists {
        "  ✅ "@ + model.label() + ": "@ + file.path + " ("@ + (match file.megabytes {
            Some(m) => m + " MB"@,
            None => "unknown"@,
        }) + ")\n"@
    } else {
        "  ❌ "@ + model.label() + ": not installed\n"@
    }
}

/// The status report of the five models: a heading and one line for each.
pub open spec fn models_status_of(
    tiny: ModelFileView,
    base: ModelFileView,
    small: ModelFileView,
    medium: ModelFileView,
    large: ModelFileView,
) -> Seq<char> {
    "📦 Whisper Models:\n"@ + model_line(WhisperModel::Tiny, tiny) + model_line(
        WhisperModel::Base,
        base,
    ) + model_line(WhisperModel::Small, small) + model_line(WhisperModel::Medium, medium)
        + model_line(WhisperModel::Large, large)
}

/// How the decoder is set up for a request in `language` on a machine with
/// `available` execution units. Translation is always off.
pub fn decoding_plan(language: Option<&str>, available: Option<usize>) -> (out: DecodingPlan)
    ensures
        text_of(out.language) == forced_language(
            match language {
                Some(l) => Some(l@),
                None => None,
            },
        ),
        !out.translate,
        out.threads == threads_for(available),
        out.best_of == GREEDY_BEST_OF,
{
    let forced = match language {
        Some(l) => if same_text(l, "auto") {
            None
        } else {
            Some(String::from_str(l))
        },
        None => None,
    };
    let threads: i32 = match available {
        Some(n) => if n <= 2147483647 {
            n as i32
        } else {
            2147483647
        },
        None => DEFAULT_THREADS,
    };
    DecodingPlan { language: forced, translate: false, threads, best_of: GREEDY_BEST_OF }
}

/// The transcript that the decoder's segments make.
pub fn join_segments(segments: &Vec<String>) -> (out: String)
    ensures
        out@ == transcript_of(texts(segments@)),
{
    let mut all = String::new();
    let mut i: usize = 0;
    while i < segments.len()
        invariant
            i <= segments.len(),
            all@ == spaced(texts(segments@).take(i as int)),
        decreases segments.len() - i,
    {
        proof {
            let next = texts(segments@).take(i + 1);
            assert(next.drop_last() =~= texts(segments@).take(i as int));
            assert(next.last() == segments@[i as int]@);
        }
        all.append(segments[i].as_str());
        all.append(" ");
        i = i + 1;
    }
    assert(texts(segments@).take(segments.len() as int) =~= texts(segments@));
    trim(all.as_str())
}

/// The speech engine's model cache.
#[derive(Debug, Clone, PartialEq, Eq)]
pub struct WhisperTranscriber {
    /// The directory that holds the weight files.
    pub models_dir: String,
}

impl WhisperTranscriber {
    pub fn new(models_dir: String) -> (out: WhisperTranscriber)
        ensures
            out.models_dir == models_dir,
    {
        WhisperTranscriber { models_dir }
    }

    /// The weight file of `model`, given where it would be and whether it
    /// is there: its path where it is, and where it is not the message that
    /// names the path and says how to get the file.
    pub fn get_model_path(&self, model: WhisperModel, path: &str, exists: bool) -> (out: Result<
        String,
        String,
    >)
        ensures
            match out {
                Ok(p) => exists && p@ == path@,
                Err(message) => !exists && message@ == missing_model_message(path@, model),
            },
    {
        if exists {
            Ok(String::from_str(path))
        } else {
            let mut message = String::from_str("Whisper model not found: ");
            message.append(path);
            message.append("\n\nPlease download it using:\nbash scripts/download-models.sh ");
            message.append(model.as_str());
            message.append(
                "\n\nOr download manually from:\nhttps://huggingface.co/ggerganov/whisper.cpp/resolve/main/",
            );
            message.append(model.model_filename().as_str());
            Err(message)
        }
    }

    /// The status report of the five models.
    pub fn check_models_status(&self, files: &ModelFiles) -> (out: String)
        ensures
            out@ == models_status_of(
                files.tiny@,
                files.base@,
                files.small@,
                files.medium@,
                files.large@,
            ),
    {
        let mut out = String::from_str("📦 Whisper Models:\n");
        out.append(status_line(WhisperModel::Tiny, &files.tiny).as_str());
        out.append(status_line(WhisperModel::Base, &files.base).as_str());
        out.append(status_line(WhisperModel::Small, &files.small).as_str());
        out.append(status_line(WhisperModel::Medium, &files.medium).as_str());
        out.append(status_line(WhisperModel::Large, &files.large).as_str());
        out
    }
}

/// The line of the status report for one model.
pub fn status_line(model: WhisperModel, file: &ModelFile) -> (out: String)
    ensures
        out@ == model_line(model, file@),
{
    if file.exists {
        let mut out = String::from_str("  ✅ ");
        out.append(model.debug_name());
        out.append(": ");
        out.append(file.path.as_str());
        out.append(" (");
        let ghost head = out@;
        match &file.megabytes {
            Some(m) => {
                out.append(m.as_str());
                out.append(" MB");
                assert(out@ =~= head + (m@ + " MB"@));
            },
            None => {
                out.append("unknown");
            },
        }
        out.append(")\n");
        out
    } else {
        let mut out = String::from_str("  ❌ ");
        out.append(model.debug_name());
        out.append(": not installed\n");
        out
    }
}

/// Recognition is held to a language exactly where the request names one
/// other than `auto`, and then to that one.
pub proof fn lemma_forced_language(language: Option<Seq<char>>)
    ensures
        language is None ==> forced_language(language) is None,
        language == Some("auto"@) ==> forced_language(language) is None,
        language is Some && language->Some_0 != "auto"@ ==> forced_language(language) == language,
{
}

} // verus!
