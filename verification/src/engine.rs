//! The engine that a server holds: it starts transcription runs and reports
//! on what the runs depend on.

use vstd::prelude::*;
use crate::pipeline::{fresh, Pipeline, Workspace};
use crate::speech::{model_line, ModelFileView, ModelFiles, WhisperTranscriber};
use crate::types::{TranscriptionOptions, WhisperModel};

verus! {

/// The line of the report for one of the two tools.
pub open spec fn tool_line(tool: Seq<char>, installed: bool) -> Seq<char> {
    if installed {
        "✅ "@ + tool + ": installed\n"@
    } else {
        "❌ "@ + tool + ": NOT installed\n"@
    }
}

/// The lines of the report: one for the fetcher, one for the converter, the
/// heading of the models, and one for each of the five models.
pub open spec fn report_lines(
    fetcher: bool,
    converter: bool,
    tiny: ModelFileView,
    base: ModelFileView,
    small: ModelFileView,
    medium: ModelFileView,
    large: ModelFileView,
) -> Seq<Seq<char>> {
    seq![
        tool_line("yt-dlp"@, fetcher),
        tool_line("ffmpeg"@, converter),
        "📦 Whisper Models:\n"@,
        model_line(WhisperModel::Tiny, tiny),
        model_line(WhisperModel::Base, base),
        model_line(WhisperModel::Small, small),
        model_line(WhisperModel::Medium, medium),
        model_line(WhisperModel::Large, large),
    ]
}

/// The lines one after the other.
pub open spec fn concat(lines: Seq<Seq<char>>) -> Seq<char>
    decreases lines.len(),
{
    if lines.len() == 0 {
        Seq::<char>::empty()
    } else {
        concat(lines.drop_last()) + lines.last()
    }
}

/// The report on what the runs depend on.
pub open spec fn report_of(
    fetcher: bool,
    converter: bool,
    tiny: ModelFileView,
    base: ModelFileView,
    small: ModelFileView,
    medium: ModelFileView,
    large: ModelFileView,
) -> Seq<char> {
    concat(report_lines(fetcher, converter, tiny, base, small, medium, large))
}

/// The engine of one server or of one session.
#[derive(Debug, Clone, PartialEq, Eq)]
pub struct TranscriberEngine {
    pub whisper: WhisperTranscriber,
    pub workspace: Workspace,
    /// The number of execution units of the machine, where it is known.
    pub available_threads: Option<usize>,
}

fn tool_status(tool: &str, installed: bool) -> (out: String)
    ensures
        out@ == tool_line(tool@, installed),
{
    if installed {
        let mut out = String::from_str("✅ ");
        out.append(tool);
        out.append(": installed\n");
        out
    } else {
        let mut out = String::from_str("❌ ");
        out.append(tool);
        out.append(": NOT installed\n");
        out
    }
}

impl TranscriberEngine {
    pub fn new(whisper: WhisperTranscriber, workspace: Workspace, available_threads: Option<usize>) -> (out:
        TranscriberEngine)
        ensures
            out.whisper == whisper,
            out.workspace == workspace,
            out.available_threads == available_threads,
    {
        TranscriberEngine { whisper, workspace, available_threads }
    }

    /// A run for `options`, not yet started. The caller carries it through
    /// by performing the action of each step and handing back its event.
    pub fn transcribe(&self, options: TranscriptionOptions) -> (out: Pipeline)
        ensures
            out@ == fresh(
                options@,
                self.workspace@,
                self.whisper.models_dir@,
                self.available_threads,
            ),
    {
        let workspace = Workspace {
            download_template: self.workspace.download_template.clone(),
            downloaded_audio: self.workspace.downloaded_audio.clone(),
            extracted_audio: self.workspace.extracted_audio.clone(),
        };
        let whisper = WhisperTranscriber::new(self.whisper.models_dir.clone());
        Pipeline::new(options, workspace, whisper, self.available_threads)
    }

    /// The report on what the runs depend on: whether each of the two tools
    /// could be started, and which weight files are there.
    pub fn check_dependencies(&self, fetcher: bool, converter: bool, files: &ModelFiles) -> (out:
        String)
        ensures
            out@ == report_of(
                fetcher,
                converter,
                files.tiny@,
                files.base@,
                files.small@,
                files.medium@,
                files.large@,
            ),
    {
        let mut out = tool_status("yt-dlp", fetcher);
        out.append(tool_status("ffmpeg", converter).as_str());
        out.append(self.whisper.check_models_status(files).as_str());
        proof {
            let lines = report_lines(
                fetcher,
                converter,
                files.tiny@,
                files.base@,
                files.small@,
                files.medium@,
                files.large@,
            );
            lemma_concat_take(lines, 8);
            lemma_concat_take(lines, 7);
            lemma_concat_take(lines, 6);
            lemma_concat_take(lines, 5);
            lemma_concat_take(lines, 4);
            lemma_concat_take(lines, 3);
            lemma_concat_take(lines, 2);
            lemma_concat_take(lines, 1);
            assert(lines.take(8) =~= lines);
            assert(concat(lines.take(0)) =~= Seq::<char>::empty());
            assert(out@ =~= concat(lines));
        }
        out
    }
}

proof fn lemma_concat_take(lines: Seq<Seq<char>>, n: int)
    requires
        0 < n <= lines.len(),
    ensures
        concat(lines.take(n)) == concat(lines.take(n - 1)) + lines[n - 1],
{
    assert(lines.take(n).drop_last() =~= lines.take(n - 1));
}

/// The report has eight lines whatever is installed: the first is the
/// fetcher's, the second the converter's, the third the heading of the
/// models, and the others are those of the five models in their order.
pub proof fn lemma_report_has_a_line_for_each(
    fetcher: bool,
    converter: bool,
    tiny: ModelFileView,
    base: ModelFileView,
    small: ModelFileView,
    medium: ModelFileView,
    large: ModelFileView,
)
    ensures
        report_lines(fetcher, converter, tiny, base, small, medium, large).len() == 8,
        report_lines(fetcher, converter, tiny, base, small, medium, large)[0] == tool_line(
            "yt-dlp"@,
            fetcher,
        ),
        report_lines(fetcher, converter, tiny, base, small, medium, large)[1] == tool_line(
            "ffmpeg"@,
            converter,
        ),
        report_lines(fetcher, converter, tiny, base, small, medium, large)[3] == model_line(
            WhisperModel::Tiny,
            tiny,
        ),
        report_lines(fetcher, converter, tiny, base, small, medium, large)[4] == model_line(
            WhisperModel::Base,
            base,
        ),
        report_lines(fetcher, converter, tiny, base, small, medium, large)[5] == model_line(
            WhisperModel::Small,
            small,
        ),
        report_lines(fetcher, converter, tiny, base, small, medium, large)[6] == model_line(
            WhisperModel::Medium,
            medium,
        ),
        report_lines(fetcher, converter, tiny, base, small, medium, large)[7] == model_line(
            WhisperModel::Large,
            large,
        ),
        forall|i: int|
            0 <= i < 8 ==> (#[trigger] report_lines(
                fetcher,
                converter,
                tiny,
                base,
                small,
                medium,
                large,
            )[i]).last() == '\n',
{
    reveal_strlit(": installed\n");
    reveal_strlit(": NOT installed\n");
    reveal_strlit("📦 Whisper Models:\n");
    reveal_strlit(": not installed\n");
    reveal_strlit(")\n");
}

} // verus!
