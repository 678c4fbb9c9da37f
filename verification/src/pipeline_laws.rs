//! What holds of every step of the pipeline, proved from the transition
//! that the machine implements.

use vstd::prelude::*;
use crate::json::pretty_text;
use crate::output::{basename_of, document_of, markdown_of, OutputKind};
use crate::pipeline::{
    in_phase, meets, unexpected_event, verdict, ActionView, EventView, Phase, PipelineErrorView,
    PipelineView, Stage,
};
use crate::source::{is_remote, missing_file_message};
use crate::speech::forced_language;
use crate::text::occurs_at;

verus! {

/// Every step of a run that is not over takes it to a later phase, and never
/// to an earlier stage: a run is over after at most fourteen steps.
pub proof fn lemma_step_moves_forward(s: PipelineView, e: EventView, t: PipelineView, a: ActionView)
    requires
        meets(verdict(s, e), s, t, a),
        s.phase != Phase::Finished,
    ensures
        t.phase.rank() > s.phase.rank(),
        t.phase.stage().rank() >= s.phase.stage().rank(),
        t.phase.rank() <= Phase::Finished.rank(),
{
}

/// A step ends the run if and only if its action is `Finish`; a failure
/// leaves what the run had gathered as it was.
pub proof fn lemma_finish_ends_run(s: PipelineView, e: EventView, t: PipelineView, a: ActionView)
    requires
        meets(verdict(s, e), s, t, a),
    ensures
        (a is Finish) <==> t.phase == Phase::Finished,
        a matches ActionView::Finish(Err(_)) ==> t == in_phase(s, Phase::Finished),
{
}

/// Once a run is over, whatever comes is answered with the same error, and
/// nothing else is asked of the caller: a failure aborts the stages that
/// were left.
pub proof fn lemma_finished_stays_finished(s: PipelineView, e: EventView, t: PipelineView, a: ActionView)
    requires
        meets(verdict(s, e), s, t, a),
        s.phase == Phase::Finished,
    ensures
        t == s,
        a == ActionView::Finish(
            Err(PipelineErrorView { stage: Stage::Done, message: unexpected_event() }),
        ),
{
}

/// What a run was started with never changes.
pub proof fn lemma_step_keeps_request(s: PipelineView, e: EventView, t: PipelineView, a: ActionView)
    requires
        meets(verdict(s, e), s, t, a),
    ensures
        t.options == s.options,
        t.workspace == s.workspace,
        t.models_dir == s.models_dir,
        t.available_threads == s.available_threads,
{
}

/// The only way out of the first two phases that does not end the run is
/// through the making of the output directory: whatever is asked for later,
/// a write above all, comes after it.
pub proof fn lemma_directory_comes_first(s: PipelineView, e: EventView, t: PipelineView, a: ActionView)
    requires
        meets(verdict(s, e), s, t, a),
        t.phase != Phase::Finished,
    ensures
        s.phase == Phase::Idle ==> t.phase == Phase::CreatingDirectory && a
            == (ActionView::CreateDirectory { path: s.options.output_dir }),
        s.phase == Phase::CreatingDirectory ==> e == EventView::DirectoryReady,
        a is WriteFile ==> s.phase.rank() > Phase::CreatingDirectory.rank(),
        a matches ActionView::WriteFile { dir, .. } ==> dir == s.options.output_dir,
{
}

/// Inference is asked for only on the word that the model's weight file is
/// there, with the samples that the converter gave, with translation off,
/// greedy, and held to a language only where the request names one other
/// than `auto`.
pub proof fn lemma_inference_needs_model(s: PipelineView, e: EventView, t: PipelineView, a: ActionView)
    requires
        meets(verdict(s, e), s, t, a),
        a is Infer,
    ensures
        s.phase == Phase::CheckingModel,
        e matches EventView::ModelProbed { path, exists } && exists && a->Infer_model_path == path,
        a->Infer_samples == s.samples,
        !a->Infer_plan.translate,
        a->Infer_plan.best_of == 1,
        a->Infer_plan.language == forced_language(s.options.language),
        t.phase == Phase::Inferring,
{
}

/// A remote reference is never looked for on disk, and a local one is
/// looked for before anything is extracted: the converter is started on it
/// only on the word that it is there.
pub proof fn lemma_local_is_checked_first(s: PipelineView, e: EventView, t: PipelineView, a: ActionView)
    requires
        meets(verdict(s, e), s, t, a),
        s.phase == Phase::CreatingDirectory,
        e == EventView::DirectoryReady,
    ensures
        is_remote(s.options.url) ==> t.phase == Phase::FetchingMetadata && a is RunTool,
        !is_remote(s.options.url) ==> t.phase == Phase::CheckingLocal && a
            == (ActionView::ProbePath { path: s.options.url }),
{
}

/// A local file that is not there ends the run in the `ResolveSource` stage
/// with a message that holds the path; no later stage is entered.
pub proof fn lemma_missing_local_file(s: PipelineView, stem: Option<Seq<char>>, t: PipelineView, a: ActionView)
    requires
        meets(verdict(s, EventView::PathProbed { exists: false, stem }), s, t, a),
        s.phase == Phase::CheckingLocal,
    ensures
        t.phase == Phase::Finished,
        a == ActionView::Finish(
            Err(
                PipelineErrorView {
                    stage: Stage::ResolveSource,
                    message: missing_file_message(s.options.url),
                },
            ),
        ),
        occurs_at(
            missing_file_message(s.options.url),
            s.options.url,
            "Video file not found: "@.len() as int,
        ),
{
    let m = missing_file_message(s.options.url);
    let k = "Video file not found: "@.len() as int;
    assert(m.subrange(k, k + s.options.url.len()) =~= s.options.url);
}

/// The three files of a run are written in the order text, JSON, report,
/// each after the one before it was written; they share the base name of
/// the video, which does not change while they are written, and differ in
/// their endings. The first holds the transcript, the second the JSON
/// document as indented text, the third the report.
pub proof fn lemma_three_files(s: PipelineView, e: EventView, t: PipelineView, a: ActionView)
    requires
        meets(verdict(s, e), s, t, a),
        a is WriteFile,
    ensures
        s.phase == Phase::Inferring || s.phase == Phase::WritingText || s.phase
            == Phase::WritingJson,
        s.phase == Phase::Inferring ==> t.phase == Phase::WritingText && a->WriteFile_name
            == basename_of(t.metadata.video_id, t.metadata.title) + OutputKind::Text.extension()
            && a->WriteFile_content == t.transcript,
        s.phase == Phase::WritingText ==> t.phase == Phase::WritingJson && a->WriteFile_name
            == basename_of(t.metadata.video_id, t.metadata.title) + OutputKind::Json.extension()
            && a->WriteFile_content == pretty_text(
            document_of(t.metadata, t.transcript, t.options.model),
        ),
        s.phase == Phase::WritingJson ==> t.phase == Phase::WritingMarkdown && a->WriteFile_name
            == basename_of(t.metadata.video_id, t.metadata.title)
            + OutputKind::Markdown.extension() && a->WriteFile_content == markdown_of(
            t.metadata,
            t.transcript,
            t.options.model,
        ),
        t.metadata == s.metadata,
        s.phase != Phase::Inferring ==> t.transcript == s.transcript,
{
}

/// Once the transcript is there, the word that a file was written never ends
/// the run in an error: after the text the JSON document is written, after
/// that the report, and after the report the run ends well. A run that has
/// its transcript fails only where a write failed or where an event came
/// that it did not wait for.
pub proof fn lemma_written_goes_on(s: PipelineView, path: Seq<char>, t: PipelineView, a: ActionView)
    requires
        meets(verdict(s, EventView::FileWritten { path }), s, t, a),
        s.phase == Phase::WritingText || s.phase == Phase::WritingJson || s.phase
            == Phase::WritingMarkdown,
    ensures
        !(a matches ActionView::Finish(Err(_))),
        s.phase == Phase::WritingText ==> t.phase == Phase::WritingJson && a is WriteFile && t.txt
            == path,
        s.phase == Phase::WritingJson ==> t.phase == Phase::WritingMarkdown && a is WriteFile
            && t.json == path,
        s.phase == Phase::WritingMarkdown ==> t.phase == Phase::Finished && a is Finish
            && a->Finish_0 is Ok && a->Finish_0->Ok_0.files.md == path,
{
}

/// A run ends well only after the third file: its result names the three
/// paths that the caller reported, in the order in which they were written.
pub proof fn lemma_success_after_three_files(s: PipelineView, e: EventView, t: PipelineView, a: ActionView)
    requires
        meets(verdict(s, e), s, t, a),
        a matches ActionView::Finish(Ok(_)),
    ensures
        s.phase == Phase::WritingMarkdown,
        e is FileWritten,
        a matches ActionView::Finish(Ok(r)) && r.success && r.files.txt == s.txt && r.files.json
            == s.json && r.files.md == e->FileWritten_path && r.metadata == s.metadata
            && r.transcript == s.transcript && r.model_used == s.options.model,
{
}

/// Whether step `i` of a course of events is one that the pipeline takes:
/// from state `i` on event `i` to state `i + 1` with action `i`.
pub open spec fn is_step(
    events: Seq<EventView>,
    states: Seq<PipelineView>,
    actions: Seq<ActionView>,
    i: int,
) -> bool {
    meets(verdict(states[i], events[i]), states[i], states[i + 1], actions[i])
}

/// Whether the states and actions are those of a run that begins in `start`
/// and is handed the events one after the other.
pub open spec fn is_run(
    start: PipelineView,
    events: Seq<EventView>,
    states: Seq<PipelineView>,
    actions: Seq<ActionView>,
) -> bool {
    &&& states.len() == events.len() + 1
    &&& actions.len() == events.len()
    &&& states[0] == start
    &&& forall|i: int| 0 <= i < events.len() ==> #[trigger] is_step(events, states, actions, i)
}

/// In a run, a state that is not the end of the run comes after states that
/// are not the end either, each of an earlier phase than the next.
pub proof fn lemma_run_moves_forward(
    start: PipelineView,
    events: Seq<EventView>,
    states: Seq<PipelineView>,
    actions: Seq<ActionView>,
    i: int,
    j: int,
)
    requires
        is_run(start, events, states, actions),
        0 <= i <= j <= events.len(),
        states[j].phase != Phase::Finished,
    ensures
        states[i].phase != Phase::Finished,
        states[i].phase.rank() + (j - i) <= states[j].phase.rank(),
    decreases j - i,
{
    if i < j {
        assert(is_step(events, states, actions, j - 1));
        lemma_finish_ends_run(states[j - 1], events[j - 1], states[j], actions[j - 1]);
        if states[j - 1].phase == Phase::Finished {
            lemma_finished_stays_finished(states[j - 1], events[j - 1], states[j], actions[j - 1]);
        }
        lemma_step_moves_forward(states[j - 1], events[j - 1], states[j], actions[j - 1]);
        lemma_run_moves_forward(start, events, states, actions, i, j - 1);
    }
}

/// A run that begins idle is over after fourteen steps at the most.
pub proof fn lemma_run_is_short(
    start: PipelineView,
    events: Seq<EventView>,
    states: Seq<PipelineView>,
    actions: Seq<ActionView>,
)
    requires
        is_run(start, events, states, actions),
        events.len() >= 14,
    ensures
        states[14].phase == Phase::Finished,
{
    if states[14].phase != Phase::Finished {
        lemma_run_moves_forward(start, events, states, actions, 0, 14);
    }
}

/// A run that begins idle and ends well has made the output directory
/// first and has written exactly three files, in its last three steps
/// before the end: the text, the JSON document and the report, in this
/// order, in the output directory, under the base name of the video and
/// the three endings. Its result names the paths that were reported for
/// them.
pub proof fn lemma_successful_run(
    start: PipelineView,
    events: Seq<EventView>,
    states: Seq<PipelineView>,
    actions: Seq<ActionView>,
)
    requires
        is_run(start, events, states, actions),
        start.phase == Phase::Idle,
        events.len() > 0,
        actions.last() matches ActionView::Finish(Ok(_)),
    ensures
        events.len() >= 5,
        actions[0] == (ActionView::CreateDirectory { path: start.options.output_dir }),
        ({
            let n = events.len() as int;
            let base = basename_of(
                states[n - 1].metadata.video_id,
                states[n - 1].metadata.title,
            );
            let dir = start.options.output_dir;
            &&& actions[n - 4] is WriteFile
            &&& actions[n - 4]->WriteFile_dir == dir
            &&& actions[n - 4]->WriteFile_name == base + ".txt"@
            &&& actions[n - 4]->WriteFile_content == states[n - 1].transcript
            &&& actions[n - 3] is WriteFile
            &&& actions[n - 3]->WriteFile_dir == dir
            &&& actions[n - 3]->WriteFile_name == base + ".json"@
            &&& actions[n - 3]->WriteFile_content == pretty_text(
                document_of(
                    states[n - 1].metadata,
                    states[n - 1].transcript,
                    start.options.model,
                ),
            )
            &&& actions[n - 2] is WriteFile
            &&& actions[n - 2]->WriteFile_dir == dir
            &&& actions[n - 2]->WriteFile_name == base + ".md"@
            &&& actions[n - 2]->WriteFile_content == markdown_of(
                states[n - 1].metadata,
                states[n - 1].transcript,
                start.options.model,
            )
            &&& forall|i: int| 0 <= i < n - 4 ==> !(#[trigger] actions[i] is WriteFile)
            &&& events[n - 3] is FileWritten
            &&& events[n - 2] is FileWritten
            &&& events[n - 1] is FileWritten
            &&& actions[n - 1]->Finish_0->Ok_0.files.txt == events[n - 3]->FileWritten_path
            &&& actions[n - 1]->Finish_0->Ok_0.files.json == events[n - 2]->FileWritten_path
            &&& actions[n - 1]->Finish_0->Ok_0.files.md == events[n - 1]->FileWritten_path
            &&& actions[n - 1]->Finish_0->Ok_0.metadata == states[n - 1].metadata
            &&& actions[n - 1]->Finish_0->Ok_0.transcript == states[n - 1].transcript
        }),
{
    let n = events.len() as int;
    assert(is_step(events, states, actions, n - 1));
    assert(states[n - 1].phase == Phase::WritingMarkdown);
    assert(n - 1 > 0);
    assert(is_step(events, states, actions, n - 2));
    assert(states[n - 2].phase == Phase::WritingJson);
    assert(n - 2 > 0);
    assert(is_step(events, states, actions, n - 3));
    assert(states[n - 3].phase == Phase::WritingText);
    assert(n - 3 > 0);
    assert(is_step(events, states, actions, n - 4));
    assert(states[n - 4].phase == Phase::Inferring);
    assert(n - 4 > 0);
    assert(is_step(events, states, actions, 0));
    lemma_run_moves_forward(start, events, states, actions, 1, n - 1);
    lemma_directory_comes_first(states[0], events[0], states[1], actions[0]);
    lemma_step_keeps_request_along(start, events, states, actions, n - 1);
    lemma_step_keeps_request_along(start, events, states, actions, n - 2);
    lemma_step_keeps_request_along(start, events, states, actions, n - 3);
    lemma_step_keeps_request_along(start, events, states, actions, n - 4);
    assert forall|i: int| 0 <= i < n - 4 implies !(#[trigger] actions[i] is WriteFile) by {
        lemma_run_moves_forward(start, events, states, actions, i, n - 4);
        assert(is_step(events, states, actions, i));
    }
}

/// What a run was started with is what every state of it holds.
pub proof fn lemma_step_keeps_request_along(
    start: PipelineView,
    events: Seq<EventView>,
    states: Seq<PipelineView>,
    actions: Seq<ActionView>,
    i: int,
)
    requires
        is_run(start, events, states, actions),
        0 <= i <= events.len(),
    ensures
        states[i].options == start.options,
        states[i].workspace == start.workspace,
        states[i].models_dir == start.models_dir,
        states[i].available_threads == start.available_threads,
    decreases i,
{
    if i > 0 {
        assert(is_step(events, states, actions, i - 1));
        lemma_step_keeps_request(states[i - 1], events[i - 1], states[i], actions[i - 1]);
        lemma_step_keeps_request_along(start, events, states, actions, i - 1);
    }
}

/// A run for a local file that is not there is over after three steps: the
/// directory is made, the path is looked at, and the run ends in the
/// `ResolveSource` stage. No tool is run, nothing is inferred and nothing
/// is written.
pub proof fn lemma_missing_local_file_run(
    start: PipelineView,
    events: Seq<EventView>,
    states: Seq<PipelineView>,
    actions: Seq<ActionView>,
)
    requires
        is_run(start, events, states, actions),
        start.phase == Phase::Idle,
        !is_remote(start.options.url),
        events.len() >= 3,
        events[0] == EventView::Start,
        events[1] == EventView::DirectoryReady,
        events[2] matches EventView::PathProbed { exists, .. } && !exists,
    ensures
        actions[0] == (ActionView::CreateDirectory { path: start.options.output_dir }),
        actions[1] == (ActionView::ProbePath { path: start.options.url }),
        actions[2] == ActionView::Finish(
            Err(
                PipelineErrorView {
                    stage: Stage::ResolveSource,
                    message: missing_file_message(start.options.url),
                },
            ),
        ),
        forall|i: int|
            0 <= i < actions.len() ==> !(#[trigger] actions[i] is RunTool) && !(actions[i]
                is Infer) && !(actions[i] is WriteFile),
{
    assert(is_step(events, states, actions, 0));
    assert(is_step(events, states, actions, 1));
    assert(is_step(events, states, actions, 2));
    assert(states[3].phase == Phase::Finished);
    assert forall|i: int| 0 <= i < actions.len() implies !(#[trigger] actions[i] is RunTool) && !(
    actions[i] is Infer) && !(actions[i] is WriteFile) by {
        if i >= 3 {
            lemma_finished_along(start, events, states, actions, 3, i);
            assert(is_step(events, states, actions, i));
        }
    }
}

/// Once a run is over it stays over.
pub proof fn lemma_finished_along(
    start: PipelineView,
    events: Seq<EventView>,
    states: Seq<PipelineView>,
    actions: Seq<ActionView>,
    i: int,
    j: int,
)
    requires
        is_run(start, events, states, actions),
        0 <= i <= j <= events.len(),
        states[i].phase == Phase::Finished,
    ensures
        states[j].phase == Phase::Finished,
    decreases j - i,
{
    if i < j {
        lemma_finished_along(start, events, states, actions, i, j - 1);
        assert(is_step(events, states, actions, j - 1));
    }
}

} // verus!
