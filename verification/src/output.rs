//! The three files of a transcript: their names and what they hold.

use vstd::prelude::*;
use crate::json::{
    empty_object, pretty_text, render_pretty, rendered, text_value, unsigned_value, value_model,
    with_member, JsonValue,
};
use crate::text::{chars_of, decimal, decimal_text, first_chars};
use crate::types::{VideoMetadata, VideoMetadataView, WhisperModel};

verus! {

/// The most characters that a file's base name may have.
pub const MAX_BASENAME_CHARS: usize = 150;

/// Whether `c` may not stand in a file name.
pub open spec fn is_illegal(c: char) -> bool {
    c == '/' || c == '\\' || c == ':' || c == '*' || c == '?' || c == '"' || c == '<' || c == '>'
        || c == '|'
}

/// `c`, or a hyphen in its place where it may not stand in a file name.
pub open spec fn safe_char(c: char) -> char {
    if is_illegal(c) {
        '-'
    } else {
        c
    }
}

/// The first 150 characters of `name`, each made safe.
pub open spec fn sanitized(name: Seq<char>) -> Seq<char> {
    first_chars(name, MAX_BASENAME_CHARS as nat).map_values(|c: char| safe_char(c))
}

/// The base name of the files of a video: its id, a hyphen and its title,
/// made safe.
pub open spec fn basename_of(video_id: Seq<char>, title: Seq<char>) -> Seq<char> {
    sanitized(video_id + "-"@ + title)
}

/// A name that is safe for a file: each of `/ \ : * ? " < > |` gives way to
/// a hyphen, and what goes beyond 150 characters is cut off.
pub fn sanitize_filename(name: &str) -> (out: String)
    ensures
        out@ == sanitized(name@),
{
    let chars = chars_of(name);
    let n: usize = if chars.len() <= MAX_BASENAME_CHARS {
        chars.len()
    } else {
        MAX_BASENAME_CHARS
    };
    let mut out = String::new();
    let mut i: usize = 0;
    while i < n
        invariant
            i <= n <= chars@.len(),
            out@ == chars@.take(i as int).map_values(|c: char| safe_char(c)),
        decreases n - i,
    {
        let c = chars[i];
        let safe = if c == '/' || c == '\\' || c == ':' || c == '*' || c == '?' || c == '"' || c
            == '<' || c == '>' || c == '|' {
            '-'
        } else {
            c
        };
        out.push(safe);
        i = i + 1;
        assert(out@ =~= chars@.take(i as int).map_values(|c: char| safe_char(c)));
    }
    proof {
        assert(chars@.take(chars@.len() as int) =~= chars@);
    }
    out
}

/// A sanitized name has at most 150 characters, at most as many as the name
/// it was made from, and none of them is illegal.
pub proof fn lemma_sanitized_is_safe(name: Seq<char>)
    ensures
        sanitized(name).len() <= MAX_BASENAME_CHARS,
        sanitized(name).len() <= name.len(),
        forall|i: int| 0 <= i < sanitized(name).len() ==> !is_illegal(#[trigger] sanitized(name)[i]),
{
}

/// Sanitizing twice gives what sanitizing once gives.
pub proof fn lemma_sanitized_idempotent(name: Seq<char>)
    ensures
        sanitized(sanitized(name)) == sanitized(name),
{
    assert(sanitized(sanitized(name)) =~= sanitized(name));
}

/// A name without illegal characters and of at most 150 characters is left
/// as it is.
pub proof fn lemma_sanitized_keeps_safe_names(name: Seq<char>)
    requires
        name.len() <= MAX_BASENAME_CHARS,
        forall|i: int| 0 <= i < name.len() ==> !is_illegal(#[trigger] name[i]),
    ensures
        sanitized(name) == name,
{
    assert(sanitized(name) =~= name);
}

/// The three files of a transcript.
#[derive(Debug, Clone, Copy, PartialEq, Eq, Structural)]
pub enum OutputKind {
    /// The transcript alone.
    Text,
    /// The description of the video, the transcript and the model.
    Json,
    /// A report to read.
    Markdown,
}

impl OutputKind {
    /// The ending of the file's name, with its dot.
    pub open spec fn extension(self) -> Seq<char> {
        match self {
            OutputKind::Text => ".txt"@,
            OutputKind::Json => ".json"@,
            OutputKind::Markdown => ".md"@,
        }
    }
}

/// The name of one of the files of a video.
pub open spec fn file_name_of(m: VideoMetadataView, kind: OutputKind) -> Seq<char> {
    basename_of(m.video_id, m.title) + kind.extension()
}

/// The report to read: the title as a heading, what is known of the video,
/// the transcript, and the model that made it.
pub open spec fn markdown_of(m: VideoMetadataView, transcript: Seq<char>, model: WhisperModel) -> Seq<
    char,
> {
    "# "@ + m.title + "\n\n**Video:** "@ + m.url + "\n**Platform:** "@ + m.platform
        + "\n**Channel:** "@ + m.channel + "\n**Video ID:** "@ + m.video_id + "\n**Duration:** "@
        + decimal_text(m.duration as nat) + "s\n**Published:** "@ + m.upload_date
        + "\n\n---\n\n## Transcript\n\n"@ + transcript
        + "\n\n---\n\n*Transcribed using whisper.cpp (Rust) - Model: "@ + model.name() + "*\n"@
}

/// The description of a video as a JSON object.
pub open spec fn metadata_json_of(m: VideoMetadataView) -> JsonValue {
    JsonValue::Object(
        Map::<Seq<char>, JsonValue>::empty().insert("video_id"@, JsonValue::Text(m.video_id)).insert(
            "title"@,
            JsonValue::Text(m.title),
        ).insert("channel"@, JsonValue::Text(m.channel)).insert(
            "duration"@,
            JsonValue::Integer(m.duration as int),
        ).insert("upload_date"@, JsonValue::Text(m.upload_date)).insert(
            "platform"@,
            JsonValue::Text(m.platform),
        ).insert("url"@, JsonValue::Text(m.url)),
    )
}

/// The JSON document of a transcript: the video's description under
/// `metadata`, the text under `transcript`, the model's name under `model`.
pub open spec fn document_of(m: VideoMetadataView, transcript: Seq<char>, model: WhisperModel) -> JsonValue {
    JsonValue::Object(
        Map::<Seq<char>, JsonValue>::empty().insert("metadata"@, metadata_json_of(m)).insert(
            "transcript"@,
            JsonValue::Text(transcript),
        ).insert("model"@, JsonValue::Text(model.name())),
    )
}

/// The base name of the files of a video.
pub fn basename(metadata: &VideoMetadata) -> (out: String)
    ensures
        out@ == basename_of(metadata@.video_id, metadata@.title),
{
    let mut name = metadata.video_id.clone();
    name.append("-");
    name.append(metadata.title.as_str());
    sanitize_filename(name.as_str())
}

/// The name of one of the files of a video: the base name and the ending
/// of the kind.
pub fn file_name(metadata: &VideoMetadata, kind: OutputKind) -> (out: String)
    ensures
        out@ == file_name_of(metadata@, kind),
{
    let mut out = basename(metadata);
    match kind {
        OutputKind::Text => out.append(".txt"),
        OutputKind::Json => out.append(".json"),
        OutputKind::Markdown => out.append(".md"),
    }
    out
}

/// The report to read.
pub fn markdown_report(metadata: &VideoMetadata, transcript: &str, model: WhisperModel) -> (out:
    String)
    ensures
        out@ == markdown_of(metadata@, transcript@, model),
{
    let mut out = String::from_str("# ");
    out.append(metadata.title.as_str());
    out.append("\n\n**Video:** ");
    out.append(metadata.url.as_str());
    out.append("\n**Platform:** ");
    out.append(metadata.platform.as_str());
    out.append("\n**Channel:** ");
    out.append(metadata.channel.as_str());
    out.append("\n**Video ID:** ");
    out.append(metadata.video_id.as_str());
    out.append("\n**Duration:** ");
    out.append(decimal(metadata.duration).as_str());
    out.append("s\n**Published:** ");
    out.append(metadata.upload_date.as_str());
    out.append("\n\n---\n\n## Transcript\n\n");
    out.append(transcript);
    out.append("\n\n---\n\n*Transcribed using whisper.cpp (Rust) - Model: ");
    out.append(model.as_str());
    out.append("*\n");
    out
}

/// The description of a video as a JSON object.
pub fn metadata_json(metadata: &VideoMetadata) -> (out: serde_json::Value)
    ensures
        value_model(out) == metadata_json_of(metadata@),
{
    let o = empty_object();
    let o = with_member(o, "video_id", text_value(metadata.video_id.as_str()));
    let o = with_member(o, "title", text_value(metadata.title.as_str()));
    let o = with_member(o, "channel", text_value(metadata.channel.as_str()));
    let o = with_member(o, "duration", unsigned_value(metadata.duration));
    let o = with_member(o, "upload_date", text_value(metadata.upload_date.as_str()));
    let o = with_member(o, "platform", text_value(metadata.platform.as_str()));
    with_member(o, "url", text_value(metadata.url.as_str()))
}

/// The JSON document of a transcript.
pub fn json_document(metadata: &VideoMetadata, transcript: &str, model: WhisperModel) -> (out:
    serde_json::Value)
    ensures
        value_model(out) == document_of(metadata@, transcript@, model),
{
    let o = empty_object();
    let o = with_member(o, "metadata", metadata_json(metadata));
    let o = with_member(o, "transcript", text_value(transcript));
    with_member(o, "model", text_value(model.as_str()))
}

/// The JSON document of a transcript as indented text. The result is
/// always `Ok`: the writer of the notation does not fail on a document.
pub fn json_content(metadata: &VideoMetadata, transcript: &str, model: WhisperModel) -> (out:
    Result<String, String>)
    ensures
        out is Ok,
        out->Ok_0@ == pretty_text(document_of(metadata@, transcript@, model)),
{
    let document = json_document(metadata, transcript, model);
    rendered(render_pretty(&document))
}

/// The three file names of a video share the base name, which is safe, and
/// differ in their endings alone.
pub proof fn lemma_file_names_share_basename(m: VideoMetadataView)
    ensures
        file_name_of(m, OutputKind::Text) == basename_of(m.video_id, m.title) + ".txt"@,
        file_name_of(m, OutputKind::Json) == basename_of(m.video_id, m.title) + ".json"@,
        file_name_of(m, OutputKind::Markdown) == basename_of(m.video_id, m.title) + ".md"@,
        basename_of(m.video_id, m.title).len() <= MAX_BASENAME_CHARS,
        forall|i: int|
            0 <= i < basename_of(m.video_id, m.title).len() ==> !is_illegal(
                #[trigger] basename_of(m.video_id, m.title)[i],
            ),
{
    lemma_sanitized_is_safe(m.video_id + "-"@ + m.title);
}

/// The JSON document of a transcript has the three members `metadata`,
/// `transcript` and `model`, and no other.
pub proof fn lemma_document_members(m: VideoMetadataView, transcript: Seq<char>, model: WhisperModel)
    ensures
        document_of(m, transcript, model) is Object,
        document_of(m, transcript, model)->Object_0.dom() =~= set![
            "metadata"@,
            "transcript"@,
            "model"@,
        ],
        document_of(m, transcript, model).member("metadata"@) == metadata_json_of(m),
        document_of(m, transcript, model).member("transcript"@) == JsonValue::Text(transcript),
        document_of(m, transcript, model).member("model"@) == JsonValue::Text(model.name()),
{
    reveal_strlit("metadata");
    reveal_strlit("transcript");
    reveal_strlit("model");
    assert("metadata"@ != "transcript"@) by {
        assert("metadata"@.len() != "transcript"@.len());
    }
    assert("metadata"@ != "model"@) by {
        assert("metadata"@.len() != "model"@.len());
    }
    assert("transcript"@ != "model"@) by {
        assert("transcript"@.len() != "model"@.len());
    }
}

} // verus!
