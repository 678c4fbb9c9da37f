//! The tools that the server offers: their names, what they say of
//! themselves, and the arguments they take.

use vstd::prelude::*;
use crate::json::{array_value, empty_object, text_value, value_model, with_member, JsonValue};
use crate::protocol::McpTool;
use crate::text::{decimal, decimal_text, same_text};
use crate::types::{TranscriptionResult, TranscriptionResultView};

verus! {

pub const TRANSCRIBE_VIDEO: &'static str = "transcribe_video";

pub const CHECK_DEPENDENCIES: &'static str = "check_dependencies";

pub const LIST_SUPPORTED_SITES: &'static str = "list_supported_sites";

pub const LIST_TRANSCRIPTS: &'static str = "list_transcripts";

/// The four tools.
#[derive(Debug, Clone, Copy, PartialEq, Eq, Structural)]
pub enum ToolKind {
    TranscribeVideo,
    CheckDependencies,
    ListSupportedSites,
    ListTranscripts,
}

impl ToolKind {
    /// The name by which the tool is called.
    pub open spec fn name(self) -> Seq<char> {
        match self {
            ToolKind::TranscribeVideo => TRANSCRIBE_VIDEO@,
            ToolKind::CheckDependencies => CHECK_DEPENDENCIES@,
            ToolKind::ListSupportedSites => LIST_SUPPORTED_SITES@,
            ToolKind::ListTranscripts => LIST_TRANSCRIPTS@,
        }
    }
}

/// The tool of the given name, if there is one.
pub open spec fn tool_named(name: Seq<char>) -> Option<ToolKind> {
    if name == TRANSCRIBE_VIDEO@ {
        Some(ToolKind::TranscribeVideo)
    } else if name == CHECK_DEPENDENCIES@ {
        Some(ToolKind::CheckDependencies)
    } else if name == LIST_SUPPORTED_SITES@ {
        Some(ToolKind::ListSupportedSites)
    } else if name == LIST_TRANSCRIPTS@ {
        Some(ToolKind::ListTranscripts)
    } else {
        None
    }
}

/// The tool of the given name, if there is one.
pub fn find_tool(name: &str) -> (out: Option<ToolKind>)
    ensures
        out == tool_named(name@),
{
    if same_text(name, TRANSCRIBE_VIDEO) {
        Some(ToolKind::TranscribeVideo)
    } else if same_text(name, CHECK_DEPENDENCIES) {
        Some(ToolKind::CheckDependencies)
    } else if same_text(name, LIST_SUPPORTED_SITES) {
        Some(ToolKind::ListSupportedSites)
    } else if same_text(name, LIST_TRANSCRIPTS) {
        Some(ToolKind::ListTranscripts)
    } else {
        None
    }
}

pub const TRANSCRIBE_VIDEO_DESCRIPTION: &'static str =
    "Transcribe videos from 1000+ platforms (YouTube, Vimeo, TikTok, Twitter, etc.) or local video files using whisper.cpp (4-10x faster than Python whisper!). Downloads/extracts audio and generates transcript in TXT, JSON, and Markdown formats.";

pub const CHECK_DEPENDENCIES_DESCRIPTION: &'static str =
    "Check if all required dependencies (yt-dlp, ffmpeg, whisper models) are installed";

pub const LIST_SUPPORTED_SITES_DESCRIPTION: &'static str =
    "List all video platforms supported by yt-dlp (1000+ sites including YouTube, Vimeo, TikTok, Twitter, Facebook, Instagram, educational platforms, and more)";

pub const LIST_TRANSCRIPTS_DESCRIPTION: &'static str =
    "List all available transcripts in the output directory";

pub const URL_DESCRIPTION: &'static str =
    "Video URL from any supported platform OR absolute/relative path to a local video file (mp4, avi, mov, mkv, etc.)";

pub const MODEL_DESCRIPTION: &'static str =
    "Whisper model to use. Larger models are more accurate but slower. Default: 'base'";

pub const LANGUAGE_DESCRIPTION: &'static str =
    "Language code (ISO 639-1: en, es, fr, de, etc.) or 'auto' for automatic detection. Default: 'auto'";

pub const OUTPUT_DIR_DESCRIPTION: &'static str = "Optional output directory path. Defaults to ";

pub const SUPPORTED_SITES: &'static str =
    "📺 Supported Video Platforms (1000+ total)\n\n**Popular platforms include:**\n- YouTube\n- Vimeo\n- TikTok\n- Twitter/X\n- Facebook\n- Instagram\n- Twitch\n- Dailymotion\n- Reddit\n- LinkedIn\n- Many educational and conference platforms\n\n**Total: 1000+ supported extractors**\n\nYou can transcribe videos from any of these platforms!";

impl ToolKind {
    /// What the tool says of itself.
    pub open spec fn description(self) -> Seq<char> {
        match self {
            ToolKind::TranscribeVideo => TRANSCRIBE_VIDEO_DESCRIPTION@,
            ToolKind::CheckDependencies => CHECK_DEPENDENCIES_DESCRIPTION@,
            ToolKind::ListSupportedSites => LIST_SUPPORTED_SITES_DESCRIPTION@,
            ToolKind::ListTranscripts => LIST_TRANSCRIPTS_DESCRIPTION@,
        }
    }

    /// The arguments that the tool takes, as a schema; `dir` is the output
    /// directory that is taken where a call names none.
    pub open spec fn schema(self, dir: Seq<char>) -> JsonValue {
        match self {
            ToolKind::TranscribeVideo => transcribe_schema_of(dir),
            ToolKind::CheckDependencies => object_schema_of(Map::<Seq<char>, JsonValue>::empty()),
            ToolKind::ListSupportedSites => object_schema_of(Map::<Seq<char>, JsonValue>::empty()),
            ToolKind::ListTranscripts => object_schema_of(
                Map::<Seq<char>, JsonValue>::empty().insert(
                    "output_dir"@,
                    text_property_of(OUTPUT_DIR_DESCRIPTION@ + dir),
                ),
            ),
        }
    }
}

/// The schema of an argument that is a text.
pub open spec fn text_property_of(description: Seq<char>) -> JsonValue {
    JsonValue::Object(
        Map::<Seq<char>, JsonValue>::empty().insert("type"@, JsonValue::Text("string"@)).insert(
            "description"@,
            JsonValue::Text(description),
        ),
    )
}

/// The schema of an object with the given properties, none of them
/// required.
pub open spec fn object_schema_of(properties: Map<Seq<char>, JsonValue>) -> JsonValue {
    JsonValue::Object(
        Map::<Seq<char>, JsonValue>::empty().insert("type"@, JsonValue::Text("object"@)).insert(
            "properties"@,
            JsonValue::Object(properties),
        ),
    )
}

/// The names of the five model sizes, as a schema lists them.
pub open spec fn model_names_of() -> JsonValue {
    JsonValue::Array(
        seq![
            JsonValue::Text("tiny"@),
            JsonValue::Text("base"@),
            JsonValue::Text("small"@),
            JsonValue::Text("medium"@),
            JsonValue::Text("large"@),
        ],
    )
}

/// The schema of the `model` argument: a text, one of the five names.
pub open spec fn model_property_of() -> JsonValue {
    JsonValue::Object(
        Map::<Seq<char>, JsonValue>::empty().insert("type"@, JsonValue::Text("string"@)).insert(
            "enum"@,
            model_names_of(),
        ).insert("description"@, JsonValue::Text(MODEL_DESCRIPTION@)),
    )
}

/// The properties of a call of `transcribe_video`.
pub open spec fn transcribe_properties_of(dir: Seq<char>) -> Map<Seq<char>, JsonValue> {
    Map::<Seq<char>, JsonValue>::empty().insert("url"@, text_property_of(URL_DESCRIPTION@)).insert(
        "output_dir"@,
        text_property_of(OUTPUT_DIR_DESCRIPTION@ + dir),
    ).insert("model"@, model_property_of()).insert(
        "language"@,
        text_property_of(LANGUAGE_DESCRIPTION@),
    )
}

/// The schema of a call of `transcribe_video`: of its four arguments only
/// `url` is required.
pub open spec fn transcribe_schema_of(dir: Seq<char>) -> JsonValue {
    JsonValue::Object(
        Map::<Seq<char>, JsonValue>::empty().insert("type"@, JsonValue::Text("object"@)).insert(
            "properties"@,
            JsonValue::Object(transcribe_properties_of(dir)),
        ).insert("required"@, JsonValue::Array(seq![JsonValue::Text("url"@)])),
    )
}

/// The four tools in the order in which they are listed.
pub open spec fn tool_kinds() -> Seq<ToolKind> {
    seq![
        ToolKind::TranscribeVideo,
        ToolKind::CheckDependencies,
        ToolKind::ListSupportedSites,
        ToolKind::ListTranscripts,
    ]
}

/// Whether `tool` describes the tool `kind` for the default directory
/// `dir`.
pub open spec fn describes(tool: McpTool, kind: ToolKind, dir: Seq<char>) -> bool {
    &&& tool.name@ == kind.name()
    &&& tool.description@ == kind.description()
    &&& value_model(tool.input_schema) == kind.schema(dir)
}

/// A tool as a JSON object.
pub open spec fn tool_json_of(kind: ToolKind, dir: Seq<char>) -> JsonValue {
    JsonValue::Object(
        Map::<Seq<char>, JsonValue>::empty().insert("name"@, JsonValue::Text(kind.name())).insert(
            "description"@,
            JsonValue::Text(kind.description()),
        ).insert("input_schema"@, kind.schema(dir)),
    )
}

/// The list of the tools as a result.
pub open spec fn tools_result_of(dir: Seq<char>) -> JsonValue {
    JsonValue::object1(
        "tools"@,
        JsonValue::Array(tool_kinds().map_values(|k: ToolKind| tool_json_of(k, dir))),
    )
}

fn text_property(description: &str) -> (out: serde_json::Value)
    ensures
        value_model(out) == text_property_of(description@),
{
    let o = empty_object();
    let o = with_member(o, "type", text_value("string"));
    with_member(o, "description", text_value(description))
}

fn object_schema(properties: serde_json::Value) -> (out: serde_json::Value)
    requires
        value_model(properties) is Object,
    ensures
        value_model(out) == object_schema_of(value_model(properties)->Object_0),
{
    let o = empty_object();
    let o = with_member(o, "type", text_value("object"));
    with_member(o, "properties", properties)
}

fn output_dir_property(dir: &str) -> (out: serde_json::Value)
    ensures
        value_model(out) == text_property_of(OUTPUT_DIR_DESCRIPTION@ + dir@),
{
    let mut description = String::from_str(OUTPUT_DIR_DESCRIPTION);
    description.append(dir);
    text_property(description.as_str())
}

fn model_property() -> (out: serde_json::Value)
    ensures
        value_model(out) == model_property_of(),
{
    let mut names: Vec<serde_json::Value> = Vec::new();
    names.push(text_value("tiny"));
    names.push(text_value("base"));
    names.push(text_value("small"));
    names.push(text_value("medium"));
    names.push(text_value("large"));
    let list = array_value(names);
    assert(value_model(list)->Array_0 =~= model_names_of()->Array_0);
    let o = empty_object();
    let o = with_member(o, "type", text_value("string"));
    let o = with_member(o, "enum", list);
    with_member(o, "description", text_value(MODEL_DESCRIPTION))
}

/// The schema of the arguments of a tool.
pub fn tool_schema(kind: ToolKind, dir: &str) -> (out: serde_json::Value)
    ensures
        value_model(out) == kind.schema(dir@),
{
    match kind {
        ToolKind::TranscribeVideo => {
            let p = empty_object();
            let p = with_member(p, "url", text_property(URL_DESCRIPTION));
            let p = with_member(p, "output_dir", output_dir_property(dir));
            let p = with_member(p, "model", model_property());
            let p = with_member(p, "language", text_property(LANGUAGE_DESCRIPTION));
            let mut required: Vec<serde_json::Value> = Vec::new();
            required.push(text_value("url"));
            let required = array_value(required);
            assert(value_model(required)->Array_0 =~= seq![JsonValue::Text("url"@)]);
            let o = empty_object();
            let o = with_member(o, "type", text_value("object"));
            let o = with_member(o, "properties", p);
            with_member(o, "required", required)
        },
        ToolKind::CheckDependencies => object_schema(empty_object()),
        ToolKind::ListSupportedSites => object_schema(empty_object()),
        ToolKind::ListTranscripts => {
            let p = with_member(empty_object(), "output_dir", output_dir_property(dir));
            object_schema(p)
        },
    }
}

/// What is told of one tool.
pub fn describe_tool(kind: ToolKind, dir: &str) -> (out: McpTool)
    ensures
        describes(out, kind, dir@),
{
    let (name, description) = match kind {
        ToolKind::TranscribeVideo => (TRANSCRIBE_VIDEO, TRANSCRIBE_VIDEO_DESCRIPTION),
        ToolKind::CheckDependencies => (CHECK_DEPENDENCIES, CHECK_DEPENDENCIES_DESCRIPTION),
        ToolKind::ListSupportedSites => (LIST_SUPPORTED_SITES, LIST_SUPPORTED_SITES_DESCRIPTION),
        ToolKind::ListTranscripts => (LIST_TRANSCRIPTS, LIST_TRANSCRIPTS_DESCRIPTION),
    };
    McpTool {
        name: String::from_str(name),
        description: String::from_str(description),
        input_schema: tool_schema(kind, dir),
    }
}

/// The four tools, in the order in which they are listed. `dir` is the
/// output directory that is taken where a call names none.
pub fn list_tools(dir: &str) -> (out: Vec<McpTool>)
    ensures
        out@.len() == tool_kinds().len(),
        forall|i: int| 0 <= i < out@.len() ==> describes(#[trigger] out@[i], tool_kinds()[i], dir@),
{
    let mut tools: Vec<McpTool> = Vec::new();
    tools.push(describe_tool(ToolKind::TranscribeVideo, dir));
    tools.push(describe_tool(ToolKind::CheckDependencies, dir));
    tools.push(describe_tool(ToolKind::ListSupportedSites, dir));
    tools.push(describe_tool(ToolKind::ListTranscripts, dir));
    tools
}

fn tool_json(tool: &McpTool) -> (out: serde_json::Value)
    ensures
        value_model(out) == JsonValue::Object(
            Map::<Seq<char>, JsonValue>::empty().insert("name"@, JsonValue::Text(tool.name@)).insert(
                "description"@,
                JsonValue::Text(tool.description@),
            ).insert("input_schema"@, value_model(tool.input_schema)),
        ),
{
    let o = empty_object();
    let o = with_member(o, "name", text_value(tool.name.as_str()));
    let o = with_member(o, "description", text_value(tool.description.as_str()));
    with_member(o, "input_schema", tool.input_schema.clone())
}

/// The list of the tools as a result.
pub fn tools_result(dir: &str) -> (out: serde_json::Value)
    ensures
        value_model(out) == tools_result_of(dir@),
{
    let tools = list_tools(dir);
    let mut items: Vec<serde_json::Value> = Vec::new();
    let mut i: usize = 0;
    while i < tools.len()
        invariant
            i <= tools.len(),
            tools@.len() == tool_kinds().len(),
            forall|k: int|
                0 <= k < tools@.len() ==> describes(#[trigger] tools@[k], tool_kinds()[k], dir@),
            items@.len() == i,
            forall|k: int|
                0 <= k < i ==> value_model(#[trigger] items@[k]) == tool_json_of(
                    tool_kinds()[k],
                    dir@,
                ),
        decreases tools.len() - i,
    {
        items.push(tool_json(&tools[i]));
        i = i + 1;
    }
    let list = array_value(items);
    assert(value_model(list)->Array_0 =~= tool_kinds().map_values(
        |k: ToolKind| tool_json_of(k, dir@),
    ));
    with_member(empty_object(), "tools", list)
}

/// What is told of a finished transcription: the video, the settings, the
/// three files, the preview and the number of words.
pub open spec fn success_text_of(r: TranscriptionResultView) -> Seq<char> {
    "✅ Video transcribed successfully!\n\n**Video Details:**\n- Title: "@ + r.metadata.title
        + "\n- Platform: "@ + r.metadata.platform + "\n- Duration: "@ + decimal_text(
        r.metadata.duration as nat,
    ) + "s\n\n**Transcription Settings:**\n- Model: "@ + r.model_used.label()
        + "\n- Engine: whisper.cpp (Rust)\n\n**Output Files:**\n- Text: "@ + r.files.txt
        + "\n- JSON: "@ + r.files.json + "\n- Markdown: "@ + r.files.md
        + "\n\n**Transcript Preview:**\n"@ + r.transcript_preview + "\n\n**Full transcript has "@
        + decimal_text(r.word_count as nat) + " words.**"@
}

/// What is told of a finished transcription.
pub fn success_text(result: &TranscriptionResult) -> (out: String)
    ensures
        out@ == success_text_of(result@),
{
    let mut out = String::from_str(
        "✅ Video transcribed successfully!\n\n**Video Details:**\n- Title: ",
    );
    out.append(result.metadata.title.as_str());
    out.append("\n- Platform: ");
    out.append(result.metadata.platform.as_str());
    out.append("\n- Duration: ");
    out.append(decimal(result.metadata.duration).as_str());
    out.append("s\n\n**Transcription Settings:**\n- Model: ");
    out.append(result.model_used.debug_name());
    out.append("\n- Engine: whisper.cpp (Rust)\n\n**Output Files:**\n- Text: ");
    out.append(result.files.txt.as_str());
    out.append("\n- JSON: ");
    out.append(result.files.json.as_str());
    out.append("\n- Markdown: ");
    out.append(result.files.md.as_str());
    out.append("\n\n**Transcript Preview:**\n");
    out.append(result.transcript_preview.as_str());
    out.append("\n\n**Full transcript has ");
    out.append(decimal(result.word_count as u64).as_str());
    out.append(" words.**");
    out
}

/// Every tool is found by its own name, and the four names differ.
pub proof fn lemma_tools_found_by_name(kind: ToolKind)
    ensures
        tool_named(kind.name()) == Some(kind),
{
    reveal_strlit("transcribe_video");
    reveal_strlit("check_dependencies");
    reveal_strlit("list_supported_sites");
    reveal_strlit("list_transcripts");
    assert(TRANSCRIBE_VIDEO@.len() == 16);
    assert(CHECK_DEPENDENCIES@.len() == 18);
    assert(LIST_SUPPORTED_SITES@.len() == 20);
    assert(LIST_TRANSCRIPTS@.len() == 16);
    assert(TRANSCRIBE_VIDEO@[0] == 't');
    assert(LIST_TRANSCRIPTS@[0] == 'l');
}

} // verus!
