//! The dispatcher: from a request to what is to be done for it, and from
//! what was done to the response.
//!
//! The dispatcher performs nothing itself. A request that can be answered
//! at once is answered; for any other it says what the caller is to carry
//! out, and makes the response from the outcome. Every failure becomes a
//! response that carries an error; the id of the request is always handed
//! back as it came.

use vstd::prelude::*;
use crate::catalog::{
    contents_of, path_of, path_of_uri, read_result, resources_result,
};
use crate::engine::TranscriberEngine;
use crate::json::{
    empty_object, parsed_json, text_value, value_as_str, value_member, value_model, with_member,
    JsonValue,
};
use crate::pipeline::{PipelineError, PipelineErrorView};
use crate::protocol::{
    decode_request, decoded, model_of, request_defect, text_content, text_content_of, McpRequest,
    McpResponse, McpResponseView, EXECUTION_FAILED, INTERNAL_ERROR, METHOD_NOT_FOUND,
    MISSING_ARGUMENT, UNKNOWN_TOOL,
};
use crate::source::text_or;
use crate::text::{lowercase_of, same_text, trim, trimmed};
use crate::tools::{
    find_tool, success_text, success_text_of, tool_named, tools_result, tools_result_of, ToolKind,
    SUPPORTED_SITES,
};
use crate::types::{
    model_named, TranscriptionOptions, TranscriptionOptionsView, TranscriptionResult,
    TranscriptionResultView, WhisperModel,
};

verus! {

/// What is to be done for a request.
#[derive(Debug)]
pub enum Dispatch {
    /// Nothing: this is the response.
    Reply(McpResponse),
    /// Run the pipeline on `options`; the response is made by
    /// `transcription_reply`.
    Transcribe { id: Option<serde_json::Value>, options: TranscriptionOptions },
    /// Probe the tools and the weight files; the response is made by
    /// `handle_check_dependencies`.
    CheckDependencies { id: Option<serde_json::Value> },
    /// Walk `dir` for transcripts; the response is made by
    /// `transcripts_reply`.
    ListTranscripts { id: Option<serde_json::Value>, dir: String },
    /// Walk `dir` for resources; the response is made by
    /// `handle_list_resources`.
    ListResources { id: Option<serde_json::Value>, dir: String },
    /// Read the file at `path`; the response is made by `read_reply`.
    ReadResource { id: Option<serde_json::Value>, uri: String, path: String },
}

/// What is to be done for a request, whatever its id.
pub enum Plan {
    /// Answer at once with this result.
    Succeed(JsonValue),
    /// Answer at once with this error.
    Refuse(i32, Seq<char>),
    Transcribe(TranscriptionOptionsView),
    CheckDependencies,
    ListTranscripts(Seq<char>),
    ListResources(Seq<char>),
    ReadResource { uri: Seq<char>, path: Seq<char> },
}

/// What the server says of itself when a session begins.
pub open spec fn handshake_of() -> JsonValue {
    JsonValue::Object(
        Map::<Seq<char>, JsonValue>::empty().insert(
            "protocolVersion"@,
            JsonValue::Text("2024-11-05"@),
        ).insert(
            "capabilities"@,
            JsonValue::Object(
                Map::<Seq<char>, JsonValue>::empty().insert(
                    "tools"@,
                    JsonValue::Object(Map::<Seq<char>, JsonValue>::empty()),
                ).insert("resources"@, JsonValue::Object(Map::<Seq<char>, JsonValue>::empty())),
            ),
        ).insert(
            "serverInfo"@,
            JsonValue::Object(
                Map::<Seq<char>, JsonValue>::empty().insert(
                    "name"@,
                    JsonValue::Text("video-transcriber-mcp"@),
                ).insert("version"@, JsonValue::Text("0.1.0"@)),
            ),
        ),
    )
}

/// The model that the arguments of a call select: the one that `model`
/// names, whatever the case of its letters, and `Base` where it is absent,
/// is no text or names none.
pub open spec fn model_argument_of(args: JsonValue) -> WhisperModel {
    match args.text_member("model"@) {
        Some(m) => match model_named(lowercase_of(m)) {
            Some(model) => model,
            None => WhisperModel::Base,
        },
        None => WhisperModel::Base,
    }
}

/// The request that a call of `transcribe_video` for `url` makes: the
/// output directory is `dir` where the call names none.
pub open spec fn options_of(url: Seq<char>, args: JsonValue, dir: Seq<char>) -> TranscriptionOptionsView {
    TranscriptionOptionsView {
        url,
        output_dir: text_or(args, "output_dir"@, dir),
        model: model_argument_of(args),
        language: args.text_member("language"@),
    }
}

/// What is to be done for a call of the tool `name` with `args`.
pub open spec fn tool_plan_of(name: Option<Seq<char>>, args: JsonValue, dir: Seq<char>) -> Plan {
    match name {
        None => Plan::Refuse(MISSING_ARGUMENT, "Missing tool name"@),
        Some(name) => match tool_named(name) {
            None => Plan::Refuse(UNKNOWN_TOOL, "Unknown tool: "@ + name),
            Some(ToolKind::TranscribeVideo) => match args.text_member("url"@) {
                None => Plan::Refuse(MISSING_ARGUMENT, "Missing 'url' parameter"@),
                Some(url) => Plan::Transcribe(options_of(url, args, dir)),
            },
            Some(ToolKind::CheckDependencies) => Plan::CheckDependencies,
            Some(ToolKind::ListSupportedSites) => Plan::Succeed(text_content_of(SUPPORTED_SITES@)),
            Some(ToolKind::ListTranscripts) => Plan::ListTranscripts(
                text_or(args, "output_dir"@, dir),
            ),
        },
    }
}

/// What is to be done for a request of the given method and parameters.
pub open spec fn plan_of(method: Seq<char>, params: Option<JsonValue>, dir: Seq<char>) -> Plan {
    if method == "initialize"@ {
        Plan::Succeed(handshake_of())
    } else if method == "tools/list"@ {
        Plan::Succeed(tools_result_of(dir))
    } else if method == "tools/call"@ {
        match params {
            None => Plan::Refuse(MISSING_ARGUMENT, "Missing params"@),
            Some(p) => tool_plan_of(p.text_member("name"@), p.member("arguments"@), dir),
        }
    } else if method == "resources/list"@ {
        Plan::ListResources(dir)
    } else if method == "resources/read"@ {
        match params {
            None => Plan::Refuse(MISSING_ARGUMENT, "Missing params"@),
            Some(p) => match p.text_member("uri"@) {
                None => Plan::Refuse(MISSING_ARGUMENT, "Missing uri parameter"@),
                Some(uri) => Plan::ReadResource { uri, path: path_of(uri) },
            },
        }
    } else {
        Plan::Refuse(METHOD_NOT_FOUND, "Method not found: "@ + method)
    }
}

impl Dispatch {
    /// The id of the request that this is for.
    pub open spec fn id(self) -> Option<serde_json::Value> {
        match self {
            Dispatch::Reply(response) => response.id,
            Dispatch::Transcribe { id, .. } => id,
            Dispatch::CheckDependencies { id } => id,
            Dispatch::ListTranscripts { id, .. } => id,
            Dispatch::ListResources { id, .. } => id,
            Dispatch::ReadResource { id, .. } => id,
        }
    }

    /// What is to be done, whatever the id.
    pub open spec fn plan(self) -> Plan {
        match self {
            Dispatch::Reply(response) => match response@.error {
                Some(e) => Plan::Refuse(e.code, e.message),
                None => match response@.result {
                    Some(r) => Plan::Succeed(r),
                    None => Plan::Succeed(JsonValue::Null),
                },
            },
            Dispatch::Transcribe { id, options } => Plan::Transcribe(options@),
            Dispatch::CheckDependencies { id } => Plan::CheckDependencies,
            Dispatch::ListTranscripts { id, dir } => Plan::ListTranscripts(dir@),
            Dispatch::ListResources { id, dir } => Plan::ListResources(dir@),
            Dispatch::ReadResource { id, uri, path } => Plan::ReadResource {
                uri: uri@,
                path: path@,
            },
        }
    }

    /// Whether this is the response to a line that denotes no request: an
    /// internal error without an id, whose message begins with
    /// `Internal error: ` and goes on, where the line is JSON, with what
    /// the value lacks.
    pub open spec fn reports_bad_line(self, line: Seq<char>) -> bool {
        match self {
            Dispatch::Reply(response) => response.id is None && response@.result is None && (
            match response@.error {
                Some(e) => e.code == INTERNAL_ERROR && "Internal error: "@.is_prefix_of(e.message)
                    && (match parsed_json(line) {
                    Some(json) => e.message == "Internal error: "@ + request_defect(json),
                    None => true,
                }),
                None => false,
            }),
            _ => false,
        }
    }

    /// Whether this is for the request `id` and does what `plan` says; a
    /// response that it holds is well formed.
    pub open spec fn carries(self, id: Option<serde_json::Value>, plan: Plan) -> bool {
        &&& self.id() == id
        &&& self.plan() == plan
        &&& self matches Dispatch::Reply(response) ==> response@.well_formed() && response@.jsonrpc
            == "2.0"@
    }
}

/// The message of a transcription that failed.
pub open spec fn transcription_failure_of(e: PipelineErrorView) -> Seq<char> {
    "Transcription failed: "@ + e.description()
}

/// The response to a transcription.
pub open spec fn transcription_reply_of(
    id: Option<JsonValue>,
    outcome: Result<TranscriptionResultView, PipelineErrorView>,
) -> McpResponseView {
    match outcome {
        Ok(result) => McpResponseView::success(id, text_content_of(success_text_of(result))),
        Err(e) => McpResponseView::failure(id, EXECUTION_FAILED, transcription_failure_of(e)),
    }
}

/// The response to a reading of a resource.
pub open spec fn read_reply_of(id: Option<JsonValue>, uri: Seq<char>, content: Result<Seq<char>, Seq<char>>) -> McpResponseView {
    match content {
        Ok(text) => McpResponseView::success(id, contents_of(uri, text)),
        Err(cause) => McpResponseView::failure(
            id,
            EXECUTION_FAILED,
            "Failed to read file: "@ + cause,
        ),
    }
}

fn refuse(id: Option<serde_json::Value>, code: i32, message: &str) -> (out: Dispatch)
    ensures
        out.carries(id, Plan::Refuse(code, message@)),
{
    Dispatch::Reply(McpResponse::error(id, code, String::from_str(message)))
}

fn refuse_with(id: Option<serde_json::Value>, code: i32, what: &str, name: &str) -> (out: Dispatch)
    ensures
        out.carries(id, Plan::Refuse(code, what@ + name@)),
{
    let mut message = String::from_str(what);
    message.append(name);
    Dispatch::Reply(McpResponse::error(id, code, message))
}

fn succeed(id: Option<serde_json::Value>, result: serde_json::Value) -> (out: Dispatch)
    ensures
        out.carries(id, Plan::Succeed(value_model(result))),
{
    Dispatch::Reply(McpResponse::success(id, result))
}

fn text_argument(args: &serde_json::Value, key: &str) -> (out: Option<String>)
    ensures
        match out {
            Some(s) => value_model(*args).text_member(key@) == Some(s@),
            None => value_model(*args).text_member(key@) is None,
        },
{
    match value_as_str(value_member(args, key)) {
        Some(s) => Some(String::from_str(s)),
        None => None,
    }
}

/// The server: an engine, and the output directory that is taken where a
/// call names none.
#[derive(Debug, Clone)]
pub struct McpServer {
    pub transcriber: TranscriberEngine,
    pub default_output_dir: String,
}

impl McpServer {
    pub fn new(transcriber: TranscriberEngine, default_output_dir: String) -> (out: McpServer)
        ensures
            out.transcriber == transcriber,
            out.default_output_dir == default_output_dir,
    {
        McpServer { transcriber, default_output_dir }
    }

    /// The response to `initialize`.
    pub fn handle_initialize(&self, id: Option<serde_json::Value>) -> (out: McpResponse)
        ensures
            out.id == id,
            out@ == McpResponseView::success(model_of(id), handshake_of()),
    {
        let capabilities = empty_object();
        let capabilities = with_member(capabilities, "tools", empty_object());
        let capabilities = with_member(capabilities, "resources", empty_object());
        let info = empty_object();
        let info = with_member(info, "name", text_value("video-transcriber-mcp"));
        let info = with_member(info, "version", text_value("0.1.0"));
        let o = empty_object();
        let o = with_member(o, "protocolVersion", text_value("2024-11-05"));
        let o = with_member(o, "capabilities", capabilities);
        let o = with_member(o, "serverInfo", info);
        McpResponse::success(id, o)
    }

    /// The response to `tools/list`.
    pub fn handle_list_tools(&self, id: Option<serde_json::Value>) -> (out: McpResponse)
        ensures
            out.id == id,
            out@ == McpResponseView::success(
                model_of(id),
                tools_result_of(self.default_output_dir@),
            ),
    {
        McpResponse::success(id, tools_result(self.default_output_dir.as_str()))
    }

    /// The response to a call of `list_supported_sites`.
    pub fn handle_list_supported_sites(&self, id: Option<serde_json::Value>) -> (out: McpResponse)
        ensures
            out.id == id,
            out@ == McpResponseView::success(model_of(id), text_content_of(SUPPORTED_SITES@)),
    {
        McpResponse::success(id, text_content(SUPPORTED_SITES))
    }

    /// What is to be done for a call of `transcribe_video`: a call without
    /// a `url` that is a text is refused before anything is started.
    pub fn handle_transcribe_video(&self, id: Option<serde_json::Value>, args: &serde_json::Value) -> (out:
        Dispatch)
        ensures
            out.carries(
                id,
                tool_plan_of(
                    Some(ToolKind::TranscribeVideo.name()),
                    value_model(*args),
                    self.default_output_dir@,
                ),
            ),
    {
        proof {
            crate::tools::lemma_tools_found_by_name(ToolKind::TranscribeVideo);
        }
        let url = match text_argument(args, "url") {
            Some(url) => url,
            None => {
                return refuse(id, MISSING_ARGUMENT, "Missing 'url' parameter");
            },
        };
        let output_dir = match text_argument(args, "output_dir") {
            Some(dir) => dir,
            None => self.default_output_dir.clone(),
        };
        let model = WhisperModel::from_argument(value_as_str(value_member(args, "model")));
        let language = text_argument(args, "language");
        Dispatch::Transcribe { id, options: TranscriptionOptions { url, output_dir, model, language } }
    }

    /// What is to be done for a call of `list_transcripts`.
    pub fn handle_list_transcripts(&self, id: Option<serde_json::Value>, args: &serde_json::Value) -> (out:
        Dispatch)
        ensures
            out.carries(
                id,
                Plan::ListTranscripts(
                    text_or(value_model(*args), "output_dir"@, self.default_output_dir@),
                ),
            ),
    {
        let dir = match text_argument(args, "output_dir") {
            Some(dir) => dir,
            None => self.default_output_dir.clone(),
        };
        Dispatch::ListTranscripts { id, dir }
    }

    /// What is to be done for a call of the tool `name` with `args`.
    pub fn call_tool(&self, id: Option<serde_json::Value>, name: Option<&str>, args: &serde_json::Value) -> (out:
        Dispatch)
        ensures
            out.carries(
                id,
                tool_plan_of(
                    match name {
                        Some(n) => Some(n@),
                        None => None,
                    },
                    value_model(*args),
                    self.default_output_dir@,
                ),
            ),
    {
        let name = match name {
            Some(name) => name,
            None => {
                return refuse(id, MISSING_ARGUMENT, "Missing tool name");
            },
        };
        match find_tool(name) {
            None => refuse_with(id, UNKNOWN_TOOL, "Unknown tool: ", name),
            Some(ToolKind::TranscribeVideo) => {
                proof {
                    crate::tools::lemma_tools_found_by_name(ToolKind::TranscribeVideo);
                }
                self.handle_transcribe_video(id, args)
            },
            Some(ToolKind::CheckDependencies) => Dispatch::CheckDependencies { id },
            Some(ToolKind::ListSupportedSites) => Dispatch::Reply(
                self.handle_list_supported_sites(id),
            ),
            Some(ToolKind::ListTranscripts) => self.handle_list_transcripts(id, args),
        }
    }

    /// What is to be done for `tools/call`.
    pub fn handle_call_tool(&self, id: Option<serde_json::Value>, params: Option<serde_json::Value>) -> (out:
        Dispatch)
        ensures
            out.carries(id, plan_of("tools/call"@, model_of(params), self.default_output_dir@)),
    {
        proof {
            lemma_methods_differ();
        }
        match params {
            None => refuse(id, MISSING_ARGUMENT, "Missing params"),
            Some(p) => {
                let name = value_as_str(value_member(&p, "name"));
                self.call_tool(id, name, value_member(&p, "arguments"))
            },
        }
    }

    /// What is to be done for `resources/read`: the path is what follows
    /// `file://` in the URI, and the URI itself where it has no such
    /// beginning.
    pub fn handle_read_resource(&self, id: Option<serde_json::Value>, params: Option<serde_json::Value>) -> (out:
        Dispatch)
        ensures
            out.carries(id, plan_of("resources/read"@, model_of(params), self.default_output_dir@)),
    {
        proof {
            lemma_methods_differ();
        }
        match params {
            None => refuse(id, MISSING_ARGUMENT, "Missing params"),
            Some(p) => match text_argument(&p, "uri") {
                None => refuse(id, MISSING_ARGUMENT, "Missing uri parameter"),
                Some(uri) => {
                    let path = path_of_uri(uri.as_str());
                    Dispatch::ReadResource { id, uri, path }
                },
            },
        }
    }

    /// What is to be done for a request.
    pub fn handle_request(&self, request: McpRequest) -> (out: Dispatch)
        ensures
            out.carries(
                request.id,
                plan_of(request@.method, request@.params, self.default_output_dir@),
            ),
    {
        proof {
            lemma_methods_differ();
        }
        let McpRequest { jsonrpc, id, method, params } = request;
        if same_text(method.as_str(), "initialize") {
            Dispatch::Reply(self.handle_initialize(id))
        } else if same_text(method.as_str(), "tools/list") {
            Dispatch::Reply(self.handle_list_tools(id))
        } else if same_text(method.as_str(), "tools/call") {
            self.handle_call_tool(id, params)
        } else if same_text(method.as_str(), "resources/list") {
            Dispatch::ListResources { id, dir: self.default_output_dir.clone() }
        } else if same_text(method.as_str(), "resources/read") {
            self.handle_read_resource(id, params)
        } else {
            refuse_with(id, METHOD_NOT_FOUND, "Method not found: ", method.as_str())
        }
    }

    /// What is to be done for a line of input. A line of white space alone
    /// is passed over. A line that denotes no request is answered with an
    /// internal error that carries no id; any other line is handled as the
    /// request it denotes.
    pub fn handle_line(&self, line: &str) -> (out: Option<Dispatch>)
        ensures
            trimmed(line@).len() == 0 <==> out is None,
            out matches Some(d) ==> match decoded(line@) {
                Some(request) => model_of(d.id()) == request.id && d.plan() == plan_of(
                    request.method,
                    request.params,
                    self.default_output_dir@,
                ),
                None => d.reports_bad_line(line@),
            },
            out matches Some(Dispatch::Reply(response)) ==> response@.well_formed(),
    {
        if trim(line).as_str().unicode_len() == 0 {
            return None;
        }
        match decode_request(line) {
            Ok(request) => Some(self.handle_request(request)),
            Err(cause) => {
                let mut message = String::from_str("Internal error: ");
                message.append(cause.as_str());
                proof {
                    assert(message@.subrange(0, "Internal error: "@.len() as int)
                        =~= "Internal error: "@);
                }
                Some(Dispatch::Reply(McpResponse::error(None, INTERNAL_ERROR, message)))
            },
        }
    }

    /// The response to a call of `check_dependencies`, from the report.
    pub fn handle_check_dependencies(&self, id: Option<serde_json::Value>, report: &str) -> (out:
        McpResponse)
        ensures
            out.id == id,
            out@ == McpResponseView::success(
                model_of(id),
                text_content_of("✅ Dependency Check:\n\n"@ + report@),
            ),
    {
        let mut text = String::from_str("✅ Dependency Check:\n\n");
        text.append(report);
        McpResponse::success(id, text_content(text.as_str()))
    }

    /// The response to `resources/list`, from the resources that were found.
    pub fn handle_list_resources(&self, id: Option<serde_json::Value>, entries: Vec<serde_json::Value>) -> (out:
        McpResponse)
        ensures
            out.id == id,
            out@ == McpResponseView::success(
                model_of(id),
                JsonValue::object1(
                    "resources"@,
                    JsonValue::Array(entries@.map_values(|v: serde_json::Value| value_model(v))),
                ),
            ),
    {
        McpResponse::success(id, resources_result(entries))
    }
}

/// The response to a call of `transcribe_video`, from the outcome of the
/// run: what is told of the transcript, or the error with the stage that
/// the run failed in.
pub fn transcription_reply(id: Option<serde_json::Value>, outcome: &Result<TranscriptionResult, PipelineError>) -> (out:
    McpResponse)
    ensures
        out.id == id,
        out@ == transcription_reply_of(
            model_of(id),
            match *outcome {
                Ok(r) => Ok(r@),
                Err(e) => Err(e@),
            },
        ),
{
    match outcome {
        Ok(result) => McpResponse::success(id, text_content(success_text(result).as_str())),
        Err(e) => {
            let mut message = String::from_str("Transcription failed: ");
            message.append(e.describe().as_str());
            McpResponse::error(id, EXECUTION_FAILED, message)
        },
    }
}

/// The response to a call of `list_transcripts`, from what is said of the
/// transcripts.
pub fn transcripts_reply(id: Option<serde_json::Value>, text: &str) -> (out: McpResponse)
    ensures
        out.id == id,
        out@ == McpResponseView::success(model_of(id), text_content_of(text@)),
{
    McpResponse::success(id, text_content(text))
}

/// The response to `resources/read`, from what the file holds or from why
/// it could not be read.
pub fn read_reply(id: Option<serde_json::Value>, uri: &str, content: &Result<String, String>) -> (out:
    McpResponse)
    ensures
        out.id == id,
        out@ == read_reply_of(
            model_of(id),
            uri@,
            match *content {
                Ok(text) => Ok(text@),
                Err(cause) => Err(cause@),
            },
        ),
{
    match content {
        Ok(text) => McpResponse::success(id, read_result(uri, text.as_str())),
        Err(cause) => {
            let mut message = String::from_str("Failed to read file: ");
            message.append(cause.as_str());
            McpResponse::error(id, EXECUTION_FAILED, message)
        },
    }
}

/// The names of the five methods differ from one another.
pub proof fn lemma_methods_differ()
    ensures
        "initialize"@ != "tools/list"@,
        "initialize"@ != "tools/call"@,
        "initialize"@ != "resources/list"@,
        "initialize"@ != "resources/read"@,
        "tools/list"@ != "tools/call"@,
        "tools/list"@ != "resources/list"@,
        "tools/list"@ != "resources/read"@,
        "tools/call"@ != "resources/list"@,
        "tools/call"@ != "resources/read"@,
        "resources/list"@ != "resources/read"@,
{
    reveal_strlit("initialize");
    reveal_strlit("tools/list");
    reveal_strlit("tools/call");
    reveal_strlit("resources/list");
    reveal_strlit("resources/read");
    assert("initialize"@.len() == 10);
    assert("tools/list"@.len() == 10);
    assert("tools/call"@.len() == 10);
    assert("resources/list"@.len() == 14);
    assert("resources/read"@.len() == 14);
    assert("initialize"@[0] == 'i');
    assert("tools/list"@[0] == 't');
    assert("tools/call"@[0] == 't');
    assert("tools/list"@[6] == 'l');
    assert("tools/call"@[6] == 'c');
    assert("resources/list"@[10] == 'l');
    assert("resources/read"@[10] == 'r');
}

/// A request whose method is none of the five is refused as an unknown
/// method, whatever its parameters.
pub proof fn lemma_unknown_method(method: Seq<char>, params: Option<JsonValue>, dir: Seq<char>)
    requires
        method != "initialize"@,
        method != "tools/list"@,
        method != "tools/call"@,
        method != "resources/list"@,
        method != "resources/read"@,
    ensures
        plan_of(method, params, dir) == Plan::Refuse(
            METHOD_NOT_FOUND,
            "Method not found: "@ + method,
        ),
{
}

/// A call without a tool's name, a call of a tool that is not there and a
/// call of `transcribe_video` without a `url` are refused, each with a code
/// of its own kind and none with the code of an unknown method. A run is
/// started only for a call that has a `url`, so nothing is started for a
/// call that is refused.
pub proof fn lemma_tool_refusals(name: Option<Seq<char>>, args: JsonValue, dir: Seq<char>)
    ensures
        name is None ==> tool_plan_of(name, args, dir) == Plan::Refuse(
            MISSING_ARGUMENT,
            "Missing tool name"@,
        ),
        name is Some && tool_named(name->Some_0) is None ==> tool_plan_of(name, args, dir)
            == Plan::Refuse(UNKNOWN_TOOL, "Unknown tool: "@ + name->Some_0),
        name is Some && tool_named(name->Some_0) == Some(ToolKind::TranscribeVideo)
            && args.text_member("url"@) is None ==> tool_plan_of(name, args, dir) == Plan::Refuse(
            MISSING_ARGUMENT,
            "Missing 'url' parameter"@,
        ),
        tool_plan_of(name, args, dir) is Transcribe ==> args.text_member("url"@) == Some(
            tool_plan_of(name, args, dir)->Transcribe_0.url,
        ),
        tool_plan_of(name, args, dir) is Refuse ==> tool_plan_of(name, args, dir)->Refuse_0
            != METHOD_NOT_FOUND,
        MISSING_ARGUMENT != UNKNOWN_TOOL,
{
}

/// A call of `transcribe_video` that has a `url` starts a run whatever its
/// other arguments are: a `model` that names no size selects `Base`, and no
/// error comes of it.
pub proof fn lemma_unknown_model_is_base(url: Seq<char>, args: JsonValue, dir: Seq<char>)
    requires
        args.text_member("url"@) == Some(url),
    ensures
        tool_plan_of(Some(ToolKind::TranscribeVideo.name()), args, dir) == Plan::Transcribe(
            options_of(url, args, dir),
        ),
        args.text_member("model"@) is None ==> options_of(url, args, dir).model
            == WhisperModel::Base,
        args.text_member("model"@) is Some && model_named(
            lowercase_of(args.text_member("model"@)->Some_0),
        ) is None ==> options_of(url, args, dir).model == WhisperModel::Base,
        args.text_member("model"@) is Some && model_named(
            lowercase_of(args.text_member("model"@)->Some_0),
        ) is Some ==> Some(options_of(url, args, dir).model) == model_named(
            lowercase_of(args.text_member("model"@)->Some_0),
        ),
{
    crate::tools::lemma_tools_found_by_name(ToolKind::TranscribeVideo);
}

/// The responses that are made from outcomes are well formed and carry the
/// id they were made for.
pub proof fn lemma_replies_well_formed(
    id: Option<JsonValue>,
    outcome: Result<TranscriptionResultView, PipelineErrorView>,
    uri: Seq<char>,
    content: Result<Seq<char>, Seq<char>>,
)
    ensures
        transcription_reply_of(id, outcome).well_formed(),
        transcription_reply_of(id, outcome).id == id,
        outcome is Ok <==> transcription_reply_of(id, outcome).result is Some,
        read_reply_of(id, uri, content).well_formed(),
        read_reply_of(id, uri, content).id == id,
        content is Ok <==> read_reply_of(id, uri, content).result is Some,
{
}

} // verus!
