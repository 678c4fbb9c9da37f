//! The envelopes of the protocol: requests, responses and errors, how a
//! line of text becomes a request and how a response becomes a line.

use vstd::prelude::*;
use crate::json::{
    array_value, compact_text, empty_object, error_text, null_value, parse_value, parsed_json,
    render_compact, rendered, signed_value, text_value, value_as_str, value_is_null,
    value_is_object, value_member, value_model, with_member, JsonValue,
};

verus! {

/// The version of the envelope format.
pub open spec fn envelope_version() -> Seq<char> {
    "2.0"@
}

/// The code of a request that names no known method.
pub const METHOD_NOT_FOUND: i32 = -32601;

/// The code of a call that names no known tool.
pub const UNKNOWN_TOOL: i32 = -32602;

/// The code of a line that is no request.
pub const INTERNAL_ERROR: i32 = -32603;

/// The code of a request that lacks a required argument.
pub const MISSING_ARGUMENT: i32 = -32600;

/// The code of an operation that was carried out and failed.
pub const EXECUTION_FAILED: i32 = -32000;

/// A tool and the arguments it takes.
#[derive(Debug, Clone)]
pub struct McpTool {
    pub name: String,
    pub description: String,
    pub input_schema: serde_json::Value,
}

/// A request.
#[derive(Debug, Clone)]
pub struct McpRequest {
    /// The version of the envelope format.
    pub jsonrpc: String,
    pub id: Option<serde_json::Value>,
    pub method: String,
    pub params: Option<serde_json::Value>,
}

/// An error, as a response carries it.
#[derive(Debug, Clone, PartialEq, Eq)]
pub struct McpError {
    pub code: i32,
    pub message: String,
}

/// A response: it carries a result or an error, never both and never
/// neither.
#[derive(Debug, Clone)]
pub struct McpResponse {
    pub jsonrpc: String,
    pub id: Option<serde_json::Value>,
    pub result: Option<serde_json::Value>,
    pub error: Option<McpError>,
}

/// What a value that may be absent holds.
pub open spec fn model_of(v: Option<serde_json::Value>) -> Option<JsonValue> {
    match v {
        Some(v) => Some(value_model(v)),
        None => None,
    }
}

pub struct McpRequestView {
    pub jsonrpc: Seq<char>,
    pub id: Option<JsonValue>,
    pub method: Seq<char>,
    pub params: Option<JsonValue>,
}

impl View for McpRequest {
    type V = McpRequestView;

    open spec fn view(&self) -> McpRequestView {
        McpRequestView {
            jsonrpc: self.jsonrpc@,
            id: model_of(self.id),
            method: self.method@,
            params: model_of(self.params),
        }
    }
}

pub struct McpErrorView {
    pub code: i32,
    pub message: Seq<char>,
}

impl View for McpError {
    type V = McpErrorView;

    open spec fn view(&self) -> McpErrorView {
        McpErrorView { code: self.code, message: self.message@ }
    }
}

pub struct McpResponseView {
    pub jsonrpc: Seq<char>,
    pub id: Option<JsonValue>,
    pub result: Option<JsonValue>,
    pub error: Option<McpErrorView>,
}

impl View for McpResponse {
    type V = McpResponseView;

    open spec fn view(&self) -> McpResponseView {
        McpResponseView {
            jsonrpc: self.jsonrpc@,
            id: model_of(self.id),
            result: model_of(self.result),
            error: match self.error {
                Some(e) => Some(e@),
                None => None,
            },
        }
    }
}

impl McpResponseView {
    /// Exactly one of result and error is there.
    pub open spec fn well_formed(self) -> bool {
        (self.result is Some) != (self.error is Some)
    }

    /// The response that carries `result`.
    pub open spec fn success(id: Option<JsonValue>, result: JsonValue) -> McpResponseView {
        McpResponseView { jsonrpc: envelope_version(), id, result: Some(result), error: None }
    }

    /// The response that carries an error.
    pub open spec fn failure(id: Option<JsonValue>, code: i32, message: Seq<char>) -> McpResponseView {
        McpResponseView {
            jsonrpc: envelope_version(),
            id,
            result: None,
            error: Some(McpErrorView { code, message }),
        }
    }
}

impl McpResponse {
    /// The response to the request `id` that carries `result`.
    pub fn success(id: Option<serde_json::Value>, result: serde_json::Value) -> (out: McpResponse)
        ensures
            out.id == id,
            out.result == Some(result),
            out@ == McpResponseView::success(model_of(id), value_model(result)),
    {
        McpResponse { jsonrpc: String::from_str("2.0"), id, result: Some(result), error: None }
    }

    /// The response to the request `id` that carries an error.
    pub fn error(id: Option<serde_json::Value>, code: i32, message: String) -> (out: McpResponse)
        ensures
            out.id == id,
            out@ == McpResponseView::failure(model_of(id), code, message@),
    {
        McpResponse {
            jsonrpc: String::from_str("2.0"),
            id,
            result: None,
            error: Some(McpError { code, message }),
        }
    }
}

/// A result that is one piece of text: an object whose `content` is a list
/// of one object of type `text`.
pub open spec fn text_content_of(text: Seq<char>) -> JsonValue {
    JsonValue::object1(
        "content"@,
        JsonValue::Array(
            seq![
                JsonValue::Object(
                    Map::<Seq<char>, JsonValue>::empty().insert(
                        "type"@,
                        JsonValue::Text("text"@),
                    ).insert("text"@, JsonValue::Text(text)),
                ),
            ],
        ),
    )
}

/// A result that is one piece of text.
pub fn text_content(text: &str) -> (out: serde_json::Value)
    ensures
        value_model(out) == text_content_of(text@),
{
    let item = empty_object();
    let item = with_member(item, "type", text_value("text"));
    let item = with_member(item, "text", text_value(text));
    let ghost item_model = value_model(item);
    let mut items: Vec<serde_json::Value> = Vec::new();
    items.push(item);
    let list = array_value(items);
    assert(value_model(list)->Array_0 =~= seq![item_model]);
    with_member(empty_object(), "content", list)
}

/// The member of an object that may be absent: `None` where the member is
/// not there or is `null`.
pub open spec fn optional_member(json: JsonValue, key: Seq<char>) -> Option<JsonValue> {
    if json.member(key) is Null {
        None
    } else {
        Some(json.member(key))
    }
}

/// The version that a request is taken to be of: the text under `jsonrpc`
/// where there is one, and the version of the envelope format where the
/// request names none.
pub open spec fn version_of(json: JsonValue) -> Seq<char> {
    match json.text_member("jsonrpc"@) {
        Some(version) => version,
        None => envelope_version(),
    }
}

/// The request that a JSON value is, if it is one: an object whose `method`
/// is a text. Its `id`, its `params` and its `jsonrpc` may be absent.
pub open spec fn request_of(json: JsonValue) -> Option<McpRequestView> {
    if json is Object && json.text_member("method"@) is Some {
        Some(
            McpRequestView {
                jsonrpc: version_of(json),
                id: optional_member(json, "id"@),
                method: json.text_member("method"@)->Some_0,
                params: optional_member(json, "params"@),
            },
        )
    } else {
        None
    }
}

/// The request that a text denotes, if it denotes one.
pub open spec fn decoded(text: Seq<char>) -> Option<McpRequestView> {
    match parsed_json(text) {
        Some(json) => request_of(json),
        None => None,
    }
}

fn take_optional(json: &serde_json::Value, key: &str) -> (out: Option<serde_json::Value>)
    ensures
        model_of(out) == optional_member(value_model(*json), key@),
{
    let member = value_member(json, key);
    if value_is_null(member) {
        None
    } else {
        Some(member.clone())
    }
}

/// What a JSON value that is no request lacks: that it is an object, else
/// a `method` that is a text.
pub open spec fn request_defect(json: JsonValue) -> Seq<char> {
    if !(json is Object) {
        "invalid type: expected a request object"@
    } else {
        "missing field `method`"@
    }
}

/// The request that a JSON value is; where it is none, what it lacks.
pub fn request_from_json(json: &serde_json::Value) -> (out: Result<McpRequest, String>)
    ensures
        match request_of(value_model(*json)) {
            Some(r) => out is Ok && out->Ok_0@ == r,
            None => out is Err && out->Err_0@ == request_defect(value_model(*json)),
        },
{
    if !value_is_object(json) {
        return Err(String::from_str("invalid type: expected a request object"));
    }
    let jsonrpc = match value_as_str(value_member(json, "jsonrpc")) {
        Some(s) => String::from_str(s),
        None => String::from_str("2.0"),
    };
    let method = match value_as_str(value_member(json, "method")) {
        Some(s) => String::from_str(s),
        None => {
            return Err(String::from_str("missing field `method`"));
        },
    };
    Ok(
        McpRequest {
            jsonrpc,
            id: take_optional(json, "id"),
            method,
            params: take_optional(json, "params"),
        },
    )
}

/// The request that a line of text denotes; where it denotes none, why:
/// what the value lacks where the line is JSON, and the parser's message
/// where it is not.
pub fn decode_request(text: &str) -> (out: Result<McpRequest, String>)
    ensures
        match decoded(text@) {
            Some(r) => out is Ok && out->Ok_0@ == r,
            None => out is Err && (parsed_json(text@) matches Some(json) ==> out->Err_0@
                == request_defect(json)),
        },
{
    match parse_value(text) {
        Ok(json) => request_from_json(&json),
        Err(e) => Err(error_text(&e)),
    }
}

/// The error of a response as a JSON object.
pub open spec fn error_json_of(e: McpErrorView) -> JsonValue {
    JsonValue::Object(
        Map::<Seq<char>, JsonValue>::empty().insert("code"@, JsonValue::Integer(e.code as int)).insert(
            "message"@,
            JsonValue::Text(e.message),
        ),
    )
}

/// The members of a response that are always written: the version, and the
/// id, which is `null` where the request had none.
pub open spec fn response_head_of(r: McpResponseView) -> Map<Seq<char>, JsonValue> {
    Map::<Seq<char>, JsonValue>::empty().insert("jsonrpc"@, JsonValue::Text(r.jsonrpc)).insert(
        "id"@,
        match r.id {
            Some(id) => id,
            None => JsonValue::Null,
        },
    )
}

/// A response as a JSON object. A result or an error that is absent is not
/// written.
pub open spec fn response_json_of(r: McpResponseView) -> JsonValue {
    let head = response_head_of(r);
    let with_result = match r.result {
        Some(result) => head.insert("result"@, result),
        None => head,
    };
    JsonValue::Object(
        match r.error {
            Some(e) => with_result.insert("error"@, error_json_of(e)),
            None => with_result,
        },
    )
}

/// A response as a JSON object.
pub fn response_json(response: &McpResponse) -> (out: serde_json::Value)
    ensures
        value_model(out) == response_json_of(response@),
{
    let o = empty_object();
    let o = with_member(o, "jsonrpc", text_value(response.jsonrpc.as_str()));
    let id = match &response.id {
        Some(id) => id.clone(),
        None => null_value(),
    };
    let o = with_member(o, "id", id);
    let o = match &response.result {
        Some(result) => with_member(o, "result", result.clone()),
        None => o,
    };
    match &response.error {
        Some(e) => {
            let error = empty_object();
            let error = with_member(error, "code", signed_value(e.code as i64));
            let error = with_member(error, "message", text_value(e.message.as_str()));
            with_member(o, "error", error)
        },
        None => o,
    }
}

/// The line of text that a response is sent as. The result is always
/// `Ok`: the writer of the notation does not fail on a response.
pub fn encode_response(response: &McpResponse) -> (out: Result<String, String>)
    ensures
        out is Ok,
        out->Ok_0@ == compact_text(response_json_of(response@)),
{
    let json = response_json(response);
    rendered(render_compact(&json))
}

/// Both kinds of response are well formed: they carry a result or an error
/// and not both, and they carry the id they were made for.
pub proof fn lemma_responses_well_formed(id: Option<JsonValue>, result: JsonValue, code: i32, message: Seq<char>)
    ensures
        McpResponseView::success(id, result).well_formed(),
        McpResponseView::success(id, result).id == id,
        McpResponseView::failure(id, code, message).well_formed(),
        McpResponseView::failure(id, code, message).id == id,
{
}

/// The five error codes differ from one another.
pub proof fn lemma_error_codes_distinct()
    ensures
        METHOD_NOT_FOUND != UNKNOWN_TOOL,
        METHOD_NOT_FOUND != INTERNAL_ERROR,
        METHOD_NOT_FOUND != MISSING_ARGUMENT,
        METHOD_NOT_FOUND != EXECUTION_FAILED,
        UNKNOWN_TOOL != INTERNAL_ERROR,
        UNKNOWN_TOOL != MISSING_ARGUMENT,
        UNKNOWN_TOOL != EXECUTION_FAILED,
        INTERNAL_ERROR != MISSING_ARGUMENT,
        INTERNAL_ERROR != EXECUTION_FAILED,
        MISSING_ARGUMENT != EXECUTION_FAILED,
{
}

} // verus!
