//! The transcripts that were written earlier, as resources to list and to
//! read.
//!
//! The caller walks the directory and reads the files; what is told of each
//! file, and how the files of one video are grouped, is decided here.

use vstd::prelude::*;
use crate::json::{array_value, empty_object, text_value, value_model, with_member, JsonValue};
use crate::text::{chars_of, ends_with, starts_with, string_of_range};
use crate::timefmt::{date_text, format_timestamp, MAX_TIMESTAMP};

verus! {

/// The scheme with which the URI of a resource begins.
pub open spec fn uri_scheme() -> Seq<char> {
    "file://"@
}

/// Whether a file of this name is a resource: a text, a report or a JSON
/// document.
pub open spec fn is_resource_name(name: Seq<char>) -> bool {
    ".txt"@.is_suffix_of(name) || ".md"@.is_suffix_of(name) || ".json"@.is_suffix_of(name)
}

/// The media type of a file, by the ending of its name.
pub open spec fn mime_type_of(name: Seq<char>) -> Seq<char> {
    if ".json"@.is_suffix_of(name) {
        "application/json"@
    } else if ".md"@.is_suffix_of(name) {
        "text/markdown"@
    } else {
        "text/plain"@
    }
}

/// The URI of the file at `path`.
pub open spec fn uri_of(path: Seq<char>) -> Seq<char> {
    uri_scheme() + path
}

/// The path that a URI names: what follows the scheme, and the whole where
/// it does not begin with the scheme.
pub open spec fn path_of(uri: Seq<char>) -> Seq<char> {
    if uri_scheme().is_prefix_of(uri) {
        uri.subrange(uri_scheme().len() as int, uri.len() as int)
    } else {
        uri
    }
}

/// What is said of a resource: its size in kilobytes and the day it was
/// last changed.
pub open spec fn description_of(kilobytes: Seq<char>, modified: u64) -> Seq<char> {
    "Transcript file ("@ + kilobytes + " KB, modified "@ + date_text(modified) + ")"@
}

/// A resource as a JSON object.
pub open spec fn resource_of(path: Seq<char>, name: Seq<char>, kilobytes: Seq<char>, modified: u64) -> JsonValue {
    JsonValue::Object(
        Map::<Seq<char>, JsonValue>::empty().insert("uri"@, JsonValue::Text(uri_of(path))).insert(
            "name"@,
            JsonValue::Text(name),
        ).insert("description"@, JsonValue::Text(description_of(kilobytes, modified))).insert(
            "mimeType"@,
            JsonValue::Text(mime_type_of(name)),
        ),
    )
}

/// What is sent of a file that was read: its URI, its media type and what
/// it holds.
pub open spec fn contents_of(uri: Seq<char>, content: Seq<char>) -> JsonValue {
    JsonValue::object1(
        "contents"@,
        JsonValue::Array(
            seq![
                JsonValue::Object(
                    Map::<Seq<char>, JsonValue>::empty().insert("uri"@, JsonValue::Text(uri)).insert(
                        "mimeType"@,
                        JsonValue::Text(mime_type_of(path_of(uri))),
                    ).insert("text"@, JsonValue::Text(content)),
                ),
            ],
        ),
    )
}

/// Whether a file of this name is a resource.
pub fn is_resource_file(name: &str) -> (out: bool)
    ensures
        out == is_resource_name(name@),
{
    ends_with(name, ".txt") || ends_with(name, ".md") || ends_with(name, ".json")
}

/// The media type of a file, by the ending of its name.
pub fn mime_type(name: &str) -> (out: &'static str)
    ensures
        out@ == mime_type_of(name@),
{
    if ends_with(name, ".json") {
        "application/json"
    } else if ends_with(name, ".md") {
        "text/markdown"
    } else {
        "text/plain"
    }
}

/// The URI of the file at `path`.
pub fn resource_uri(path: &str) -> (out: String)
    ensures
        out@ == uri_of(path@),
{
    let mut out = String::from_str("file://");
    out.append(path);
    out
}

/// The path that a URI names.
pub fn path_of_uri(uri: &str) -> (out: String)
    ensures
        out@ == path_of(uri@),
{
    if starts_with(uri, "file://") {
        let chars = chars_of(uri);
        let scheme = "file://".unicode_len();
        string_of_range(&chars, scheme, chars.len())
    } else {
        String::from_str(uri)
    }
}

/// What is said of a resource.
pub fn resource_description(kilobytes: &str, modified: u64) -> (out: String)
    requires
        modified <= MAX_TIMESTAMP,
    ensures
        out@ == description_of(kilobytes@, modified),
{
    let mut out = String::from_str("Transcript file (");
    out.append(kilobytes);
    out.append(" KB, modified ");
    out.append(format_timestamp(modified).as_str());
    out.append(")");
    out
}

/// The resource that the file `name` at `path` is, if it is one.
pub fn resource_entry(path: &str, name: &str, kilobytes: &str, modified: u64) -> (out: Option<
    serde_json::Value,
>)
    requires
        modified <= MAX_TIMESTAMP,
    ensures
        match out {
            Some(v) => is_resource_name(name@) && value_model(v) == resource_of(
                path@,
                name@,
                kilobytes@,
                modified,
            ),
            None => !is_resource_name(name@),
        },
{
    if !is_resource_file(name) {
        return None;
    }
    let o = empty_object();
    let o = with_member(o, "uri", text_value(resource_uri(path).as_str()));
    let o = with_member(o, "name", text_value(name));
    let o = with_member(
        o,
        "description",
        text_value(resource_description(kilobytes, modified).as_str()),
    );
    Some(with_member(o, "mimeType", text_value(mime_type(name))))
}

/// The list of resources as a result.
pub fn resources_result(entries: Vec<serde_json::Value>) -> (out: serde_json::Value)
    ensures
        value_model(out) == JsonValue::object1(
            "resources"@,
            JsonValue::Array(entries@.map_values(|v: serde_json::Value| value_model(v))),
        ),
{
    with_member(empty_object(), "resources", array_value(entries))
}

/// What is sent of a file that was read.
pub fn read_result(uri: &str, content: &str) -> (out: serde_json::Value)
    ensures
        value_model(out) == contents_of(uri@, content@),
{
    let path = path_of_uri(uri);
    let item = empty_object();
    let item = with_member(item, "uri", text_value(uri));
    let item = with_member(item, "mimeType", text_value(mime_type(path.as_str())));
    let item = with_member(item, "text", text_value(content));
    let ghost item_model = value_model(item);
    let mut items: Vec<serde_json::Value> = Vec::new();
    items.push(item);
    let list = array_value(items);
    assert(value_model(list)->Array_0 =~= seq![item_model]);
    with_member(empty_object(), "contents", list)
}

/// A URI without the scheme is taken as the path itself, and a path keeps
/// its media type when it is written as a URI.
pub proof fn lemma_path_of_uri(path: Seq<char>)
    ensures
        !uri_scheme().is_prefix_of(path) ==> path_of(path) == path,
        path_of(uri_of(path)) == path,
{
    let uri = uri_of(path);
    assert(uri.subrange(0, uri_scheme().len() as int) =~= uri_scheme());
    assert(uri.subrange(uri_scheme().len() as int, uri.len() as int) =~= path);
}

} // verus!
