//! Where a video comes from: whether a reference is remote or local, and
//! what is known of the video behind it.

use vstd::prelude::*;
use vstd::utf8::{decode_utf8, valid_utf8};
use crate::commands::{tool_failure_of, tool_result, utf8_error_text, ToolOutput, ToolOutputView};
use crate::json::{
    parse_value, parsed_json, error_text, value_as_str, value_as_u64, value_member, value_model,
    JsonValue,
};
use crate::text::{chars_of, contains, lowercase, lowercase_of, occurs_in, starts_with};
use crate::types::{VideoMetadata, VideoMetadataView};

verus! {

/// The two kinds of reference.
#[derive(Debug, Clone, Copy, PartialEq, Eq, Structural)]
pub enum SourceKind {
    /// To be fetched over the network.
    Remote,
    /// A file on this machine.
    Local,
}

/// A reference is remote if and only if it begins with `http://` or with
/// `https://`, in lower case.
pub open spec fn is_remote(reference: Seq<char>) -> bool {
    "http://"@.is_prefix_of(reference) || "https://"@.is_prefix_of(reference)
}

pub open spec fn kind_of(reference: Seq<char>) -> SourceKind {
    if is_remote(reference) {
        SourceKind::Remote
    } else {
        SourceKind::Local
    }
}

/// Tells a remote reference from a local one.
pub fn classify(reference: &str) -> (out: SourceKind)
    ensures
        out == kind_of(reference@),
{
    if starts_with(reference, "http://") || starts_with(reference, "https://") {
        SourceKind::Remote
    } else {
        SourceKind::Local
    }
}

/// The message for a local file that is not there.
pub open spec fn missing_file_message(path: Seq<char>) -> Seq<char> {
    "Video file not found: "@ + path
}

/// Admits a local path that exists, and turns one that does not down with a
/// message that holds the path.
pub fn check_local(path: &str, exists: bool) -> (out: Result<(), String>)
    ensures
        match out {
            Ok(_) => exists,
            Err(message) => !exists && message@ == missing_file_message(path@),
        },
{
    if exists {
        Ok(())
    } else {
        let mut message = String::from_str("Video file not found: ");
        message.append(path);
        Err(message)
    }
}

/// What stands for the channel and the platform of a local file.
pub open spec fn local_label() -> Seq<char> {
    "Local File"@
}

/// The description of a local file: its id and title are the stem of its
/// name, `unknown` where it has none; it has no length and no date.
pub open spec fn local_metadata_of(path: Seq<char>, stem: Option<Seq<char>>) -> VideoMetadataView {
    let name = match stem {
        Some(s) => s,
        None => "unknown"@,
    };
    VideoMetadataView {
        video_id: name,
        title: name,
        channel: local_label(),
        duration: 0,
        upload_date: Seq::<char>::empty(),
        platform: local_label(),
        url: path,
    }
}

/// The description of a local file, from its path and the stem of its name.
pub fn get_local_metadata(path: &str, stem: Option<&str>) -> (out: VideoMetadata)
    ensures
        out@ == local_metadata_of(
            path@,
            match stem {
                Some(s) => Some(s@),
                None => None,
            },
        ),
{
    let name = match stem {
        Some(s) => s,
        None => "unknown",
    };
    VideoMetadata {
        video_id: String::from_str(name),
        title: String::from_str(name),
        channel: String::from_str("Local File"),
        duration: 0,
        upload_date: String::new(),
        platform: String::from_str("Local File"),
        url: String::from_str(path),
    }
}

/// The platform that a lower-case URL names, if it names one of the known.
pub open spec fn platform_named(lower: Seq<char>) -> Option<Seq<char>> {
    if occurs_in(lower, "youtube.com"@) || occurs_in(lower, "youtu.be"@) {
        Some("YouTube"@)
    } else if occurs_in(lower, "vimeo.com"@) {
        Some("Vimeo"@)
    } else if occurs_in(lower, "tiktok.com"@) {
        Some("TikTok"@)
    } else if occurs_in(lower, "twitter.com"@) || occurs_in(lower, "x.com"@) {
        Some("Twitter/X"@)
    } else if occurs_in(lower, "facebook.com"@) || occurs_in(lower, "fb.watch"@) {
        Some("Facebook"@)
    } else if occurs_in(lower, "instagram.com"@) {
        Some("Instagram"@)
    } else if occurs_in(lower, "twitch.tv"@) {
        Some("Twitch"@)
    } else {
        None
    }
}

/// The text under `key`, and `fallback` where there is none.
pub open spec fn text_or(json: JsonValue, key: Seq<char>, fallback: Seq<char>) -> Seq<char> {
    match json.text_member(key) {
        Some(s) => s,
        None => fallback,
    }
}

/// The platform of a video: the one that its lower-case URL names, else the
/// extractor that the fetcher's description names, else `Unknown`.
pub open spec fn platform_of(lower: Seq<char>, json: JsonValue) -> Seq<char> {
    match platform_named(lower) {
        Some(p) => p,
        None => text_or(json, "extractor"@, "Unknown"@),
    }
}

/// The description of a remote video, from the URL, its lower-case form and
/// what the fetcher said of it.
pub open spec fn metadata_of(url: Seq<char>, lower: Seq<char>, json: JsonValue) -> VideoMetadataView {
    VideoMetadataView {
        video_id: text_or(json, "id"@, "unknown"@),
        title: text_or(json, "title"@, "Unknown"@),
        channel: match json.text_member("channel"@) {
            Some(s) => s,
            None => text_or(json, "uploader"@, "Unknown"@),
        },
        duration: match json.member("duration"@).unsigned() {
            Some(n) => n,
            None => 0,
        },
        upload_date: text_or(json, "upload_date"@, ""@),
        platform: platform_of(lower, json),
        url,
    }
}

fn holds(text: &Vec<char>, pat: &str) -> (out: bool)
    ensures
        out == occurs_in(text@, pat@),
{
    let p = chars_of(pat);
    contains(text, &p)
}

fn member_text(json: &serde_json::Value, key: &str, fallback: &str) -> (out: String)
    ensures
        out@ == text_or(value_model(*json), key@, fallback@),
{
    match value_as_str(value_member(json, key)) {
        Some(s) => String::from_str(s),
        None => String::from_str(fallback),
    }
}

/// The platform of a video, from its URL in lower case and the fetcher's
/// description.
pub fn platform_from_lowercase(lower: &str, json: &serde_json::Value) -> (out: String)
    ensures
        out@ == platform_of(lower@, value_model(*json)),
{
    let l = chars_of(lower);
    if holds(&l, "youtube.com") || holds(&l, "youtu.be") {
        String::from_str("YouTube")
    } else if holds(&l, "vimeo.com") {
        String::from_str("Vimeo")
    } else if holds(&l, "tiktok.com") {
        String::from_str("TikTok")
    } else if holds(&l, "twitter.com") || holds(&l, "x.com") {
        String::from_str("Twitter/X")
    } else if holds(&l, "facebook.com") || holds(&l, "fb.watch") {
        String::from_str("Facebook")
    } else if holds(&l, "instagram.com") {
        String::from_str("Instagram")
    } else if holds(&l, "twitch.tv") {
        String::from_str("Twitch")
    } else {
        member_text(json, "extractor", "Unknown")
    }
}

/// The platform of a video, from its URL and the fetcher's description.
pub fn detect_platform(url: &str, json: &serde_json::Value) -> (out: String)
    ensures
        out@ == platform_of(lowercase_of(url@), value_model(*json)),
{
    let lower = lowercase(url);
    platform_from_lowercase(lower.as_str(), json)
}

/// The description of a remote video, from its URL and the fetcher's
/// description of it.
pub fn metadata_from_json(url: &str, json: &serde_json::Value) -> (out: VideoMetadata)
    ensures
        out@ == metadata_of(url@, lowercase_of(url@), value_model(*json)),
{
    let channel = match value_as_str(value_member(json, "channel")) {
        Some(s) => String::from_str(s),
        None => member_text(json, "uploader", "Unknown"),
    };
    let duration = match value_as_u64(value_member(json, "duration")) {
        Some(n) => n,
        None => 0,
    };
    VideoMetadata {
        video_id: member_text(json, "id", "unknown"),
        title: member_text(json, "title", "Unknown"),
        channel,
        duration,
        upload_date: member_text(json, "upload_date", ""),
        platform: detect_platform(url, json),
        url: String::from_str(url),
    }
}

/// The description of a remote video, from its URL and the text that the
/// fetcher wrote: the description that the text denotes as JSON, and an
/// error exactly where it denotes none.
pub fn parse_metadata(url: &str, text: &str) -> (out: Result<VideoMetadata, String>)
    ensures
        match parsed_json(text@) {
            Some(json) => out is Ok && out->Ok_0@ == metadata_of(url@, lowercase_of(url@), json),
            None => out is Err,
        },
{
    match parse_value(text) {
        Ok(json) => Ok(metadata_from_json(url, &json)),
        Err(e) => Err(error_text(&e)),
    }
}

/// What the fetcher's answer to the question for a description amounts to.
pub enum Fetched {
    /// The description of the video.
    Described(VideoMetadataView),
    /// The fetcher failed, with this report.
    Failed(Seq<char>),
    /// The fetcher wrote what is no UTF-8 or no JSON; the report is that of
    /// the decoder that turned it down.
    Undecodable,
}

/// What the fetcher's answer amounts to: its failure where it exited
/// without success, else the description that it wrote, if what it wrote is
/// JSON in UTF-8.
pub open spec fn fetched_of(url: Seq<char>, output: ToolOutputView) -> Fetched {
    if !output.success {
        Fetched::Failed(tool_failure_of("yt-dlp failed to fetch metadata"@, output.stderr))
    } else if !valid_utf8(output.stdout) {
        Fetched::Undecodable
    } else {
        match parsed_json(decode_utf8(output.stdout)) {
            Some(json) => Fetched::Described(metadata_of(url, lowercase_of(url), json)),
            None => Fetched::Undecodable,
        }
    }
}

/// The description of a remote video, from what the fetcher left when it
/// was asked for it; where there is none, why.
pub fn fetch_metadata(url: &str, output: ToolOutput) -> (out: Result<VideoMetadata, String>)
    ensures
        match fetched_of(url@, output@) {
            Fetched::Described(m) => out is Ok && out->Ok_0@ == m,
            Fetched::Failed(report) => out is Err && out->Err_0@ == report,
            Fetched::Undecodable => out is Err,
        },
{
    let bytes = match tool_result("yt-dlp failed to fetch metadata", output) {
        Ok(bytes) => bytes,
        Err(report) => {
            return Err(report);
        },
    };
    match String::from_utf8(bytes) {
        Ok(text) => parse_metadata(url, text.as_str()),
        Err(e) => Err(utf8_error_text(&e)),
    }
}

} // verus!
