//! The command lines of the two outside tools, the media fetcher `yt-dlp`
//! and the audio converter `ffmpeg`, and the reading of what they report.
//!
//! Nothing here starts a process: a command is a value that the caller runs.

use vstd::prelude::*;
use vstd::utf8::{decode_utf8, valid_utf8};
use crate::text::texts;

verus! {

/// `FromUtf8Error` of the standard library, carried as it is.
#[verifier::external_type_specification]
#[verifier::external_body]
pub struct ExFromUtf8Error(std::string::FromUtf8Error);

/// `String::from_utf8` of the standard library: the text that the bytes
/// encode, and an error exactly where they are no UTF-8.
pub assume_specification[ String::from_utf8 ](bytes: Vec<u8>) -> (out: Result<
    String,
    std::string::FromUtf8Error,
>)
    ensures
        out is Ok <==> valid_utf8(bytes@),
        out matches Ok(s) ==> s@ == decode_utf8(bytes@),
;

/// `to_string` of a `FromUtf8Error`: its message, as its `Display` writes
/// it. Nothing is said of the message.
#[verifier::external_body]
pub(crate) fn utf8_error_text(e: &std::string::FromUtf8Error) -> (out: String) {
    e.to_string()
}

/// A program and its arguments.
#[derive(Debug, Clone, PartialEq, Eq)]
pub struct ToolCommand {
    pub program: String,
    pub args: Vec<String>,
}

pub struct ToolCommandView {
    pub program: Seq<char>,
    pub args: Seq<Seq<char>>,
}

impl View for ToolCommand {
    type V = ToolCommandView;

    open spec fn view(&self) -> ToolCommandView {
        ToolCommandView { program: self.program@, args: texts(self.args@) }
    }
}

/// What a finished process left: whether it exited with success, and what it
/// wrote to its two streams.
#[derive(Debug, Clone, PartialEq, Eq)]
pub struct ToolOutput {
    pub success: bool,
    pub stdout: Vec<u8>,
    pub stderr: String,
}

pub struct ToolOutputView {
    pub success: bool,
    pub stdout: Seq<u8>,
    pub stderr: Seq<char>,
}

impl View for ToolOutput {
    type V = ToolOutputView;

    open spec fn view(&self) -> ToolOutputView {
        ToolOutputView { success: self.success, stdout: self.stdout@, stderr: self.stderr@ }
    }
}

pub open spec fn fetcher() -> Seq<char> {
    "yt-dlp"@
}

pub open spec fn converter() -> Seq<char> {
    "ffmpeg"@
}

/// The command that asks the fetcher for the description of a video.
pub open spec fn metadata_command_of(url: Seq<char>) -> ToolCommandView {
    ToolCommandView { program: fetcher(), args: seq!["--dump-json"@, url] }
}

/// The command that has the fetcher download a video's sound as MP3 to the
/// place that `template` names.
pub open spec fn download_command_of(url: Seq<char>, template: Seq<char>) -> ToolCommandView {
    ToolCommandView {
        program: fetcher(),
        args: seq!["-x"@, "--audio-format"@, "mp3"@, "-o"@, template, url],
    }
}

/// The command that has the converter write the sound of `input` as MP3 to
/// `output`, over whatever is there.
pub open spec fn extract_command_of(input: Seq<char>, output: Seq<char>) -> ToolCommandView {
    ToolCommandView {
        program: converter(),
        args: seq!["-i"@, input, "-vn"@, "-acodec"@, "libmp3lame"@, "-q:a"@, "2"@, "-y"@, output],
    }
}

/// The command that has the converter write the sound of `input` to its
/// output stream as one channel of 16000 samples a second, each a 32-bit
/// little-endian float.
pub open spec fn normalize_command_of(input: Seq<char>) -> ToolCommandView {
    ToolCommandView {
        program: converter(),
        args: seq!["-i"@, input, "-ar"@, "16000"@, "-ac"@, "1"@, "-f"@, "f32le"@, "-"@],
    }
}

/// The command that asks the fetcher for its version.
pub open spec fn fetcher_probe_of() -> ToolCommandView {
    ToolCommandView { program: fetcher(), args: seq!["--version"@] }
}

/// The command that asks the converter for its version.
pub open spec fn converter_probe_of() -> ToolCommandView {
    ToolCommandView { program: converter(), args: seq!["-version"@] }
}

/// What is reported when a tool exited without success: `what`, a colon and
/// what the tool wrote to its error stream.
pub open spec fn tool_failure_of(what: Seq<char>, stderr: Seq<char>) -> Seq<char> {
    what + ": "@ + stderr
}

fn command(program: &str, args: Vec<String>) -> (out: ToolCommand)
    ensures
        out@ == (ToolCommandView { program: program@, args: texts(args@) }),
{
    ToolCommand { program: String::from_str(program), args }
}

fn push_arg(args: &mut Vec<String>, arg: &str)
    ensures
        texts(final(args)@) == texts(old(args)@).push(arg@),
{
    args.push(String::from_str(arg));
    assert(texts(args@) =~= texts(old(args)@).push(arg@));
}

fn no_args() -> (out: Vec<String>)
    ensures
        texts(out@) == Seq::<Seq<char>>::empty(),
{
    let out: Vec<String> = Vec::new();
    assert(texts(out@) =~= Seq::<Seq<char>>::empty());
    out
}

/// The command that asks the fetcher for the description of a video.
pub fn metadata_command(url: &str) -> (out: ToolCommand)
    ensures
        out@ == metadata_command_of(url@),
{
    let mut args = no_args();
    push_arg(&mut args, "--dump-json");
    push_arg(&mut args, url);
    assert(texts(args@) =~= seq!["--dump-json"@, url@]);
    command("yt-dlp", args)
}

/// The command that downloads a video's sound.
pub fn download_command(url: &str, template: &str) -> (out: ToolCommand)
    ensures
        out@ == download_command_of(url@, template@),
{
    let mut args = no_args();
    push_arg(&mut args, "-x");
    push_arg(&mut args, "--audio-format");
    push_arg(&mut args, "mp3");
    push_arg(&mut args, "-o");
    push_arg(&mut args, template);
    push_arg(&mut args, url);
    assert(texts(args@) =~= seq!["-x"@, "--audio-format"@, "mp3"@, "-o"@, template@, url@]);
    command("yt-dlp", args)
}

/// The command that extracts the sound of a video file as MP3.
pub fn extract_command(input: &str, output: &str) -> (out: ToolCommand)
    ensures
        out@ == extract_command_of(input@, output@),
{
    let mut args = no_args();
    push_arg(&mut args, "-i");
    push_arg(&mut args, input);
    push_arg(&mut args, "-vn");
    push_arg(&mut args, "-acodec");
    push_arg(&mut args, "libmp3lame");
    push_arg(&mut args, "-q:a");
    push_arg(&mut args, "2");
    push_arg(&mut args, "-y");
    push_arg(&mut args, output);
    assert(texts(args@) =~= seq![
        "-i"@,
        input@,
        "-vn"@,
        "-acodec"@,
        "libmp3lame"@,
        "-q:a"@,
        "2"@,
        "-y"@,
        output@,
    ]);
    command("ffmpeg", args)
}

/// The command that turns a sound or video file into normalized samples.
pub fn normalize_command(input: &str) -> (out: ToolCommand)
    ensures
        out@ == normalize_command_of(input@),
{
    let mut args = no_args();
    push_arg(&mut args, "-i");
    push_arg(&mut args, input);
    push_arg(&mut args, "-ar");
    push_arg(&mut args, "16000");
    push_arg(&mut args, "-ac");
    push_arg(&mut args, "1");
    push_arg(&mut args, "-f");
    push_arg(&mut args, "f32le");
    push_arg(&mut args, "-");
    assert(texts(args@) =~= seq![
        "-i"@,
        input@,
        "-ar"@,
        "16000"@,
        "-ac"@,
        "1"@,
        "-f"@,
        "f32le"@,
        "-"@,
    ]);
    command("ffmpeg", args)
}

/// The command that asks the fetcher for its version.
pub fn fetcher_probe() -> (out: ToolCommand)
    ensures
        out@ == fetcher_probe_of(),
{
    let mut args = no_args();
    push_arg(&mut args, "--version");
    assert(texts(args@) =~= seq!["--version"@]);
    command("yt-dlp", args)
}

/// The command that asks the converter for its version.
pub fn converter_probe() -> (out: ToolCommand)
    ensures
        out@ == converter_probe_of(),
{
    let mut args = no_args();
    push_arg(&mut args, "-version");
    assert(texts(args@) =~= seq!["-version"@]);
    command("ffmpeg", args)
}

/// The report of a tool that exited without success.
pub fn tool_failure(what: &str, stderr: &str) -> (out: String)
    ensures
        out@ == tool_failure_of(what@, stderr@),
{
    let mut out = String::from_str(what);
    out.append(": ");
    out.append(stderr);
    out
}

/// Judges a finished tool: its output stream where it exited with success,
/// and the failure report under `what` where it did not.
pub fn tool_result(what: &str, output: ToolOutput) -> (out: Result<Vec<u8>, String>)
    ensures
        match out {
            Ok(bytes) => output.success && bytes@ == output.stdout@,
            Err(message) => !output.success && message@ == tool_failure_of(what@, output.stderr@),
        },
{
    if output.success {
        Ok(output.stdout)
    } else {
        Err(tool_failure(what, output.stderr.as_str()))
    }
}

} // verus!
