use video_transcriber_mcp::commands::ToolOutput;
use video_transcriber_mcp::pipeline::{
    preview, Action, Event, Phase, Pipeline, PipelineError, Stage, Workspace,
};
use video_transcriber_mcp::speech::WhisperTranscriber;
use video_transcriber_mcp::types::{TranscriptionOptions, WhisperModel};

fn strings(items: &[&str]) -> Vec<String> {
    items.iter().map(|s| s.to_string()).collect()
}

fn run_for(url: &str, language: Option<&str>) -> Pipeline {
    Pipeline::new(
        TranscriptionOptions {
            url: url.to_string(),
            output_dir: "/out".to_string(),
            model: WhisperModel::Small,
            language: language.map(|l| l.to_string()),
        },
        Workspace {
            download_template: "/w/video.%(ext)s".to_string(),
            downloaded_audio: "/w/video.mp3".to_string(),
            extracted_audio: "/a/audio.mp3".to_string(),
        },
        WhisperTranscriber::new("/models".to_string()),
        Some(6),
    )
}

fn finished(stdout: &[u8]) -> Event {
    Event::ToolFinished(ToolOutput { success: true, stdout: stdout.to_vec(), stderr: String::new() })
}

fn crashed(stderr: &str) -> Event {
    Event::ToolFinished(ToolOutput {
        success: false,
        stdout: Vec::new(),
        stderr: stderr.to_string(),
    })
}

fn probed(exists: bool) -> Event {
    Event::PathProbed { exists, stem: Some("talk".to_string()) }
}

fn error_of(action: Action) -> PipelineError {
    match action {
        Action::Finish(Err(e)) => e,
        other => panic!("expected a failure, got {:?}", other),
    }
}

fn tool_of(action: Action) -> (String, Vec<String>) {
    match action {
        Action::RunTool(c) => (c.program, c.args),
        other => panic!("expected a tool, got {:?}", other),
    }
}

fn write_of(action: Action) -> (String, String, String) {
    match action {
        Action::WriteFile { dir, name, content } => (dir, name, content),
        other => panic!("expected a write, got {:?}", other),
    }
}

fn to_model_check(run: Pipeline) -> Pipeline {
    let (run, action) = run.step(Event::Start);
    assert!(matches!(action, Action::CreateDirectory { ref path } if path == "/out"));
    let (run, action) = run.step(Event::DirectoryReady);
    assert!(matches!(action, Action::ProbePath { ref path } if path == "/videos/talk.mp4"));
    assert_eq!(run.stage(), Stage::ResolveSource);
    let (run, action) = run.step(probed(true));
    assert_eq!(
        tool_of(action),
        (
            "ffmpeg".to_string(),
            strings(&["-i", "/videos/talk.mp4", "-ar", "16000", "-ac", "1", "-f", "f32le", "-"])
        )
    );
    assert_eq!(run.phase(), Phase::Normalizing);
    assert_eq!(run.stage(), Stage::ExtractAudio);
    let (run, action) = run.step(finished(&[0, 0, 128, 63]));
    match action {
        Action::ProbeModel { dir, file_name } => {
            assert_eq!(dir, "/models");
            assert_eq!(file_name, "ggml-small.bin");
        }
        other => panic!("expected a model probe, got {:?}", other),
    }
    assert_eq!(run.stage(), Stage::Transcribe);
    run
}

#[test]
fn local_run_goes_through_all_stages() {
    let run = to_model_check(run_for("/videos/talk.mp4", Some("fr")));
    let (run, action) =
        run.step(Event::ModelProbed { path: "/models/ggml-small.bin".to_string(), exists: true });
    match action {
        Action::Infer { model_path, samples, plan } => {
            assert_eq!(model_path, "/models/ggml-small.bin");
            assert_eq!(samples, vec![0, 0, 128, 63]);
            assert_eq!(plan.language, Some("fr".to_string()));
            assert!(!plan.translate);
            assert_eq!(plan.threads, 6);
        }
        other => panic!("expected inference, got {:?}", other),
    }
    assert_eq!(run.phase(), Phase::Inferring);
    let (run, action) =
        run.step(Event::Transcribed { segments: strings(&[" Bonjour", " le monde."]) });
    assert_eq!(run.stage(), Stage::Persist);
    assert_eq!(
        write_of(action),
        ("/out".to_string(), "talk-talk.txt".to_string(), "Bonjour  le monde.".to_string())
    );
    let (run, action) = run.step(Event::FileWritten { path: "/out/talk-talk.txt".to_string() });
    let (dir, name, content) = write_of(action);
    assert_eq!(dir, "/out");
    assert_eq!(name, "talk-talk.json");
    let parsed: serde_json::Value = serde_json::from_str(&content).unwrap();
    assert_eq!(parsed["transcript"], serde_json::Value::from("Bonjour  le monde."));
    assert_eq!(parsed["model"], serde_json::Value::from("small"));
    assert_eq!(parsed["metadata"]["platform"], serde_json::Value::from("Local File"));
    let (run, action) = run.step(Event::FileWritten { path: "/out/talk-talk.json".to_string() });
    let (dir, name, content) = write_of(action);
    assert_eq!(dir, "/out");
    assert_eq!(name, "talk-talk.md");
    assert!(content.starts_with("# talk\n\n**Video:** /videos/talk.mp4\n**Platform:** Local File\n"));
    assert!(content.ends_with("*Transcribed using whisper.cpp (Rust) - Model: small*\n"));
    assert!(!run.is_finished());
    let (run, action) = run.step(Event::FileWritten { path: "/out/talk-talk.md".to_string() });
    assert!(run.is_finished());
    assert_eq!(run.stage(), Stage::Done);
    match action {
        Action::Finish(Ok(result)) => {
            assert!(result.success);
            assert_eq!(result.files.txt, "/out/talk-talk.txt");
            assert_eq!(result.files.json, "/out/talk-talk.json");
            assert_eq!(result.files.md, "/out/talk-talk.md");
            assert_eq!(result.metadata.video_id, "talk");
            assert_eq!(result.metadata.channel, "Local File");
            assert_eq!(result.metadata.duration, 0);
            assert_eq!(result.transcript, "Bonjour  le monde.");
            assert_eq!(result.transcript_preview, "Bonjour  le monde.");
            assert_eq!(result.word_count, 3);
            assert_eq!(result.model_used, WhisperModel::Small);
        }
        other => panic!("expected a result, got {:?}", other),
    }
}

#[test]
fn missing_local_file_fails_at_resolve_source() {
    let run = run_for("/videos/gone.mp4", None);
    let (run, _) = run.step(Event::Start);
    let (run, action) = run.step(Event::DirectoryReady);
    assert!(matches!(action, Action::ProbePath { ref path } if path == "/videos/gone.mp4"));
    let (run, action) = run.step(Event::PathProbed { exists: false, stem: None });
    assert!(run.is_finished());
    let e = error_of(action);
    assert_eq!(e.stage, Stage::ResolveSource);
    assert_eq!(e.message, "Video file not found: /videos/gone.mp4");
    assert!(e.describe().contains("/videos/gone.mp4"));
    assert_eq!(e.describe(), "ResolveSource: Video file not found: /videos/gone.mp4");
    let (run, action) = run.step(finished(&[]));
    assert!(run.is_finished());
    let e = error_of(action);
    assert_eq!(e.stage, Stage::Done);
    assert_eq!(e.message, "Unexpected event");
}

#[test]
fn remote_run_fetches_downloads_and_extracts() {
    let url = "https://vimeo.com/42";
    let run = run_for(url, None);
    let (run, _) = run.step(Event::Start);
    let (run, action) = run.step(Event::DirectoryReady);
    assert_eq!(tool_of(action), ("yt-dlp".to_string(), strings(&["--dump-json", url])));
    assert_eq!(run.stage(), Stage::AcquireMedia);
    let described = "{\"id\": \"42\", \"title\": \"A/B test\", \"channel\": \"Lab\", \"duration\": 90, \"upload_date\": \"20240101\"}";
    let (run, action) = run.step(finished(described.as_bytes()));
    assert_eq!(
        tool_of(action),
        (
            "yt-dlp".to_string(),
            strings(&["-x", "--audio-format", "mp3", "-o", "/w/video.%(ext)s", url])
        )
    );
    let (run, action) = run.step(finished(&[]));
    assert!(matches!(action, Action::ProbePath { ref path } if path == "/w/video.mp3"));
    let (run, action) = run.step(probed(true));
    assert_eq!(
        tool_of(action),
        (
            "ffmpeg".to_string(),
            strings(&[
                "-i",
                "/w/video.mp3",
                "-vn",
                "-acodec",
                "libmp3lame",
                "-q:a",
                "2",
                "-y",
                "/a/audio.mp3"
            ])
        )
    );
    assert_eq!(run.stage(), Stage::ExtractAudio);
    let (run, action) = run.step(finished(&[]));
    assert!(matches!(action, Action::ProbePath { ref path } if path == "/a/audio.mp3"));
    let (run, action) = run.step(probed(true));
    assert_eq!(
        tool_of(action),
        (
            "ffmpeg".to_string(),
            strings(&["-i", "/a/audio.mp3", "-ar", "16000", "-ac", "1", "-f", "f32le", "-"])
        )
    );
    let (run, _) = run.step(finished(&[1, 2, 3, 4, 5]));
    let (run, action) =
        run.step(Event::ModelProbed { path: "/models/ggml-small.bin".to_string(), exists: true });
    match action {
        Action::Infer { samples, plan, .. } => {
            assert_eq!(samples, vec![1, 2, 3, 4, 5]);
            assert_eq!(plan.language, None);
        }
        other => panic!("expected inference, got {:?}", other),
    }
    let (_, action) = run.step(Event::Transcribed { segments: strings(&["text"]) });
    let (_, name, content) = write_of(action);
    assert_eq!(name, "42-A-B test.txt");
    assert_eq!(content, "text");
}

#[test]
fn failed_tools_end_the_run_in_their_stage() {
    let run = run_for("https://vimeo.com/42", None);
    let (run, _) = run.step(Event::Start);
    let (run, _) = run.step(Event::DirectoryReady);
    let (run, action) = run.step(crashed("HTTP 404"));
    assert!(run.is_finished());
    let e = error_of(action);
    assert_eq!(e.stage, Stage::AcquireMedia);
    assert_eq!(e.message, "yt-dlp failed to fetch metadata: HTTP 404");

    let run = run_for("https://vimeo.com/42", None);
    let (run, _) = run.step(Event::Start);
    let (run, _) = run.step(Event::DirectoryReady);
    let (run, _) = run.step(finished(b"{}"));
    let (_, action) = run.step(crashed("disk full"));
    let e = error_of(action);
    assert_eq!(e.stage, Stage::AcquireMedia);
    assert_eq!(e.message, "yt-dlp failed to download video: disk full");

    let run = run_for("https://vimeo.com/42", None);
    let (run, _) = run.step(Event::Start);
    let (run, _) = run.step(Event::DirectoryReady);
    let (run, _) = run.step(finished(b"{}"));
    let (run, _) = run.step(finished(&[]));
    let (_, action) = run.step(probed(false));
    let e = error_of(action);
    assert_eq!(e.stage, Stage::AcquireMedia);
    assert_eq!(e.message, "Downloaded audio file not found");

    let run = run_for("https://vimeo.com/42", None);
    let (run, _) = run.step(Event::Start);
    let (run, _) = run.step(Event::DirectoryReady);
    let (run, _) = run.step(finished(b"{}"));
    let (run, _) = run.step(finished(&[]));
    let (run, _) = run.step(probed(true));
    let (_, action) = run.step(crashed("bad codec"));
    let e = error_of(action);
    assert_eq!(e.stage, Stage::ExtractAudio);
    assert_eq!(e.message, "ffmpeg failed to extract audio: bad codec");

    let run = run_for("https://vimeo.com/42", None);
    let (run, _) = run.step(Event::Start);
    let (run, _) = run.step(Event::DirectoryReady);
    let (run, _) = run.step(finished(b"{}"));
    let (run, _) = run.step(finished(&[]));
    let (run, _) = run.step(probed(true));
    let (run, _) = run.step(finished(&[]));
    let (_, action) = run.step(probed(false));
    let e = error_of(action);
    assert_eq!(e.stage, Stage::ExtractAudio);
    assert_eq!(e.message, "Extracted audio file not found");

    let run = run_for("/videos/talk.mp4", None);
    let (run, _) = run.step(Event::Start);
    let (run, _) = run.step(Event::DirectoryReady);
    let (run, _) = run.step(probed(true));
    let (_, action) = run.step(crashed("no audio"));
    let e = error_of(action);
    assert_eq!(e.stage, Stage::ExtractAudio);
    assert_eq!(e.message, "ffmpeg failed: no audio");
}

#[test]
fn undecodable_description_fails_at_acquire_media() {
    for output in [&b"not json"[..], &[0xff, 0xfe][..], &b""[..]] {
        let run = run_for("https://vimeo.com/42", None);
        let (run, _) = run.step(Event::Start);
        let (run, _) = run.step(Event::DirectoryReady);
        let (run, action) = run.step(finished(output));
        assert!(run.is_finished());
        let e = error_of(action);
        assert_eq!(e.stage, Stage::AcquireMedia);
        assert!(!e.message.is_empty());
    }
}

#[test]
fn missing_model_fails_before_inference() {
    let run = to_model_check(run_for("/videos/talk.mp4", None));
    let (run, action) =
        run.step(Event::ModelProbed { path: "/models/ggml-small.bin".to_string(), exists: false });
    assert!(run.is_finished());
    let e = error_of(action);
    assert_eq!(e.stage, Stage::Transcribe);
    assert!(e.message.starts_with("Whisper model not found: /models/ggml-small.bin\n\n"));
    assert!(e.message.ends_with("/resolve/main/ggml-small.bin"));
}

#[test]
fn actions_that_cannot_start_fail_with_context() {
    let run = run_for("/videos/talk.mp4", None);
    let (run, _) = run.step(Event::Start);
    let (run, action) = run.step(Event::Failed { message: "permission denied".to_string() });
    assert!(run.is_finished());
    let e = error_of(action);
    assert_eq!(e.stage, Stage::Init);
    assert_eq!(e.message, "Failed to create output directory: permission denied");

    let run = run_for("https://vimeo.com/42", None);
    let (run, _) = run.step(Event::Start);
    let (run, _) = run.step(Event::DirectoryReady);
    let (_, action) = run.step(Event::Failed { message: "not found".to_string() });
    let e = error_of(action);
    assert_eq!(e.stage, Stage::AcquireMedia);
    assert_eq!(e.message, "Failed to run yt-dlp. Is it installed?: not found");

    let run = run_for("/videos/talk.mp4", None);
    let (run, _) = run.step(Event::Start);
    let (run, _) = run.step(Event::DirectoryReady);
    let (run, _) = run.step(probed(true));
    let (_, action) = run.step(Event::Failed { message: "not found".to_string() });
    let e = error_of(action);
    assert_eq!(e.stage, Stage::ExtractAudio);
    assert_eq!(e.message, "Failed to run ffmpeg: not found");

    let run = to_model_check(run_for("/videos/talk.mp4", None));
    let (run, _) =
        run.step(Event::ModelProbed { path: "/models/ggml-small.bin".to_string(), exists: true });
    let (_, action) = run.step(Event::Failed { message: "Failed to transcribe audio".to_string() });
    let e = error_of(action);
    assert_eq!(e.stage, Stage::Transcribe);
    assert_eq!(e.message, "Failed to transcribe audio");

    let run = to_model_check(run_for("/videos/talk.mp4", None));
    let (run, _) =
        run.step(Event::ModelProbed { path: "/models/ggml-small.bin".to_string(), exists: true });
    let (run, _) = run.step(Event::Transcribed { segments: strings(&["a"]) });
    let (_, action) = run.step(Event::Failed { message: "read-only file system".to_string() });
    let e = error_of(action);
    assert_eq!(e.stage, Stage::Persist);
    assert_eq!(e.message, "read-only file system");
}

#[test]
fn unexpected_events_end_the_run() {
    let run = run_for("/videos/talk.mp4", None);
    let (run, action) = run.step(Event::DirectoryReady);
    assert!(run.is_finished());
    let e = error_of(action);
    assert_eq!(e.stage, Stage::Init);
    assert_eq!(e.message, "Unexpected event");

    let run = run_for("/videos/talk.mp4", None);
    let (_, action) = run.step(Event::Failed { message: "x".to_string() });
    let e = error_of(action);
    assert_eq!(e.stage, Stage::Init);
    assert_eq!(e.message, "Unexpected event");

    let run = run_for("/videos/talk.mp4", None);
    let (run, _) = run.step(Event::Start);
    let (run, _) = run.step(Event::DirectoryReady);
    let (_, action) = run.step(Event::FileWritten { path: "/x".to_string() });
    let e = error_of(action);
    assert_eq!(e.stage, Stage::ResolveSource);
    assert_eq!(e.message, "Unexpected event");
}

#[test]
fn preview_shows_at_most_five_hundred_characters() {
    assert_eq!(preview("short"), "short");
    assert_eq!(preview(""), "");
    let exact = "x".repeat(500);
    assert_eq!(preview(&exact), exact);
    let long = "é".repeat(501);
    assert_eq!(preview(&long), format!("{}...", "é".repeat(500)));
}

#[test]
fn stage_names() {
    assert_eq!(Stage::Init.as_str(), "Init");
    assert_eq!(Stage::ResolveSource.as_str(), "ResolveSource");
    assert_eq!(Stage::AcquireMedia.as_str(), "AcquireMedia");
    assert_eq!(Stage::ExtractAudio.as_str(), "ExtractAudio");
    assert_eq!(Stage::Transcribe.as_str(), "Transcribe");
    assert_eq!(Stage::Persist.as_str(), "Persist");
    assert_eq!(Stage::Done.as_str(), "Done");
    assert_eq!(Phase::CheckingLocal.stage_of(), Stage::ResolveSource);
    assert_eq!(Phase::Normalizing.stage_of(), Stage::ExtractAudio);
    assert_eq!(Phase::Finished.stage_of(), Stage::Done);
}
