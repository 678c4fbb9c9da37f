use video_transcriber_mcp::engine::TranscriberEngine;
use video_transcriber_mcp::pipeline::{Phase, Workspace};
use video_transcriber_mcp::speech::{ModelFile, ModelFiles, WhisperTranscriber};
use video_transcriber_mcp::types::{TranscriptionOptions, WhisperModel};

fn engine() -> TranscriberEngine {
    TranscriberEngine::new(
        WhisperTranscriber::new("/m".to_string()),
        Workspace {
            download_template: "/w/video.%(ext)s".to_string(),
            downloaded_audio: "/w/video.mp3".to_string(),
            extracted_audio: "/a/audio.mp3".to_string(),
        },
        Some(4),
    )
}

fn files(present: bool) -> ModelFiles {
    let file = |name: &str| ModelFile {
        path: format!("/m/ggml-{}.bin", name),
        exists: present,
        megabytes: if present { Some("1.0".to_string()) } else { None },
    };
    ModelFiles {
        tiny: file("tiny"),
        base: file("base"),
        small: file("small"),
        medium: file("medium"),
        large: file("large"),
    }
}

#[test]
fn dependency_report_with_nothing_installed() {
    let report = engine().check_dependencies(false, false, &files(false));
    let expected = "❌ yt-dlp: NOT installed\n❌ ffmpeg: NOT installed\n📦 Whisper Models:\n  ❌ Tiny: not installed\n  ❌ Base: not installed\n  ❌ Small: not installed\n  ❌ Medium: not installed\n  ❌ Large: not installed\n";
    assert_eq!(report, expected);
}

#[test]
fn dependency_report_with_everything_installed() {
    let report = engine().check_dependencies(true, true, &files(true));
    let expected = "✅ yt-dlp: installed\n✅ ffmpeg: installed\n📦 Whisper Models:\n  ✅ Tiny: /m/ggml-tiny.bin (1.0 MB)\n  ✅ Base: /m/ggml-base.bin (1.0 MB)\n  ✅ Small: /m/ggml-small.bin (1.0 MB)\n  ✅ Medium: /m/ggml-medium.bin (1.0 MB)\n  ✅ Large: /m/ggml-large.bin (1.0 MB)\n";
    assert_eq!(report, expected);
}

#[test]
fn dependency_report_always_has_one_line_each() {
    for fetcher in [false, true] {
        for converter in [false, true] {
            for present in [false, true] {
                let report = engine().check_dependencies(fetcher, converter, &files(present));
                let lines: Vec<&str> = report.lines().collect();
                assert_eq!(lines.len(), 8);
                assert_eq!(lines.iter().filter(|l| l.contains("yt-dlp")).count(), 1);
                assert_eq!(lines.iter().filter(|l| l.contains("ffmpeg")).count(), 1);
                for label in ["Tiny", "Base", "Small", "Medium", "Large"] {
                    let marker = format!(" {}: ", label);
                    assert_eq!(lines.iter().filter(|l| l.contains(&marker)).count(), 1);
                }
            }
        }
    }
}

#[test]
fn engine_starts_idle_runs() {
    let run = engine().transcribe(TranscriptionOptions {
        url: "/v.mp4".to_string(),
        output_dir: "/out".to_string(),
        model: WhisperModel::Base,
        language: None,
    });
    assert_eq!(run.phase(), Phase::Idle);
    assert!(!run.is_finished());
}
