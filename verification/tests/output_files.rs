use video_transcriber_mcp::output::{
    basename, file_name, json_content, markdown_report, sanitize_filename, OutputKind,
};
use video_transcriber_mcp::types::{VideoMetadata, WhisperModel};

fn sample() -> VideoMetadata {
    VideoMetadata {
        video_id: "abc123".to_string(),
        title: "What is 2/3? A: b".to_string(),
        channel: "Maths".to_string(),
        duration: 125,
        upload_date: "20240131".to_string(),
        platform: "YouTube".to_string(),
        url: "https://youtu.be/abc123".to_string(),
    }
}

#[test]
fn sanitize_replaces_the_nine_characters() {
    assert_eq!(sanitize_filename("a/b\\c:d*e?f\"g<h>i|j"), "a-b-c-d-e-f-g-h-i-j");
    assert_eq!(sanitize_filename("plain name.mp4"), "plain name.mp4");
    assert_eq!(sanitize_filename(""), "");
}

#[test]
fn sanitize_long_title_is_cut_and_safe() {
    let mut title = String::new();
    while title.chars().count() <= 150 {
        title.push_str("a/b\\c:d*e?f\"g<h>i|j");
    }
    let safe = sanitize_filename(&title);
    assert_eq!(safe.chars().count(), 150);
    for c in ['/', '\\', ':', '*', '?', '"', '<', '>', '|'] {
        assert!(!safe.contains(c));
    }
    let expected: String = "a-b-c-d-e-f-g-h-i-j".repeat(8).chars().take(150).collect();
    assert_eq!(safe, expected);
}

#[test]
fn sanitize_counts_characters_not_bytes() {
    let title = "é".repeat(200);
    let safe = sanitize_filename(&title);
    assert_eq!(safe.chars().count(), 150);
    assert_eq!(safe, "é".repeat(150));
    assert_eq!(sanitize_filename(&"x".repeat(150)), "x".repeat(150));
    assert_eq!(sanitize_filename(&"x".repeat(151)), "x".repeat(150));
}

#[test]
fn three_files_share_the_basename() {
    let m = sample();
    assert_eq!(basename(&m), "abc123-What is 2-3- A- b");
    assert_eq!(file_name(&m, OutputKind::Text), "abc123-What is 2-3- A- b.txt");
    assert_eq!(file_name(&m, OutputKind::Json), "abc123-What is 2-3- A- b.json");
    assert_eq!(file_name(&m, OutputKind::Markdown), "abc123-What is 2-3- A- b.md");
}

#[test]
fn markdown_report_has_the_template() {
    let m = sample();
    let expected = "# What is 2/3? A: b\n\n**Video:** https://youtu.be/abc123\n**Platform:** YouTube\n**Channel:** Maths\n**Video ID:** abc123\n**Duration:** 125s\n**Published:** 20240131\n\n---\n\n## Transcript\n\nhello world\n\n---\n\n*Transcribed using whisper.cpp (Rust) - Model: small*\n";
    assert_eq!(markdown_report(&m, "hello world", WhisperModel::Small), expected);
}

#[test]
fn json_document_parses_with_three_fields() {
    let m = sample();
    let text = json_content(&m, "hello \"world\"", WhisperModel::Tiny).unwrap();
    let parsed: serde_json::Value = serde_json::from_str(&text).unwrap();
    let object = parsed.as_object().unwrap();
    assert_eq!(object.len(), 3);
    assert_eq!(parsed["transcript"], serde_json::Value::from("hello \"world\""));
    assert_eq!(parsed["model"], serde_json::Value::from("tiny"));
    let metadata = parsed["metadata"].as_object().unwrap();
    assert_eq!(metadata.len(), 7);
    assert_eq!(parsed["metadata"]["video_id"], serde_json::Value::from("abc123"));
    assert_eq!(parsed["metadata"]["title"], serde_json::Value::from("What is 2/3? A: b"));
    assert_eq!(parsed["metadata"]["channel"], serde_json::Value::from("Maths"));
    assert_eq!(parsed["metadata"]["duration"], serde_json::Value::from(125u64));
    assert_eq!(parsed["metadata"]["upload_date"], serde_json::Value::from("20240131"));
    assert_eq!(parsed["metadata"]["platform"], serde_json::Value::from("YouTube"));
    assert_eq!(
        parsed["metadata"]["url"],
        serde_json::Value::from("https://youtu.be/abc123")
    );
    assert!(text.contains('\n'));
}
