use video_transcriber_mcp::types::WhisperModel;

#[test]
fn model_names_are_lower_case() {
    assert_eq!(WhisperModel::Tiny.as_str(), "tiny");
    assert_eq!(WhisperModel::Large.as_str(), "large");
}

#[test]
fn model_filename_wraps_the_name() {
    assert_eq!(WhisperModel::Base.model_filename(), "ggml-base.bin");
}

#[test]
fn model_name_is_read_in_any_case() {
    assert_eq!(WhisperModel::from_str("MeDiUm"), Ok(WhisperModel::Medium));
    assert_eq!(
        WhisperModel::from_str("xyz"),
        Err("Invalid whisper model: xyz".to_string())
    );
}

#[test]
fn unknown_model_argument_falls_back_to_base() {
    assert_eq!(WhisperModel::from_argument(Some("xyz")), WhisperModel::Base);
    assert_eq!(WhisperModel::from_argument(None), WhisperModel::Base);
    assert_eq!(WhisperModel::from_argument(Some("SMALL")), WhisperModel::Small);
}
