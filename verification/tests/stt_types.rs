use openai_audio::stt::types::{Model, ResponseFormat, TranscriptionRequest};

#[test]
fn test_model_serialization() {
    assert_eq!(Model::Gpt4oTranscribe.as_str(), "gpt-4o-transcribe");
    assert_eq!(Model::Gpt4oMiniTranscribe.as_str(), "gpt-4o-mini-transcribe");
    assert_eq!(Model::Whisper1.as_str(), "whisper-1");
}

#[test]
fn test_response_format_serialization() {
    assert_eq!(ResponseFormat::Json.as_str(), "json");
    assert_eq!(ResponseFormat::Text.as_str(), "text");
    assert_eq!(ResponseFormat::Srt.as_str(), "srt");
    assert_eq!(ResponseFormat::VerboseJson.as_str(), "verbose_json");
    assert_eq!(ResponseFormat::Vtt.as_str(), "vtt");
}

#[test]
fn default_transcription_request_is_empty() {
    let request = TranscriptionRequest::default();
    assert!(request.file.is_empty());
    assert_eq!(request.file_name, "");
    assert_eq!(request.model, Model::Whisper1);
    assert_eq!(request.language, None);
    assert_eq!(request.prompt, None);
    assert_eq!(request.response_format, None);
    assert!(request.temperature.is_none());
}
