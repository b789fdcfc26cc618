use openai_audio::scalar::Scalar;
use openai_audio::tts::types::{AudioFormat, SpeechRequest, SpeechRequestJson, TtsModel, Voice};

#[test]
fn tests_test_model_serialization() {
    assert_eq!(TtsModel::Tts1.as_str(), "tts-1");
    assert_eq!(TtsModel::Tts1Hd.as_str(), "tts-1-hd");
    assert_eq!(TtsModel::Gpt4oMiniTts.as_str(), "gpt-4o-mini-tts");
}

#[test]
fn test_voice_serialization() {
    assert_eq!(Voice::Alloy.as_str(), "alloy");
    assert_eq!(Voice::Ash.as_str(), "ash");
    assert_eq!(Voice::Ballad.as_str(), "ballad");
    assert_eq!(Voice::Coral.as_str(), "coral");
    assert_eq!(Voice::Echo.as_str(), "echo");
    assert_eq!(Voice::Fable.as_str(), "fable");
    assert_eq!(Voice::Onyx.as_str(), "onyx");
    assert_eq!(Voice::Nova.as_str(), "nova");
    assert_eq!(Voice::Sage.as_str(), "sage");
    assert_eq!(Voice::Shimmer.as_str(), "shimmer");
    assert_eq!(Voice::Verse.as_str(), "verse");
}

#[test]
fn test_audio_format_serialization() {
    assert_eq!(AudioFormat::Mp3.as_str(), "mp3");
    assert_eq!(AudioFormat::Opus.as_str(), "opus");
    assert_eq!(AudioFormat::Aac.as_str(), "aac");
    assert_eq!(AudioFormat::Flac.as_str(), "flac");
    assert_eq!(AudioFormat::Wav.as_str(), "wav");
    assert_eq!(AudioFormat::Pcm.as_str(), "pcm");
}

#[test]
fn test_speech_request_json_serialization() {
    let request = SpeechRequest {
        input: "Hello, world!".to_string(),
        model: TtsModel::Gpt4oMiniTts,
        voice: Voice::Alloy,
        instructions: Some("Speak with enthusiasm".to_string()),
        response_format: Some(AudioFormat::Mp3),
        speed: Some(Scalar::new(1.5f32.to_bits(), &serde_json::to_string(&1.5f32).unwrap())),
    };

    let json_request = SpeechRequestJson::from(request);
    let json = json_request.to_json_string().unwrap();

    assert!(json.contains("\"input\":\"Hello, world!\""));
    assert!(json.contains("\"model\":\"gpt-4o-mini-tts\""));
    assert!(json.contains("\"voice\":\"alloy\""));
    assert!(json.contains("\"instructions\":\"Speak with enthusiasm\""));
    assert!(json.contains("\"response_format\":\"mp3\""));
    assert!(json.contains("\"speed\":1.5"));
}

#[test]
fn test_speech_request_json_minimal() {
    let request = SpeechRequest {
        input: "Test".to_string(),
        model: TtsModel::Tts1,
        voice: Voice::Nova,
        instructions: None,
        response_format: None,
        speed: None,
    };

    let json_request = SpeechRequestJson::from(request);
    let json = json_request.to_json_string().unwrap();

    assert!(json.contains("\"input\":\"Test\""));
    assert!(json.contains("\"model\":\"tts-1\""));
    assert!(json.contains("\"voice\":\"nova\""));
    // Optional fields should not be present
    assert!(!json.contains("\"instructions\""));
    assert!(!json.contains("\"response_format\""));
    assert!(!json.contains("\"speed\""));
}

#[test]
fn test_audio_format_default() {
    let default_format = AudioFormat::default();
    assert!(matches!(default_format, AudioFormat::Mp3));
}

fn record(
    instructions: Option<&str>,
    response_format: Option<AudioFormat>,
    speed: Option<Scalar>,
) -> SpeechRequestJson {
    SpeechRequestJson::from(SpeechRequest {
        input: "Hi".to_string(),
        model: TtsModel::Tts1Hd,
        voice: Voice::Sage,
        instructions: instructions.map(str::to_string),
        response_format,
        speed,
    })
}

#[test]
fn default_speech_request_is_empty() {
    let request = SpeechRequest::default();
    assert_eq!(request.input, "");
    assert_eq!(request.model, TtsModel::Tts1);
    assert_eq!(request.voice, Voice::Alloy);
    assert_eq!(request.instructions, None);
    assert_eq!(request.response_format, None);
    assert!(request.speed.is_none());
}

#[test]
fn wire_record_names_every_selector() {
    let wire = record(Some("calm"), Some(AudioFormat::Opus), Some(Scalar::new(2.0f32.to_bits(), "2.0")));
    assert_eq!(wire.input, "Hi");
    assert_eq!(wire.model, "tts-1-hd");
    assert_eq!(wire.voice, "sage");
    assert_eq!(wire.instructions, Some("calm".to_string()));
    assert_eq!(wire.response_format, Some("opus".to_string()));
    let speed = wire.speed.unwrap();
    assert_eq!(speed.bits, 2.0f32.to_bits());
    assert_eq!(speed.text, "2.0");
}

#[test]
fn json_is_exact_with_every_field_set() {
    let wire = record(Some("calm"), Some(AudioFormat::Opus), Some(Scalar::new(2.0f32.to_bits(), "2.0")));
    assert_eq!(
        wire.to_json_string().unwrap(),
        r#"{"input":"Hi","model":"tts-1-hd","voice":"sage","instructions":"calm","response_format":"opus","speed":2.0}"#
    );
}

#[test]
fn json_is_exact_with_nothing_optional_set() {
    assert_eq!(
        record(None, None, None).to_json_string().unwrap(),
        r#"{"input":"Hi","model":"tts-1-hd","voice":"sage"}"#
    );
}

#[test]
fn each_optional_field_is_omitted_on_its_own() {
    let only_instructions = record(Some("calm"), None, None).to_json_string().unwrap();
    assert!(only_instructions.contains("\"instructions\":\"calm\""));
    assert!(!only_instructions.contains("\"response_format\""));
    assert!(!only_instructions.contains("\"speed\""));
    assert!(!only_instructions.contains("null"));

    let only_format = record(None, Some(AudioFormat::Pcm), None).to_json_string().unwrap();
    assert!(!only_format.contains("\"instructions\""));
    assert!(only_format.contains("\"response_format\":\"pcm\""));
    assert!(!only_format.contains("\"speed\""));
    assert!(!only_format.contains("null"));

    let only_speed = record(None, None, Some(Scalar::new(0.5f32.to_bits(), "0.5"))).to_json_string().unwrap();
    assert!(!only_speed.contains("\"instructions\""));
    assert!(!only_speed.contains("\"response_format\""));
    assert!(only_speed.contains("\"speed\":0.5"));
    assert!(!only_speed.contains("null"));
}

#[test]
fn json_strings_are_escaped() {
    let wire = SpeechRequestJson::from(SpeechRequest {
        input: "say \"hi\"\n\\ \u{1} é".to_string(),
        model: TtsModel::Tts1,
        voice: Voice::Alloy,
        instructions: None,
        response_format: None,
        speed: None,
    });
    let json = wire.to_json_string().unwrap();
    assert_eq!(
        json,
        "{\"input\":\"say \\\"hi\\\"\\n\\\\ \\u0001 é\",\"model\":\"tts-1\",\"voice\":\"alloy\"}"
    );
    let parsed = serde_json::from_str::<serde_json::Value>(&json).unwrap();
    assert_eq!(parsed["input"].as_str(), Some("say \"hi\"\n\\ \u{1} é"));
}

#[test]
fn json_agrees_with_the_serialiser_on_every_member() {
    let wire = record(Some("a \"b\""), Some(AudioFormat::Wav), Some(Scalar::new(1.25f32.to_bits(), "1.25")));
    let parsed = serde_json::from_slice::<serde_json::Value>(&wire.to_json_vec().unwrap()).unwrap();
    let object = parsed.as_object().unwrap();
    assert_eq!(object.len(), 6);
    assert_eq!(parsed["input"].as_str(), Some("Hi"));
    assert_eq!(parsed["model"].as_str(), Some("tts-1-hd"));
    assert_eq!(parsed["voice"].as_str(), Some("sage"));
    assert_eq!(parsed["instructions"].as_str(), Some("a \"b\""));
    assert_eq!(parsed["response_format"].as_str(), Some("wav"));
    assert_eq!(parsed["speed"].as_f64(), Some(1.25));
}

#[test]
fn json_bytes_are_the_text_in_utf8() {
    let wire = SpeechRequestJson::from(SpeechRequest {
        input: "grüß".to_string(),
        model: TtsModel::Tts1,
        voice: Voice::Alloy,
        instructions: None,
        response_format: None,
        speed: None,
    });
    assert_eq!(wire.to_json_vec().unwrap(), wire.to_json_string().unwrap().into_bytes());
}
