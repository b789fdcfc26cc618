use openai_audio::stt::error::SttError;
use openai_audio::stt::types::{TokenDetails, TranscriptionResponse};

fn detail(result: Result<TranscriptionResponse, SttError>) -> String {
    match result {
        Err(SttError::ParseError(detail)) => detail,
        other => panic!("expected a parse error, got {:?}", other),
    }
}

#[test]
fn test_transcription_response_deserialization() {
    let json = r#"{
            "text": "Hello, world!",
            "usage": {
                "type": "tokens",
                "input_tokens": 14,
                "input_token_details": {
                    "text_tokens": 0,
                    "audio_tokens": 14
                },
                "output_tokens": 3,
                "total_tokens": 17
            }
        }"#;

    let response: TranscriptionResponse = TranscriptionResponse::from_json(json.as_bytes()).unwrap();
    assert_eq!(response.text, "Hello, world!");
    assert!(response.usage.is_some());

    let usage = response.usage.unwrap();
    assert_eq!(usage.usage_type, Some("tokens".to_string()));
    assert_eq!(usage.input_tokens, Some(14));
    assert_eq!(usage.output_tokens, Some(3));
    assert_eq!(usage.total_tokens, Some(17));

    // Check token details
    assert!(usage.input_token_details.is_some());
    let token_details = usage.input_token_details.unwrap();
    assert_eq!(token_details.text_tokens, Some(0));
    assert_eq!(token_details.audio_tokens, Some(14));
}

#[test]
fn test_simple_transcription_response() {
    let json = r#"{
            "text": "Simple transcription without usage data"
        }"#;

    let response: TranscriptionResponse = TranscriptionResponse::from_json(json.as_bytes()).unwrap();
    assert_eq!(response.text, "Simple transcription without usage data");
    assert!(response.usage.is_none());
}

#[test]
fn test_partial_usage_response() {
    // Test with partial usage data (missing some fields)
    let json = r#"{
            "text": "Transcription with partial usage",
            "usage": {
                "total_tokens": 25
            }
        }"#;

    let response: TranscriptionResponse = TranscriptionResponse::from_json(json.as_bytes()).unwrap();
    assert_eq!(response.text, "Transcription with partial usage");
    assert!(response.usage.is_some());

    let usage = response.usage.unwrap();
    assert_eq!(usage.total_tokens, Some(25));
    assert_eq!(usage.input_tokens, None);
    assert_eq!(usage.output_tokens, None);
    assert_eq!(usage.usage_type, None);
    assert_eq!(usage.input_token_details, None);
}

#[test]
fn hello_world_round_trip() {
    let response = TranscriptionResponse::from_json(br#"{"text":"Hello, world!"}"#).unwrap();
    assert_eq!(response.text, "Hello, world!");
    assert!(response.usage.is_none());
}

#[test]
fn zero_stays_apart_from_absent() {
    let body = br#"{"text":"t","usage":{"input_tokens":0,"input_token_details":{"audio_tokens":0}}}"#;
    let usage = TranscriptionResponse::from_json(body).unwrap().usage.unwrap();
    assert_eq!(usage.input_tokens, Some(0));
    assert_eq!(usage.output_tokens, None);
    assert_eq!(usage.total_tokens, None);
    assert_eq!(
        usage.input_token_details,
        Some(TokenDetails { text_tokens: None, audio_tokens: Some(0) })
    );
}

#[test]
fn null_members_read_as_absent() {
    let body = br#"{"text":"t","usage":null}"#;
    assert!(TranscriptionResponse::from_json(body).unwrap().usage.is_none());

    let body = br#"{"text":"t","usage":{"type":null,"input_tokens":null,"input_token_details":null}}"#;
    let usage = TranscriptionResponse::from_json(body).unwrap().usage.unwrap();
    assert_eq!(usage.usage_type, None);
    assert_eq!(usage.input_tokens, None);
    assert_eq!(usage.input_token_details, None);
}

#[test]
fn empty_usage_object_is_a_usage_with_nothing_set() {
    let usage = TranscriptionResponse::from_json(br#"{"text":"t","usage":{}}"#).unwrap().usage.unwrap();
    assert_eq!(usage.usage_type, None);
    assert_eq!(usage.input_tokens, None);
    assert_eq!(usage.input_token_details, None);
    assert_eq!(usage.output_tokens, None);
    assert_eq!(usage.total_tokens, None);
}

#[test]
fn unknown_members_are_passed_over() {
    let body = br#"{"task":"transcribe","text":"t","duration":1.5,"usage":{"seconds":3,"total_tokens":2}}"#;
    let response = TranscriptionResponse::from_json(body).unwrap();
    assert_eq!(response.text, "t");
    assert_eq!(response.usage.unwrap().total_tokens, Some(2));
}

#[test]
fn text_escapes_are_decoded() {
    let response = TranscriptionResponse::from_json(r#"{"text":"a\"b\\cé\n"}"#.as_bytes()).unwrap();
    assert_eq!(response.text, "a\"b\\cé\n");
}

#[test]
fn malformed_json_is_a_parse_error_with_the_parsers_words() {
    let words = detail(TranscriptionResponse::from_json(b"{\"text\": "));
    assert!(words.contains("line 1"));
    let words = detail(TranscriptionResponse::from_json(b""));
    assert!(words.contains("EOF"));
    let words = detail(TranscriptionResponse::from_json(b"not json"));
    assert!(!words.is_empty());
}

#[test]
fn record_without_text_is_a_parse_error() {
    assert_eq!(
        detail(TranscriptionResponse::from_json(br#"{"usage":{"total_tokens":1}}"#)),
        "missing or invalid field `text`"
    );
    assert_eq!(detail(TranscriptionResponse::from_json(b"{}")), "missing or invalid field `text`");
    assert_eq!(
        detail(TranscriptionResponse::from_json(br#"{"text":null}"#)),
        "missing or invalid field `text`"
    );
    assert_eq!(
        detail(TranscriptionResponse::from_json(br#"{"text":5}"#)),
        "missing or invalid field `text`"
    );
    assert_eq!(
        detail(TranscriptionResponse::from_json(br#""Hello""#)),
        "missing or invalid field `text`"
    );
    assert_eq!(detail(TranscriptionResponse::from_json(b"[]")), "missing or invalid field `text`");
}

#[test]
fn usage_of_another_kind_is_a_parse_error() {
    for body in [
        &br#"{"text":"t","usage":5}"#[..],
        &br#"{"text":"t","usage":"many"}"#[..],
        &br#"{"text":"t","usage":[]}"#[..],
        &br#"{"text":"t","usage":{"type":7}}"#[..],
        &br#"{"text":"t","usage":{"input_tokens":"3"}}"#[..],
        &br#"{"text":"t","usage":{"input_tokens":-1}}"#[..],
        &br#"{"text":"t","usage":{"input_tokens":1.5}}"#[..],
        &br#"{"text":"t","usage":{"total_tokens":4294967296}}"#[..],
        &br#"{"text":"t","usage":{"input_token_details":3}}"#[..],
        &br#"{"text":"t","usage":{"input_token_details":{"text_tokens":true}}}"#[..],
    ] {
        assert_eq!(detail(TranscriptionResponse::from_json(body)), "invalid field `usage`");
    }
}

#[test]
fn largest_count_fits() {
    let body = br#"{"text":"t","usage":{"total_tokens":4294967295}}"#;
    let usage = TranscriptionResponse::from_json(body).unwrap().usage.unwrap();
    assert_eq!(usage.total_tokens, Some(u32::MAX));
}

#[test]
fn token_details_read_from_a_document() {
    let document = serde_json::from_str::<serde_json::Value>(r#"{"text_tokens":1,"audio_tokens":2}"#).unwrap();
    assert_eq!(
        TokenDetails::from_document(&document),
        Some(TokenDetails { text_tokens: Some(1), audio_tokens: Some(2) })
    );
    let document = serde_json::from_str::<serde_json::Value>(r#"{"text_tokens":"1"}"#).unwrap();
    assert_eq!(TokenDetails::from_document(&document), None);
    let document = serde_json::from_str::<serde_json::Value>("7").unwrap();
    assert_eq!(
        TokenDetails::from_document(&document),
        Some(TokenDetails { text_tokens: None, audio_tokens: None })
    );
}
