use openai_audio::envelope::{failure_message, is_success, message_from, ApiErrorResponse};
use openai_audio::scalar::Scalar;
use openai_audio::tts::client::{MAX_SPEED_BITS, MIN_SPEED_BITS};
use openai_audio::transport::{address, bearer_token, prepare_post, with_header, TransportError, DEFAULT_TIMEOUT};

#[test]
fn success_is_two_hundred_to_two_ninety_nine() {
    for status in 0..=u16::MAX {
        assert_eq!(is_success(status), (200..=299).contains(&status));
    }
}

#[test]
fn envelope_is_read_with_all_members() {
    let body = br#"{"error":{"message":"m","type":"t","code":"c","param":null},"extra":1}"#;
    let envelope = ApiErrorResponse::from_json(body).unwrap();
    assert_eq!(envelope.error.message, "m");
    assert_eq!(envelope.error.error_type, Some("t".to_string()));
    assert_eq!(envelope.error.code, Some("c".to_string()));
}

#[test]
fn envelope_needs_only_a_message() {
    let envelope = ApiErrorResponse::from_json(br#"{"error":{"message":""}}"#).unwrap();
    assert_eq!(envelope.error.message, "");
    assert_eq!(envelope.error.error_type, None);
    assert_eq!(envelope.error.code, None);
    let envelope =
        ApiErrorResponse::from_json(br#"{"error":{"message":"m","type":null,"code":null}}"#).unwrap();
    assert_eq!(envelope.error.error_type, None);
    assert_eq!(envelope.error.code, None);
}

#[test]
fn other_bodies_hold_no_envelope() {
    for body in [
        &b""[..],
        &b"plain"[..],
        &b"{}"[..],
        &b"[]"[..],
        &br#"{"error":"text"}"#[..],
        &br#"{"error":null}"#[..],
        &br#"{"error":[]}"#[..],
        &br#"{"error":{}}"#[..],
        &br#"{"error":{"message":null}}"#[..],
        &br#"{"error":{"message":1}}"#[..],
        &br#"{"error":{"message":"m","type":1}}"#[..],
        &br#"{"error":{"message":"m","code":404}}"#[..],
        &br#"{"message":"m"}"#[..],
    ] {
        assert!(ApiErrorResponse::from_json(body).is_none());
    }
}

#[test]
fn envelope_reads_from_a_document() {
    let document =
        serde_json::from_str::<serde_json::Value>(r#"{"error":{"message":"m","code":"c"}}"#).unwrap();
    let envelope = ApiErrorResponse::from_document(&document).unwrap();
    assert_eq!(envelope.error.message, "m");
    assert_eq!(envelope.error.code, Some("c".to_string()));
    assert!(ApiErrorResponse::from_document(&serde_json::Value::Null).is_none());
}

#[test]
fn failure_message_prefers_the_envelope() {
    assert_eq!(failure_message(br#"{"error":{"message":"quota"}}"#), "quota");
    assert_eq!(failure_message(b"quota"), "quota");
    assert_eq!(failure_message(br#"{"error":{"message":7}}"#), r#"{"error":{"message":7}}"#);
    assert_eq!(failure_message(&[0x80]), "\u{FFFD}");
    assert_eq!(failure_message("grüß".as_bytes()), "grüß");
}

#[test]
fn message_goes_with_the_envelope_or_the_body() {
    let envelope = ApiErrorResponse::from_json(br#"{"error":{"message":"inner"}}"#);
    assert_eq!(message_from(envelope, b"outer"), "inner");
    assert_eq!(message_from(None, b"outer"), "outer");
}

#[test]
fn bearer_token_has_the_key_behind_the_scheme() {
    assert_eq!(bearer_token("abc"), "Bearer abc");
    assert_eq!(bearer_token(""), "Bearer ");
    assert_eq!(DEFAULT_TIMEOUT, 60000);
}

#[test]
fn headers_keep_their_order() {
    let headers = with_header(Vec::new(), "A", "1".to_string());
    let headers = with_header(headers, "B", "2".to_string());
    let headers = with_header(headers, "A", "3".to_string());
    assert_eq!(
        headers,
        vec![
            ("A".to_string(), "1".to_string()),
            ("B".to_string(), "2".to_string()),
            ("A".to_string(), "3".to_string()),
        ]
    );
}

#[test]
fn addressing_follows_the_parser() {
    let headers = vec![("H".to_string(), "v".to_string())];
    let request = address(Ok("http://h/".to_string()), headers.clone(), 7, vec![1, 2]).unwrap();
    assert_eq!(request.url, "http://h/");
    assert_eq!(request.headers, headers);
    assert_eq!(request.timeout, 7);
    assert_eq!(request.body, vec![1, 2]);
    match address(Err("empty host".to_string()), headers, 7, vec![1, 2]) {
        Err(TransportError::BadUrl { url }) => assert_eq!(url, "empty host"),
        other => panic!("expected a bad URL, got {:?}", other),
    }
}

#[test]
fn post_is_addressed_to_base_and_path() {
    let request = prepare_post("http://Host.example", "/p?q=1", Vec::new(), 1, Vec::new()).unwrap();
    assert_eq!(request.url, "http://host.example/p?q=1");
    match prepare_post("", "/p", Vec::new(), 1, Vec::new()) {
        Err(TransportError::BadUrl { url }) => assert_eq!(url, "relative URL without a base"),
        other => panic!("expected a bad URL, got {:?}", other),
    }
    match prepare_post("http://host:99999", "/p", Vec::new(), 1, Vec::new()) {
        Err(TransportError::BadUrl { url }) => assert_eq!(url, "invalid port number"),
        other => panic!("expected a bad URL, got {:?}", other),
    }
}

#[test]
fn scalar_keeps_pattern_and_rendering() {
    let scalar = Scalar::new(1.5f32.to_bits(), "1.5");
    assert_eq!(scalar.bits, 0x3FC0_0000);
    assert_eq!(scalar.text, "1.5");
    let copy = scalar.clone();
    assert_eq!(copy.bits, scalar.bits);
    assert_eq!(copy.text, scalar.text);
}

#[test]
fn patterns_of_the_range_ends_are_those_of_the_numbers() {
    assert_eq!(MIN_SPEED_BITS, 0.25f32.to_bits());
    assert_eq!(MAX_SPEED_BITS, 4.0f32.to_bits());
    let one = Scalar::new(1.0f32.to_bits(), "1");
    assert!(one.is_within(MIN_SPEED_BITS, MAX_SPEED_BITS));
    assert!(!Scalar::new(8.0f32.to_bits(), "8").is_within(MIN_SPEED_BITS, MAX_SPEED_BITS));
    assert!(!Scalar::new((-1.0f32).to_bits(), "-1").is_within(MIN_SPEED_BITS, MAX_SPEED_BITS));
    assert!(Scalar::new(MIN_SPEED_BITS, "0.25").is_within(MIN_SPEED_BITS, MAX_SPEED_BITS));
    assert!(Scalar::new(MAX_SPEED_BITS, "4").is_within(MIN_SPEED_BITS, MAX_SPEED_BITS));
}
