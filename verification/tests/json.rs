use openai_audio::json::{read_count, read_object, read_text, settled, Field};
use openai_audio::stt::types::{TranscriptionResponse, Usage};
use openai_audio::text::{chars_of, put, put_text};

fn document(text: &str) -> serde_json::Value {
    serde_json::from_str::<serde_json::Value>(text).unwrap()
}

#[test]
fn text_member_reads_by_kind() {
    let object = document(r#"{"a":"x","b":null,"c":1,"d":["x"],"e":{"f":"x"},"g":true,"h":""}"#);
    assert!(matches!(read_text(&object, "a"), Field::Present(t) if t == "x"));
    assert!(matches!(read_text(&object, "h"), Field::Present(t) if t.is_empty()));
    assert!(matches!(read_text(&object, "b"), Field::Absent));
    assert!(matches!(read_text(&object, "missing"), Field::Absent));
    assert!(matches!(read_text(&object, "c"), Field::Mismatch));
    assert!(matches!(read_text(&object, "d"), Field::Mismatch));
    assert!(matches!(read_text(&object, "e"), Field::Mismatch));
    assert!(matches!(read_text(&object, "g"), Field::Mismatch));
}

#[test]
fn count_member_reads_by_kind_and_size() {
    let object = document(
        r#"{"a":0,"b":4294967295,"c":4294967296,"d":-1,"e":1.0,"f":"1","g":null,"h":18446744073709551615,"i":1e2}"#,
    );
    assert!(matches!(read_count(&object, "a"), Field::Present(0)));
    assert!(matches!(read_count(&object, "b"), Field::Present(4294967295)));
    assert!(matches!(read_count(&object, "c"), Field::Mismatch));
    assert!(matches!(read_count(&object, "d"), Field::Mismatch));
    assert!(matches!(read_count(&object, "e"), Field::Mismatch));
    assert!(matches!(read_count(&object, "f"), Field::Mismatch));
    assert!(matches!(read_count(&object, "g"), Field::Absent));
    assert!(matches!(read_count(&object, "h"), Field::Mismatch));
    assert!(matches!(read_count(&object, "i"), Field::Mismatch));
    assert!(matches!(read_count(&object, "missing"), Field::Absent));
}

#[test]
fn object_member_reads_by_kind() {
    let object = document(r#"{"a":{},"b":{"c":1},"d":[],"e":"{}","f":null}"#);
    assert!(matches!(read_object(&object, "a"), Field::Present(m) if m.is_object()));
    match read_object(&object, "b") {
        Field::Present(inner) => assert!(matches!(read_count(inner, "c"), Field::Present(1))),
        _ => panic!("expected an object"),
    }
    assert!(matches!(read_object(&object, "d"), Field::Mismatch));
    assert!(matches!(read_object(&object, "e"), Field::Mismatch));
    assert!(matches!(read_object(&object, "f"), Field::Absent));
    assert!(matches!(read_object(&object, "missing"), Field::Absent));
}

#[test]
fn values_that_are_no_objects_have_no_members() {
    for text in ["1", "\"a\"", "null", "[{\"a\":1}]", "true"] {
        let value = document(text);
        assert!(matches!(read_text(&value, "a"), Field::Absent));
        assert!(matches!(read_count(&value, "a"), Field::Absent));
        assert!(matches!(read_object(&value, "a"), Field::Absent));
    }
}

#[test]
fn keys_are_matched_exactly() {
    let object = document(r#"{"Text":"x","text ":"y","té":"z"}"#);
    assert!(matches!(read_text(&object, "text"), Field::Absent));
    assert!(matches!(read_text(&object, "Text"), Field::Present(t) if t == "x"));
    assert!(matches!(read_text(&object, "té"), Field::Present(t) if t == "z"));
}

#[test]
fn only_a_present_member_settles_to_some() {
    assert_eq!(settled(Field::Present(3)), Some(3));
    assert_eq!(settled(Field::<u32>::Absent), None);
    assert_eq!(settled(Field::<u32>::Mismatch), None);
}

#[test]
fn usage_reads_from_a_document() {
    let usage = Usage::from_document(&document(r#"{"type":"tokens","output_tokens":3}"#)).unwrap();
    assert_eq!(usage.usage_type, Some("tokens".to_string()));
    assert_eq!(usage.output_tokens, Some(3));
    assert_eq!(usage.input_tokens, None);
    assert!(Usage::from_document(&document(r#"{"type":["tokens"]}"#)).is_none());
}

#[test]
fn usage_records_compare_field_by_field() {
    let first = Usage::from_document(&document(r#"{"type":"tokens","total_tokens":3}"#)).unwrap();
    let same = Usage::from_document(&document(r#"{"total_tokens":3,"type":"tokens"}"#)).unwrap();
    let other_type = Usage::from_document(&document(r#"{"type":"seconds","total_tokens":3}"#)).unwrap();
    let no_type = Usage::from_document(&document(r#"{"total_tokens":3}"#)).unwrap();
    let zero = Usage::from_document(&document(r#"{"type":"tokens","total_tokens":3,"input_tokens":0}"#)).unwrap();
    let details = Usage::from_document(&document(
        r#"{"type":"tokens","total_tokens":3,"input_token_details":{}}"#,
    ))
    .unwrap();
    assert!(first == same);
    assert!(first != other_type);
    assert!(first != no_type);
    assert!(first != zero);
    assert!(first != details);
}

#[test]
fn record_reads_from_a_document() {
    let response = TranscriptionResponse::from_document(&document(r#"{"text":"t"}"#)).unwrap();
    assert_eq!(response.text, "t");
    assert_eq!(
        TranscriptionResponse::from_document(&document(r#"{"text":"t","usage":1}"#)).unwrap_err(),
        "invalid field `usage`"
    );
    assert_eq!(
        TranscriptionResponse::from_document(&document("{}")).unwrap_err(),
        "missing or invalid field `text`"
    );
}

#[test]
fn characters_of_a_text() {
    assert_eq!(chars_of(""), Vec::<char>::new());
    assert_eq!(chars_of("aé語🎤"), vec!['a', 'é', '語', '🎤']);
}

#[test]
fn bytes_are_appended() {
    let mut body = vec![1u8];
    put(&mut body, &[2, 3]);
    put(&mut body, &[]);
    put_text(&mut body, "é!");
    assert_eq!(body, vec![1, 2, 3, 0xC3, 0xA9, b'!']);
}
