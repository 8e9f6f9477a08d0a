use mcp_types::binary::{decode_base64, encode_base64};
use mcp_types::{
    Annotations, AudioContent, Base64Bytes, BlobResourceContents, ImageContent, JsonNumber, JsonValue, Role,
    SchemaError, Timestamp, Wire,
};

fn text(s: &str) -> String {
    String::from(s)
}

fn object(entries: Vec<(&str, JsonValue)>) -> JsonValue {
    JsonValue::Object(entries.into_iter().map(|(k, v)| (text(k), v)).collect())
}

fn string(s: &str) -> JsonValue {
    JsonValue::String(text(s))
}

#[test]
fn base64_text_of_known_bytes() {
    assert_eq!(encode_base64(&Vec::new()), "");
    assert_eq!(encode_base64(&b"f".to_vec()), "Zg==");
    assert_eq!(encode_base64(&b"fo".to_vec()), "Zm8=");
    assert_eq!(encode_base64(&b"foo".to_vec()), "Zm9v");
    assert_eq!(encode_base64(&b"hello".to_vec()), "aGVsbG8=");
    assert_eq!(encode_base64(&vec![0xfb, 0xff, 0xfe]), "+//+");
}

#[test]
fn base64_bytes_of_known_text() {
    assert_eq!(decode_base64("aGVsbG8=", "base64"), Ok(b"hello".to_vec()));
    assert_eq!(decode_base64("", "base64"), Ok(Vec::new()));
    assert_eq!(decode_base64("+//+", "base64"), Ok(vec![0xfb, 0xff, 0xfe]));
}

#[test]
fn base64_refuses_what_is_no_canonical_text() {
    let refused = Err(SchemaError::InvalidEncoding { of_type: text("base64") });
    assert_eq!(decode_base64("aGVsbG8", "base64"), refused);
    assert_eq!(decode_base64("aGVsbG8==", "base64"), refused);
    assert_eq!(decode_base64("Zh==", "base64"), refused);
    assert_eq!(decode_base64("not base64!", "base64"), refused);
    assert_eq!(decode_base64("Zm9v\n", "base64"), refused);
}

#[test]
fn base64_bytes_survive_the_wire() {
    let mut all = Vec::new();
    for b in 0..=255u8 {
        all.push(b);
    }
    for len in [0usize, 1, 2, 3, 4, 5, 255, 256] {
        let bytes = Base64Bytes { bytes: all[..len].to_vec() };
        assert_eq!(Base64Bytes::deserialize(&bytes.serialize()), Ok(bytes));
    }
}

#[test]
fn audio_content_writes_its_data_as_base64() {
    let audio = AudioContent {
        meta: None,
        annotations: None,
        data: Base64Bytes { bytes: b"hello".to_vec() },
        mime_type: text("audio/mpeg"),
    };
    let encoded = audio.serialize();
    assert_eq!(
        encoded,
        object(vec![("data", string("aGVsbG8=")), ("mimeType", string("audio/mpeg")), ("type", string("audio"))])
    );
    assert_eq!(AudioContent::deserialize(&encoded), Ok(audio));
}

#[test]
fn image_content_refuses_malformed_base64() {
    let value = object(vec![("data", string("***")), ("mimeType", string("image/png")), ("type", string("image"))]);
    assert_eq!(ImageContent::deserialize(&value), Err(SchemaError::InvalidEncoding { of_type: text("base64") }));
}

#[test]
fn blob_contents_refuse_data_that_is_no_string() {
    let value = object(vec![("blob", JsonValue::Bool(true)), ("uri", string("file:///b"))]);
    assert_eq!(BlobResourceContents::deserialize(&value), Err(SchemaError::Malformed { of_type: text("base64") }));
}

#[test]
fn timestamp_reads_an_instant() {
    let at = Timestamp::parse("2024-01-02T03:04:05.678Z").unwrap();
    assert_eq!(at.secs(), 1704164645);
    assert_eq!(at.nanos(), 678_000_000);
    assert_eq!(at.text(), "2024-01-02T03:04:05.678Z");
}

#[test]
fn timestamp_with_an_offset_denotes_the_instant_in_utc() {
    let at = Timestamp::parse("2024-01-02T04:04:05+01:00").unwrap();
    assert_eq!(at.secs(), 1704164645);
    assert_eq!(at.nanos(), 0);
    assert_eq!(at.text(), "2024-01-02T03:04:05Z");
    assert_eq!(Some(at), Timestamp::from_unix(1704164645, 0));
}

#[test]
fn timestamp_keeps_nanoseconds() {
    let at = Timestamp::from_unix(1, 123_456_789).unwrap();
    assert_eq!(at.text(), "1970-01-01T00:00:01.123456789Z");
    assert_eq!(Timestamp::deserialize(&at.serialize()), Ok(at));
}

#[test]
fn timestamp_of_the_epoch() {
    let at = Timestamp::from_unix(0, 0).unwrap();
    assert_eq!(at.text(), "1970-01-01T00:00:00Z");
    assert_eq!(at.serialize(), string("1970-01-01T00:00:00Z"));
}

#[test]
fn timestamp_before_the_epoch() {
    let at = Timestamp::from_unix(-1, 500_000_000).unwrap();
    assert_eq!(at.text(), "1969-12-31T23:59:59.500Z");
    assert_eq!(Timestamp::parse("1969-12-31T23:59:59.500Z"), Ok(at));
}

#[test]
fn timestamp_out_of_range_is_none() {
    assert_eq!(Timestamp::from_unix(i64::MAX, 0), None);
    assert_eq!(Timestamp::from_unix(0, 2_000_000_000), None);
}

#[test]
fn timestamp_refuses_what_is_no_timestamp() {
    let refused = Err(SchemaError::InvalidEncoding { of_type: text("timestamp") });
    assert_eq!(Timestamp::parse("yesterday"), refused);
    assert_eq!(Timestamp::parse("2024-13-01T00:00:00Z"), refused);
    assert_eq!(Timestamp::parse(""), refused);
    assert_eq!(Timestamp::deserialize(&string("2024-01-02")), refused);
    assert_eq!(
        Timestamp::deserialize(&JsonValue::Number(JsonNumber::PosInt(0))),
        Err(SchemaError::Malformed { of_type: text("timestamp") })
    );
}

#[test]
fn annotations_survive_the_wire() {
    let annotations = Annotations {
        audience: vec![Role::User, Role::Assistant],
        last_modified: Timestamp::parse("2025-06-30T12:00:00.25Z").unwrap(),
        priority: JsonNumber::Float(0.5f64.to_bits()),
    };
    let encoded = annotations.serialize();
    assert_eq!(
        encoded,
        object(vec![
            ("audience", JsonValue::Array(vec![string("user"), string("assistant")])),
            ("lastModified", string("2025-06-30T12:00:00.250Z")),
            ("priority", JsonValue::Number(JsonNumber::Float(0.5f64.to_bits()))),
        ])
    );
    assert_eq!(Annotations::deserialize(&encoded), Ok(annotations));
}

#[test]
fn annotations_refuse_a_priority_that_is_no_number() {
    let value = object(vec![
        ("audience", JsonValue::Array(vec![])),
        ("lastModified", string("2025-06-30T12:00:00Z")),
        ("priority", string("high")),
    ]);
    assert_eq!(Annotations::deserialize(&value), Err(SchemaError::Malformed { of_type: text("number") }));
}

#[test]
fn annotations_take_a_priority_out_of_the_usual_range() {
    let value = object(vec![
        ("audience", JsonValue::Array(vec![])),
        ("lastModified", string("2025-06-30T12:00:00Z")),
        ("priority", JsonValue::Number(JsonNumber::PosInt(7))),
    ]);
    assert_eq!(Annotations::deserialize(&value).unwrap().priority, JsonNumber::PosInt(7));
}
