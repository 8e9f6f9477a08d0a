use mcp_types::{validate_type_field, JsonNumber, JsonValue, Role, SchemaError, Wire};

fn text(s: &str) -> String {
    String::from(s)
}

#[test]
fn matching_type_field_is_accepted() {
    assert_eq!(validate_type_field("audio", "audio", "AudioContent"), Ok(()));
}

#[test]
fn other_type_field_is_a_mismatch() {
    assert_eq!(
        validate_type_field("image", "audio", "AudioContent"),
        Err(SchemaError::TypeMismatch {
            expected: text("audio"),
            found: text("image"),
            of_type: text("AudioContent"),
        })
    );
}

#[test]
fn type_field_is_compared_exactly() {
    assert!(validate_type_field("Audio", "audio", "AudioContent").is_err());
    assert!(validate_type_field("audio ", "audio", "AudioContent").is_err());
    assert!(validate_type_field("", "audio", "AudioContent").is_err());
}

#[test]
fn mismatch_message_names_type_and_both_values() {
    let e = SchemaError::TypeMismatch { expected: text("text"), found: text("image"), of_type: text("TextContent") };
    assert_eq!(e.message(), "invalid type for TextContent: expected 'text', found 'image'");
}

#[test]
fn messages_of_the_other_errors() {
    assert_eq!(SchemaError::Malformed { of_type: text("Tool") }.message(), "malformed value for Tool");
    assert_eq!(
        SchemaError::NoVariantMatched { of_type: text("ContentBlock") }.message(),
        "data did not match any variant of ContentBlock"
    );
    assert_eq!(SchemaError::InvalidEncoding { of_type: text("base64") }.message(), "invalid encoding for base64");
    assert_eq!(
        SchemaError::UnknownField { of_type: text("Empty"), field: text("x") }.message(),
        "unknown field 'x' for Empty"
    );
}

#[test]
fn integer_refuses_what_does_not_fit() {
    let refused = Err(SchemaError::Malformed { of_type: text("integer") });
    assert_eq!(i64::deserialize(&JsonValue::Number(JsonNumber::PosInt(u64::MAX))), refused);
    assert_eq!(i64::deserialize(&JsonValue::Number(JsonNumber::PosInt(9223372036854775808))), refused);
    assert_eq!(i64::deserialize(&JsonValue::Number(JsonNumber::Float(1.0f64.to_bits()))), refused);
    assert_eq!(i64::deserialize(&JsonValue::String(text("1"))), refused);
}

#[test]
fn integer_takes_the_whole_range() {
    assert_eq!(i64::deserialize(&JsonValue::Number(JsonNumber::PosInt(9223372036854775807))), Ok(i64::MAX));
    assert_eq!(i64::deserialize(&JsonValue::Number(JsonNumber::NegInt(i64::MIN))), Ok(i64::MIN));
    assert_eq!(i64::MAX.serialize(), JsonValue::Number(JsonNumber::PosInt(9223372036854775807)));
    assert_eq!(i64::MIN.serialize(), JsonValue::Number(JsonNumber::NegInt(i64::MIN)));
    assert_eq!(0i64.serialize(), JsonValue::Number(JsonNumber::PosInt(0)));
    assert_eq!((-1i64).serialize(), JsonValue::Number(JsonNumber::NegInt(-1)));
}

#[test]
fn primitives_refuse_other_kinds() {
    assert_eq!(String::deserialize(&JsonValue::Null), Err(SchemaError::Malformed { of_type: text("string") }));
    assert_eq!(bool::deserialize(&JsonValue::Null), Err(SchemaError::Malformed { of_type: text("boolean") }));
    assert_eq!(
        JsonNumber::deserialize(&JsonValue::Bool(true)),
        Err(SchemaError::Malformed { of_type: text("number") })
    );
    assert_eq!(
        Vec::<String>::deserialize(&JsonValue::String(text("a"))),
        Err(SchemaError::Malformed { of_type: text("array") })
    );
}

#[test]
fn array_reports_its_first_refused_item() {
    let value = JsonValue::Array(vec![
        JsonValue::String(text("user")),
        JsonValue::String(text("admin")),
        JsonValue::Bool(false),
    ]);
    assert_eq!(Vec::<Role>::deserialize(&value), Err(SchemaError::Malformed { of_type: text("Role") }));
    let value = JsonValue::Array(vec![JsonValue::String(text("a")), JsonValue::Bool(false), JsonValue::Null]);
    assert_eq!(Vec::<String>::deserialize(&value), Err(SchemaError::Malformed { of_type: text("string") }));
}

#[test]
fn unknown_word_of_an_enumeration_is_malformed() {
    assert_eq!(
        Role::deserialize(&JsonValue::String(text("admin"))),
        Err(SchemaError::Malformed { of_type: text("Role") })
    );
    assert_eq!(Role::deserialize(&JsonValue::String(text("User"))), Err(SchemaError::Malformed { of_type: text("Role") }));
}
