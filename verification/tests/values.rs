use mcp_types::{
    CreateMessageRequestParamIncludeContext, Dictionary, ElicitationResultAction, JsonNumber, JsonValue, LoggingLevel,
    NumberType, Role, StringSchemaFormat, ToolChoiceMode, Wire,
};

fn text(s: &str) -> String {
    String::from(s)
}

fn string(s: &str) -> JsonValue {
    JsonValue::String(text(s))
}

#[test]
fn words_of_the_roles() {
    assert_eq!(Role::Assistant.as_str(), "assistant");
    assert_eq!(Role::User.as_str(), "user");
    assert_eq!(Role::deserialize(&string("assistant")), Ok(Role::Assistant));
    assert_eq!(Role::deserialize(&string("user")), Ok(Role::User));
    assert_eq!(Role::default(), Role::Assistant);
}

#[test]
fn words_of_the_logging_levels() {
    let all = [
        (LoggingLevel::Debug, "debug"),
        (LoggingLevel::Info, "info"),
        (LoggingLevel::Notice, "notice"),
        (LoggingLevel::Warning, "warning"),
        (LoggingLevel::Error, "error"),
        (LoggingLevel::Critical, "critical"),
        (LoggingLevel::Alert, "alert"),
        (LoggingLevel::Emergency, "emergency"),
    ];
    for (level, word) in all {
        assert_eq!(level.serialize(), string(word));
        assert_eq!(LoggingLevel::deserialize(&string(word)), Ok(level));
    }
    assert_eq!(LoggingLevel::default(), LoggingLevel::Debug);
}

#[test]
fn words_of_the_other_enumerations() {
    assert_eq!(ElicitationResultAction::Accept.serialize(), string("accept"));
    assert_eq!(ElicitationResultAction::Decline.serialize(), string("decline"));
    assert_eq!(ElicitationResultAction::Cancel.serialize(), string("cancel"));
    assert_eq!(ToolChoiceMode::Auto.serialize(), string("auto"));
    assert_eq!(ToolChoiceMode::Required.serialize(), string("required"));
    assert_eq!(ToolChoiceMode::Never.serialize(), string("none"));
    assert_eq!(CreateMessageRequestParamIncludeContext::NoServer.serialize(), string("none"));
    assert_eq!(CreateMessageRequestParamIncludeContext::ThisServer.serialize(), string("thisServer"));
    assert_eq!(CreateMessageRequestParamIncludeContext::AllServers.serialize(), string("allServers"));
    assert_eq!(StringSchemaFormat::Email.serialize(), string("email"));
    assert_eq!(StringSchemaFormat::Uri.serialize(), string("uri"));
    assert_eq!(StringSchemaFormat::Date.serialize(), string("date"));
    assert_eq!(StringSchemaFormat::Datetime.serialize(), string("date_time"));
    assert_eq!(NumberType::Number.serialize(), string("number"));
    assert_eq!(NumberType::Integer.serialize(), string("integer"));
    assert_eq!(ToolChoiceMode::deserialize(&string("none")), Ok(ToolChoiceMode::Never));
    assert_eq!(StringSchemaFormat::deserialize(&string("date_time")), Ok(StringSchemaFormat::Datetime));
    assert_eq!(
        CreateMessageRequestParamIncludeContext::deserialize(&string("allServers")),
        Ok(CreateMessageRequestParamIncludeContext::AllServers)
    );
}

#[test]
fn json_value_copy_is_deep_and_equal() {
    let value = JsonValue::Object(vec![
        (text("a"), JsonValue::Array(vec![JsonValue::Null, JsonValue::Bool(true), string("x")])),
        (text("b"), JsonValue::Number(JsonNumber::NegInt(-3))),
        (text("c"), JsonValue::Object(vec![(text("d"), JsonValue::Number(JsonNumber::Float(1.5f64.to_bits())))])),
    ]);
    let copy = value.copy();
    assert!(value.same(&copy));
    assert_eq!(value, copy);
    assert_eq!(value.clone(), value);
}

#[test]
fn json_values_differ_by_kind_content_and_order() {
    let a = JsonValue::Object(vec![(text("x"), JsonValue::Null), (text("y"), JsonValue::Bool(true))]);
    let b = JsonValue::Object(vec![(text("y"), JsonValue::Bool(true)), (text("x"), JsonValue::Null)]);
    assert!(!a.same(&b));
    assert!(!JsonValue::Null.same(&JsonValue::Bool(false)));
    assert!(!JsonValue::Array(vec![JsonValue::Null]).same(&JsonValue::Array(vec![])));
    assert!(!string("a").same(&string("b")));
    assert!(!JsonValue::Number(JsonNumber::PosInt(1)).same(&JsonValue::Number(JsonNumber::NegInt(1))));
    assert!(JsonValue::Array(vec![string("a")]).same(&JsonValue::Array(vec![string("a")])));
}

#[test]
fn json_value_is_read_with_the_first_entry_of_each_name() {
    let one = JsonValue::Number(JsonNumber::PosInt(1));
    let two = JsonValue::Number(JsonNumber::PosInt(2));
    let value = JsonValue::Object(vec![
        (text("a"), JsonValue::Array(vec![JsonValue::Object(vec![(text("x"), one.clone()), (text("x"), two)])])),
        (text("b"), JsonValue::Null),
        (text("a"), JsonValue::Bool(true)),
    ]);
    let cut = JsonValue::Object(vec![
        (text("a"), JsonValue::Array(vec![JsonValue::Object(vec![(text("x"), one)])])),
        (text("b"), JsonValue::Null),
    ]);
    assert_eq!(value.normalized(), cut);
    assert_eq!(cut.normalized(), cut);
    assert_eq!(JsonValue::deserialize(&value), Ok(cut.clone()));
    assert_eq!(value.serialize(), value);
    let mut meta: Dictionary<JsonValue> = Dictionary::new();
    meta.insert("k", cut);
    let object = JsonValue::Object(vec![(text("k"), value), (text("k"), JsonValue::Null)]);
    assert_eq!(Dictionary::<JsonValue>::deserialize(&object), Ok(meta));
}

#[test]
fn json_value_stands_for_itself() {
    let value = JsonValue::Array(vec![JsonValue::Null, string("x")]);
    assert_eq!(value.serialize(), value);
    assert_eq!(JsonValue::deserialize(&value), Ok(value));
    assert_eq!(JsonValue::default(), JsonValue::Null);
    assert_eq!(JsonNumber::default(), JsonNumber::Float(0.0f64.to_bits()));
}

#[test]
fn dictionary_insert_and_get() {
    let mut d: Dictionary<String> = Dictionary::new();
    assert_eq!(d.len(), 0);
    assert_eq!(d.get("a"), None);
    d.insert("a", text("1"));
    d.insert("b", text("2"));
    assert_eq!(d.len(), 2);
    assert_eq!(d.get("a"), Some(&text("1")));
    assert_eq!(d.get("b"), Some(&text("2")));
    assert_eq!(d.get("c"), None);
    d.insert("a", text("3"));
    assert_eq!(d.len(), 2);
    assert_eq!(d.get("a"), Some(&text("3")));
    assert_eq!(d.entries(), &vec![(text("a"), text("3")), (text("b"), text("2"))]);
    assert!(d.contains("a"));
    assert!(!d.contains("c"));
}

#[test]
fn dictionary_is_written_as_an_object_in_order() {
    let mut d: Dictionary<String> = Dictionary::new();
    d.insert("zeta", text("1"));
    d.insert("alpha", text("2"));
    let encoded = d.serialize();
    assert_eq!(encoded, JsonValue::Object(vec![(text("zeta"), string("1")), (text("alpha"), string("2"))]));
    assert_eq!(Dictionary::<String>::deserialize(&encoded), Ok(d));
}

#[test]
fn dictionary_keeps_the_first_entry_of_a_repeated_name() {
    let value = JsonValue::Object(vec![
        (text("a"), string("1")),
        (text("b"), string("2")),
        (text("a"), string("3")),
        (text("a"), JsonValue::Bool(true)),
    ]);
    let d = Dictionary::<String>::deserialize(&value).unwrap();
    assert_eq!(d.entries(), &vec![(text("a"), text("1")), (text("b"), text("2"))]);
    assert_eq!(d.serialize(), JsonValue::Object(vec![(text("a"), string("1")), (text("b"), string("2"))]));
}

#[test]
fn dictionary_refuses_a_value_of_another_kind() {
    let value = JsonValue::Object(vec![(text("a"), string("1")), (text("b"), JsonValue::Bool(true))]);
    assert!(Dictionary::<String>::deserialize(&value).is_err());
    assert!(Dictionary::<String>::deserialize(&JsonValue::Array(vec![])).is_err());
    assert_eq!(Dictionary::<String>::default().len(), 0);
}
