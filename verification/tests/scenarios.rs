use mcp_types::{
    CallToolResult, ContentBlock, Empty, EnumSchema, JsonNumber, JsonValue, PrimitiveSchemaDefinition,
    PromptReference, Resource, SchemaError, StringSchema, TextContent, Wire,
};

fn from_serde(value: &serde_json::Value) -> JsonValue {
    match value {
        serde_json::Value::Null => JsonValue::Null,
        serde_json::Value::Bool(b) => JsonValue::Bool(*b),
        serde_json::Value::Number(n) => {
            if let Some(u) = n.as_u64() {
                JsonValue::Number(JsonNumber::PosInt(u))
            } else if let Some(i) = n.as_i64() {
                JsonValue::Number(JsonNumber::NegInt(i))
            } else {
                JsonValue::Number(JsonNumber::Float(n.as_f64().unwrap().to_bits()))
            }
        }
        serde_json::Value::String(s) => JsonValue::String(s.clone()),
        serde_json::Value::Array(items) => JsonValue::Array(items.iter().map(from_serde).collect()),
        serde_json::Value::Object(entries) => {
            JsonValue::Object(entries.iter().map(|(k, v)| (k.clone(), from_serde(v))).collect())
        }
    }
}

fn to_serde(value: &JsonValue) -> serde_json::Value {
    match value {
        JsonValue::Null => serde_json::Value::Null,
        JsonValue::Bool(b) => serde_json::Value::Bool(*b),
        JsonValue::Number(JsonNumber::PosInt(u)) => serde_json::Value::from(*u),
        JsonValue::Number(JsonNumber::NegInt(i)) => serde_json::Value::from(*i),
        JsonValue::Number(JsonNumber::Float(bits)) => serde_json::Value::from(f64::from_bits(*bits)),
        JsonValue::String(s) => serde_json::Value::String(s.clone()),
        JsonValue::Array(items) => serde_json::Value::Array(items.iter().map(to_serde).collect()),
        JsonValue::Object(entries) => {
            let mut map = serde_json::Map::new();
            for (k, v) in entries {
                map.insert(k.clone(), to_serde(v));
            }
            serde_json::Value::Object(map)
        }
    }
}

fn parse(text: &str) -> JsonValue {
    from_serde(&serde_json::from_str::<serde_json::Value>(text).unwrap())
}

fn render(value: &JsonValue) -> String {
    serde_json::to_string(&to_serde(value)).unwrap()
}

fn text(s: &str) -> String {
    String::from(s)
}

#[test]
fn call_tool_result_end_to_end() {
    let result = CallToolResult {
        meta: None,
        content: vec![ContentBlock::Text(TextContent { meta: None, annotations: None, text: text("ok") })],
        is_error: None,
        structured_content: None,
    };
    let encoded = result.serialize();
    assert_eq!(render(&encoded), r#"{"content":[{"text":"ok","type":"text"}]}"#);
    match &encoded {
        JsonValue::Object(entries) => {
            assert_eq!(entries.len(), 1);
            assert!(entries.iter().all(|(k, _)| k != "_meta" && k != "isError" && k != "structuredContent"));
        }
        other => panic!("not an object: {:?}", other),
    }
    let decoded = CallToolResult::deserialize(&parse(r#"{"content":[{"text":"ok","type":"text"}]}"#));
    assert_eq!(decoded, Ok(result));
}

#[test]
fn prompt_reference_accepts_its_own_discriminator() {
    let decoded = PromptReference::deserialize(&parse(r#"{"role":"user","name":"jane","type":"prompt"}"#));
    assert_eq!(decoded, Ok(PromptReference { name: text("jane"), title: None }));
}

#[test]
fn prompt_reference_refuses_another_discriminator() {
    let decoded = PromptReference::deserialize(&parse(r#"{"role":"user","name":"jane","type":"resource"}"#));
    assert_eq!(
        decoded,
        Err(SchemaError::TypeMismatch {
            expected: text("prompt"),
            found: text("resource"),
            of_type: text("PromptReference"),
        })
    );
}

#[test]
fn text_content_refuses_the_discriminator_of_an_image() {
    let decoded = TextContent::deserialize(&parse(r#"{"text":"hello","type":"image"}"#));
    assert_eq!(
        decoded,
        Err(SchemaError::TypeMismatch {
            expected: text("text"),
            found: text("image"),
            of_type: text("TextContent"),
        })
    );
}

#[test]
fn text_content_without_discriminator_is_malformed() {
    let decoded = TextContent::deserialize(&parse(r#"{"text":"hello"}"#));
    assert_eq!(decoded, Err(SchemaError::Malformed { of_type: text("TextContent") }));
}

#[test]
fn resource_without_description_has_no_such_key() {
    let resource = Resource {
        annotations: None,
        description: None,
        mime_type: None,
        name: text("notes"),
        size: None,
        title: None,
        uri: text("file:///notes.txt"),
    };
    let encoded = resource.serialize();
    assert_eq!(render(&encoded), r#"{"name":"notes","uri":"file:///notes.txt"}"#);
    match &encoded {
        JsonValue::Object(entries) => assert!(entries.iter().all(|(k, _)| k != "description")),
        other => panic!("not an object: {:?}", other),
    }
    assert_eq!(Resource::deserialize(&encoded), Ok(resource));
}

#[test]
fn resource_with_description_writes_it() {
    let resource = Resource {
        annotations: None,
        description: Some(text("my notes")),
        mime_type: Some(text("text/plain")),
        name: text("notes"),
        size: Some(12),
        title: None,
        uri: text("file:///notes.txt"),
    };
    let encoded = resource.serialize();
    assert_eq!(
        render(&encoded),
        r#"{"description":"my notes","mimeType":"text/plain","name":"notes","size":12,"uri":"file:///notes.txt"}"#
    );
    assert_eq!(Resource::deserialize(&encoded), Ok(resource));
}

#[test]
fn null_under_an_optional_field_reads_as_absent() {
    let decoded = Resource::deserialize(&parse(r#"{"name":"n","uri":"u","description":null}"#)).unwrap();
    assert_eq!(decoded.description, None);
}

#[test]
fn enum_schema_wins_over_string_schema() {
    let decoded = PrimitiveSchemaDefinition::deserialize(&parse(r#"{"type":"string","enum":["a","b"]}"#));
    assert_eq!(
        decoded,
        Ok(PrimitiveSchemaDefinition::Enum(EnumSchema {
            description: None,
            enum_values: vec![text("a"), text("b")],
            enum_names: None,
            title: None,
        }))
    );
}

#[test]
fn string_schema_is_read_where_there_is_no_enum() {
    let decoded = PrimitiveSchemaDefinition::deserialize(&parse(r#"{"type":"string","maxLength":8}"#));
    assert_eq!(
        decoded,
        Ok(PrimitiveSchemaDefinition::String(StringSchema {
            description: None,
            format: None,
            max_length: Some(8),
            min_length: None,
            title: None,
        }))
    );
}

#[test]
fn empty_object_decodes_to_the_empty_content_block() {
    assert_eq!(ContentBlock::deserialize(&parse("{}")), Ok(ContentBlock::Empty(Empty {})));
}

#[test]
fn empty_refuses_an_unexpected_field() {
    assert_eq!(
        Empty::deserialize(&parse(r#"{"unexpected":1}"#)),
        Err(SchemaError::UnknownField { of_type: text("Empty"), field: text("unexpected") })
    );
}

#[test]
fn content_block_falls_back_to_the_strict_empty_shape() {
    assert_eq!(
        ContentBlock::deserialize(&parse(r#"{"unexpected":1}"#)),
        Err(SchemaError::UnknownField { of_type: text("Empty"), field: text("unexpected") })
    );
    assert_eq!(
        ContentBlock::deserialize(&parse(r#"{"text":"hi","type":"image"}"#)),
        Err(SchemaError::UnknownField { of_type: text("Empty"), field: text("text") })
    );
    assert_eq!(ContentBlock::deserialize(&parse("7")), Err(SchemaError::Malformed { of_type: text("Empty") }));
}

#[test]
fn empty_refuses_what_is_no_object() {
    assert_eq!(Empty::deserialize(&parse("[]")), Err(SchemaError::Malformed { of_type: text("Empty") }));
}
