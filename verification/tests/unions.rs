use mcp_types::{
    AudioContent, Base64Bytes, BlobResourceContents, BooleanSchema, ContentBlock, EmbeddedResource, Empty,
    EnumSchema, ImageContent, JsonNumber, JsonValue, NumberSchema, NumberType, PrimitiveSchemaDefinition,
    PromptReference, Reference, ResourceContents, ResourceLink, ResourceTemplateReference, SamplingMessage, Schema,
    SchemaError, StringSchema, StringSchemaFormat, TextContent, TextResourceContents, Wire,
};

fn text(s: &str) -> String {
    String::from(s)
}

fn string(s: &str) -> JsonValue {
    JsonValue::String(text(s))
}

fn object(entries: Vec<(&str, JsonValue)>) -> JsonValue {
    JsonValue::Object(entries.into_iter().map(|(k, v)| (text(k), v)).collect())
}

fn discriminator(value: &JsonValue) -> Option<&str> {
    match value {
        JsonValue::Object(entries) => entries.iter().find(|(k, _)| k == "type").and_then(|(_, v)| match v {
            JsonValue::String(s) => Some(s.as_str()),
            _ => None,
        }),
        _ => None,
    }
}

fn every_content_block() -> Vec<(ContentBlock, Option<&'static str>)> {
    vec![
        (
            ContentBlock::Audio(AudioContent {
                meta: None,
                annotations: None,
                data: Base64Bytes { bytes: vec![1, 2, 3] },
                mime_type: text("audio/wav"),
            }),
            Some("audio"),
        ),
        (
            ContentBlock::EmbeddedResource(EmbeddedResource {
                meta: None,
                annotations: None,
                resource: ResourceContents::Text(TextResourceContents {
                    meta: None,
                    mime_type: Some(text("text/plain")),
                    text: text("type"),
                    uri: text("file:///a"),
                }),
            }),
            Some("resource"),
        ),
        (
            ContentBlock::Image(ImageContent {
                meta: None,
                annotations: None,
                data: Base64Bytes { bytes: vec![] },
                mime_type: text("image/png"),
            }),
            Some("image"),
        ),
        (
            ContentBlock::ResourceLink(ResourceLink {
                meta: None,
                annotations: None,
                description: Some(text("text")),
                mime_type: None,
                name: text("audio"),
                size: Some(0),
                title: Some(text("image")),
                uri: text("resource"),
            }),
            Some("resource_link"),
        ),
        (ContentBlock::Text(TextContent { meta: None, annotations: None, text: text("image") }), Some("text")),
        (ContentBlock::Empty(Empty {}), None),
    ]
}

#[test]
fn every_content_block_writes_its_own_discriminator() {
    for (block, tag) in every_content_block() {
        assert_eq!(discriminator(&block.serialize()), tag);
    }
}

#[test]
fn every_content_block_survives_the_wire() {
    for (block, _) in every_content_block() {
        assert_eq!(ContentBlock::deserialize(&block.serialize()), Ok(block));
    }
}

#[test]
fn content_block_default_is_empty() {
    assert_eq!(ContentBlock::default(), ContentBlock::Empty(Empty {}));
    assert_eq!(SamplingMessage::default(), SamplingMessage::Empty(Empty {}));
    assert_eq!(Reference::default(), Reference::Empty(Empty {}));
    assert_eq!(ResourceContents::default(), ResourceContents::Empty(Empty {}));
    assert_eq!(PrimitiveSchemaDefinition::default(), PrimitiveSchemaDefinition::Empty(Empty {}));
    assert_eq!(ContentBlock::default().serialize(), JsonValue::Object(vec![]));
}

#[test]
fn resource_link_writes_its_fields_in_order() {
    let link = ResourceLink {
        meta: None,
        annotations: None,
        description: Some(text("d")),
        mime_type: Some(text("m")),
        name: text("n"),
        size: Some(5),
        title: Some(text("t")),
        uri: text("u"),
    };
    assert_eq!(
        link.serialize(),
        object(vec![
            ("description", string("d")),
            ("mimeType", string("m")),
            ("name", string("n")),
            ("size", JsonValue::Number(JsonNumber::PosInt(5))),
            ("title", string("t")),
            ("type", string("resource_link")),
            ("uri", string("u")),
        ])
    );
}

#[test]
fn resource_link_reports_the_first_fault_in_field_order() {
    let value = object(vec![("name", JsonValue::Bool(true)), ("type", string("text"))]);
    assert_eq!(ResourceLink::deserialize(&value), Err(SchemaError::Malformed { of_type: text("string") }));
    let value = object(vec![("name", string("n")), ("type", string("text"))]);
    assert_eq!(ResourceLink::deserialize(&value), Err(SchemaError::Malformed { of_type: text("ResourceLink") }));
    let value = object(vec![("name", string("n")), ("type", string("text")), ("uri", string("u"))]);
    assert_eq!(
        ResourceLink::deserialize(&value),
        Err(SchemaError::TypeMismatch {
            expected: text("resource_link"),
            found: text("text"),
            of_type: text("ResourceLink"),
        })
    );
    let value = object(vec![("name", string("n")), ("type", JsonValue::Null), ("uri", string("u"))]);
    assert_eq!(ResourceLink::deserialize(&value), Err(SchemaError::Malformed { of_type: text("string") }));
}

#[test]
fn unknown_fields_are_passed_over() {
    let value = object(vec![("text", string("hi")), ("extra", JsonValue::Null), ("type", string("text"))]);
    assert_eq!(
        TextContent::deserialize(&value),
        Ok(TextContent { meta: None, annotations: None, text: text("hi") })
    );
}

#[test]
fn first_entry_of_a_name_is_the_one_read() {
    let value = object(vec![("text", string("first")), ("text", string("second")), ("type", string("text"))]);
    assert_eq!(TextContent::deserialize(&value).unwrap().text, "first");
}

#[test]
fn resource_contents_are_told_apart_by_their_data() {
    let blob = ResourceContents::Blob(BlobResourceContents {
        meta: None,
        blob: Base64Bytes { bytes: b"hi".to_vec() },
        mime_type: None,
        uri: text("file:///b"),
    });
    assert_eq!(blob.serialize(), object(vec![("blob", string("aGk=")), ("uri", string("file:///b"))]));
    assert_eq!(ResourceContents::deserialize(&blob.serialize()), Ok(blob));
    let words = ResourceContents::Text(TextResourceContents {
        meta: None,
        mime_type: None,
        text: text("aGk="),
        uri: text("file:///t"),
    });
    assert_eq!(ResourceContents::deserialize(&words.serialize()), Ok(words));
    assert_eq!(
        ResourceContents::deserialize(&object(vec![("uri", string("file:///t"))])),
        Err(SchemaError::UnknownField { of_type: text("Empty"), field: text("uri") })
    );
    assert_eq!(
        ResourceContents::deserialize(&JsonValue::Array(vec![])),
        Err(SchemaError::Malformed { of_type: text("Empty") })
    );
}

#[test]
fn resource_contents_with_both_fields_are_binary() {
    let value = object(vec![("blob", string("aGk=")), ("text", string("t")), ("uri", string("u"))]);
    match ResourceContents::deserialize(&value) {
        Ok(ResourceContents::Blob(b)) => assert_eq!(b.blob.bytes, b"hi".to_vec()),
        other => panic!("not binary contents: {:?}", other),
    }
}

#[test]
fn references_are_told_apart_by_their_discriminator() {
    let prompt = Reference::Prompt(PromptReference { name: text("p"), title: Some(text("P")) });
    assert_eq!(
        prompt.serialize(),
        object(vec![("name", string("p")), ("title", string("P")), ("type", string("prompt"))])
    );
    assert_eq!(Reference::deserialize(&prompt.serialize()), Ok(prompt));
    let template = Reference::ResourceTemplate(ResourceTemplateReference { uri: text("file:///{x}") });
    assert_eq!(template.serialize(), object(vec![("type", string("resource")), ("uri", string("file:///{x}"))]));
    assert_eq!(Reference::deserialize(&template.serialize()), Ok(template));
    assert_eq!(Reference::deserialize(&object(vec![])), Ok(Reference::Empty(Empty {})));
    assert_eq!(
        Reference::deserialize(&object(vec![("type", string("tool")), ("uri", string("u"))])),
        Err(SchemaError::UnknownField { of_type: text("Empty"), field: text("type") })
    );
}

#[test]
fn sampling_message_takes_no_resource() {
    let value = object(vec![("type", string("resource_link")), ("name", string("n")), ("uri", string("u"))]);
    assert!(ContentBlock::deserialize(&value).is_ok());
    assert_eq!(
        SamplingMessage::deserialize(&value),
        Err(SchemaError::UnknownField { of_type: text("Empty"), field: text("type") })
    );
}

fn every_schema() -> Vec<(PrimitiveSchemaDefinition, Option<&'static str>)> {
    vec![
        (
            PrimitiveSchemaDefinition::Boolean(BooleanSchema {
                default: Some(true),
                description: Some(text("string")),
                title: None,
            }),
            Some("boolean"),
        ),
        (
            PrimitiveSchemaDefinition::Enum(EnumSchema {
                description: None,
                enum_values: vec![],
                enum_names: Some(vec![text("none")]),
                title: None,
            }),
            Some("string"),
        ),
        (
            PrimitiveSchemaDefinition::Number(NumberSchema {
                description: None,
                maximum: Some(JsonNumber::Float(2.5f64.to_bits())),
                minimum: Some(JsonNumber::NegInt(-1)),
                title: Some(text("boolean")),
                kind: NumberType::Number,
            }),
            Some("number"),
        ),
        (
            PrimitiveSchemaDefinition::Number(NumberSchema {
                description: None,
                maximum: None,
                minimum: None,
                title: None,
                kind: NumberType::Integer,
            }),
            Some("integer"),
        ),
        (
            PrimitiveSchemaDefinition::String(StringSchema {
                description: None,
                format: Some(StringSchemaFormat::Uri),
                max_length: Some(64),
                min_length: Some(0),
                title: None,
            }),
            Some("string"),
        ),
        (PrimitiveSchemaDefinition::Empty(Empty {}), None),
    ]
}

#[test]
fn every_schema_writes_its_own_discriminator() {
    for (schema, tag) in every_schema() {
        assert_eq!(discriminator(&schema.serialize()), tag);
    }
}

#[test]
fn every_schema_survives_the_wire() {
    for (schema, _) in every_schema() {
        assert_eq!(PrimitiveSchemaDefinition::deserialize(&schema.serialize()), Ok(schema));
    }
}

#[test]
fn number_schema_needs_its_discriminator() {
    assert_eq!(
        NumberSchema::deserialize(&object(vec![("minimum", JsonValue::Number(JsonNumber::PosInt(0)))])),
        Err(SchemaError::Malformed { of_type: text("NumberSchema") })
    );
    assert_eq!(
        NumberSchema::deserialize(&object(vec![("type", string("float"))])),
        Err(SchemaError::Malformed { of_type: text("NumberType") })
    );
}

#[test]
fn schema_is_an_object_of_primitive_properties() {
    let value = object(vec![
        (
            "properties",
            object(vec![
                ("name", object(vec![("type", string("string"))])),
                ("color", object(vec![("type", string("string")), ("enum", JsonValue::Array(vec![string("red")]))])),
                ("free", object(vec![])),
            ]),
        ),
        ("type", string("object")),
    ]);
    let schema = Schema::deserialize(&value).unwrap();
    assert_eq!(schema.properties.len(), 3);
    assert!(matches!(schema.properties.get("name"), Some(PrimitiveSchemaDefinition::String(_))));
    assert!(matches!(schema.properties.get("color"), Some(PrimitiveSchemaDefinition::Enum(_))));
    assert!(matches!(schema.properties.get("free"), Some(PrimitiveSchemaDefinition::Empty(_))));
    assert_eq!(Schema::deserialize(&schema.serialize()), Ok(schema));
    let nested = object(vec![
        ("properties", object(vec![("inner", object(vec![("type", string("object"))]))])),
        ("type", string("object")),
    ]);
    assert_eq!(
        Schema::deserialize(&nested),
        Err(SchemaError::UnknownField { of_type: text("Empty"), field: text("type") })
    );
    let unexpected = object(vec![
        ("type", string("object")),
        ("properties", object(vec![("p", object(vec![("unexpected", JsonValue::Number(JsonNumber::PosInt(1)))]))])),
    ]);
    assert_eq!(
        Schema::deserialize(&unexpected),
        Err(SchemaError::UnknownField { of_type: text("Empty"), field: text("unexpected") })
    );
    let array = object(vec![("properties", object(vec![])), ("type", string("array"))]);
    assert_eq!(
        Schema::deserialize(&array),
        Err(SchemaError::TypeMismatch { expected: text("object"), found: text("array"), of_type: text("Schema") })
    );
}
