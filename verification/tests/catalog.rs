use mcp_types::{
    Annotations, Base64Bytes, BlobResourceContents, CallToolResult, ContentBlock, Dictionary,
    ElicitationResponseNotificationParam, EmbeddedResource, GetPromptRequest, GetPromptRequestParam, JsonNumber,
    JsonValue, KeyringEntryId, ListPromptsRequest, ListPromptsResult, ListResourceTemplatesRequest,
    ListResourceTemplatesResult, ListResourcesRequest, ListResourcesResult, ListRootsResult, ListToolsRequest,
    PluginNotificationContext, PluginRequestContext, PluginRequestId, Prompt, ReadResourceRequest,
    ReadResourceRequestParam, ReadResourceResult, Resource, ResourceContents, ResourceTemplate,
    ResourceUpdatedNotificationParam, Role, Root, SchemaError, TextContent, TextResourceContents, Timestamp, Wire,
};

fn text(s: &str) -> String {
    String::from(s)
}

fn string(s: &str) -> JsonValue {
    JsonValue::String(text(s))
}

fn object(entries: Vec<(&str, JsonValue)>) -> JsonValue {
    JsonValue::Object(entries.into_iter().map(|(k, v)| (text(k), v)).collect())
}

fn context() -> PluginRequestContext {
    let mut meta = Dictionary::new();
    meta.insert("progressToken", string("tok-1"));
    PluginRequestContext { meta, id: PluginRequestId::String(text("req-1")) }
}

fn context_value() -> JsonValue {
    object(vec![("_meta", object(vec![("progressToken", string("tok-1"))])), ("id", string("req-1"))])
}

fn annotations() -> Annotations {
    Annotations {
        audience: vec![Role::User],
        last_modified: Timestamp::from_unix(1_700_000_000, 0).unwrap(),
        priority: JsonNumber::PosInt(1),
    }
}

fn annotations_value() -> JsonValue {
    object(vec![
        ("audience", JsonValue::Array(vec![string("user")])),
        ("lastModified", string("2023-11-14T22:13:20Z")),
        ("priority", JsonValue::Number(JsonNumber::PosInt(1))),
    ])
}

#[test]
fn call_tool_result_always_writes_its_content() {
    let result = CallToolResult { meta: None, content: vec![], is_error: Some(true), structured_content: None };
    assert_eq!(
        result.serialize(),
        object(vec![("content", JsonValue::Array(vec![])), ("isError", JsonValue::Bool(true))])
    );
    assert_eq!(CallToolResult::deserialize(&result.serialize()), Ok(result));
    assert_eq!(
        CallToolResult::deserialize(&object(vec![("isError", JsonValue::Bool(true))])),
        Err(SchemaError::Malformed { of_type: text("CallToolResult") })
    );
}

#[test]
fn call_tool_result_carries_metadata_and_structured_content() {
    let mut meta = Dictionary::new();
    meta.insert("trace", JsonValue::Array(vec![JsonValue::Null, JsonValue::Bool(false)]));
    let mut structured = Dictionary::new();
    structured.insert("temperature", JsonValue::Number(JsonNumber::Float(21.5f64.to_bits())));
    let result = CallToolResult {
        meta: Some(meta),
        content: vec![ContentBlock::Text(TextContent { meta: None, annotations: None, text: text("21.5") })],
        is_error: Some(false),
        structured_content: Some(structured),
    };
    let encoded = result.serialize();
    assert_eq!(
        encoded,
        object(vec![
            ("_meta", object(vec![("trace", JsonValue::Array(vec![JsonValue::Null, JsonValue::Bool(false)]))])),
            (
                "content",
                JsonValue::Array(vec![object(vec![("text", string("21.5")), ("type", string("text"))])]),
            ),
            ("isError", JsonValue::Bool(false)),
            (
                "structuredContent",
                object(vec![("temperature", JsonValue::Number(JsonNumber::Float(21.5f64.to_bits())))]),
            ),
        ])
    );
    assert_eq!(CallToolResult::deserialize(&encoded), Ok(result));
}

#[test]
fn text_content_with_metadata_and_annotations() {
    let mut meta = Dictionary::new();
    meta.insert("k", string("v"));
    let content = TextContent { meta: Some(meta), annotations: Some(annotations()), text: text("hi") };
    let encoded = content.serialize();
    assert_eq!(
        encoded,
        object(vec![
            ("_meta", object(vec![("k", string("v"))])),
            ("annotations", annotations_value()),
            ("text", string("hi")),
            ("type", string("text")),
        ])
    );
    assert_eq!(TextContent::deserialize(&encoded), Ok(content));
}

#[test]
fn embedded_resource_survives_the_wire() {
    let embedded = EmbeddedResource {
        meta: None,
        annotations: Some(annotations()),
        resource: ResourceContents::Blob(BlobResourceContents {
            meta: None,
            blob: Base64Bytes { bytes: vec![0, 255] },
            mime_type: Some(text("application/octet-stream")),
            uri: text("file:///bin"),
        }),
    };
    let encoded = embedded.serialize();
    assert_eq!(
        encoded,
        object(vec![
            ("annotations", annotations_value()),
            (
                "resource",
                object(vec![
                    ("blob", string("AP8=")),
                    ("mimeType", string("application/octet-stream")),
                    ("uri", string("file:///bin")),
                ]),
            ),
            ("type", string("resource")),
        ])
    );
    assert_eq!(EmbeddedResource::deserialize(&encoded), Ok(embedded));
}

#[test]
fn embedded_resource_needs_known_contents() {
    let value = object(vec![("resource", object(vec![("uri", string("u"))])), ("type", string("resource"))]);
    assert_eq!(
        EmbeddedResource::deserialize(&value),
        Err(SchemaError::UnknownField { of_type: text("Empty"), field: text("uri") })
    );
    let value = object(vec![
        ("type", string("resource")),
        ("resource", object(vec![("unexpected", JsonValue::Number(JsonNumber::PosInt(1)))])),
    ]);
    assert_eq!(
        EmbeddedResource::deserialize(&value),
        Err(SchemaError::UnknownField { of_type: text("Empty"), field: text("unexpected") })
    );
}

#[test]
fn embedded_resource_takes_empty_contents() {
    let value = object(vec![("type", string("resource")), ("resource", object(vec![]))]);
    assert_eq!(
        EmbeddedResource::deserialize(&value),
        Ok(EmbeddedResource { meta: None, annotations: None, resource: ResourceContents::default() })
    );
}

#[test]
fn annotations_default_to_the_epoch() {
    let annotations = Annotations::default();
    assert_eq!(annotations.audience, Vec::<Role>::new());
    assert_eq!(Some(annotations.last_modified.clone()), Timestamp::from_unix(0, 0));
    assert_eq!(annotations.last_modified, Timestamp::default());
    assert_eq!(annotations.priority, JsonNumber::Float(0.0f64.to_bits()));
    assert_eq!(
        annotations.serialize(),
        object(vec![
            ("audience", JsonValue::Array(vec![])),
            ("lastModified", string("1970-01-01T00:00:00Z")),
            ("priority", JsonValue::Number(JsonNumber::Float(0.0f64.to_bits()))),
        ])
    );
    assert_eq!(Annotations::deserialize(&annotations.serialize()), Ok(annotations));
}

#[test]
fn resources_and_templates_survive_the_wire() {
    let resources = ListResourcesResult {
        resources: vec![
            Resource {
                annotations: Some(annotations()),
                description: None,
                mime_type: None,
                name: text("a"),
                size: Some(-1),
                title: Some(text("A")),
                uri: text("file:///a"),
            },
            Resource::default(),
        ],
    };
    assert_eq!(ListResourcesResult::deserialize(&resources.serialize()), Ok(resources));
    let templates = ListResourceTemplatesResult {
        resource_templates: vec![ResourceTemplate {
            annotations: None,
            description: Some(text("logs by day")),
            mime_type: Some(text("text/plain")),
            name: text("logs"),
            title: None,
            uri_template: text("file:///logs/{day}"),
        }],
    };
    assert_eq!(
        templates.serialize(),
        object(vec![(
            "resourceTemplates",
            JsonValue::Array(vec![object(vec![
                ("description", string("logs by day")),
                ("mimeType", string("text/plain")),
                ("name", string("logs")),
                ("uriTemplate", string("file:///logs/{day}")),
            ])]),
        )])
    );
    assert_eq!(ListResourceTemplatesResult::deserialize(&templates.serialize()), Ok(templates));
}

#[test]
fn roots_survive_the_wire() {
    let roots = ListRootsResult {
        roots: vec![Root { name: Some(text("home")), uri: text("file:///home") }, Root { name: None, uri: text("file:///tmp") }],
    };
    assert_eq!(
        roots.serialize(),
        object(vec![(
            "roots",
            JsonValue::Array(vec![
                object(vec![("name", string("home")), ("uri", string("file:///home"))]),
                object(vec![("uri", string("file:///tmp"))]),
            ]),
        )])
    );
    assert_eq!(ListRootsResult::deserialize(&roots.serialize()), Ok(roots));
}

#[test]
fn read_resource_types_survive_the_wire() {
    let request = ReadResourceRequest { context: context(), request: ReadResourceRequestParam { uri: text("file:///a") } };
    assert_eq!(
        request.serialize(),
        object(vec![("context", context_value()), ("request", object(vec![("uri", string("file:///a"))]))])
    );
    assert_eq!(ReadResourceRequest::deserialize(&request.serialize()), Ok(request));
    let result = ReadResourceResult {
        contents: vec![
            ResourceContents::Text(TextResourceContents {
                meta: None,
                mime_type: None,
                text: text("hello"),
                uri: text("file:///a"),
            }),
            ResourceContents::default(),
        ],
    };
    assert_eq!(ReadResourceResult::deserialize(&result.serialize()), Ok(result));
}

#[test]
fn list_requests_carry_the_context() {
    let value = object(vec![("context", context_value())]);
    assert_eq!(ListToolsRequest { context: context() }.serialize(), value);
    assert_eq!(ListPromptsRequest { context: context() }.serialize(), value);
    assert_eq!(ListResourcesRequest { context: context() }.serialize(), value);
    assert_eq!(ListResourceTemplatesRequest { context: context() }.serialize(), value);
    assert_eq!(ListToolsRequest::deserialize(&value), Ok(ListToolsRequest { context: context() }));
    assert_eq!(ListPromptsRequest::deserialize(&value), Ok(ListPromptsRequest { context: context() }));
    assert_eq!(ListResourcesRequest::deserialize(&value), Ok(ListResourcesRequest { context: context() }));
    assert_eq!(
        ListResourceTemplatesRequest::deserialize(&value),
        Ok(ListResourceTemplatesRequest { context: context() })
    );
    assert_eq!(
        ListToolsRequest::deserialize(&object(vec![])),
        Err(SchemaError::Malformed { of_type: text("ListToolsRequest") })
    );
}

#[test]
fn get_prompt_request_survives_the_wire() {
    let request = GetPromptRequest {
        context: context(),
        request: GetPromptRequestParam { arguments: None, name: text("poem") },
    };
    assert_eq!(
        request.serialize(),
        object(vec![("context", context_value()), ("request", object(vec![("name", string("poem"))]))])
    );
    assert_eq!(GetPromptRequest::deserialize(&request.serialize()), Ok(request));
    let prompts = ListPromptsResult { prompts: vec![Prompt::default()] };
    assert_eq!(
        prompts.serialize(),
        object(vec![("prompts", JsonValue::Array(vec![object(vec![("name", string(""))])]))])
    );
    assert_eq!(ListPromptsResult::deserialize(&prompts.serialize()), Ok(prompts));
}

#[test]
fn small_parameters_survive_the_wire() {
    let id = KeyringEntryId { service: text("mail"), user: text("jo") };
    assert_eq!(id.serialize(), object(vec![("service", string("mail")), ("user", string("jo"))]));
    assert_eq!(KeyringEntryId::deserialize(&id.serialize()), Ok(id));
    let updated = ResourceUpdatedNotificationParam { uri: text("file:///a") };
    assert_eq!(updated.serialize(), object(vec![("uri", string("file:///a"))]));
    assert_eq!(ResourceUpdatedNotificationParam::deserialize(&updated.serialize()), Ok(updated));
    let answered = ElicitationResponseNotificationParam { elicitation_id: text("e1") };
    assert_eq!(answered.serialize(), object(vec![("elicitationId", string("e1"))]));
    assert_eq!(ElicitationResponseNotificationParam::deserialize(&answered.serialize()), Ok(answered));
    let notification = PluginNotificationContext { meta: Dictionary::new() };
    assert_eq!(notification.serialize(), object(vec![("_meta", object(vec![]))]));
    assert_eq!(PluginNotificationContext::deserialize(&notification.serialize()), Ok(notification));
}

#[test]
fn what_is_no_object_is_malformed() {
    assert_eq!(
        Resource::deserialize(&JsonValue::Array(vec![])),
        Err(SchemaError::Malformed { of_type: text("Resource") })
    );
    assert_eq!(TextContent::deserialize(&string("text")), Err(SchemaError::Malformed { of_type: text("TextContent") }));
    assert_eq!(
        PluginRequestContext::deserialize(&JsonValue::Null),
        Err(SchemaError::Malformed { of_type: text("PluginRequestContext") })
    );
}
