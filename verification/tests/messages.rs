use mcp_types::{
    BooleanSchema, CallToolRequest, CallToolRequestParam, CompleteRequest, CompleteRequestParam,
    CompleteRequestParamArgument, CompleteRequestParamContext, CompleteResult, CompleteResultCompletion,
    ContentBlock, CreateMessageRequestParam, CreateMessageRequestParamIncludeContext, CreateMessageResult,
    Dictionary, ElicitationRequestParam, ElicitationRequestParamWithTimeout, ElicitationResult,
    ElicitationResultAction, ElicitationResultContentValue, GetPromptRequestParam, GetPromptResult, JsonNumber,
    JsonValue, ListToolsResult, LoggingLevel, LoggingMessageNotificationParam, ModelHint, ModelPreferences,
    NumberSchema, NumberType, PluginNotificationContext, PluginRequestContext, PluginRequestId,
    PrimitiveSchemaDefinition, ProgressNotificationParam, Prompt, PromptArgument, PromptMessage, PromptReference,
    Reference, Role, SamplingMessage, Schema, SchemaError, TextContent, Tool, ToolAnnotations, ToolChoice,
    ToolChoiceMode, Wire,
};

fn from_serde(value: &serde_json::Value) -> JsonValue {
    match value {
        serde_json::Value::Null => JsonValue::Null,
        serde_json::Value::Bool(b) => JsonValue::Bool(*b),
        serde_json::Value::Number(n) => {
            if let Some(u) = n.as_u64() {
                JsonValue::Number(JsonNumber::PosInt(u))
            } else if let Some(i) = n.as_i64() {
                JsonValue::Number(JsonNumber::NegInt(i))
            } else {
                JsonValue::Number(JsonNumber::Float(n.as_f64().unwrap().to_bits()))
            }
        }
        serde_json::Value::String(s) => JsonValue::String(s.clone()),
        serde_json::Value::Array(items) => JsonValue::Array(items.iter().map(from_serde).collect()),
        serde_json::Value::Object(entries) => {
            JsonValue::Object(entries.iter().map(|(k, v)| (k.clone(), from_serde(v))).collect())
        }
    }
}

fn to_serde(value: &JsonValue) -> serde_json::Value {
    match value {
        JsonValue::Null => serde_json::Value::Null,
        JsonValue::Bool(b) => serde_json::Value::Bool(*b),
        JsonValue::Number(JsonNumber::PosInt(u)) => serde_json::Value::from(*u),
        JsonValue::Number(JsonNumber::NegInt(i)) => serde_json::Value::from(*i),
        JsonValue::Number(JsonNumber::Float(bits)) => serde_json::Value::from(f64::from_bits(*bits)),
        JsonValue::String(s) => serde_json::Value::String(s.clone()),
        JsonValue::Array(items) => serde_json::Value::Array(items.iter().map(to_serde).collect()),
        JsonValue::Object(entries) => {
            let mut map = serde_json::Map::new();
            for (k, v) in entries {
                map.insert(k.clone(), to_serde(v));
            }
            serde_json::Value::Object(map)
        }
    }
}

fn parse(text: &str) -> JsonValue {
    from_serde(&serde_json::from_str::<serde_json::Value>(text).unwrap())
}

fn render(value: &JsonValue) -> String {
    serde_json::to_string(&to_serde(value)).unwrap()
}

fn text(s: &str) -> String {
    String::from(s)
}

fn context(id: PluginRequestId) -> PluginRequestContext {
    PluginRequestContext { meta: Dictionary::new(), id }
}

#[test]
fn request_id_is_a_string_or_an_integer() {
    assert_eq!(PluginRequestId::deserialize(&parse(r#""abc""#)), Ok(PluginRequestId::String(text("abc"))));
    assert_eq!(PluginRequestId::deserialize(&parse("42")), Ok(PluginRequestId::Number(42)));
    assert_eq!(PluginRequestId::deserialize(&parse("-7")), Ok(PluginRequestId::Number(-7)));
    assert_eq!(
        PluginRequestId::deserialize(&parse("1.5")),
        Err(SchemaError::NoVariantMatched { of_type: text("PluginRequestId") })
    );
    assert_eq!(
        PluginRequestId::deserialize(&parse("true")),
        Err(SchemaError::NoVariantMatched { of_type: text("PluginRequestId") })
    );
    assert_eq!(render(&PluginRequestId::Number(42).serialize()), "42");
    assert_eq!(render(&PluginRequestId::String(text("abc")).serialize()), r#""abc""#);
    assert_eq!(PluginRequestId::default(), PluginRequestId::String(String::new()));
}

#[test]
fn request_context_always_writes_its_metadata() {
    let ctx = context(PluginRequestId::Number(1));
    assert_eq!(render(&ctx.serialize()), r#"{"_meta":{},"id":1}"#);
    assert_eq!(PluginRequestContext::deserialize(&ctx.serialize()), Ok(ctx));
}

#[test]
fn request_context_without_metadata_has_none() {
    let decoded = PluginRequestContext::deserialize(&parse(r#"{"id":"r1"}"#));
    assert_eq!(decoded, Ok(context(PluginRequestId::String(text("r1")))));
    let decoded = PluginNotificationContext::deserialize(&parse("{}"));
    assert_eq!(decoded, Ok(PluginNotificationContext { meta: Dictionary::new() }));
}

#[test]
fn request_context_needs_an_id() {
    assert_eq!(
        PluginRequestContext::deserialize(&parse(r#"{"_meta":{}}"#)),
        Err(SchemaError::Malformed { of_type: text("PluginRequestContext") })
    );
}

#[test]
fn call_tool_request_survives_the_wire() {
    let mut arguments = Dictionary::new();
    arguments.insert("city", JsonValue::String(text("Paris")));
    arguments.insert("days", JsonValue::Number(JsonNumber::PosInt(3)));
    let request = CallToolRequest {
        context: context(PluginRequestId::Number(9)),
        request: CallToolRequestParam { arguments: Some(arguments), name: text("forecast") },
    };
    let encoded = request.serialize();
    assert_eq!(
        render(&encoded),
        r#"{"context":{"_meta":{},"id":9},"request":{"arguments":{"city":"Paris","days":3},"name":"forecast"}}"#
    );
    assert_eq!(CallToolRequest::deserialize(&encoded), Ok(request));
}

#[test]
fn tool_schemas_must_be_objects() {
    let decoded = Tool::deserialize(&parse(r#"{"name":"t","inputSchema":{"type":"object"}}"#)).unwrap();
    assert_eq!(decoded.name, "t");
    assert_eq!(decoded.input_schema.get("type"), Some(&JsonValue::String(text("object"))));
    assert_eq!(decoded.output_schema, None);
    assert_eq!(
        Tool::deserialize(&parse(r#"{"name":"t","inputSchema":"object"}"#)),
        Err(SchemaError::Malformed { of_type: text("object") })
    );
    assert_eq!(
        Tool::deserialize(&parse(r#"{"name":"t"}"#)),
        Err(SchemaError::Malformed { of_type: text("Tool") })
    );
}

#[test]
fn list_tools_result_survives_the_wire() {
    let mut schema = Dictionary::new();
    schema.insert("type", JsonValue::String(text("object")));
    let result = ListToolsResult {
        tools: vec![Tool {
            annotations: Some(ToolAnnotations {
                destructive_hint: Some(false),
                idempotent_hint: None,
                open_world_hint: None,
                read_only_hint: Some(true),
                title: Some(text("Forecast")),
            }),
            description: Some(text("the weather")),
            input_schema: schema,
            name: text("forecast"),
            output_schema: None,
            title: None,
        }],
    };
    let encoded = result.serialize();
    assert_eq!(
        render(&encoded),
        r#"{"tools":[{"annotations":{"destructiveHint":false,"readOnlyHint":true,"title":"Forecast"},"description":"the weather","inputSchema":{"type":"object"},"name":"forecast"}]}"#
    );
    assert_eq!(ListToolsResult::deserialize(&encoded), Ok(result));
}

#[test]
fn empty_list_is_written_as_an_empty_array() {
    let result = ListToolsResult { tools: vec![] };
    assert_eq!(render(&result.serialize()), r#"{"tools":[]}"#);
    assert_eq!(ListToolsResult::deserialize(&parse(r#"{"tools":[]}"#)), Ok(result));
    assert_eq!(
        ListToolsResult::deserialize(&parse("{}")),
        Err(SchemaError::Malformed { of_type: text("ListToolsResult") })
    );
}

#[test]
fn prompt_survives_the_wire() {
    let prompt = Prompt {
        arguments: Some(vec![PromptArgument {
            description: None,
            name: text("topic"),
            required: Some(true),
            title: None,
        }]),
        description: Some(text("writes a poem")),
        name: text("poem"),
        title: None,
    };
    let encoded = prompt.serialize();
    assert_eq!(
        render(&encoded),
        r#"{"arguments":[{"name":"topic","required":true}],"description":"writes a poem","name":"poem"}"#
    );
    assert_eq!(Prompt::deserialize(&encoded), Ok(prompt));
}

#[test]
fn prompt_message_without_role_speaks_as_the_assistant() {
    let decoded = PromptMessage::deserialize(&parse(r#"{"content":{"text":"hi","type":"text"}}"#));
    assert_eq!(
        decoded,
        Ok(PromptMessage {
            content: ContentBlock::Text(TextContent { meta: None, annotations: None, text: text("hi") }),
            role: Role::Assistant,
        })
    );
    let written = decoded.unwrap().serialize();
    assert_eq!(render(&written), r#"{"content":{"text":"hi","type":"text"},"role":"assistant"}"#);
}

#[test]
fn get_prompt_types_survive_the_wire() {
    let mut arguments = Dictionary::new();
    arguments.insert("topic", text("sea"));
    let param = GetPromptRequestParam { arguments: Some(arguments), name: text("poem") };
    assert_eq!(render(&param.serialize()), r#"{"arguments":{"topic":"sea"},"name":"poem"}"#);
    assert_eq!(GetPromptRequestParam::deserialize(&param.serialize()), Ok(param));
    let result = GetPromptResult {
        description: None,
        messages: vec![PromptMessage {
            content: ContentBlock::Text(TextContent { meta: None, annotations: None, text: text("O sea") }),
            role: Role::User,
        }],
    };
    assert_eq!(GetPromptResult::deserialize(&result.serialize()), Ok(result));
}

#[test]
fn complete_request_survives_the_wire() {
    let request = CompleteRequest {
        context: context(PluginRequestId::String(text("c1"))),
        request: CompleteRequestParam {
            argument: CompleteRequestParamArgument { name: text("lang"), value: text("ru") },
            context: Some(CompleteRequestParamContext { arguments: None }),
            reference: Reference::Prompt(PromptReference { name: text("poem"), title: None }),
        },
    };
    let encoded = request.serialize();
    assert_eq!(
        render(&encoded),
        r#"{"context":{"_meta":{},"id":"c1"},"request":{"argument":{"name":"lang","value":"ru"},"context":{},"ref":{"name":"poem","type":"prompt"}}}"#
    );
    assert_eq!(CompleteRequest::deserialize(&encoded), Ok(request));
}

#[test]
fn complete_result_takes_more_values_than_advised() {
    let values: Vec<String> = (0..150).map(|i| format!("v{}", i)).collect();
    let result = CompleteResult {
        completion: CompleteResultCompletion { has_more: Some(true), total: Some(150), values },
    };
    let decoded = CompleteResult::deserialize(&result.serialize()).unwrap();
    assert_eq!(decoded.completion.values.len(), 150);
    assert_eq!(decoded, result);
}

#[test]
fn logging_message_carries_any_data_and_defaults_its_level() {
    let decoded = LoggingMessageNotificationParam::deserialize(&parse(r#"{"data":null}"#));
    assert_eq!(
        decoded,
        Ok(LoggingMessageNotificationParam { data: JsonValue::Null, level: LoggingLevel::Debug, logger: None })
    );
    let param = LoggingMessageNotificationParam {
        data: parse(r#"{"a":[1,2]}"#),
        level: LoggingLevel::Warning,
        logger: Some(text("core")),
    };
    assert_eq!(render(&param.serialize()), r#"{"data":{"a":[1,2]},"level":"warning","logger":"core"}"#);
    assert_eq!(LoggingMessageNotificationParam::deserialize(&param.serialize()), Ok(param));
}

#[test]
fn progress_keeps_its_numbers_as_written() {
    let decoded = ProgressNotificationParam::deserialize(&parse(r#"{"progress":0.5,"progressToken":"t","total":2}"#));
    assert_eq!(
        decoded,
        Ok(ProgressNotificationParam {
            message: None,
            progress: JsonNumber::Float(0.5f64.to_bits()),
            progress_token: text("t"),
            total: Some(JsonNumber::PosInt(2)),
        })
    );
    assert_eq!(render(&decoded.unwrap().serialize()), r#"{"progress":0.5,"progressToken":"t","total":2}"#);
}

#[test]
fn create_message_request_survives_the_wire() {
    let param = CreateMessageRequestParam {
        include_context: Some(CreateMessageRequestParamIncludeContext::ThisServer),
        max_tokens: 256,
        messages: vec![SamplingMessage::Text(TextContent { meta: None, annotations: None, text: text("hi") })],
        metadata: Some(parse(r#"{"trace":"x"}"#)),
        model_preferences: Some(ModelPreferences {
            cost_priority: JsonNumber::Float(0.25f64.to_bits()),
            hints: vec![ModelHint { name: text("small") }],
            intelligence_priority: JsonNumber::PosInt(1),
            speed_priority: JsonNumber::PosInt(0),
        }),
        stop_sequences: Some(vec![text("\n\n")]),
        system_prompt: Some(text("be brief")),
        task: None,
        temperature: Some(JsonNumber::Float(0.7f64.to_bits())),
        tool_choice: Some(ToolChoice { mode: Some(ToolChoiceMode::Never) }),
        tools: Some(vec![]),
    };
    let encoded = param.serialize();
    assert_eq!(
        render(&encoded),
        r#"{"includeContext":"thisServer","maxTokens":256,"messages":[{"text":"hi","type":"text"}],"metadata":{"trace":"x"},"modelPreferences":{"cost_priority":0.25,"hints":[{"name":"small"}],"intelligencePriority":1,"speedPriority":0},"stopSequences":["\n\n"],"systemPrompt":"be brief","temperature":0.7,"toolChoice":{"mode":"none"},"tools":[]}"#
    );
    assert_eq!(CreateMessageRequestParam::deserialize(&encoded), Ok(param));
}

#[test]
fn metadata_that_is_null_does_not_come_back() {
    let mut param = CreateMessageRequestParam::default();
    param.metadata = Some(JsonValue::Null);
    let decoded = CreateMessageRequestParam::deserialize(&param.serialize()).unwrap();
    assert_eq!(decoded.metadata, None);
}

#[test]
fn create_message_result_survives_the_wire() {
    let result = CreateMessageResult {
        content: SamplingMessage::Text(TextContent { meta: None, annotations: None, text: text("ok") }),
        model: text("m1"),
        role: Role::Assistant,
        stop_reason: Some(text("endTurn")),
    };
    let encoded = result.serialize();
    assert_eq!(
        render(&encoded),
        r#"{"content":{"text":"ok","type":"text"},"model":"m1","role":"assistant","stopReason":"endTurn"}"#
    );
    assert_eq!(CreateMessageResult::deserialize(&encoded), Ok(result));
}

#[test]
fn elicitation_form_is_written_with_its_mode() {
    let mut properties = Dictionary::new();
    properties.insert(
        "agree",
        PrimitiveSchemaDefinition::Boolean(BooleanSchema { default: Some(false), description: None, title: None }),
    );
    properties.insert(
        "age",
        PrimitiveSchemaDefinition::Number(NumberSchema {
            description: None,
            maximum: Some(JsonNumber::PosInt(130)),
            minimum: Some(JsonNumber::PosInt(0)),
            title: None,
            kind: NumberType::Integer,
        }),
    );
    let request = ElicitationRequestParamWithTimeout {
        inner: ElicitationRequestParam::Form {
            message: text("please"),
            requested_schema: Schema { properties, required: Some(vec![text("agree")]) },
        },
        timeout: Some(30000),
    };
    let encoded = request.serialize();
    match &encoded {
        JsonValue::Object(entries) => {
            let names: Vec<&str> = entries.iter().map(|(k, _)| k.as_str()).collect();
            assert_eq!(names, vec!["mode", "message", "requestedSchema", "timeout"]);
        }
        other => panic!("not an object: {:?}", other),
    }
    assert_eq!(
        render(&encoded),
        r#"{"message":"please","mode":"form","requestedSchema":{"properties":{"age":{"maximum":130,"minimum":0,"type":"integer"},"agree":{"default":false,"type":"boolean"}},"required":["agree"],"type":"object"},"timeout":30000}"#
    );
    assert_eq!(ElicitationRequestParamWithTimeout::deserialize(&encoded), Ok(request));
}

#[test]
fn elicitation_url_is_read_by_its_mode() {
    let decoded = ElicitationRequestParam::deserialize(&parse(
        r#"{"mode":"url","elicitationId":"e1","message":"visit","url":"https://example.org"}"#,
    ));
    assert_eq!(
        decoded,
        Ok(ElicitationRequestParam::Url {
            elicitation_id: text("e1"),
            message: text("visit"),
            url: text("https://example.org"),
        })
    );
    let refused = Err(SchemaError::Malformed { of_type: text("ElicitationRequestParam") });
    assert_eq!(ElicitationRequestParam::deserialize(&parse(r#"{"mode":"mail","message":"m"}"#)), refused);
    assert_eq!(ElicitationRequestParam::deserialize(&parse(r#"{"message":"m"}"#)), refused);
    assert_eq!(ElicitationRequestParam::deserialize(&parse(r#"{"mode":"url","message":"m"}"#)), refused);
}

#[test]
fn elicitation_request_defaults_to_an_empty_form() {
    assert_eq!(
        ElicitationRequestParam::default(),
        ElicitationRequestParam::Form {
            message: String::new(),
            requested_schema: Schema { properties: Dictionary::new(), required: None },
        }
    );
    assert_eq!(
        render(&ElicitationRequestParam::default().serialize()),
        r#"{"message":"","mode":"form","requestedSchema":{"properties":{},"type":"object"}}"#
    );
}

#[test]
fn elicitation_result_reads_values_by_their_kind() {
    let decoded = ElicitationResult::deserialize(&parse(r#"{"content":{"name":"jo","age":7,"ok":true}}"#)).unwrap();
    assert_eq!(decoded.action, ElicitationResultAction::Accept);
    let content = decoded.content.unwrap();
    assert_eq!(content.get("name"), Some(&ElicitationResultContentValue::String(text("jo"))));
    assert_eq!(content.get("age"), Some(&ElicitationResultContentValue::Number(JsonNumber::PosInt(7))));
    assert_eq!(content.get("ok"), Some(&ElicitationResultContentValue::Bool(true)));
    assert_eq!(
        ElicitationResult::deserialize(&parse(r#"{"action":"decline","content":{"x":[]}}"#)),
        Err(SchemaError::NoVariantMatched { of_type: text("ElicitationResultContentValue") })
    );
    let declined = ElicitationResult { action: ElicitationResultAction::Decline, content: None };
    assert_eq!(render(&declined.serialize()), r#"{"action":"decline"}"#);
}
