//! Sampling: a plugin asks the host's model to continue a conversation.

use vstd::prelude::*;
use crate::content::{SamplingMessage, SamplingMessageModel};
use crate::dictionary::JsonObject;
use crate::enums::{CreateMessageRequestParamIncludeContext, Role};
use crate::error::{SchemaError, SchemaFault};
use crate::json::{Entries, JsonNumber, JsonTree, JsonValue, entries_of, lemma_object_view};
use crate::tools::{Tool, ToolChoice, ToolChoiceModel, ToolModel};
use crate::wire::{
    Wire,
    defaulted,
    defaulted_of,
    encoded_some,
    group_lookup,
    lemma_defaulted,
    lemma_defaulted_valid,
    lemma_optional,
    lemma_optional_valid,
    lemma_required,
    lemma_required_valid,
    lookup,
    optional,
    optional_of,
    push_field,
    push_some,
    put,
    put_some,
    required,
    required_of,
    valid_some,
};
use crate::words::lemma_wire_words;

verus! {

/// A hint on which model to use.
#[derive(Debug, Clone, PartialEq, Default)]
pub struct ModelHint {
    /// Suggested model name or family
    pub name: String,
}

/// The model of [`ModelHint`].
pub struct ModelHintModel {
    pub name: Seq<char>,
}

impl DeepView for ModelHint {
    type V = ModelHintModel;

    open spec fn deep_view(&self) -> ModelHintModel {
        ModelHintModel { name: self.name.deep_view() }
    }
}

impl ModelHint {
    /// The entries of the object that stands for a value, in the order in which
    /// they are written.
    pub open spec fn entries(m: ModelHintModel) -> Entries {
        let e = Seq::empty();
        let e = put::<String>(e, "name"@, m.name);
        e
    }

    /// What is written under each name: a field that must be there is always
    /// written, also where it is empty; a field that may be left out is written
    /// where it is set and has no entry where it is not; and no other name has
    /// an entry.
    pub proof fn lemma_written(m: ModelHintModel)
        ensures
            lookup(Self::entries(m), "name"@) == Some(String::encode(m.name)),
            forall|key: Seq<char>| key != "name"@ ==> lookup(Self::entries(m), key) is None,
    {
        broadcast use group_lookup;

        lemma_wire_words();
    }
}

impl Wire for ModelHint {
    open spec fn encode(m: ModelHintModel) -> JsonTree {
        JsonTree::Object(Self::entries(m))
    }

    open spec fn decode(t: JsonTree) -> Result<ModelHintModel, SchemaFault> {
        match t {
            JsonTree::Object(e) => {
                let name = required_of::<String>(e, "name"@, "ModelHint"@);
                if name is Err {
                    Err(name->Err_0)
                } else {
                    Ok(ModelHintModel { name: name->Ok_0 })
                }
            },
            _ => Err(SchemaFault::Malformed { of_type: "ModelHint"@ }),
        }
    }

    open spec fn valid(m: ModelHintModel) -> bool {
        &&& String::valid(m.name)
    }

    fn serialize(&self) -> (out: JsonValue) {
        let mut fields: Vec<(String, JsonValue)> = Vec::new();
        assert(entries_of(fields@) =~= Seq::empty());
        push_field::<String>(&mut fields, "name", &self.name);
        proof {
            lemma_object_view(fields);
        }
        JsonValue::Object(fields)
    }

    fn deserialize(value: &JsonValue) -> (out: Result<ModelHint, SchemaError>) {
        match value {
            JsonValue::Object(fields) => {
                proof {
                    lemma_object_view(*fields);
                }
                let name = required::<String>(fields, "name", "ModelHint")?;
                Ok(ModelHint { name })
            },
            _ => Err(SchemaError::Malformed { of_type: String::from_str("ModelHint") }),
        }
    }

    proof fn round_trip(m: ModelHintModel) {
        Self::lemma_written(m);
        let e = Self::entries(m);
        lemma_required::<String>(e, "name"@, "ModelHint"@, m.name);
    }

    proof fn decoded_valid(t: JsonTree) {
        match t {
            JsonTree::Object(e) => {
                lemma_required_valid::<String>(e, "name"@, "ModelHint"@);
            },
            _ => {},
        }
    }
}

/// What a plugin prefers in the choice of a model. The priorities are by
/// convention between 0 and 1, which is not enforced.
#[derive(Debug, Clone, PartialEq, Default)]
pub struct ModelPreferences {
    /// Priority for cost (0-1)
    pub cost_priority: JsonNumber,
    /// Model name hints
    pub hints: Vec<ModelHint>,
    /// Priority for intelligence (0-1)
    pub intelligence_priority: JsonNumber,
    /// Priority for speed (0-1)
    pub speed_priority: JsonNumber,
}

/// The model of [`ModelPreferences`].
pub struct ModelPreferencesModel {
    pub cost_priority: JsonNumber,
    pub hints: Seq<ModelHintModel>,
    pub intelligence_priority: JsonNumber,
    pub speed_priority: JsonNumber,
}

impl DeepView for ModelPreferences {
    type V = ModelPreferencesModel;

    open spec fn deep_view(&self) -> ModelPreferencesModel {
        ModelPreferencesModel {
            cost_priority: self.cost_priority.deep_view(),
            hints: self.hints.deep_view(),
            intelligence_priority: self.intelligence_priority.deep_view(),
            speed_priority: self.speed_priority.deep_view(),
        }
    }
}

impl ModelPreferences {
    /// The entries of the object that stands for a value, in the order in which
    /// they are written.
    pub open spec fn entries(m: ModelPreferencesModel) -> Entries {
        let e = Seq::empty();
        let e = put::<JsonNumber>(e, "cost_priority"@, m.cost_priority);
        let e = put::<Vec<ModelHint>>(e, "hints"@, m.hints);
        let e = put::<JsonNumber>(e, "intelligencePriority"@, m.intelligence_priority);
        let e = put::<JsonNumber>(e, "speedPriority"@, m.speed_priority);
        e
    }

    /// What is written under each name: a field that must be there is always
    /// written, also where it is empty; a field that may be left out is written
    /// where it is set and has no entry where it is not; and no other name has
    /// an entry.
    pub proof fn lemma_written(m: ModelPreferencesModel)
        ensures
            lookup(Self::entries(m), "cost_priority"@) == Some(JsonNumber::encode(m.cost_priority)),
            lookup(Self::entries(m), "hints"@) == Some(<Vec<ModelHint>>::encode(m.hints)),
            lookup(Self::entries(m), "intelligencePriority"@) == Some(JsonNumber::encode(m.intelligence_priority)),
            lookup(Self::entries(m), "speedPriority"@) == Some(JsonNumber::encode(m.speed_priority)),
            forall|key: Seq<char>|
                key != "cost_priority"@ && key != "hints"@ && key != "intelligencePriority"@ &&
                    key != "speedPriority"@
                    ==> lookup(Self::entries(m), key) is None,
    {
        broadcast use group_lookup;

        lemma_wire_words();
    }
}

impl Wire for ModelPreferences {
    open spec fn encode(m: ModelPreferencesModel) -> JsonTree {
        JsonTree::Object(Self::entries(m))
    }

    open spec fn decode(t: JsonTree) -> Result<ModelPreferencesModel, SchemaFault> {
        match t {
            JsonTree::Object(e) => {
                let cost_priority = required_of::<JsonNumber>(e, "cost_priority"@, "ModelPreferences"@);
                let hints = required_of::<Vec<ModelHint>>(e, "hints"@, "ModelPreferences"@);
                let intelligence_priority = required_of::<JsonNumber>(e, "intelligencePriority"@, "ModelPreferences"@);
                let speed_priority = required_of::<JsonNumber>(e, "speedPriority"@, "ModelPreferences"@);
                if cost_priority is Err {
                    Err(cost_priority->Err_0)
                } else if hints is Err {
                    Err(hints->Err_0)
                } else if intelligence_priority is Err {
                    Err(intelligence_priority->Err_0)
                } else if speed_priority is Err {
                    Err(speed_priority->Err_0)
                } else {
                    Ok(
                        ModelPreferencesModel {
                            cost_priority: cost_priority->Ok_0,
                            hints: hints->Ok_0,
                            intelligence_priority: intelligence_priority->Ok_0,
                            speed_priority: speed_priority->Ok_0,
                        },
                    )
                }
            },
            _ => Err(SchemaFault::Malformed { of_type: "ModelPreferences"@ }),
        }
    }

    open spec fn valid(m: ModelPreferencesModel) -> bool {
        &&& JsonNumber::valid(m.cost_priority)
        &&& <Vec<ModelHint>>::valid(m.hints)
        &&& JsonNumber::valid(m.intelligence_priority)
        &&& JsonNumber::valid(m.speed_priority)
    }

    fn serialize(&self) -> (out: JsonValue) {
        let mut fields: Vec<(String, JsonValue)> = Vec::new();
        assert(entries_of(fields@) =~= Seq::empty());
        push_field::<JsonNumber>(&mut fields, "cost_priority", &self.cost_priority);
        push_field::<Vec<ModelHint>>(&mut fields, "hints", &self.hints);
        push_field::<JsonNumber>(&mut fields, "intelligencePriority", &self.intelligence_priority);
        push_field::<JsonNumber>(&mut fields, "speedPriority", &self.speed_priority);
        proof {
            lemma_object_view(fields);
        }
        JsonValue::Object(fields)
    }

    fn deserialize(value: &JsonValue) -> (out: Result<ModelPreferences, SchemaError>) {
        match value {
            JsonValue::Object(fields) => {
                proof {
                    lemma_object_view(*fields);
                }
                let cost_priority = required::<JsonNumber>(fields, "cost_priority", "ModelPreferences")?;
                let hints = required::<Vec<ModelHint>>(fields, "hints", "ModelPreferences")?;
                let intelligence_priority = required::<JsonNumber>(fields, "intelligencePriority", "ModelPreferences")?;
                let speed_priority = required::<JsonNumber>(fields, "speedPriority", "ModelPreferences")?;
                Ok(
                    ModelPreferences {
                        cost_priority,
                        hints,
                        intelligence_priority,
                        speed_priority,
                    },
                )
            },
            _ => Err(SchemaError::Malformed { of_type: String::from_str("ModelPreferences") }),
        }
    }

    proof fn round_trip(m: ModelPreferencesModel) {
        Self::lemma_written(m);
        let e = Self::entries(m);
        lemma_required::<JsonNumber>(e, "cost_priority"@, "ModelPreferences"@, m.cost_priority);
        lemma_required::<Vec<ModelHint>>(e, "hints"@, "ModelPreferences"@, m.hints);
        lemma_required::<JsonNumber>(e, "intelligencePriority"@, "ModelPreferences"@, m.intelligence_priority);
        lemma_required::<JsonNumber>(e, "speedPriority"@, "ModelPreferences"@, m.speed_priority);
    }

    proof fn decoded_valid(t: JsonTree) {
        match t {
            JsonTree::Object(e) => {
                lemma_required_valid::<JsonNumber>(e, "cost_priority"@, "ModelPreferences"@);
                lemma_required_valid::<Vec<ModelHint>>(e, "hints"@, "ModelPreferences"@);
                lemma_required_valid::<JsonNumber>(e, "intelligencePriority"@, "ModelPreferences"@);
                lemma_required_valid::<JsonNumber>(e, "speedPriority"@, "ModelPreferences"@);
            },
            _ => {},
        }
    }
}

/// The request that a model continue a conversation.
#[derive(Debug, Clone, PartialEq, Default)]
pub struct CreateMessageRequestParam {
    /// Which servers' context to include
    pub include_context: Option<CreateMessageRequestParamIncludeContext>,
    /// Maximum tokens to sample
    pub max_tokens: i64,
    /// Conversation messages of TextContent, ImageContent or AudioContent
    pub messages: Vec<SamplingMessage>,
    /// Optional metadata, carried as it is
    pub metadata: Option<JsonValue>,
    /// Preferences for model selection
    pub model_preferences: Option<ModelPreferences>,
    /// Stop sequences
    pub stop_sequences: Option<Vec<String>>,
    /// Optional system prompt
    pub system_prompt: Option<String>,
    /// Optional description of a task, carried as it is
    pub task: Option<JsonObject>,
    /// Sampling temperature
    pub temperature: Option<JsonNumber>,
    /// How the model is to choose among the tools
    pub tool_choice: Option<ToolChoice>,
    /// The tools that the model may call
    pub tools: Option<Vec<Tool>>,
}

/// The model of [`CreateMessageRequestParam`].
pub struct CreateMessageRequestParamModel {
    pub include_context: Option<CreateMessageRequestParamIncludeContext>,
    pub max_tokens: i64,
    pub messages: Seq<SamplingMessageModel>,
    pub metadata: Option<JsonTree>,
    pub model_preferences: Option<ModelPreferencesModel>,
    pub stop_sequences: Option<Seq<Seq<char>>>,
    pub system_prompt: Option<Seq<char>>,
    pub task: Option<Seq<(Seq<char>, JsonTree)>>,
    pub temperature: Option<JsonNumber>,
    pub tool_choice: Option<ToolChoiceModel>,
    pub tools: Option<Seq<ToolModel>>,
}

impl DeepView for CreateMessageRequestParam {
    type V = CreateMessageRequestParamModel;

    open spec fn deep_view(&self) -> CreateMessageRequestParamModel {
        CreateMessageRequestParamModel {
            include_context: self.include_context.deep_view(),
            max_tokens: self.max_tokens.deep_view(),
            messages: self.messages.deep_view(),
            metadata: self.metadata.deep_view(),
            model_preferences: self.model_preferences.deep_view(),
            stop_sequences: self.stop_sequences.deep_view(),
            system_prompt: self.system_prompt.deep_view(),
            task: self.task.deep_view(),
            temperature: self.temperature.deep_view(),
            tool_choice: self.tool_choice.deep_view(),
            tools: self.tools.deep_view(),
        }
    }
}

impl CreateMessageRequestParam {
    /// The entries of the object that stands for a value, in the order in which
    /// they are written.
    pub open spec fn entries(m: CreateMessageRequestParamModel) -> Entries {
        let e = Seq::empty();
        let e = put_some::<CreateMessageRequestParamIncludeContext>(e, "includeContext"@, m.include_context);
        let e = put::<i64>(e, "maxTokens"@, m.max_tokens);
        let e = put::<Vec<SamplingMessage>>(e, "messages"@, m.messages);
        let e = put_some::<JsonValue>(e, "metadata"@, m.metadata);
        let e = put_some::<ModelPreferences>(e, "modelPreferences"@, m.model_preferences);
        let e = put_some::<Vec<String>>(e, "stopSequences"@, m.stop_sequences);
        let e = put_some::<String>(e, "systemPrompt"@, m.system_prompt);
        let e = put_some::<JsonObject>(e, "task"@, m.task);
        let e = put_some::<JsonNumber>(e, "temperature"@, m.temperature);
        let e = put_some::<ToolChoice>(e, "toolChoice"@, m.tool_choice);
        let e = put_some::<Vec<Tool>>(e, "tools"@, m.tools);
        e
    }

    /// What is written under each name: a field that must be there is always
    /// written, also where it is empty; a field that may be left out is written
    /// where it is set and has no entry where it is not; and no other name has
    /// an entry.
    pub proof fn lemma_written(m: CreateMessageRequestParamModel)
        ensures
            lookup(Self::entries(m), "includeContext"@) == encoded_some::<CreateMessageRequestParamIncludeContext>(m.include_context),
            lookup(Self::entries(m), "maxTokens"@) == Some(i64::encode(m.max_tokens)),
            lookup(Self::entries(m), "messages"@) == Some(<Vec<SamplingMessage>>::encode(m.messages)),
            lookup(Self::entries(m), "metadata"@) == encoded_some::<JsonValue>(m.metadata),
            lookup(Self::entries(m), "modelPreferences"@) == encoded_some::<ModelPreferences>(m.model_preferences),
            lookup(Self::entries(m), "stopSequences"@) == encoded_some::<Vec<String>>(m.stop_sequences),
            lookup(Self::entries(m), "systemPrompt"@) == encoded_some::<String>(m.system_prompt),
            lookup(Self::entries(m), "task"@) == encoded_some::<JsonObject>(m.task),
            lookup(Self::entries(m), "temperature"@) == encoded_some::<JsonNumber>(m.temperature),
            lookup(Self::entries(m), "toolChoice"@) == encoded_some::<ToolChoice>(m.tool_choice),
            lookup(Self::entries(m), "tools"@) == encoded_some::<Vec<Tool>>(m.tools),
            forall|key: Seq<char>|
                key != "includeContext"@ && key != "maxTokens"@ && key != "messages"@ &&
                    key != "metadata"@ && key != "modelPreferences"@ && key != "stopSequences"@ &&
                    key != "systemPrompt"@ && key != "task"@ && key != "temperature"@ &&
                    key != "toolChoice"@ && key != "tools"@
                    ==> lookup(Self::entries(m), key) is None,
    {
        broadcast use group_lookup;

        lemma_wire_words();
    }
}

impl Wire for CreateMessageRequestParam {
    open spec fn encode(m: CreateMessageRequestParamModel) -> JsonTree {
        JsonTree::Object(Self::entries(m))
    }

    open spec fn decode(t: JsonTree) -> Result<CreateMessageRequestParamModel, SchemaFault> {
        match t {
            JsonTree::Object(e) => {
                let include_context = optional_of::<CreateMessageRequestParamIncludeContext>(e, "includeContext"@);
                let max_tokens = required_of::<i64>(e, "maxTokens"@, "CreateMessageRequestParam"@);
                let messages = required_of::<Vec<SamplingMessage>>(e, "messages"@, "CreateMessageRequestParam"@);
                let metadata = optional_of::<JsonValue>(e, "metadata"@);
                let model_preferences = optional_of::<ModelPreferences>(e, "modelPreferences"@);
                let stop_sequences = optional_of::<Vec<String>>(e, "stopSequences"@);
                let system_prompt = optional_of::<String>(e, "systemPrompt"@);
                let task = optional_of::<JsonObject>(e, "task"@);
                let temperature = optional_of::<JsonNumber>(e, "temperature"@);
                let tool_choice = optional_of::<ToolChoice>(e, "toolChoice"@);
                let tools = optional_of::<Vec<Tool>>(e, "tools"@);
                if include_context is Err {
                    Err(include_context->Err_0)
                } else if max_tokens is Err {
                    Err(max_tokens->Err_0)
                } else if messages is Err {
                    Err(messages->Err_0)
                } else if metadata is Err {
                    Err(metadata->Err_0)
                } else if model_preferences is Err {
                    Err(model_preferences->Err_0)
                } else if stop_sequences is Err {
                    Err(stop_sequences->Err_0)
                } else if system_prompt is Err {
                    Err(system_prompt->Err_0)
                } else if task is Err {
                    Err(task->Err_0)
                } else if temperature is Err {
                    Err(temperature->Err_0)
                } else if tool_choice is Err {
                    Err(tool_choice->Err_0)
                } else if tools is Err {
                    Err(tools->Err_0)
                } else {
                    Ok(
                        CreateMessageRequestParamModel {
                            include_context: include_context->Ok_0,
                            max_tokens: max_tokens->Ok_0,
                            messages: messages->Ok_0,
                            metadata: metadata->Ok_0,
                            model_preferences: model_preferences->Ok_0,
                            stop_sequences: stop_sequences->Ok_0,
                            system_prompt: system_prompt->Ok_0,
                            task: task->Ok_0,
                            temperature: temperature->Ok_0,
                            tool_choice: tool_choice->Ok_0,
                            tools: tools->Ok_0,
                        },
                    )
                }
            },
            _ => Err(SchemaFault::Malformed { of_type: "CreateMessageRequestParam"@ }),
        }
    }

    open spec fn valid(m: CreateMessageRequestParamModel) -> bool {
        &&& valid_some::<CreateMessageRequestParamIncludeContext>(m.include_context)
        &&& i64::valid(m.max_tokens)
        &&& <Vec<SamplingMessage>>::valid(m.messages)
        &&& valid_some::<JsonValue>(m.metadata)
        &&& valid_some::<ModelPreferences>(m.model_preferences)
        &&& valid_some::<Vec<String>>(m.stop_sequences)
        &&& valid_some::<String>(m.system_prompt)
        &&& valid_some::<JsonObject>(m.task)
        &&& valid_some::<JsonNumber>(m.temperature)
        &&& valid_some::<ToolChoice>(m.tool_choice)
        &&& valid_some::<Vec<Tool>>(m.tools)
    }

    fn serialize(&self) -> (out: JsonValue) {
        let mut fields: Vec<(String, JsonValue)> = Vec::new();
        assert(entries_of(fields@) =~= Seq::empty());
        push_some::<CreateMessageRequestParamIncludeContext>(&mut fields, "includeContext", &self.include_context);
        push_field::<i64>(&mut fields, "maxTokens", &self.max_tokens);
        push_field::<Vec<SamplingMessage>>(&mut fields, "messages", &self.messages);
        push_some::<JsonValue>(&mut fields, "metadata", &self.metadata);
        push_some::<ModelPreferences>(&mut fields, "modelPreferences", &self.model_preferences);
        push_some::<Vec<String>>(&mut fields, "stopSequences", &self.stop_sequences);
        push_some::<String>(&mut fields, "systemPrompt", &self.system_prompt);
        push_some::<JsonObject>(&mut fields, "task", &self.task);
        push_some::<JsonNumber>(&mut fields, "temperature", &self.temperature);
        push_some::<ToolChoice>(&mut fields, "toolChoice", &self.tool_choice);
        push_some::<Vec<Tool>>(&mut fields, "tools", &self.tools);
        proof {
            lemma_object_view(fields);
        }
        JsonValue::Object(fields)
    }

    fn deserialize(value: &JsonValue) -> (out: Result<CreateMessageRequestParam, SchemaError>) {
        match value {
            JsonValue::Object(fields) => {
                proof {
                    lemma_object_view(*fields);
                }
                let include_context = optional::<CreateMessageRequestParamIncludeContext>(fields, "includeContext")?;
                let max_tokens = required::<i64>(fields, "maxTokens", "CreateMessageRequestParam")?;
                let messages = required::<Vec<SamplingMessage>>(fields, "messages", "CreateMessageRequestParam")?;
                let metadata = optional::<JsonValue>(fields, "metadata")?;
                let model_preferences = optional::<ModelPreferences>(fields, "modelPreferences")?;
                let stop_sequences = optional::<Vec<String>>(fields, "stopSequences")?;
                let system_prompt = optional::<String>(fields, "systemPrompt")?;
                let task = optional::<JsonObject>(fields, "task")?;
                let temperature = optional::<JsonNumber>(fields, "temperature")?;
                let tool_choice = optional::<ToolChoice>(fields, "toolChoice")?;
                let tools = optional::<Vec<Tool>>(fields, "tools")?;
                Ok(
                    CreateMessageRequestParam {
                        include_context,
                        max_tokens,
                        messages,
                        metadata,
                        model_preferences,
                        stop_sequences,
                        system_prompt,
                        task,
                        temperature,
                        tool_choice,
                        tools,
                    },
                )
            },
            _ => Err(SchemaError::Malformed { of_type: String::from_str("CreateMessageRequestParam") }),
        }
    }

    proof fn round_trip(m: CreateMessageRequestParamModel) {
        Self::lemma_written(m);
        let e = Self::entries(m);
        lemma_optional::<CreateMessageRequestParamIncludeContext>(e, "includeContext"@, m.include_context);
        lemma_required::<i64>(e, "maxTokens"@, "CreateMessageRequestParam"@, m.max_tokens);
        lemma_required::<Vec<SamplingMessage>>(e, "messages"@, "CreateMessageRequestParam"@, m.messages);
        lemma_optional::<JsonValue>(e, "metadata"@, m.metadata);
        lemma_optional::<ModelPreferences>(e, "modelPreferences"@, m.model_preferences);
        lemma_optional::<Vec<String>>(e, "stopSequences"@, m.stop_sequences);
        lemma_optional::<String>(e, "systemPrompt"@, m.system_prompt);
        lemma_optional::<JsonObject>(e, "task"@, m.task);
        lemma_optional::<JsonNumber>(e, "temperature"@, m.temperature);
        lemma_optional::<ToolChoice>(e, "toolChoice"@, m.tool_choice);
        lemma_optional::<Vec<Tool>>(e, "tools"@, m.tools);
    }

    proof fn decoded_valid(t: JsonTree) {
        match t {
            JsonTree::Object(e) => {
                lemma_optional_valid::<CreateMessageRequestParamIncludeContext>(e, "includeContext"@);
                lemma_required_valid::<i64>(e, "maxTokens"@, "CreateMessageRequestParam"@);
                lemma_required_valid::<Vec<SamplingMessage>>(e, "messages"@, "CreateMessageRequestParam"@);
                lemma_optional_valid::<JsonValue>(e, "metadata"@);
                lemma_optional_valid::<ModelPreferences>(e, "modelPreferences"@);
                lemma_optional_valid::<Vec<String>>(e, "stopSequences"@);
                lemma_optional_valid::<String>(e, "systemPrompt"@);
                lemma_optional_valid::<JsonObject>(e, "task"@);
                lemma_optional_valid::<JsonNumber>(e, "temperature"@);
                lemma_optional_valid::<ToolChoice>(e, "toolChoice"@);
                lemma_optional_valid::<Vec<Tool>>(e, "tools"@);
            },
            _ => {},
        }
    }
}

/// What the model answered.
#[derive(Debug, Clone, PartialEq)]
pub struct CreateMessageResult {
    /// One of TextContent, ImageContent or AudioContent
    pub content: SamplingMessage,
    /// Name of the model used
    pub model: String,
    /// Who speaks
    pub role: Role,
    /// Optional reason sampling stopped
    pub stop_reason: Option<String>,
}

/// The model of [`CreateMessageResult`].
pub struct CreateMessageResultModel {
    pub content: SamplingMessageModel,
    pub model: Seq<char>,
    pub role: Role,
    pub stop_reason: Option<Seq<char>>,
}

impl DeepView for CreateMessageResult {
    type V = CreateMessageResultModel;

    open spec fn deep_view(&self) -> CreateMessageResultModel {
        CreateMessageResultModel {
            content: self.content.deep_view(),
            model: self.model.deep_view(),
            role: self.role.deep_view(),
            stop_reason: self.stop_reason.deep_view(),
        }
    }
}

impl CreateMessageResult {
    /// The entries of the object that stands for a value, in the order in which
    /// they are written.
    pub open spec fn entries(m: CreateMessageResultModel) -> Entries {
        let e = Seq::empty();
        let e = put::<SamplingMessage>(e, "content"@, m.content);
        let e = put::<String>(e, "model"@, m.model);
        let e = put::<Role>(e, "role"@, m.role);
        let e = put_some::<String>(e, "stopReason"@, m.stop_reason);
        e
    }

    /// What is written under each name: a field that must be there is always
    /// written, also where it is empty; a field that may be left out is written
    /// where it is set and has no entry where it is not; and no other name has
    /// an entry.
    pub proof fn lemma_written(m: CreateMessageResultModel)
        ensures
            lookup(Self::entries(m), "content"@) == Some(SamplingMessage::encode(m.content)),
            lookup(Self::entries(m), "model"@) == Some(String::encode(m.model)),
            lookup(Self::entries(m), "role"@) == Some(Role::encode(m.role)),
            lookup(Self::entries(m), "stopReason"@) == encoded_some::<String>(m.stop_reason),
            forall|key: Seq<char>|
                key != "content"@ && key != "model"@ && key != "role"@ && key != "stopReason"@
                    ==> lookup(Self::entries(m), key) is None,
    {
        broadcast use group_lookup;

        lemma_wire_words();
    }
}

impl Wire for CreateMessageResult {
    open spec fn encode(m: CreateMessageResultModel) -> JsonTree {
        JsonTree::Object(Self::entries(m))
    }

    open spec fn decode(t: JsonTree) -> Result<CreateMessageResultModel, SchemaFault> {
        match t {
            JsonTree::Object(e) => {
                let content = required_of::<SamplingMessage>(e, "content"@, "CreateMessageResult"@);
                let model = required_of::<String>(e, "model"@, "CreateMessageResult"@);
                let role = defaulted_of::<Role>(e, "role"@, Role::Assistant);
                let stop_reason = optional_of::<String>(e, "stopReason"@);
                if content is Err {
                    Err(content->Err_0)
                } else if model is Err {
                    Err(model->Err_0)
                } else if role is Err {
                    Err(role->Err_0)
                } else if stop_reason is Err {
                    Err(stop_reason->Err_0)
                } else {
                    Ok(
                        CreateMessageResultModel {
                            content: content->Ok_0,
                            model: model->Ok_0,
                            role: role->Ok_0,
                            stop_reason: stop_reason->Ok_0,
                        },
                    )
                }
            },
            _ => Err(SchemaFault::Malformed { of_type: "CreateMessageResult"@ }),
        }
    }

    open spec fn valid(m: CreateMessageResultModel) -> bool {
        &&& SamplingMessage::valid(m.content)
        &&& String::valid(m.model)
        &&& Role::valid(m.role)
        &&& valid_some::<String>(m.stop_reason)
    }

    fn serialize(&self) -> (out: JsonValue) {
        let mut fields: Vec<(String, JsonValue)> = Vec::new();
        assert(entries_of(fields@) =~= Seq::empty());
        push_field::<SamplingMessage>(&mut fields, "content", &self.content);
        push_field::<String>(&mut fields, "model", &self.model);
        push_field::<Role>(&mut fields, "role", &self.role);
        push_some::<String>(&mut fields, "stopReason", &self.stop_reason);
        proof {
            lemma_object_view(fields);
        }
        JsonValue::Object(fields)
    }

    fn deserialize(value: &JsonValue) -> (out: Result<CreateMessageResult, SchemaError>) {
        match value {
            JsonValue::Object(fields) => {
                proof {
                    lemma_object_view(*fields);
                }
                let content = required::<SamplingMessage>(fields, "content", "CreateMessageResult")?;
                let model = required::<String>(fields, "model", "CreateMessageResult")?;
                let role = defaulted::<Role>(fields, "role", Role::Assistant)?;
                let stop_reason = optional::<String>(fields, "stopReason")?;
                Ok(CreateMessageResult { content, model, role, stop_reason })
            },
            _ => Err(SchemaError::Malformed { of_type: String::from_str("CreateMessageResult") }),
        }
    }

    proof fn round_trip(m: CreateMessageResultModel) {
        Self::lemma_written(m);
        let e = Self::entries(m);
        lemma_required::<SamplingMessage>(e, "content"@, "CreateMessageResult"@, m.content);
        lemma_required::<String>(e, "model"@, "CreateMessageResult"@, m.model);
        lemma_defaulted::<Role>(e, "role"@, Role::Assistant, m.role);
        lemma_optional::<String>(e, "stopReason"@, m.stop_reason);
    }

    proof fn decoded_valid(t: JsonTree) {
        match t {
            JsonTree::Object(e) => {
                lemma_required_valid::<SamplingMessage>(e, "content"@, "CreateMessageResult"@);
                lemma_required_valid::<String>(e, "model"@, "CreateMessageResult"@);
                lemma_defaulted_valid::<Role>(e, "role"@, Role::Assistant);
                lemma_optional_valid::<String>(e, "stopReason"@);
            },
            _ => {},
        }
    }
}

} // verus!
