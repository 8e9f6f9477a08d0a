//! Tools, and the requests to list and to call them.

use vstd::prelude::*;
use crate::content::{ContentBlock, ContentBlockModel};
use crate::context::{PluginRequestContext, PluginRequestContextModel};
use crate::dictionary::{JsonObject, Meta};
use crate::enums::ToolChoiceMode;
use crate::error::{SchemaError, SchemaFault};
use crate::json::{Entries, JsonTree, JsonValue, entries_of, lemma_object_view};
use crate::wire::{
    Wire,
    encoded_some,
    group_lookup,
    lemma_optional,
    lemma_optional_valid,
    lemma_required,
    lemma_required_valid,
    lookup,
    optional,
    optional_of,
    push_field,
    push_some,
    put,
    put_some,
    required,
    required_of,
    valid_some,
};
use crate::words::lemma_wire_words;

verus! {

/// Hints on how a tool behaves.
#[derive(Debug, Clone, PartialEq, Default)]
pub struct ToolAnnotations {
    /// Whether the tool may destroy what it works on
    pub destructive_hint: Option<bool>,
    /// Whether a second call with the same arguments changes nothing more
    pub idempotent_hint: Option<bool>,
    /// Whether the tool reaches out of its own domain
    pub open_world_hint: Option<bool>,
    /// Whether the tool changes nothing
    pub read_only_hint: Option<bool>,
    /// Human-readable title
    pub title: Option<String>,
}

/// The model of [`ToolAnnotations`].
pub struct ToolAnnotationsModel {
    pub destructive_hint: Option<bool>,
    pub idempotent_hint: Option<bool>,
    pub open_world_hint: Option<bool>,
    pub read_only_hint: Option<bool>,
    pub title: Option<Seq<char>>,
}

impl DeepView for ToolAnnotations {
    type V = ToolAnnotationsModel;

    open spec fn deep_view(&self) -> ToolAnnotationsModel {
        ToolAnnotationsModel {
            destructive_hint: self.destructive_hint.deep_view(),
            idempotent_hint: self.idempotent_hint.deep_view(),
            open_world_hint: self.open_world_hint.deep_view(),
            read_only_hint: self.read_only_hint.deep_view(),
            title: self.title.deep_view(),
        }
    }
}

impl ToolAnnotations {
    /// The entries of the object that stands for a value, in the order in which
    /// they are written.
    pub open spec fn entries(m: ToolAnnotationsModel) -> Entries {
        let e = Seq::empty();
        let e = put_some::<bool>(e, "destructiveHint"@, m.destructive_hint);
        let e = put_some::<bool>(e, "idempotentHint"@, m.idempotent_hint);
        let e = put_some::<bool>(e, "openWorldHint"@, m.open_world_hint);
        let e = put_some::<bool>(e, "readOnlyHint"@, m.read_only_hint);
        let e = put_some::<String>(e, "title"@, m.title);
        e
    }

    /// What is written under each name: a field that must be there is always
    /// written, also where it is empty; a field that may be left out is written
    /// where it is set and has no entry where it is not; and no other name has
    /// an entry.
    pub proof fn lemma_written(m: ToolAnnotationsModel)
        ensures
            lookup(Self::entries(m), "destructiveHint"@) == encoded_some::<bool>(m.destructive_hint),
            lookup(Self::entries(m), "idempotentHint"@) == encoded_some::<bool>(m.idempotent_hint),
            lookup(Self::entries(m), "openWorldHint"@) == encoded_some::<bool>(m.open_world_hint),
            lookup(Self::entries(m), "readOnlyHint"@) == encoded_some::<bool>(m.read_only_hint),
            lookup(Self::entries(m), "title"@) == encoded_some::<String>(m.title),
            forall|key: Seq<char>|
                key != "destructiveHint"@ && key != "idempotentHint"@ &&
                    key != "openWorldHint"@ && key != "readOnlyHint"@ && key != "title"@
                    ==> lookup(Self::entries(m), key) is None,
    {
        broadcast use group_lookup;

        lemma_wire_words();
    }
}

impl Wire for ToolAnnotations {
    open spec fn encode(m: ToolAnnotationsModel) -> JsonTree {
        JsonTree::Object(Self::entries(m))
    }

    open spec fn decode(t: JsonTree) -> Result<ToolAnnotationsModel, SchemaFault> {
        match t {
            JsonTree::Object(e) => {
                let destructive_hint = optional_of::<bool>(e, "destructiveHint"@);
                let idempotent_hint = optional_of::<bool>(e, "idempotentHint"@);
                let open_world_hint = optional_of::<bool>(e, "openWorldHint"@);
                let read_only_hint = optional_of::<bool>(e, "readOnlyHint"@);
                let title = optional_of::<String>(e, "title"@);
                if destructive_hint is Err {
                    Err(destructive_hint->Err_0)
                } else if idempotent_hint is Err {
                    Err(idempotent_hint->Err_0)
                } else if open_world_hint is Err {
                    Err(open_world_hint->Err_0)
                } else if read_only_hint is Err {
                    Err(read_only_hint->Err_0)
                } else if title is Err {
                    Err(title->Err_0)
                } else {
                    Ok(
                        ToolAnnotationsModel {
                            destructive_hint: destructive_hint->Ok_0,
                            idempotent_hint: idempotent_hint->Ok_0,
                            open_world_hint: open_world_hint->Ok_0,
                            read_only_hint: read_only_hint->Ok_0,
                            title: title->Ok_0,
                        },
                    )
                }
            },
            _ => Err(SchemaFault::Malformed { of_type: "ToolAnnotations"@ }),
        }
    }

    open spec fn valid(m: ToolAnnotationsModel) -> bool {
        &&& valid_some::<bool>(m.destructive_hint)
        &&& valid_some::<bool>(m.idempotent_hint)
        &&& valid_some::<bool>(m.open_world_hint)
        &&& valid_some::<bool>(m.read_only_hint)
        &&& valid_some::<String>(m.title)
    }

    fn serialize(&self) -> (out: JsonValue) {
        let mut fields: Vec<(String, JsonValue)> = Vec::new();
        assert(entries_of(fields@) =~= Seq::empty());
        push_some::<bool>(&mut fields, "destructiveHint", &self.destructive_hint);
        push_some::<bool>(&mut fields, "idempotentHint", &self.idempotent_hint);
        push_some::<bool>(&mut fields, "openWorldHint", &self.open_world_hint);
        push_some::<bool>(&mut fields, "readOnlyHint", &self.read_only_hint);
        push_some::<String>(&mut fields, "title", &self.title);
        proof {
            lemma_object_view(fields);
        }
        JsonValue::Object(fields)
    }

    fn deserialize(value: &JsonValue) -> (out: Result<ToolAnnotations, SchemaError>) {
        match value {
            JsonValue::Object(fields) => {
                proof {
                    lemma_object_view(*fields);
                }
                let destructive_hint = optional::<bool>(fields, "destructiveHint")?;
                let idempotent_hint = optional::<bool>(fields, "idempotentHint")?;
                let open_world_hint = optional::<bool>(fields, "openWorldHint")?;
                let read_only_hint = optional::<bool>(fields, "readOnlyHint")?;
                let title = optional::<String>(fields, "title")?;
                Ok(
                    ToolAnnotations {
                        destructive_hint,
                        idempotent_hint,
                        open_world_hint,
                        read_only_hint,
                        title,
                    },
                )
            },
            _ => Err(SchemaError::Malformed { of_type: String::from_str("ToolAnnotations") }),
        }
    }

    proof fn round_trip(m: ToolAnnotationsModel) {
        Self::lemma_written(m);
        let e = Self::entries(m);
        lemma_optional::<bool>(e, "destructiveHint"@, m.destructive_hint);
        lemma_optional::<bool>(e, "idempotentHint"@, m.idempotent_hint);
        lemma_optional::<bool>(e, "openWorldHint"@, m.open_world_hint);
        lemma_optional::<bool>(e, "readOnlyHint"@, m.read_only_hint);
        lemma_optional::<String>(e, "title"@, m.title);
    }

    proof fn decoded_valid(t: JsonTree) {
        match t {
            JsonTree::Object(e) => {
                lemma_optional_valid::<bool>(e, "destructiveHint"@);
                lemma_optional_valid::<bool>(e, "idempotentHint"@);
                lemma_optional_valid::<bool>(e, "openWorldHint"@);
                lemma_optional_valid::<bool>(e, "readOnlyHint"@);
                lemma_optional_valid::<String>(e, "title"@);
            },
            _ => {},
        }
    }
}

/// A tool that a plugin offers. Its schemas are JSON objects, carried as they
/// are.
#[derive(Debug, Clone, PartialEq, Default)]
pub struct Tool {
    /// Optional tool annotations
    pub annotations: Option<ToolAnnotations>,
    /// Description of what the tool does
    pub description: Option<String>,
    /// The JSON Schema of the tool's arguments
    pub input_schema: JsonObject,
    /// Unique name of the tool
    pub name: String,
    /// The JSON Schema of the tool's structured result
    pub output_schema: Option<JsonObject>,
    /// Human-readable title
    pub title: Option<String>,
}

/// The model of [`Tool`].
pub struct ToolModel {
    pub annotations: Option<ToolAnnotationsModel>,
    pub description: Option<Seq<char>>,
    pub input_schema: Seq<(Seq<char>, JsonTree)>,
    pub name: Seq<char>,
    pub output_schema: Option<Seq<(Seq<char>, JsonTree)>>,
    pub title: Option<Seq<char>>,
}

impl DeepView for Tool {
    type V = ToolModel;

    open spec fn deep_view(&self) -> ToolModel {
        ToolModel {
            annotations: self.annotations.deep_view(),
            description: self.description.deep_view(),
            input_schema: self.input_schema.deep_view(),
            name: self.name.deep_view(),
            output_schema: self.output_schema.deep_view(),
            title: self.title.deep_view(),
        }
    }
}

impl Tool {
    /// The entries of the object that stands for a value, in the order in which
    /// they are written.
    pub open spec fn entries(m: ToolModel) -> Entries {
        let e = Seq::empty();
        let e = put_some::<ToolAnnotations>(e, "annotations"@, m.annotations);
        let e = put_some::<String>(e, "description"@, m.description);
        let e = put::<JsonObject>(e, "inputSchema"@, m.input_schema);
        let e = put::<String>(e, "name"@, m.name);
        let e = put_some::<JsonObject>(e, "outputSchema"@, m.output_schema);
        let e = put_some::<String>(e, "title"@, m.title);
        e
    }

    /// What is written under each name: a field that must be there is always
    /// written, also where it is empty; a field that may be left out is written
    /// where it is set and has no entry where it is not; and no other name has
    /// an entry.
    pub proof fn lemma_written(m: ToolModel)
        ensures
            lookup(Self::entries(m), "annotations"@) == encoded_some::<ToolAnnotations>(m.annotations),
            lookup(Self::entries(m), "description"@) == encoded_some::<String>(m.description),
            lookup(Self::entries(m), "inputSchema"@) == Some(JsonObject::encode(m.input_schema)),
            lookup(Self::entries(m), "name"@) == Some(String::encode(m.name)),
            lookup(Self::entries(m), "outputSchema"@) == encoded_some::<JsonObject>(m.output_schema),
            lookup(Self::entries(m), "title"@) == encoded_some::<String>(m.title),
            forall|key: Seq<char>|
                key != "annotations"@ && key != "description"@ && key != "inputSchema"@ &&
                    key != "name"@ && key != "outputSchema"@ && key != "title"@
                    ==> lookup(Self::entries(m), key) is None,
    {
        broadcast use group_lookup;

        lemma_wire_words();
    }
}

impl Wire for Tool {
    open spec fn encode(m: ToolModel) -> JsonTree {
        JsonTree::Object(Self::entries(m))
    }

    open spec fn decode(t: JsonTree) -> Result<ToolModel, SchemaFault> {
        match t {
            JsonTree::Object(e) => {
                let annotations = optional_of::<ToolAnnotations>(e, "annotations"@);
                let description = optional_of::<String>(e, "description"@);
                let input_schema = required_of::<JsonObject>(e, "inputSchema"@, "Tool"@);
                let name = required_of::<String>(e, "name"@, "Tool"@);
                let output_schema = optional_of::<JsonObject>(e, "outputSchema"@);
                let title = optional_of::<String>(e, "title"@);
                if annotations is Err {
                    Err(annotations->Err_0)
                } else if description is Err {
                    Err(description->Err_0)
                } else if input_schema is Err {
                    Err(input_schema->Err_0)
                } else if name is Err {
                    Err(name->Err_0)
                } else if output_schema is Err {
                    Err(output_schema->Err_0)
                } else if title is Err {
                    Err(title->Err_0)
                } else {
                    Ok(
                        ToolModel {
                            annotations: annotations->Ok_0,
                            description: description->Ok_0,
                            input_schema: input_schema->Ok_0,
                            name: name->Ok_0,
                            output_schema: output_schema->Ok_0,
                            title: title->Ok_0,
                        },
                    )
                }
            },
            _ => Err(SchemaFault::Malformed { of_type: "Tool"@ }),
        }
    }

    open spec fn valid(m: ToolModel) -> bool {
        &&& valid_some::<ToolAnnotations>(m.annotations)
        &&& valid_some::<String>(m.description)
        &&& JsonObject::valid(m.input_schema)
        &&& String::valid(m.name)
        &&& valid_some::<JsonObject>(m.output_schema)
        &&& valid_some::<String>(m.title)
    }

    fn serialize(&self) -> (out: JsonValue) {
        let mut fields: Vec<(String, JsonValue)> = Vec::new();
        assert(entries_of(fields@) =~= Seq::empty());
        push_some::<ToolAnnotations>(&mut fields, "annotations", &self.annotations);
        push_some::<String>(&mut fields, "description", &self.description);
        push_field::<JsonObject>(&mut fields, "inputSchema", &self.input_schema);
        push_field::<String>(&mut fields, "name", &self.name);
        push_some::<JsonObject>(&mut fields, "outputSchema", &self.output_schema);
        push_some::<String>(&mut fields, "title", &self.title);
        proof {
            lemma_object_view(fields);
        }
        JsonValue::Object(fields)
    }

    fn deserialize(value: &JsonValue) -> (out: Result<Tool, SchemaError>) {
        match value {
            JsonValue::Object(fields) => {
                proof {
                    lemma_object_view(*fields);
                }
                let annotations = optional::<ToolAnnotations>(fields, "annotations")?;
                let description = optional::<String>(fields, "description")?;
                let input_schema = required::<JsonObject>(fields, "inputSchema", "Tool")?;
                let name = required::<String>(fields, "name", "Tool")?;
                let output_schema = optional::<JsonObject>(fields, "outputSchema")?;
                let title = optional::<String>(fields, "title")?;
                Ok(Tool { annotations, description, input_schema, name, output_schema, title })
            },
            _ => Err(SchemaError::Malformed { of_type: String::from_str("Tool") }),
        }
    }

    proof fn round_trip(m: ToolModel) {
        Self::lemma_written(m);
        let e = Self::entries(m);
        lemma_optional::<ToolAnnotations>(e, "annotations"@, m.annotations);
        lemma_optional::<String>(e, "description"@, m.description);
        lemma_required::<JsonObject>(e, "inputSchema"@, "Tool"@, m.input_schema);
        lemma_required::<String>(e, "name"@, "Tool"@, m.name);
        lemma_optional::<JsonObject>(e, "outputSchema"@, m.output_schema);
        lemma_optional::<String>(e, "title"@, m.title);
    }

    proof fn decoded_valid(t: JsonTree) {
        match t {
            JsonTree::Object(e) => {
                lemma_optional_valid::<ToolAnnotations>(e, "annotations"@);
                lemma_optional_valid::<String>(e, "description"@);
                lemma_required_valid::<JsonObject>(e, "inputSchema"@, "Tool"@);
                lemma_required_valid::<String>(e, "name"@, "Tool"@);
                lemma_optional_valid::<JsonObject>(e, "outputSchema"@);
                lemma_optional_valid::<String>(e, "title"@);
            },
            _ => {},
        }
    }
}

/// How the model is to choose among the tools.
#[derive(Debug, Clone, PartialEq, Default)]
pub struct ToolChoice {
    /// Whether the model may, must or must not call a tool
    pub mode: Option<ToolChoiceMode>,
}

/// The model of [`ToolChoice`].
pub struct ToolChoiceModel {
    pub mode: Option<ToolChoiceMode>,
}

impl DeepView for ToolChoice {
    type V = ToolChoiceModel;

    open spec fn deep_view(&self) -> ToolChoiceModel {
        ToolChoiceModel { mode: self.mode.deep_view() }
    }
}

impl ToolChoice {
    /// The entries of the object that stands for a value, in the order in which
    /// they are written.
    pub open spec fn entries(m: ToolChoiceModel) -> Entries {
        let e = Seq::empty();
        let e = put_some::<ToolChoiceMode>(e, "mode"@, m.mode);
        e
    }

    /// What is written under each name: a field that must be there is always
    /// written, also where it is empty; a field that may be left out is written
    /// where it is set and has no entry where it is not; and no other name has
    /// an entry.
    pub proof fn lemma_written(m: ToolChoiceModel)
        ensures
            lookup(Self::entries(m), "mode"@) == encoded_some::<ToolChoiceMode>(m.mode),
            forall|key: Seq<char>| key != "mode"@ ==> lookup(Self::entries(m), key) is None,
    {
        broadcast use group_lookup;

        lemma_wire_words();
    }
}

impl Wire for ToolChoice {
    open spec fn encode(m: ToolChoiceModel) -> JsonTree {
        JsonTree::Object(Self::entries(m))
    }

    open spec fn decode(t: JsonTree) -> Result<ToolChoiceModel, SchemaFault> {
        match t {
            JsonTree::Object(e) => {
                let mode = optional_of::<ToolChoiceMode>(e, "mode"@);
                if mode is Err {
                    Err(mode->Err_0)
                } else {
                    Ok(ToolChoiceModel { mode: mode->Ok_0 })
                }
            },
            _ => Err(SchemaFault::Malformed { of_type: "ToolChoice"@ }),
        }
    }

    open spec fn valid(m: ToolChoiceModel) -> bool {
        &&& valid_some::<ToolChoiceMode>(m.mode)
    }

    fn serialize(&self) -> (out: JsonValue) {
        let mut fields: Vec<(String, JsonValue)> = Vec::new();
        assert(entries_of(fields@) =~= Seq::empty());
        push_some::<ToolChoiceMode>(&mut fields, "mode", &self.mode);
        proof {
            lemma_object_view(fields);
        }
        JsonValue::Object(fields)
    }

    fn deserialize(value: &JsonValue) -> (out: Result<ToolChoice, SchemaError>) {
        match value {
            JsonValue::Object(fields) => {
                proof {
                    lemma_object_view(*fields);
                }
                let mode = optional::<ToolChoiceMode>(fields, "mode")?;
                Ok(ToolChoice { mode })
            },
            _ => Err(SchemaError::Malformed { of_type: String::from_str("ToolChoice") }),
        }
    }

    proof fn round_trip(m: ToolChoiceModel) {
        Self::lemma_written(m);
        let e = Self::entries(m);
        lemma_optional::<ToolChoiceMode>(e, "mode"@, m.mode);
    }

    proof fn decoded_valid(t: JsonTree) {
        match t {
            JsonTree::Object(e) => {
                lemma_optional_valid::<ToolChoiceMode>(e, "mode"@);
            },
            _ => {},
        }
    }
}

/// Which tool to call, and with what.
#[derive(Debug, Clone, PartialEq, Default)]
pub struct CallToolRequestParam {
    /// Arguments to pass to the tool
    pub arguments: Option<JsonObject>,
    /// The name of the tool to call
    pub name: String,
}

/// The model of [`CallToolRequestParam`].
pub struct CallToolRequestParamModel {
    pub arguments: Option<Seq<(Seq<char>, JsonTree)>>,
    pub name: Seq<char>,
}

impl DeepView for CallToolRequestParam {
    type V = CallToolRequestParamModel;

    open spec fn deep_view(&self) -> CallToolRequestParamModel {
        CallToolRequestParamModel { arguments: self.arguments.deep_view(), name: self.name.deep_view() }
    }
}

impl CallToolRequestParam {
    /// The entries of the object that stands for a value, in the order in which
    /// they are written.
    pub open spec fn entries(m: CallToolRequestParamModel) -> Entries {
        let e = Seq::empty();
        let e = put_some::<JsonObject>(e, "arguments"@, m.arguments);
        let e = put::<String>(e, "name"@, m.name);
        e
    }

    /// What is written under each name: a field that must be there is always
    /// written, also where it is empty; a field that may be left out is written
    /// where it is set and has no entry where it is not; and no other name has
    /// an entry.
    pub proof fn lemma_written(m: CallToolRequestParamModel)
        ensures
            lookup(Self::entries(m), "arguments"@) == encoded_some::<JsonObject>(m.arguments),
            lookup(Self::entries(m), "name"@) == Some(String::encode(m.name)),
            forall|key: Seq<char>|
                key != "arguments"@ && key != "name"@
                    ==> lookup(Self::entries(m), key) is None,
    {
        broadcast use group_lookup;

        lemma_wire_words();
    }
}

impl Wire for CallToolRequestParam {
    open spec fn encode(m: CallToolRequestParamModel) -> JsonTree {
        JsonTree::Object(Self::entries(m))
    }

    open spec fn decode(t: JsonTree) -> Result<CallToolRequestParamModel, SchemaFault> {
        match t {
            JsonTree::Object(e) => {
                let arguments = optional_of::<JsonObject>(e, "arguments"@);
                let name = required_of::<String>(e, "name"@, "CallToolRequestParam"@);
                if arguments is Err {
                    Err(arguments->Err_0)
                } else if name is Err {
                    Err(name->Err_0)
                } else {
                    Ok(CallToolRequestParamModel { arguments: arguments->Ok_0, name: name->Ok_0 })
                }
            },
            _ => Err(SchemaFault::Malformed { of_type: "CallToolRequestParam"@ }),
        }
    }

    open spec fn valid(m: CallToolRequestParamModel) -> bool {
        &&& valid_some::<JsonObject>(m.arguments)
        &&& String::valid(m.name)
    }

    fn serialize(&self) -> (out: JsonValue) {
        let mut fields: Vec<(String, JsonValue)> = Vec::new();
        assert(entries_of(fields@) =~= Seq::empty());
        push_some::<JsonObject>(&mut fields, "arguments", &self.arguments);
        push_field::<String>(&mut fields, "name", &self.name);
        proof {
            lemma_object_view(fields);
        }
        JsonValue::Object(fields)
    }

    fn deserialize(value: &JsonValue) -> (out: Result<CallToolRequestParam, SchemaError>) {
        match value {
            JsonValue::Object(fields) => {
                proof {
                    lemma_object_view(*fields);
                }
                let arguments = optional::<JsonObject>(fields, "arguments")?;
                let name = required::<String>(fields, "name", "CallToolRequestParam")?;
                Ok(CallToolRequestParam { arguments, name })
            },
            _ => Err(SchemaError::Malformed { of_type: String::from_str("CallToolRequestParam") }),
        }
    }

    proof fn round_trip(m: CallToolRequestParamModel) {
        Self::lemma_written(m);
        let e = Self::entries(m);
        lemma_optional::<JsonObject>(e, "arguments"@, m.arguments);
        lemma_required::<String>(e, "name"@, "CallToolRequestParam"@, m.name);
    }

    proof fn decoded_valid(t: JsonTree) {
        match t {
            JsonTree::Object(e) => {
                lemma_optional_valid::<JsonObject>(e, "arguments"@);
                lemma_required_valid::<String>(e, "name"@, "CallToolRequestParam"@);
            },
            _ => {},
        }
    }
}

/// The request to call a tool.
#[derive(Debug, Clone, PartialEq, Default)]
pub struct CallToolRequest {
    /// What the host tells with the request
    pub context: PluginRequestContext,
    /// Which tool to call, and with what
    pub request: CallToolRequestParam,
}

/// The model of [`CallToolRequest`].
pub struct CallToolRequestModel {
    pub context: PluginRequestContextModel,
    pub request: CallToolRequestParamModel,
}

impl DeepView for CallToolRequest {
    type V = CallToolRequestModel;

    open spec fn deep_view(&self) -> CallToolRequestModel {
        CallToolRequestModel { context: self.context.deep_view(), request: self.request.deep_view() }
    }
}

impl CallToolRequest {
    /// The entries of the object that stands for a value, in the order in which
    /// they are written.
    pub open spec fn entries(m: CallToolRequestModel) -> Entries {
        let e = Seq::empty();
        let e = put::<PluginRequestContext>(e, "context"@, m.context);
        let e = put::<CallToolRequestParam>(e, "request"@, m.request);
        e
    }

    /// What is written under each name: a field that must be there is always
    /// written, also where it is empty; a field that may be left out is written
    /// where it is set and has no entry where it is not; and no other name has
    /// an entry.
    pub proof fn lemma_written(m: CallToolRequestModel)
        ensures
            lookup(Self::entries(m), "context"@) == Some(PluginRequestContext::encode(m.context)),
            lookup(Self::entries(m), "request"@) == Some(CallToolRequestParam::encode(m.request)),
            forall|key: Seq<char>|
                key != "context"@ && key != "request"@
                    ==> lookup(Self::entries(m), key) is None,
    {
        broadcast use group_lookup;

        lemma_wire_words();
    }
}

impl Wire for CallToolRequest {
    open spec fn encode(m: CallToolRequestModel) -> JsonTree {
        JsonTree::Object(Self::entries(m))
    }

    open spec fn decode(t: JsonTree) -> Result<CallToolRequestModel, SchemaFault> {
        match t {
            JsonTree::Object(e) => {
                let context = required_of::<PluginRequestContext>(e, "context"@, "CallToolRequest"@);
                let request = required_of::<CallToolRequestParam>(e, "request"@, "CallToolRequest"@);
                if context is Err {
                    Err(context->Err_0)
                } else if request is Err {
                    Err(request->Err_0)
                } else {
                    Ok(CallToolRequestModel { context: context->Ok_0, request: request->Ok_0 })
                }
            },
            _ => Err(SchemaFault::Malformed { of_type: "CallToolRequest"@ }),
        }
    }

    open spec fn valid(m: CallToolRequestModel) -> bool {
        &&& PluginRequestContext::valid(m.context)
        &&& CallToolRequestParam::valid(m.request)
    }

    fn serialize(&self) -> (out: JsonValue) {
        let mut fields: Vec<(String, JsonValue)> = Vec::new();
        assert(entries_of(fields@) =~= Seq::empty());
        push_field::<PluginRequestContext>(&mut fields, "context", &self.context);
        push_field::<CallToolRequestParam>(&mut fields, "request", &self.request);
        proof {
            lemma_object_view(fields);
        }
        JsonValue::Object(fields)
    }

    fn deserialize(value: &JsonValue) -> (out: Result<CallToolRequest, SchemaError>) {
        match value {
            JsonValue::Object(fields) => {
                proof {
                    lemma_object_view(*fields);
                }
                let context = required::<PluginRequestContext>(fields, "context", "CallToolRequest")?;
                let request = required::<CallToolRequestParam>(fields, "request", "CallToolRequest")?;
                Ok(CallToolRequest { context, request })
            },
            _ => Err(SchemaError::Malformed { of_type: String::from_str("CallToolRequest") }),
        }
    }

    proof fn round_trip(m: CallToolRequestModel) {
        Self::lemma_written(m);
        let e = Self::entries(m);
        lemma_required::<PluginRequestContext>(e, "context"@, "CallToolRequest"@, m.context);
        lemma_required::<CallToolRequestParam>(e, "request"@, "CallToolRequest"@, m.request);
    }

    proof fn decoded_valid(t: JsonTree) {
        match t {
            JsonTree::Object(e) => {
                lemma_required_valid::<PluginRequestContext>(e, "context"@, "CallToolRequest"@);
                lemma_required_valid::<CallToolRequestParam>(e, "request"@, "CallToolRequest"@);
            },
            _ => {},
        }
    }
}

/// What a tool call gave.
#[derive(Debug, Clone, PartialEq, Default)]
pub struct CallToolResult {
    /// Optional additional metadata about the tool call result
    pub meta: Option<Meta>,
    /// Array of TextContent, ImageContent, AudioContent, EmbeddedResource, or
    /// ResourceLinks representing the result
    pub content: Vec<ContentBlock>,
    /// Whether the tool call ended in an error. If not set, defaults to false.
    pub is_error: Option<bool>,
    /// Optional structured JSON result from the tool
    pub structured_content: Option<JsonObject>,
}

/// The model of [`CallToolResult`].
pub struct CallToolResultModel {
    pub meta: Option<Seq<(Seq<char>, JsonTree)>>,
    pub content: Seq<ContentBlockModel>,
    pub is_error: Option<bool>,
    pub structured_content: Option<Seq<(Seq<char>, JsonTree)>>,
}

impl DeepView for CallToolResult {
    type V = CallToolResultModel;

    open spec fn deep_view(&self) -> CallToolResultModel {
        CallToolResultModel {
            meta: self.meta.deep_view(),
            content: self.content.deep_view(),
            is_error: self.is_error.deep_view(),
            structured_content: self.structured_content.deep_view(),
        }
    }
}

impl CallToolResult {
    /// The entries of the object that stands for a value, in the order in which
    /// they are written.
    pub open spec fn entries(m: CallToolResultModel) -> Entries {
        let e = Seq::empty();
        let e = put_some::<Meta>(e, "_meta"@, m.meta);
        let e = put::<Vec<ContentBlock>>(e, "content"@, m.content);
        let e = put_some::<bool>(e, "isError"@, m.is_error);
        let e = put_some::<JsonObject>(e, "structuredContent"@, m.structured_content);
        e
    }

    /// What is written under each name: a field that must be there is always
    /// written, also where it is empty; a field that may be left out is written
    /// where it is set and has no entry where it is not; and no other name has
    /// an entry.
    pub proof fn lemma_written(m: CallToolResultModel)
        ensures
            lookup(Self::entries(m), "_meta"@) == encoded_some::<Meta>(m.meta),
            lookup(Self::entries(m), "content"@) == Some(<Vec<ContentBlock>>::encode(m.content)),
            lookup(Self::entries(m), "isError"@) == encoded_some::<bool>(m.is_error),
            lookup(Self::entries(m), "structuredContent"@) == encoded_some::<JsonObject>(m.structured_content),
            forall|key: Seq<char>|
                key != "_meta"@ && key != "content"@ && key != "isError"@ &&
                    key != "structuredContent"@
                    ==> lookup(Self::entries(m), key) is None,
    {
        broadcast use group_lookup;

        lemma_wire_words();
    }
}

impl Wire for CallToolResult {
    open spec fn encode(m: CallToolResultModel) -> JsonTree {
        JsonTree::Object(Self::entries(m))
    }

    open spec fn decode(t: JsonTree) -> Result<CallToolResultModel, SchemaFault> {
        match t {
            JsonTree::Object(e) => {
                let meta = optional_of::<Meta>(e, "_meta"@);
                let content = required_of::<Vec<ContentBlock>>(e, "content"@, "CallToolResult"@);
                let is_error = optional_of::<bool>(e, "isError"@);
                let structured_content = optional_of::<JsonObject>(e, "structuredContent"@);
                if meta is Err {
                    Err(meta->Err_0)
                } else if content is Err {
                    Err(content->Err_0)
                } else if is_error is Err {
                    Err(is_error->Err_0)
                } else if structured_content is Err {
                    Err(structured_content->Err_0)
                } else {
                    Ok(
                        CallToolResultModel {
                            meta: meta->Ok_0,
                            content: content->Ok_0,
                            is_error: is_error->Ok_0,
                            structured_content: structured_content->Ok_0,
                        },
                    )
                }
            },
            _ => Err(SchemaFault::Malformed { of_type: "CallToolResult"@ }),
        }
    }

    open spec fn valid(m: CallToolResultModel) -> bool {
        &&& valid_some::<Meta>(m.meta)
        &&& <Vec<ContentBlock>>::valid(m.content)
        &&& valid_some::<bool>(m.is_error)
        &&& valid_some::<JsonObject>(m.structured_content)
    }

    fn serialize(&self) -> (out: JsonValue) {
        let mut fields: Vec<(String, JsonValue)> = Vec::new();
        assert(entries_of(fields@) =~= Seq::empty());
        push_some::<Meta>(&mut fields, "_meta", &self.meta);
        push_field::<Vec<ContentBlock>>(&mut fields, "content", &self.content);
        push_some::<bool>(&mut fields, "isError", &self.is_error);
        push_some::<JsonObject>(&mut fields, "structuredContent", &self.structured_content);
        proof {
            lemma_object_view(fields);
        }
        JsonValue::Object(fields)
    }

    fn deserialize(value: &JsonValue) -> (out: Result<CallToolResult, SchemaError>) {
        match value {
            JsonValue::Object(fields) => {
                proof {
                    lemma_object_view(*fields);
                }
                let meta = optional::<Meta>(fields, "_meta")?;
                let content = required::<Vec<ContentBlock>>(fields, "content", "CallToolResult")?;
                let is_error = optional::<bool>(fields, "isError")?;
                let structured_content = optional::<JsonObject>(fields, "structuredContent")?;
                Ok(CallToolResult { meta, content, is_error, structured_content })
            },
            _ => Err(SchemaError::Malformed { of_type: String::from_str("CallToolResult") }),
        }
    }

    proof fn round_trip(m: CallToolResultModel) {
        Self::lemma_written(m);
        let e = Self::entries(m);
        lemma_optional::<Meta>(e, "_meta"@, m.meta);
        lemma_required::<Vec<ContentBlock>>(e, "content"@, "CallToolResult"@, m.content);
        lemma_optional::<bool>(e, "isError"@, m.is_error);
        lemma_optional::<JsonObject>(e, "structuredContent"@, m.structured_content);
    }

    proof fn decoded_valid(t: JsonTree) {
        match t {
            JsonTree::Object(e) => {
                lemma_optional_valid::<Meta>(e, "_meta"@);
                lemma_required_valid::<Vec<ContentBlock>>(e, "content"@, "CallToolResult"@);
                lemma_optional_valid::<bool>(e, "isError"@);
                lemma_optional_valid::<JsonObject>(e, "structuredContent"@);
            },
            _ => {},
        }
    }
}

/// The request to list the tools.
#[derive(Debug, Clone, PartialEq, Default)]
pub struct ListToolsRequest {
    /// What the host tells with the request
    pub context: PluginRequestContext,
}

/// The model of [`ListToolsRequest`].
pub struct ListToolsRequestModel {
    pub context: PluginRequestContextModel,
}

impl DeepView for ListToolsRequest {
    type V = ListToolsRequestModel;

    open spec fn deep_view(&self) -> ListToolsRequestModel {
        ListToolsRequestModel { context: self.context.deep_view() }
    }
}

impl ListToolsRequest {
    /// The entries of the object that stands for a value, in the order in which
    /// they are written.
    pub open spec fn entries(m: ListToolsRequestModel) -> Entries {
        let e = Seq::empty();
        let e = put::<PluginRequestContext>(e, "context"@, m.context);
        e
    }

    /// What is written under each name: a field that must be there is always
    /// written, also where it is empty; a field that may be left out is written
    /// where it is set and has no entry where it is not; and no other name has
    /// an entry.
    pub proof fn lemma_written(m: ListToolsRequestModel)
        ensures
            lookup(Self::entries(m), "context"@) == Some(PluginRequestContext::encode(m.context)),
            forall|key: Seq<char>| key != "context"@ ==> lookup(Self::entries(m), key) is None,
    {
        broadcast use group_lookup;

        lemma_wire_words();
    }
}

impl Wire for ListToolsRequest {
    open spec fn encode(m: ListToolsRequestModel) -> JsonTree {
        JsonTree::Object(Self::entries(m))
    }

    open spec fn decode(t: JsonTree) -> Result<ListToolsRequestModel, SchemaFault> {
        match t {
            JsonTree::Object(e) => {
                let context = required_of::<PluginRequestContext>(e, "context"@, "ListToolsRequest"@);
                if context is Err {
                    Err(context->Err_0)
                } else {
                    Ok(ListToolsRequestModel { context: context->Ok_0 })
                }
            },
            _ => Err(SchemaFault::Malformed { of_type: "ListToolsRequest"@ }),
        }
    }

    open spec fn valid(m: ListToolsRequestModel) -> bool {
        &&& PluginRequestContext::valid(m.context)
    }

    fn serialize(&self) -> (out: JsonValue) {
        let mut fields: Vec<(String, JsonValue)> = Vec::new();
        assert(entries_of(fields@) =~= Seq::empty());
        push_field::<PluginRequestContext>(&mut fields, "context", &self.context);
        proof {
            lemma_object_view(fields);
        }
        JsonValue::Object(fields)
    }

    fn deserialize(value: &JsonValue) -> (out: Result<ListToolsRequest, SchemaError>) {
        match value {
            JsonValue::Object(fields) => {
                proof {
                    lemma_object_view(*fields);
                }
                let context = required::<PluginRequestContext>(fields, "context", "ListToolsRequest")?;
                Ok(ListToolsRequest { context })
            },
            _ => Err(SchemaError::Malformed { of_type: String::from_str("ListToolsRequest") }),
        }
    }

    proof fn round_trip(m: ListToolsRequestModel) {
        Self::lemma_written(m);
        let e = Self::entries(m);
        lemma_required::<PluginRequestContext>(e, "context"@, "ListToolsRequest"@, m.context);
    }

    proof fn decoded_valid(t: JsonTree) {
        match t {
            JsonTree::Object(e) => {
                lemma_required_valid::<PluginRequestContext>(e, "context"@, "ListToolsRequest"@);
            },
            _ => {},
        }
    }
}

/// The tools that a plugin offers.
#[derive(Debug, Clone, PartialEq, Default)]
pub struct ListToolsResult {
    /// Array of available tools
    pub tools: Vec<Tool>,
}

/// The model of [`ListToolsResult`].
pub struct ListToolsResultModel {
    pub tools: Seq<ToolModel>,
}

impl DeepView for ListToolsResult {
    type V = ListToolsResultModel;

    open spec fn deep_view(&self) -> ListToolsResultModel {
        ListToolsResultModel { tools: self.tools.deep_view() }
    }
}

impl ListToolsResult {
    /// The entries of the object that stands for a value, in the order in which
    /// they are written.
    pub open spec fn entries(m: ListToolsResultModel) -> Entries {
        let e = Seq::empty();
        let e = put::<Vec<Tool>>(e, "tools"@, m.tools);
        e
    }

    /// What is written under each name: a field that must be there is always
    /// written, also where it is empty; a field that may be left out is written
    /// where it is set and has no entry where it is not; and no other name has
    /// an entry.
    pub proof fn lemma_written(m: ListToolsResultModel)
        ensures
            lookup(Self::entries(m), "tools"@) == Some(<Vec<Tool>>::encode(m.tools)),
            forall|key: Seq<char>| key != "tools"@ ==> lookup(Self::entries(m), key) is None,
    {
        broadcast use group_lookup;

        lemma_wire_words();
    }
}

impl Wire for ListToolsResult {
    open spec fn encode(m: ListToolsResultModel) -> JsonTree {
        JsonTree::Object(Self::entries(m))
    }

    open spec fn decode(t: JsonTree) -> Result<ListToolsResultModel, SchemaFault> {
        match t {
            JsonTree::Object(e) => {
                let tools = required_of::<Vec<Tool>>(e, "tools"@, "ListToolsResult"@);
                if tools is Err {
                    Err(tools->Err_0)
                } else {
                    Ok(ListToolsResultModel { tools: tools->Ok_0 })
                }
            },
            _ => Err(SchemaFault::Malformed { of_type: "ListToolsResult"@ }),
        }
    }

    open spec fn valid(m: ListToolsResultModel) -> bool {
        &&& <Vec<Tool>>::valid(m.tools)
    }

    fn serialize(&self) -> (out: JsonValue) {
        let mut fields: Vec<(String, JsonValue)> = Vec::new();
        assert(entries_of(fields@) =~= Seq::empty());
        push_field::<Vec<Tool>>(&mut fields, "tools", &self.tools);
        proof {
            lemma_object_view(fields);
        }
        JsonValue::Object(fields)
    }

    fn deserialize(value: &JsonValue) -> (out: Result<ListToolsResult, SchemaError>) {
        match value {
            JsonValue::Object(fields) => {
                proof {
                    lemma_object_view(*fields);
                }
                let tools = required::<Vec<Tool>>(fields, "tools", "ListToolsResult")?;
                Ok(ListToolsResult { tools })
            },
            _ => Err(SchemaError::Malformed { of_type: String::from_str("ListToolsResult") }),
        }
    }

    proof fn round_trip(m: ListToolsResultModel) {
        Self::lemma_written(m);
        let e = Self::entries(m);
        lemma_required::<Vec<Tool>>(e, "tools"@, "ListToolsResult"@, m.tools);
    }

    proof fn decoded_valid(t: JsonTree) {
        match t {
            JsonTree::Object(e) => {
                lemma_required_valid::<Vec<Tool>>(e, "tools"@, "ListToolsResult"@);
            },
            _ => {},
        }
    }
}

} // verus!
