//! Prompts, and the requests to list and to get them.

use vstd::prelude::*;
use crate::content::{ContentBlock, ContentBlockModel};
use crate::context::{PluginRequestContext, PluginRequestContextModel};
use crate::dictionary::Dictionary;
use crate::enums::Role;
use crate::error::{SchemaError, SchemaFault};
use crate::json::{Entries, JsonTree, JsonValue, entries_of, lemma_object_view};
use crate::wire::{
    Wire,
    defaulted,
    defaulted_of,
    encoded_some,
    group_lookup,
    lemma_defaulted,
    lemma_defaulted_valid,
    lemma_optional,
    lemma_optional_valid,
    lemma_required,
    lemma_required_valid,
    lookup,
    optional,
    optional_of,
    push_field,
    push_some,
    put,
    put_some,
    required,
    required_of,
    valid_some,
};
use crate::words::lemma_wire_words;

verus! {

/// An argument that a prompt takes.
#[derive(Debug, Clone, PartialEq, Default)]
pub struct PromptArgument {
    /// Description of the argument
    pub description: Option<String>,
    /// Name of the argument
    pub name: String,
    /// Whether this argument is required
    pub required: Option<bool>,
    /// Human-readable title
    pub title: Option<String>,
}

/// The model of [`PromptArgument`].
pub struct PromptArgumentModel {
    pub description: Option<Seq<char>>,
    pub name: Seq<char>,
    pub required: Option<bool>,
    pub title: Option<Seq<char>>,
}

impl DeepView for PromptArgument {
    type V = PromptArgumentModel;

    open spec fn deep_view(&self) -> PromptArgumentModel {
        PromptArgumentModel {
            description: self.description.deep_view(),
            name: self.name.deep_view(),
            required: self.required.deep_view(),
            title: self.title.deep_view(),
        }
    }
}

impl PromptArgument {
    /// The entries of the object that stands for a value, in the order in which
    /// they are written.
    pub open spec fn entries(m: PromptArgumentModel) -> Entries {
        let e = Seq::empty();
        let e = put_some::<String>(e, "description"@, m.description);
        let e = put::<String>(e, "name"@, m.name);
        let e = put_some::<bool>(e, "required"@, m.required);
        let e = put_some::<String>(e, "title"@, m.title);
        e
    }

    /// What is written under each name: a field that must be there is always
    /// written, also where it is empty; a field that may be left out is written
    /// where it is set and has no entry where it is not; and no other name has
    /// an entry.
    pub proof fn lemma_written(m: PromptArgumentModel)
        ensures
            lookup(Self::entries(m), "description"@) == encoded_some::<String>(m.description),
            lookup(Self::entries(m), "name"@) == Some(String::encode(m.name)),
            lookup(Self::entries(m), "required"@) == encoded_some::<bool>(m.required),
            lookup(Self::entries(m), "title"@) == encoded_some::<String>(m.title),
            forall|key: Seq<char>|
                key != "description"@ && key != "name"@ && key != "required"@ &&
                    key != "title"@
                    ==> lookup(Self::entries(m), key) is None,
    {
        broadcast use group_lookup;

        lemma_wire_words();
    }
}

impl Wire for PromptArgument {
    open spec fn encode(m: PromptArgumentModel) -> JsonTree {
        JsonTree::Object(Self::entries(m))
    }

    open spec fn decode(t: JsonTree) -> Result<PromptArgumentModel, SchemaFault> {
        match t {
            JsonTree::Object(e) => {
                let description = optional_of::<String>(e, "description"@);
                let name = required_of::<String>(e, "name"@, "PromptArgument"@);
                let required = optional_of::<bool>(e, "required"@);
                let title = optional_of::<String>(e, "title"@);
                if description is Err {
                    Err(description->Err_0)
                } else if name is Err {
                    Err(name->Err_0)
                } else if required is Err {
                    Err(required->Err_0)
                } else if title is Err {
                    Err(title->Err_0)
                } else {
                    Ok(
                        PromptArgumentModel {
                            description: description->Ok_0,
                            name: name->Ok_0,
                            required: required->Ok_0,
                            title: title->Ok_0,
                        },
                    )
                }
            },
            _ => Err(SchemaFault::Malformed { of_type: "PromptArgument"@ }),
        }
    }

    open spec fn valid(m: PromptArgumentModel) -> bool {
        &&& valid_some::<String>(m.description)
        &&& String::valid(m.name)
        &&& valid_some::<bool>(m.required)
        &&& valid_some::<String>(m.title)
    }

    fn serialize(&self) -> (out: JsonValue) {
        let mut fields: Vec<(String, JsonValue)> = Vec::new();
        assert(entries_of(fields@) =~= Seq::empty());
        push_some::<String>(&mut fields, "description", &self.description);
        push_field::<String>(&mut fields, "name", &self.name);
        push_some::<bool>(&mut fields, "required", &self.required);
        push_some::<String>(&mut fields, "title", &self.title);
        proof {
            lemma_object_view(fields);
        }
        JsonValue::Object(fields)
    }

    fn deserialize(value: &JsonValue) -> (out: Result<PromptArgument, SchemaError>) {
        match value {
            JsonValue::Object(fields) => {
                proof {
                    lemma_object_view(*fields);
                }
                let description = optional::<String>(fields, "description")?;
                let name = required::<String>(fields, "name", "PromptArgument")?;
                let required = optional::<bool>(fields, "required")?;
                let title = optional::<String>(fields, "title")?;
                Ok(PromptArgument { description, name, required, title })
            },
            _ => Err(SchemaError::Malformed { of_type: String::from_str("PromptArgument") }),
        }
    }

    proof fn round_trip(m: PromptArgumentModel) {
        Self::lemma_written(m);
        let e = Self::entries(m);
        lemma_optional::<String>(e, "description"@, m.description);
        lemma_required::<String>(e, "name"@, "PromptArgument"@, m.name);
        lemma_optional::<bool>(e, "required"@, m.required);
        lemma_optional::<String>(e, "title"@, m.title);
    }

    proof fn decoded_valid(t: JsonTree) {
        match t {
            JsonTree::Object(e) => {
                lemma_optional_valid::<String>(e, "description"@);
                lemma_required_valid::<String>(e, "name"@, "PromptArgument"@);
                lemma_optional_valid::<bool>(e, "required"@);
                lemma_optional_valid::<String>(e, "title"@);
            },
            _ => {},
        }
    }
}

/// A prompt that a plugin offers.
#[derive(Debug, Clone, PartialEq, Default)]
pub struct Prompt {
    /// Optional prompt arguments
    pub arguments: Option<Vec<PromptArgument>>,
    /// Description of what the prompt does
    pub description: Option<String>,
    /// Unique name of the prompt
    pub name: String,
    /// Human-readable title
    pub title: Option<String>,
}

/// The model of [`Prompt`].
pub struct PromptModel {
    pub arguments: Option<Seq<PromptArgumentModel>>,
    pub description: Option<Seq<char>>,
    pub name: Seq<char>,
    pub title: Option<Seq<char>>,
}

impl DeepView for Prompt {
    type V = PromptModel;

    open spec fn deep_view(&self) -> PromptModel {
        PromptModel {
            arguments: self.arguments.deep_view(),
            description: self.description.deep_view(),
            name: self.name.deep_view(),
            title: self.title.deep_view(),
        }
    }
}

impl Prompt {
    /// The entries of the object that stands for a value, in the order in which
    /// they are written.
    pub open spec fn entries(m: PromptModel) -> Entries {
        let e = Seq::empty();
        let e = put_some::<Vec<PromptArgument>>(e, "arguments"@, m.arguments);
        let e = put_some::<String>(e, "description"@, m.description);
        let e = put::<String>(e, "name"@, m.name);
        let e = put_some::<String>(e, "title"@, m.title);
        e
    }

    /// What is written under each name: a field that must be there is always
    /// written, also where it is empty; a field that may be left out is written
    /// where it is set and has no entry where it is not; and no other name has
    /// an entry.
    pub proof fn lemma_written(m: PromptModel)
        ensures
            lookup(Self::entries(m), "arguments"@) == encoded_some::<Vec<PromptArgument>>(m.arguments),
            lookup(Self::entries(m), "description"@) == encoded_some::<String>(m.description),
            lookup(Self::entries(m), "name"@) == Some(String::encode(m.name)),
            lookup(Self::entries(m), "title"@) == encoded_some::<String>(m.title),
            forall|key: Seq<char>|
                key != "arguments"@ && key != "description"@ && key != "name"@ &&
                    key != "title"@
                    ==> lookup(Self::entries(m), key) is None,
    {
        broadcast use group_lookup;

        lemma_wire_words();
    }
}

impl Wire for Prompt {
    open spec fn encode(m: PromptModel) -> JsonTree {
        JsonTree::Object(Self::entries(m))
    }

    open spec fn decode(t: JsonTree) -> Result<PromptModel, SchemaFault> {
        match t {
            JsonTree::Object(e) => {
                let arguments = optional_of::<Vec<PromptArgument>>(e, "arguments"@);
                let description = optional_of::<String>(e, "description"@);
                let name = required_of::<String>(e, "name"@, "Prompt"@);
                let title = optional_of::<String>(e, "title"@);
                if arguments is Err {
                    Err(arguments->Err_0)
                } else if description is Err {
                    Err(description->Err_0)
                } else if name is Err {
                    Err(name->Err_0)
                } else if title is Err {
                    Err(title->Err_0)
                } else {
                    Ok(
                        PromptModel {
                            arguments: arguments->Ok_0,
                            description: description->Ok_0,
                            name: name->Ok_0,
                            title: title->Ok_0,
                        },
                    )
                }
            },
            _ => Err(SchemaFault::Malformed { of_type: "Prompt"@ }),
        }
    }

    open spec fn valid(m: PromptModel) -> bool {
        &&& valid_some::<Vec<PromptArgument>>(m.arguments)
        &&& valid_some::<String>(m.description)
        &&& String::valid(m.name)
        &&& valid_some::<String>(m.title)
    }

    fn serialize(&self) -> (out: JsonValue) {
        let mut fields: Vec<(String, JsonValue)> = Vec::new();
        assert(entries_of(fields@) =~= Seq::empty());
        push_some::<Vec<PromptArgument>>(&mut fields, "arguments", &self.arguments);
        push_some::<String>(&mut fields, "description", &self.description);
        push_field::<String>(&mut fields, "name", &self.name);
        push_some::<String>(&mut fields, "title", &self.title);
        proof {
            lemma_object_view(fields);
        }
        JsonValue::Object(fields)
    }

    fn deserialize(value: &JsonValue) -> (out: Result<Prompt, SchemaError>) {
        match value {
            JsonValue::Object(fields) => {
                proof {
                    lemma_object_view(*fields);
                }
                let arguments = optional::<Vec<PromptArgument>>(fields, "arguments")?;
                let description = optional::<String>(fields, "description")?;
                let name = required::<String>(fields, "name", "Prompt")?;
                let title = optional::<String>(fields, "title")?;
                Ok(Prompt { arguments, description, name, title })
            },
            _ => Err(SchemaError::Malformed { of_type: String::from_str("Prompt") }),
        }
    }

    proof fn round_trip(m: PromptModel) {
        Self::lemma_written(m);
        let e = Self::entries(m);
        lemma_optional::<Vec<PromptArgument>>(e, "arguments"@, m.arguments);
        lemma_optional::<String>(e, "description"@, m.description);
        lemma_required::<String>(e, "name"@, "Prompt"@, m.name);
        lemma_optional::<String>(e, "title"@, m.title);
    }

    proof fn decoded_valid(t: JsonTree) {
        match t {
            JsonTree::Object(e) => {
                lemma_optional_valid::<Vec<PromptArgument>>(e, "arguments"@);
                lemma_optional_valid::<String>(e, "description"@);
                lemma_required_valid::<String>(e, "name"@, "Prompt"@);
                lemma_optional_valid::<String>(e, "title"@);
            },
            _ => {},
        }
    }
}

/// One message of a prompt.
#[derive(Debug, Clone, PartialEq, Default)]
pub struct PromptMessage {
    /// One of TextContent, ImageContent, AudioContent, EmbeddedResource, or
    /// ResourceLink
    pub content: ContentBlock,
    /// Who speaks
    pub role: Role,
}

/// The model of [`PromptMessage`].
pub struct PromptMessageModel {
    pub content: ContentBlockModel,
    pub role: Role,
}

impl DeepView for PromptMessage {
    type V = PromptMessageModel;

    open spec fn deep_view(&self) -> PromptMessageModel {
        PromptMessageModel { content: self.content.deep_view(), role: self.role.deep_view() }
    }
}

impl PromptMessage {
    /// The entries of the object that stands for a value, in the order in which
    /// they are written.
    pub open spec fn entries(m: PromptMessageModel) -> Entries {
        let e = Seq::empty();
        let e = put::<ContentBlock>(e, "content"@, m.content);
        let e = put::<Role>(e, "role"@, m.role);
        e
    }

    /// What is written under each name: a field that must be there is always
    /// written, also where it is empty; a field that may be left out is written
    /// where it is set and has no entry where it is not; and no other name has
    /// an entry.
    pub proof fn lemma_written(m: PromptMessageModel)
        ensures
            lookup(Self::entries(m), "content"@) == Some(ContentBlock::encode(m.content)),
            lookup(Self::entries(m), "role"@) == Some(Role::encode(m.role)),
            forall|key: Seq<char>|
                key != "content"@ && key != "role"@
                    ==> lookup(Self::entries(m), key) is None,
    {
        broadcast use group_lookup;

        lemma_wire_words();
    }
}

impl Wire for PromptMessage {
    open spec fn encode(m: PromptMessageModel) -> JsonTree {
        JsonTree::Object(Self::entries(m))
    }

    open spec fn decode(t: JsonTree) -> Result<PromptMessageModel, SchemaFault> {
        match t {
            JsonTree::Object(e) => {
                let content = required_of::<ContentBlock>(e, "content"@, "PromptMessage"@);
                let role = defaulted_of::<Role>(e, "role"@, Role::Assistant);
                if content is Err {
                    Err(content->Err_0)
                } else if role is Err {
                    Err(role->Err_0)
                } else {
                    Ok(PromptMessageModel { content: content->Ok_0, role: role->Ok_0 })
                }
            },
            _ => Err(SchemaFault::Malformed { of_type: "PromptMessage"@ }),
        }
    }

    open spec fn valid(m: PromptMessageModel) -> bool {
        &&& ContentBlock::valid(m.content)
        &&& Role::valid(m.role)
    }

    fn serialize(&self) -> (out: JsonValue) {
        let mut fields: Vec<(String, JsonValue)> = Vec::new();
        assert(entries_of(fields@) =~= Seq::empty());
        push_field::<ContentBlock>(&mut fields, "content", &self.content);
        push_field::<Role>(&mut fields, "role", &self.role);
        proof {
            lemma_object_view(fields);
        }
        JsonValue::Object(fields)
    }

    fn deserialize(value: &JsonValue) -> (out: Result<PromptMessage, SchemaError>) {
        match value {
            JsonValue::Object(fields) => {
                proof {
                    lemma_object_view(*fields);
                }
                let content = required::<ContentBlock>(fields, "content", "PromptMessage")?;
                let role = defaulted::<Role>(fields, "role", Role::Assistant)?;
                Ok(PromptMessage { content, role })
            },
            _ => Err(SchemaError::Malformed { of_type: String::from_str("PromptMessage") }),
        }
    }

    proof fn round_trip(m: PromptMessageModel) {
        Self::lemma_written(m);
        let e = Self::entries(m);
        lemma_required::<ContentBlock>(e, "content"@, "PromptMessage"@, m.content);
        lemma_defaulted::<Role>(e, "role"@, Role::Assistant, m.role);
    }

    proof fn decoded_valid(t: JsonTree) {
        match t {
            JsonTree::Object(e) => {
                lemma_required_valid::<ContentBlock>(e, "content"@, "PromptMessage"@);
                lemma_defaulted_valid::<Role>(e, "role"@, Role::Assistant);
            },
            _ => {},
        }
    }
}

/// Which prompt to get, and with what arguments.
#[derive(Debug, Clone, PartialEq, Default)]
pub struct GetPromptRequestParam {
    /// Arguments for templating the prompt
    pub arguments: Option<Dictionary<String>>,
    /// Name of the prompt to retrieve
    pub name: String,
}

/// The model of [`GetPromptRequestParam`].
pub struct GetPromptRequestParamModel {
    pub arguments: Option<Seq<(Seq<char>, Seq<char>)>>,
    pub name: Seq<char>,
}

impl DeepView for GetPromptRequestParam {
    type V = GetPromptRequestParamModel;

    open spec fn deep_view(&self) -> GetPromptRequestParamModel {
        GetPromptRequestParamModel { arguments: self.arguments.deep_view(), name: self.name.deep_view() }
    }
}

impl GetPromptRequestParam {
    /// The entries of the object that stands for a value, in the order in which
    /// they are written.
    pub open spec fn entries(m: GetPromptRequestParamModel) -> Entries {
        let e = Seq::empty();
        let e = put_some::<Dictionary<String>>(e, "arguments"@, m.arguments);
        let e = put::<String>(e, "name"@, m.name);
        e
    }

    /// What is written under each name: a field that must be there is always
    /// written, also where it is empty; a field that may be left out is written
    /// where it is set and has no entry where it is not; and no other name has
    /// an entry.
    pub proof fn lemma_written(m: GetPromptRequestParamModel)
        ensures
            lookup(Self::entries(m), "arguments"@) == encoded_some::<Dictionary<String>>(m.arguments),
            lookup(Self::entries(m), "name"@) == Some(String::encode(m.name)),
            forall|key: Seq<char>|
                key != "arguments"@ && key != "name"@
                    ==> lookup(Self::entries(m), key) is None,
    {
        broadcast use group_lookup;

        lemma_wire_words();
    }
}

impl Wire for GetPromptRequestParam {
    open spec fn encode(m: GetPromptRequestParamModel) -> JsonTree {
        JsonTree::Object(Self::entries(m))
    }

    open spec fn decode(t: JsonTree) -> Result<GetPromptRequestParamModel, SchemaFault> {
        match t {
            JsonTree::Object(e) => {
                let arguments = optional_of::<Dictionary<String>>(e, "arguments"@);
                let name = required_of::<String>(e, "name"@, "GetPromptRequestParam"@);
                if arguments is Err {
                    Err(arguments->Err_0)
                } else if name is Err {
                    Err(name->Err_0)
                } else {
                    Ok(GetPromptRequestParamModel { arguments: arguments->Ok_0, name: name->Ok_0 })
                }
            },
            _ => Err(SchemaFault::Malformed { of_type: "GetPromptRequestParam"@ }),
        }
    }

    open spec fn valid(m: GetPromptRequestParamModel) -> bool {
        &&& valid_some::<Dictionary<String>>(m.arguments)
        &&& String::valid(m.name)
    }

    fn serialize(&self) -> (out: JsonValue) {
        let mut fields: Vec<(String, JsonValue)> = Vec::new();
        assert(entries_of(fields@) =~= Seq::empty());
        push_some::<Dictionary<String>>(&mut fields, "arguments", &self.arguments);
        push_field::<String>(&mut fields, "name", &self.name);
        proof {
            lemma_object_view(fields);
        }
        JsonValue::Object(fields)
    }

    fn deserialize(value: &JsonValue) -> (out: Result<GetPromptRequestParam, SchemaError>) {
        match value {
            JsonValue::Object(fields) => {
                proof {
                    lemma_object_view(*fields);
                }
                let arguments = optional::<Dictionary<String>>(fields, "arguments")?;
                let name = required::<String>(fields, "name", "GetPromptRequestParam")?;
                Ok(GetPromptRequestParam { arguments, name })
            },
            _ => Err(SchemaError::Malformed { of_type: String::from_str("GetPromptRequestParam") }),
        }
    }

    proof fn round_trip(m: GetPromptRequestParamModel) {
        Self::lemma_written(m);
        let e = Self::entries(m);
        lemma_optional::<Dictionary<String>>(e, "arguments"@, m.arguments);
        lemma_required::<String>(e, "name"@, "GetPromptRequestParam"@, m.name);
    }

    proof fn decoded_valid(t: JsonTree) {
        match t {
            JsonTree::Object(e) => {
                lemma_optional_valid::<Dictionary<String>>(e, "arguments"@);
                lemma_required_valid::<String>(e, "name"@, "GetPromptRequestParam"@);
            },
            _ => {},
        }
    }
}

/// The request to get a prompt.
#[derive(Debug, Clone, PartialEq, Default)]
pub struct GetPromptRequest {
    /// What the host tells with the request
    pub context: PluginRequestContext,
    /// Which prompt to get, and with what arguments
    pub request: GetPromptRequestParam,
}

/// The model of [`GetPromptRequest`].
pub struct GetPromptRequestModel {
    pub context: PluginRequestContextModel,
    pub request: GetPromptRequestParamModel,
}

impl DeepView for GetPromptRequest {
    type V = GetPromptRequestModel;

    open spec fn deep_view(&self) -> GetPromptRequestModel {
        GetPromptRequestModel { context: self.context.deep_view(), request: self.request.deep_view() }
    }
}

impl GetPromptRequest {
    /// The entries of the object that stands for a value, in the order in which
    /// they are written.
    pub open spec fn entries(m: GetPromptRequestModel) -> Entries {
        let e = Seq::empty();
        let e = put::<PluginRequestContext>(e, "context"@, m.context);
        let e = put::<GetPromptRequestParam>(e, "request"@, m.request);
        e
    }

    /// What is written under each name: a field that must be there is always
    /// written, also where it is empty; a field that may be left out is written
    /// where it is set and has no entry where it is not; and no other name has
    /// an entry.
    pub proof fn lemma_written(m: GetPromptRequestModel)
        ensures
            lookup(Self::entries(m), "context"@) == Some(PluginRequestContext::encode(m.context)),
            lookup(Self::entries(m), "request"@) == Some(GetPromptRequestParam::encode(m.request)),
            forall|key: Seq<char>|
                key != "context"@ && key != "request"@
                    ==> lookup(Self::entries(m), key) is None,
    {
        broadcast use group_lookup;

        lemma_wire_words();
    }
}

impl Wire for GetPromptRequest {
    open spec fn encode(m: GetPromptRequestModel) -> JsonTree {
        JsonTree::Object(Self::entries(m))
    }

    open spec fn decode(t: JsonTree) -> Result<GetPromptRequestModel, SchemaFault> {
        match t {
            JsonTree::Object(e) => {
                let context = required_of::<PluginRequestContext>(e, "context"@, "GetPromptRequest"@);
                let request = required_of::<GetPromptRequestParam>(e, "request"@, "GetPromptRequest"@);
                if context is Err {
                    Err(context->Err_0)
                } else if request is Err {
                    Err(request->Err_0)
                } else {
                    Ok(GetPromptRequestModel { context: context->Ok_0, request: request->Ok_0 })
                }
            },
            _ => Err(SchemaFault::Malformed { of_type: "GetPromptRequest"@ }),
        }
    }

    open spec fn valid(m: GetPromptRequestModel) -> bool {
        &&& PluginRequestContext::valid(m.context)
        &&& GetPromptRequestParam::valid(m.request)
    }

    fn serialize(&self) -> (out: JsonValue) {
        let mut fields: Vec<(String, JsonValue)> = Vec::new();
        assert(entries_of(fields@) =~= Seq::empty());
        push_field::<PluginRequestContext>(&mut fields, "context", &self.context);
        push_field::<GetPromptRequestParam>(&mut fields, "request", &self.request);
        proof {
            lemma_object_view(fields);
        }
        JsonValue::Object(fields)
    }

    fn deserialize(value: &JsonValue) -> (out: Result<GetPromptRequest, SchemaError>) {
        match value {
            JsonValue::Object(fields) => {
                proof {
                    lemma_object_view(*fields);
                }
                let context = required::<PluginRequestContext>(fields, "context", "GetPromptRequest")?;
                let request = required::<GetPromptRequestParam>(fields, "request", "GetPromptRequest")?;
                Ok(GetPromptRequest { context, request })
            },
            _ => Err(SchemaError::Malformed { of_type: String::from_str("GetPromptRequest") }),
        }
    }

    proof fn round_trip(m: GetPromptRequestModel) {
        Self::lemma_written(m);
        let e = Self::entries(m);
        lemma_required::<PluginRequestContext>(e, "context"@, "GetPromptRequest"@, m.context);
        lemma_required::<GetPromptRequestParam>(e, "request"@, "GetPromptRequest"@, m.request);
    }

    proof fn decoded_valid(t: JsonTree) {
        match t {
            JsonTree::Object(e) => {
                lemma_required_valid::<PluginRequestContext>(e, "context"@, "GetPromptRequest"@);
                lemma_required_valid::<GetPromptRequestParam>(e, "request"@, "GetPromptRequest"@);
            },
            _ => {},
        }
    }
}

/// A prompt with its arguments filled in.
#[derive(Debug, Clone, PartialEq, Default)]
pub struct GetPromptResult {
    /// Optional description of the prompt
    pub description: Option<String>,
    /// Array of prompt messages
    pub messages: Vec<PromptMessage>,
}

/// The model of [`GetPromptResult`].
pub struct GetPromptResultModel {
    pub description: Option<Seq<char>>,
    pub messages: Seq<PromptMessageModel>,
}

impl DeepView for GetPromptResult {
    type V = GetPromptResultModel;

    open spec fn deep_view(&self) -> GetPromptResultModel {
        GetPromptResultModel { description: self.description.deep_view(), messages: self.messages.deep_view() }
    }
}

impl GetPromptResult {
    /// The entries of the object that stands for a value, in the order in which
    /// they are written.
    pub open spec fn entries(m: GetPromptResultModel) -> Entries {
        let e = Seq::empty();
        let e = put_some::<String>(e, "description"@, m.description);
        let e = put::<Vec<PromptMessage>>(e, "messages"@, m.messages);
        e
    }

    /// What is written under each name: a field that must be there is always
    /// written, also where it is empty; a field that may be left out is written
    /// where it is set and has no entry where it is not; and no other name has
    /// an entry.
    pub proof fn lemma_written(m: GetPromptResultModel)
        ensures
            lookup(Self::entries(m), "description"@) == encoded_some::<String>(m.description),
            lookup(Self::entries(m), "messages"@) == Some(<Vec<PromptMessage>>::encode(m.messages)),
            forall|key: Seq<char>|
                key != "description"@ && key != "messages"@
                    ==> lookup(Self::entries(m), key) is None,
    {
        broadcast use group_lookup;

        lemma_wire_words();
    }
}

impl Wire for GetPromptResult {
    open spec fn encode(m: GetPromptResultModel) -> JsonTree {
        JsonTree::Object(Self::entries(m))
    }

    open spec fn decode(t: JsonTree) -> Result<GetPromptResultModel, SchemaFault> {
        match t {
            JsonTree::Object(e) => {
                let description = optional_of::<String>(e, "description"@);
                let messages = required_of::<Vec<PromptMessage>>(e, "messages"@, "GetPromptResult"@);
                if description is Err {
                    Err(description->Err_0)
                } else if messages is Err {
                    Err(messages->Err_0)
                } else {
                    Ok(GetPromptResultModel { description: description->Ok_0, messages: messages->Ok_0 })
                }
            },
            _ => Err(SchemaFault::Malformed { of_type: "GetPromptResult"@ }),
        }
    }

    open spec fn valid(m: GetPromptResultModel) -> bool {
        &&& valid_some::<String>(m.description)
        &&& <Vec<PromptMessage>>::valid(m.messages)
    }

    fn serialize(&self) -> (out: JsonValue) {
        let mut fields: Vec<(String, JsonValue)> = Vec::new();
        assert(entries_of(fields@) =~= Seq::empty());
        push_some::<String>(&mut fields, "description", &self.description);
        push_field::<Vec<PromptMessage>>(&mut fields, "messages", &self.messages);
        proof {
            lemma_object_view(fields);
        }
        JsonValue::Object(fields)
    }

    fn deserialize(value: &JsonValue) -> (out: Result<GetPromptResult, SchemaError>) {
        match value {
            JsonValue::Object(fields) => {
                proof {
                    lemma_object_view(*fields);
                }
                let description = optional::<String>(fields, "description")?;
                let messages = required::<Vec<PromptMessage>>(fields, "messages", "GetPromptResult")?;
                Ok(GetPromptResult { description, messages })
            },
            _ => Err(SchemaError::Malformed { of_type: String::from_str("GetPromptResult") }),
        }
    }

    proof fn round_trip(m: GetPromptResultModel) {
        Self::lemma_written(m);
        let e = Self::entries(m);
        lemma_optional::<String>(e, "description"@, m.description);
        lemma_required::<Vec<PromptMessage>>(e, "messages"@, "GetPromptResult"@, m.messages);
    }

    proof fn decoded_valid(t: JsonTree) {
        match t {
            JsonTree::Object(e) => {
                lemma_optional_valid::<String>(e, "description"@);
                lemma_required_valid::<Vec<PromptMessage>>(e, "messages"@, "GetPromptResult"@);
            },
            _ => {},
        }
    }
}

/// The request to list the prompts.
#[derive(Debug, Clone, PartialEq, Default)]
pub struct ListPromptsRequest {
    /// What the host tells with the request
    pub context: PluginRequestContext,
}

/// The model of [`ListPromptsRequest`].
pub struct ListPromptsRequestModel {
    pub context: PluginRequestContextModel,
}

impl DeepView for ListPromptsRequest {
    type V = ListPromptsRequestModel;

    open spec fn deep_view(&self) -> ListPromptsRequestModel {
        ListPromptsRequestModel { context: self.context.deep_view() }
    }
}

impl ListPromptsRequest {
    /// The entries of the object that stands for a value, in the order in which
    /// they are written.
    pub open spec fn entries(m: ListPromptsRequestModel) -> Entries {
        let e = Seq::empty();
        let e = put::<PluginRequestContext>(e, "context"@, m.context);
        e
    }

    /// What is written under each name: a field that must be there is always
    /// written, also where it is empty; a field that may be left out is written
    /// where it is set and has no entry where it is not; and no other name has
    /// an entry.
    pub proof fn lemma_written(m: ListPromptsRequestModel)
        ensures
            lookup(Self::entries(m), "context"@) == Some(PluginRequestContext::encode(m.context)),
            forall|key: Seq<char>| key != "context"@ ==> lookup(Self::entries(m), key) is None,
    {
        broadcast use group_lookup;

        lemma_wire_words();
    }
}

impl Wire for ListPromptsRequest {
    open spec fn encode(m: ListPromptsRequestModel) -> JsonTree {
        JsonTree::Object(Self::entries(m))
    }

    open spec fn decode(t: JsonTree) -> Result<ListPromptsRequestModel, SchemaFault> {
        match t {
            JsonTree::Object(e) => {
                let context = required_of::<PluginRequestContext>(e, "context"@, "ListPromptsRequest"@);
                if context is Err {
                    Err(context->Err_0)
                } else {
                    Ok(ListPromptsRequestModel { context: context->Ok_0 })
                }
            },
            _ => Err(SchemaFault::Malformed { of_type: "ListPromptsRequest"@ }),
        }
    }

    open spec fn valid(m: ListPromptsRequestModel) -> bool {
        &&& PluginRequestContext::valid(m.context)
    }

    fn serialize(&self) -> (out: JsonValue) {
        let mut fields: Vec<(String, JsonValue)> = Vec::new();
        assert(entries_of(fields@) =~= Seq::empty());
        push_field::<PluginRequestContext>(&mut fields, "context", &self.context);
        proof {
            lemma_object_view(fields);
        }
        JsonValue::Object(fields)
    }

    fn deserialize(value: &JsonValue) -> (out: Result<ListPromptsRequest, SchemaError>) {
        match value {
            JsonValue::Object(fields) => {
                proof {
                    lemma_object_view(*fields);
                }
                let context = required::<PluginRequestContext>(fields, "context", "ListPromptsRequest")?;
                Ok(ListPromptsRequest { context })
            },
            _ => Err(SchemaError::Malformed { of_type: String::from_str("ListPromptsRequest") }),
        }
    }

    proof fn round_trip(m: ListPromptsRequestModel) {
        Self::lemma_written(m);
        let e = Self::entries(m);
        lemma_required::<PluginRequestContext>(e, "context"@, "ListPromptsRequest"@, m.context);
    }

    proof fn decoded_valid(t: JsonTree) {
        match t {
            JsonTree::Object(e) => {
                lemma_required_valid::<PluginRequestContext>(e, "context"@, "ListPromptsRequest"@);
            },
            _ => {},
        }
    }
}

/// The prompts that a plugin offers.
#[derive(Debug, Clone, PartialEq, Default)]
pub struct ListPromptsResult {
    /// Array of available prompts
    pub prompts: Vec<Prompt>,
}

/// The model of [`ListPromptsResult`].
pub struct ListPromptsResultModel {
    pub prompts: Seq<PromptModel>,
}

impl DeepView for ListPromptsResult {
    type V = ListPromptsResultModel;

    open spec fn deep_view(&self) -> ListPromptsResultModel {
        ListPromptsResultModel { prompts: self.prompts.deep_view() }
    }
}

impl ListPromptsResult {
    /// The entries of the object that stands for a value, in the order in which
    /// they are written.
    pub open spec fn entries(m: ListPromptsResultModel) -> Entries {
        let e = Seq::empty();
        let e = put::<Vec<Prompt>>(e, "prompts"@, m.prompts);
        e
    }

    /// What is written under each name: a field that must be there is always
    /// written, also where it is empty; a field that may be left out is written
    /// where it is set and has no entry where it is not; and no other name has
    /// an entry.
    pub proof fn lemma_written(m: ListPromptsResultModel)
        ensures
            lookup(Self::entries(m), "prompts"@) == Some(<Vec<Prompt>>::encode(m.prompts)),
            forall|key: Seq<char>| key != "prompts"@ ==> lookup(Self::entries(m), key) is None,
    {
        broadcast use group_lookup;

        lemma_wire_words();
    }
}

impl Wire for ListPromptsResult {
    open spec fn encode(m: ListPromptsResultModel) -> JsonTree {
        JsonTree::Object(Self::entries(m))
    }

    open spec fn decode(t: JsonTree) -> Result<ListPromptsResultModel, SchemaFault> {
        match t {
            JsonTree::Object(e) => {
                let prompts = required_of::<Vec<Prompt>>(e, "prompts"@, "ListPromptsResult"@);
                if prompts is Err {
                    Err(prompts->Err_0)
                } else {
                    Ok(ListPromptsResultModel { prompts: prompts->Ok_0 })
                }
            },
            _ => Err(SchemaFault::Malformed { of_type: "ListPromptsResult"@ }),
        }
    }

    open spec fn valid(m: ListPromptsResultModel) -> bool {
        &&& <Vec<Prompt>>::valid(m.prompts)
    }

    fn serialize(&self) -> (out: JsonValue) {
        let mut fields: Vec<(String, JsonValue)> = Vec::new();
        assert(entries_of(fields@) =~= Seq::empty());
        push_field::<Vec<Prompt>>(&mut fields, "prompts", &self.prompts);
        proof {
            lemma_object_view(fields);
        }
        JsonValue::Object(fields)
    }

    fn deserialize(value: &JsonValue) -> (out: Result<ListPromptsResult, SchemaError>) {
        match value {
            JsonValue::Object(fields) => {
                proof {
                    lemma_object_view(*fields);
                }
                let prompts = required::<Vec<Prompt>>(fields, "prompts", "ListPromptsResult")?;
                Ok(ListPromptsResult { prompts })
            },
            _ => Err(SchemaError::Malformed { of_type: String::from_str("ListPromptsResult") }),
        }
    }

    proof fn round_trip(m: ListPromptsResultModel) {
        Self::lemma_written(m);
        let e = Self::entries(m);
        lemma_required::<Vec<Prompt>>(e, "prompts"@, "ListPromptsResult"@, m.prompts);
    }

    proof fn decoded_valid(t: JsonTree) {
        match t {
            JsonTree::Object(e) => {
                lemma_required_valid::<Vec<Prompt>>(e, "prompts"@, "ListPromptsResult"@);
            },
            _ => {},
        }
    }
}

} // verus!
