//! Data model and JSON codec of a tool and resource exchange protocol.
//!
//! The protocol runs between a host and its plugins. Every message and every
//! value of it is a type of this crate, and every type implements [`Wire`]:
//! `serialize` gives the JSON value that stands for a value on the wire, and
//! `deserialize` reads one back or says why it is refused. Both are proved
//! against a specification of the wire form, and so is the law that reading
//! what was written gives the value back.
//!
//! The codec works on JSON values ([`JsonValue`]), not on text: a JSON library
//! turns text into values and values into text.
//!
//! The wire form is that of the revision of the protocol in which every member
//! of a discriminated union carries its discriminator. The limits that the
//! protocol only advises (priorities between 0 and 1, at most 100 completion
//! values) are not enforced.

pub mod binary;
pub mod completion;
pub mod content;
pub mod context;
pub mod dictionary;
pub mod elicitation;
pub mod enums;
pub mod error;
pub mod json;
pub mod prompts;
pub mod reference;
pub mod resources;
pub mod sampling;
pub mod schema;
pub mod timestamp;
pub mod tools;
pub mod wire;
pub mod words;

pub use crate::binary::Base64Bytes;
pub use crate::completion::{
    CompleteRequest,
    CompleteRequestParam,
    CompleteRequestParamArgument,
    CompleteRequestParamContext,
    CompleteResult,
    CompleteResultCompletion,
};
pub use crate::content::{
    Annotations,
    AudioContent,
    BlobResourceContents,
    ContentBlock,
    EmbeddedResource,
    Empty,
    ImageContent,
    ResourceContents,
    ResourceLink,
    SamplingMessage,
    TextContent,
    TextResourceContents,
};
pub use crate::context::{
    ElicitationResponseNotificationParam,
    KeyringEntryId,
    LoggingMessageNotificationParam,
    PluginNotificationContext,
    PluginRequestContext,
    PluginRequestId,
    ProgressNotificationParam,
    ResourceUpdatedNotificationParam,
};
pub use crate::dictionary::{Dictionary, JsonObject, Meta};
pub use crate::elicitation::{
    ElicitationRequestParam,
    ElicitationRequestParamWithTimeout,
    ElicitationResult,
    ElicitationResultContentValue,
};
pub use crate::enums::{
    CreateMessageRequestParamIncludeContext,
    ElicitationResultAction,
    LoggingLevel,
    NumberType,
    Role,
    StringSchemaFormat,
    ToolChoiceMode,
};
pub use crate::error::{SchemaError, validate_type_field};
pub use crate::json::{JsonNumber, JsonValue};
pub use crate::prompts::{
    GetPromptRequest,
    GetPromptRequestParam,
    GetPromptResult,
    ListPromptsRequest,
    ListPromptsResult,
    Prompt,
    PromptArgument,
    PromptMessage,
};
pub use crate::reference::{PromptReference, Reference, ResourceTemplateReference};
pub use crate::resources::{
    ListResourceTemplatesRequest,
    ListResourceTemplatesResult,
    ListResourcesRequest,
    ListResourcesResult,
    ListRootsResult,
    ReadResourceRequest,
    ReadResourceRequestParam,
    ReadResourceResult,
    Resource,
    ResourceTemplate,
    Root,
};
pub use crate::sampling::{
    CreateMessageRequestParam,
    CreateMessageResult,
    ModelHint,
    ModelPreferences,
};
pub use crate::schema::{
    BooleanSchema,
    EnumSchema,
    NumberSchema,
    PrimitiveSchemaDefinition,
    Schema,
    StringSchema,
};
pub use crate::timestamp::Timestamp;
pub use crate::tools::{
    CallToolRequest,
    CallToolRequestParam,
    CallToolResult,
    ListToolsRequest,
    ListToolsResult,
    Tool,
    ToolAnnotations,
    ToolChoice,
};
pub use crate::wire::{Tagged, Wire};
