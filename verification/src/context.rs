//! What comes with every request and notification, and the notifications' parameters.

use vstd::prelude::*;
use crate::dictionary::{Dictionary, Meta};
use crate::enums::LoggingLevel;
use crate::error::{SchemaError, SchemaFault};
use crate::json::{Entries, JsonNumber, JsonTree, JsonValue, entries_of, lemma_object_view};
use crate::wire::{
    Wire,
    defaulted,
    defaulted_of,
    encoded_some,
    group_lookup,
    lemma_defaulted,
    lemma_defaulted_valid,
    lemma_optional,
    lemma_optional_valid,
    lemma_required,
    lemma_required_valid,
    lookup,
    optional,
    optional_of,
    push_field,
    push_some,
    put,
    put_some,
    required,
    required_of,
    valid_some,
};
use crate::words::lemma_wire_words;

verus! {

/// What the host tells a plugin with every notification.
#[derive(Debug, Clone, PartialEq, Default)]
pub struct PluginNotificationContext {
    /// Additional metadata about the notification
    pub meta: Meta,
}

/// The model of [`PluginNotificationContext`].
pub struct PluginNotificationContextModel {
    pub meta: Seq<(Seq<char>, JsonTree)>,
}

impl DeepView for PluginNotificationContext {
    type V = PluginNotificationContextModel;

    open spec fn deep_view(&self) -> PluginNotificationContextModel {
        PluginNotificationContextModel { meta: self.meta.deep_view() }
    }
}

impl PluginNotificationContext {
    /// The entries of the object that stands for a value, in the order in which
    /// they are written.
    pub open spec fn entries(m: PluginNotificationContextModel) -> Entries {
        let e = Seq::empty();
        let e = put::<Meta>(e, "_meta"@, m.meta);
        e
    }

    /// What is written under each name: a field that must be there is always
    /// written, also where it is empty; a field that may be left out is written
    /// where it is set and has no entry where it is not; and no other name has
    /// an entry.
    pub proof fn lemma_written(m: PluginNotificationContextModel)
        ensures
            lookup(Self::entries(m), "_meta"@) == Some(Meta::encode(m.meta)),
            forall|key: Seq<char>| key != "_meta"@ ==> lookup(Self::entries(m), key) is None,
    {
        broadcast use group_lookup;

        lemma_wire_words();
    }
}

impl Wire for PluginNotificationContext {
    open spec fn encode(m: PluginNotificationContextModel) -> JsonTree {
        JsonTree::Object(Self::entries(m))
    }

    open spec fn decode(t: JsonTree) -> Result<PluginNotificationContextModel, SchemaFault> {
        match t {
            JsonTree::Object(e) => {
                let meta = defaulted_of::<Meta>(e, "_meta"@, Seq::empty());
                if meta is Err {
                    Err(meta->Err_0)
                } else {
                    Ok(PluginNotificationContextModel { meta: meta->Ok_0 })
                }
            },
            _ => Err(SchemaFault::Malformed { of_type: "PluginNotificationContext"@ }),
        }
    }

    open spec fn valid(m: PluginNotificationContextModel) -> bool {
        &&& Meta::valid(m.meta)
    }

    fn serialize(&self) -> (out: JsonValue) {
        let mut fields: Vec<(String, JsonValue)> = Vec::new();
        assert(entries_of(fields@) =~= Seq::empty());
        push_field::<Meta>(&mut fields, "_meta", &self.meta);
        proof {
            lemma_object_view(fields);
        }
        JsonValue::Object(fields)
    }

    fn deserialize(value: &JsonValue) -> (out: Result<PluginNotificationContext, SchemaError>) {
        match value {
            JsonValue::Object(fields) => {
                proof {
                    lemma_object_view(*fields);
                }
                let meta = defaulted::<Meta>(fields, "_meta", Dictionary::new())?;
                Ok(PluginNotificationContext { meta })
            },
            _ => Err(SchemaError::Malformed { of_type: String::from_str("PluginNotificationContext") }),
        }
    }

    proof fn round_trip(m: PluginNotificationContextModel) {
        Self::lemma_written(m);
        let e = Self::entries(m);
        lemma_defaulted::<Meta>(e, "_meta"@, Seq::empty(), m.meta);
    }

    proof fn decoded_valid(t: JsonTree) {
        match t {
            JsonTree::Object(e) => {
                lemma_defaulted_valid::<Meta>(e, "_meta"@, Seq::empty());
            },
            _ => {},
        }
    }
}

/// What the host tells a plugin with every request.
#[derive(Debug, Clone, PartialEq, Default)]
pub struct PluginRequestContext {
    /// Additional metadata about the request
    pub meta: Meta,
    /// Unique identifier for this request
    pub id: PluginRequestId,
}

/// The model of [`PluginRequestContext`].
pub struct PluginRequestContextModel {
    pub meta: Seq<(Seq<char>, JsonTree)>,
    pub id: PluginRequestIdModel,
}

impl DeepView for PluginRequestContext {
    type V = PluginRequestContextModel;

    open spec fn deep_view(&self) -> PluginRequestContextModel {
        PluginRequestContextModel { meta: self.meta.deep_view(), id: self.id.deep_view() }
    }
}

impl PluginRequestContext {
    /// The entries of the object that stands for a value, in the order in which
    /// they are written.
    pub open spec fn entries(m: PluginRequestContextModel) -> Entries {
        let e = Seq::empty();
        let e = put::<Meta>(e, "_meta"@, m.meta);
        let e = put::<PluginRequestId>(e, "id"@, m.id);
        e
    }

    /// What is written under each name: a field that must be there is always
    /// written, also where it is empty; a field that may be left out is written
    /// where it is set and has no entry where it is not; and no other name has
    /// an entry.
    pub proof fn lemma_written(m: PluginRequestContextModel)
        ensures
            lookup(Self::entries(m), "_meta"@) == Some(Meta::encode(m.meta)),
            lookup(Self::entries(m), "id"@) == Some(PluginRequestId::encode(m.id)),
            forall|key: Seq<char>|
                key != "_meta"@ && key != "id"@
                    ==> lookup(Self::entries(m), key) is None,
    {
        broadcast use group_lookup;

        lemma_wire_words();
    }
}

impl Wire for PluginRequestContext {
    open spec fn encode(m: PluginRequestContextModel) -> JsonTree {
        JsonTree::Object(Self::entries(m))
    }

    open spec fn decode(t: JsonTree) -> Result<PluginRequestContextModel, SchemaFault> {
        match t {
            JsonTree::Object(e) => {
                let meta = defaulted_of::<Meta>(e, "_meta"@, Seq::empty());
                let id = required_of::<PluginRequestId>(e, "id"@, "PluginRequestContext"@);
                if meta is Err {
                    Err(meta->Err_0)
                } else if id is Err {
                    Err(id->Err_0)
                } else {
                    Ok(PluginRequestContextModel { meta: meta->Ok_0, id: id->Ok_0 })
                }
            },
            _ => Err(SchemaFault::Malformed { of_type: "PluginRequestContext"@ }),
        }
    }

    open spec fn valid(m: PluginRequestContextModel) -> bool {
        &&& Meta::valid(m.meta)
        &&& PluginRequestId::valid(m.id)
    }

    fn serialize(&self) -> (out: JsonValue) {
        let mut fields: Vec<(String, JsonValue)> = Vec::new();
        assert(entries_of(fields@) =~= Seq::empty());
        push_field::<Meta>(&mut fields, "_meta", &self.meta);
        push_field::<PluginRequestId>(&mut fields, "id", &self.id);
        proof {
            lemma_object_view(fields);
        }
        JsonValue::Object(fields)
    }

    fn deserialize(value: &JsonValue) -> (out: Result<PluginRequestContext, SchemaError>) {
        match value {
            JsonValue::Object(fields) => {
                proof {
                    lemma_object_view(*fields);
                }
                let meta = defaulted::<Meta>(fields, "_meta", Dictionary::new())?;
                let id = required::<PluginRequestId>(fields, "id", "PluginRequestContext")?;
                Ok(PluginRequestContext { meta, id })
            },
            _ => Err(SchemaError::Malformed { of_type: String::from_str("PluginRequestContext") }),
        }
    }

    proof fn round_trip(m: PluginRequestContextModel) {
        Self::lemma_written(m);
        let e = Self::entries(m);
        lemma_defaulted::<Meta>(e, "_meta"@, Seq::empty(), m.meta);
        lemma_required::<PluginRequestId>(e, "id"@, "PluginRequestContext"@, m.id);
    }

    proof fn decoded_valid(t: JsonTree) {
        match t {
            JsonTree::Object(e) => {
                lemma_defaulted_valid::<Meta>(e, "_meta"@, Seq::empty());
                lemma_required_valid::<PluginRequestId>(e, "id"@, "PluginRequestContext"@);
            },
            _ => {},
        }
    }
}

/// The name of an entry of the host's keyring.
#[derive(Debug, Clone, PartialEq, Default)]
pub struct KeyringEntryId {
    /// The service that the entry belongs to
    pub service: String,
    /// The user that the entry belongs to
    pub user: String,
}

/// The model of [`KeyringEntryId`].
pub struct KeyringEntryIdModel {
    pub service: Seq<char>,
    pub user: Seq<char>,
}

impl DeepView for KeyringEntryId {
    type V = KeyringEntryIdModel;

    open spec fn deep_view(&self) -> KeyringEntryIdModel {
        KeyringEntryIdModel { service: self.service.deep_view(), user: self.user.deep_view() }
    }
}

impl KeyringEntryId {
    /// The entries of the object that stands for a value, in the order in which
    /// they are written.
    pub open spec fn entries(m: KeyringEntryIdModel) -> Entries {
        let e = Seq::empty();
        let e = put::<String>(e, "service"@, m.service);
        let e = put::<String>(e, "user"@, m.user);
        e
    }

    /// What is written under each name: a field that must be there is always
    /// written, also where it is empty; a field that may be left out is written
    /// where it is set and has no entry where it is not; and no other name has
    /// an entry.
    pub proof fn lemma_written(m: KeyringEntryIdModel)
        ensures
            lookup(Self::entries(m), "service"@) == Some(String::encode(m.service)),
            lookup(Self::entries(m), "user"@) == Some(String::encode(m.user)),
            forall|key: Seq<char>|
                key != "service"@ && key != "user"@
                    ==> lookup(Self::entries(m), key) is None,
    {
        broadcast use group_lookup;

        lemma_wire_words();
    }
}

impl Wire for KeyringEntryId {
    open spec fn encode(m: KeyringEntryIdModel) -> JsonTree {
        JsonTree::Object(Self::entries(m))
    }

    open spec fn decode(t: JsonTree) -> Result<KeyringEntryIdModel, SchemaFault> {
        match t {
            JsonTree::Object(e) => {
                let service = required_of::<String>(e, "service"@, "KeyringEntryId"@);
                let user = required_of::<String>(e, "user"@, "KeyringEntryId"@);
                if service is Err {
                    Err(service->Err_0)
                } else if user is Err {
                    Err(user->Err_0)
                } else {
                    Ok(KeyringEntryIdModel { service: service->Ok_0, user: user->Ok_0 })
                }
            },
            _ => Err(SchemaFault::Malformed { of_type: "KeyringEntryId"@ }),
        }
    }

    open spec fn valid(m: KeyringEntryIdModel) -> bool {
        &&& String::valid(m.service)
        &&& String::valid(m.user)
    }

    fn serialize(&self) -> (out: JsonValue) {
        let mut fields: Vec<(String, JsonValue)> = Vec::new();
        assert(entries_of(fields@) =~= Seq::empty());
        push_field::<String>(&mut fields, "service", &self.service);
        push_field::<String>(&mut fields, "user", &self.user);
        proof {
            lemma_object_view(fields);
        }
        JsonValue::Object(fields)
    }

    fn deserialize(value: &JsonValue) -> (out: Result<KeyringEntryId, SchemaError>) {
        match value {
            JsonValue::Object(fields) => {
                proof {
                    lemma_object_view(*fields);
                }
                let service = required::<String>(fields, "service", "KeyringEntryId")?;
                let user = required::<String>(fields, "user", "KeyringEntryId")?;
                Ok(KeyringEntryId { service, user })
            },
            _ => Err(SchemaError::Malformed { of_type: String::from_str("KeyringEntryId") }),
        }
    }

    proof fn round_trip(m: KeyringEntryIdModel) {
        Self::lemma_written(m);
        let e = Self::entries(m);
        lemma_required::<String>(e, "service"@, "KeyringEntryId"@, m.service);
        lemma_required::<String>(e, "user"@, "KeyringEntryId"@, m.user);
    }

    proof fn decoded_valid(t: JsonTree) {
        match t {
            JsonTree::Object(e) => {
                lemma_required_valid::<String>(e, "service"@, "KeyringEntryId"@);
                lemma_required_valid::<String>(e, "user"@, "KeyringEntryId"@);
            },
            _ => {},
        }
    }
}

/// A log message sent to the host.
#[derive(Debug, Clone, PartialEq, Default)]
pub struct LoggingMessageNotificationParam {
    /// Data to log (any JSON value)
    pub data: JsonValue,
    /// How severe the message is
    pub level: LoggingLevel,
    /// Optional logger name
    pub logger: Option<String>,
}

/// The model of [`LoggingMessageNotificationParam`].
pub struct LoggingMessageNotificationParamModel {
    pub data: JsonTree,
    pub level: LoggingLevel,
    pub logger: Option<Seq<char>>,
}

impl DeepView for LoggingMessageNotificationParam {
    type V = LoggingMessageNotificationParamModel;

    open spec fn deep_view(&self) -> LoggingMessageNotificationParamModel {
        LoggingMessageNotificationParamModel {
            data: self.data.deep_view(),
            level: self.level.deep_view(),
            logger: self.logger.deep_view(),
        }
    }
}

impl LoggingMessageNotificationParam {
    /// The entries of the object that stands for a value, in the order in which
    /// they are written.
    pub open spec fn entries(m: LoggingMessageNotificationParamModel) -> Entries {
        let e = Seq::empty();
        let e = put::<JsonValue>(e, "data"@, m.data);
        let e = put::<LoggingLevel>(e, "level"@, m.level);
        let e = put_some::<String>(e, "logger"@, m.logger);
        e
    }

    /// What is written under each name: a field that must be there is always
    /// written, also where it is empty; a field that may be left out is written
    /// where it is set and has no entry where it is not; and no other name has
    /// an entry.
    pub proof fn lemma_written(m: LoggingMessageNotificationParamModel)
        ensures
            lookup(Self::entries(m), "data"@) == Some(JsonValue::encode(m.data)),
            lookup(Self::entries(m), "level"@) == Some(LoggingLevel::encode(m.level)),
            lookup(Self::entries(m), "logger"@) == encoded_some::<String>(m.logger),
            forall|key: Seq<char>|
                key != "data"@ && key != "level"@ && key != "logger"@
                    ==> lookup(Self::entries(m), key) is None,
    {
        broadcast use group_lookup;

        lemma_wire_words();
    }
}

impl Wire for LoggingMessageNotificationParam {
    open spec fn encode(m: LoggingMessageNotificationParamModel) -> JsonTree {
        JsonTree::Object(Self::entries(m))
    }

    open spec fn decode(t: JsonTree) -> Result<LoggingMessageNotificationParamModel, SchemaFault> {
        match t {
            JsonTree::Object(e) => {
                let data = required_of::<JsonValue>(e, "data"@, "LoggingMessageNotificationParam"@);
                let level = defaulted_of::<LoggingLevel>(e, "level"@, LoggingLevel::Debug);
                let logger = optional_of::<String>(e, "logger"@);
                if data is Err {
                    Err(data->Err_0)
                } else if level is Err {
                    Err(level->Err_0)
                } else if logger is Err {
                    Err(logger->Err_0)
                } else {
                    Ok(
                        LoggingMessageNotificationParamModel {
                            data: data->Ok_0,
                            level: level->Ok_0,
                            logger: logger->Ok_0,
                        },
                    )
                }
            },
            _ => Err(SchemaFault::Malformed { of_type: "LoggingMessageNotificationParam"@ }),
        }
    }

    open spec fn valid(m: LoggingMessageNotificationParamModel) -> bool {
        &&& JsonValue::valid(m.data)
        &&& LoggingLevel::valid(m.level)
        &&& valid_some::<String>(m.logger)
    }

    fn serialize(&self) -> (out: JsonValue) {
        let mut fields: Vec<(String, JsonValue)> = Vec::new();
        assert(entries_of(fields@) =~= Seq::empty());
        push_field::<JsonValue>(&mut fields, "data", &self.data);
        push_field::<LoggingLevel>(&mut fields, "level", &self.level);
        push_some::<String>(&mut fields, "logger", &self.logger);
        proof {
            lemma_object_view(fields);
        }
        JsonValue::Object(fields)
    }

    fn deserialize(value: &JsonValue) -> (out: Result<LoggingMessageNotificationParam, SchemaError>) {
        match value {
            JsonValue::Object(fields) => {
                proof {
                    lemma_object_view(*fields);
                }
                let data = required::<JsonValue>(fields, "data", "LoggingMessageNotificationParam")?;
                let level = defaulted::<LoggingLevel>(fields, "level", LoggingLevel::Debug)?;
                let logger = optional::<String>(fields, "logger")?;
                Ok(LoggingMessageNotificationParam { data, level, logger })
            },
            _ => Err(SchemaError::Malformed { of_type: String::from_str("LoggingMessageNotificationParam") }),
        }
    }

    proof fn round_trip(m: LoggingMessageNotificationParamModel) {
        Self::lemma_written(m);
        let e = Self::entries(m);
        lemma_required::<JsonValue>(e, "data"@, "LoggingMessageNotificationParam"@, m.data);
        lemma_defaulted::<LoggingLevel>(e, "level"@, LoggingLevel::Debug, m.level);
        lemma_optional::<String>(e, "logger"@, m.logger);
    }

    proof fn decoded_valid(t: JsonTree) {
        match t {
            JsonTree::Object(e) => {
                lemma_required_valid::<JsonValue>(e, "data"@, "LoggingMessageNotificationParam"@);
                lemma_defaulted_valid::<LoggingLevel>(e, "level"@, LoggingLevel::Debug);
                lemma_optional_valid::<String>(e, "logger"@);
            },
            _ => {},
        }
    }
}

/// A report on the progress of a long operation.
#[derive(Debug, Clone, PartialEq, Default)]
pub struct ProgressNotificationParam {
    /// Optional progress message describing current operation
    pub message: Option<String>,
    /// The progress thus far
    pub progress: JsonNumber,
    /// A token identifying the progress context
    pub progress_token: String,
    /// Optional total units of work
    pub total: Option<JsonNumber>,
}

/// The model of [`ProgressNotificationParam`].
pub struct ProgressNotificationParamModel {
    pub message: Option<Seq<char>>,
    pub progress: JsonNumber,
    pub progress_token: Seq<char>,
    pub total: Option<JsonNumber>,
}

impl DeepView for ProgressNotificationParam {
    type V = ProgressNotificationParamModel;

    open spec fn deep_view(&self) -> ProgressNotificationParamModel {
        ProgressNotificationParamModel {
            message: self.message.deep_view(),
            progress: self.progress.deep_view(),
            progress_token: self.progress_token.deep_view(),
            total: self.total.deep_view(),
        }
    }
}

impl ProgressNotificationParam {
    /// The entries of the object that stands for a value, in the order in which
    /// they are written.
    pub open spec fn entries(m: ProgressNotificationParamModel) -> Entries {
        let e = Seq::empty();
        let e = put_some::<String>(e, "message"@, m.message);
        let e = put::<JsonNumber>(e, "progress"@, m.progress);
        let e = put::<String>(e, "progressToken"@, m.progress_token);
        let e = put_some::<JsonNumber>(e, "total"@, m.total);
        e
    }

    /// What is written under each name: a field that must be there is always
    /// written, also where it is empty; a field that may be left out is written
    /// where it is set and has no entry where it is not; and no other name has
    /// an entry.
    pub proof fn lemma_written(m: ProgressNotificationParamModel)
        ensures
            lookup(Self::entries(m), "message"@) == encoded_some::<String>(m.message),
            lookup(Self::entries(m), "progress"@) == Some(JsonNumber::encode(m.progress)),
            lookup(Self::entries(m), "progressToken"@) == Some(String::encode(m.progress_token)),
            lookup(Self::entries(m), "total"@) == encoded_some::<JsonNumber>(m.total),
            forall|key: Seq<char>|
                key != "message"@ && key != "progress"@ && key != "progressToken"@ &&
                    key != "total"@
                    ==> lookup(Self::entries(m), key) is None,
    {
        broadcast use group_lookup;

        lemma_wire_words();
    }
}

impl Wire for ProgressNotificationParam {
    open spec fn encode(m: ProgressNotificationParamModel) -> JsonTree {
        JsonTree::Object(Self::entries(m))
    }

    open spec fn decode(t: JsonTree) -> Result<ProgressNotificationParamModel, SchemaFault> {
        match t {
            JsonTree::Object(e) => {
                let message = optional_of::<String>(e, "message"@);
                let progress = required_of::<JsonNumber>(e, "progress"@, "ProgressNotificationParam"@);
                let progress_token = required_of::<String>(e, "progressToken"@, "ProgressNotificationParam"@);
                let total = optional_of::<JsonNumber>(e, "total"@);
                if message is Err {
                    Err(message->Err_0)
                } else if progress is Err {
                    Err(progress->Err_0)
                } else if progress_token is Err {
                    Err(progress_token->Err_0)
                } else if total is Err {
                    Err(total->Err_0)
                } else {
                    Ok(
                        ProgressNotificationParamModel {
                            message: message->Ok_0,
                            progress: progress->Ok_0,
                            progress_token: progress_token->Ok_0,
                            total: total->Ok_0,
                        },
                    )
                }
            },
            _ => Err(SchemaFault::Malformed { of_type: "ProgressNotificationParam"@ }),
        }
    }

    open spec fn valid(m: ProgressNotificationParamModel) -> bool {
        &&& valid_some::<String>(m.message)
        &&& JsonNumber::valid(m.progress)
        &&& String::valid(m.progress_token)
        &&& valid_some::<JsonNumber>(m.total)
    }

    fn serialize(&self) -> (out: JsonValue) {
        let mut fields: Vec<(String, JsonValue)> = Vec::new();
        assert(entries_of(fields@) =~= Seq::empty());
        push_some::<String>(&mut fields, "message", &self.message);
        push_field::<JsonNumber>(&mut fields, "progress", &self.progress);
        push_field::<String>(&mut fields, "progressToken", &self.progress_token);
        push_some::<JsonNumber>(&mut fields, "total", &self.total);
        proof {
            lemma_object_view(fields);
        }
        JsonValue::Object(fields)
    }

    fn deserialize(value: &JsonValue) -> (out: Result<ProgressNotificationParam, SchemaError>) {
        match value {
            JsonValue::Object(fields) => {
                proof {
                    lemma_object_view(*fields);
                }
                let message = optional::<String>(fields, "message")?;
                let progress = required::<JsonNumber>(fields, "progress", "ProgressNotificationParam")?;
                let progress_token = required::<String>(fields, "progressToken", "ProgressNotificationParam")?;
                let total = optional::<JsonNumber>(fields, "total")?;
                Ok(ProgressNotificationParam { message, progress, progress_token, total })
            },
            _ => Err(SchemaError::Malformed { of_type: String::from_str("ProgressNotificationParam") }),
        }
    }

    proof fn round_trip(m: ProgressNotificationParamModel) {
        Self::lemma_written(m);
        let e = Self::entries(m);
        lemma_optional::<String>(e, "message"@, m.message);
        lemma_required::<JsonNumber>(e, "progress"@, "ProgressNotificationParam"@, m.progress);
        lemma_required::<String>(e, "progressToken"@, "ProgressNotificationParam"@, m.progress_token);
        lemma_optional::<JsonNumber>(e, "total"@, m.total);
    }

    proof fn decoded_valid(t: JsonTree) {
        match t {
            JsonTree::Object(e) => {
                lemma_optional_valid::<String>(e, "message"@);
                lemma_required_valid::<JsonNumber>(e, "progress"@, "ProgressNotificationParam"@);
                lemma_required_valid::<String>(e, "progressToken"@, "ProgressNotificationParam"@);
                lemma_optional_valid::<JsonNumber>(e, "total"@);
            },
            _ => {},
        }
    }
}

/// The notice that a resource has changed.
#[derive(Debug, Clone, PartialEq, Default)]
pub struct ResourceUpdatedNotificationParam {
    /// URI of the updated resource
    pub uri: String,
}

/// The model of [`ResourceUpdatedNotificationParam`].
pub struct ResourceUpdatedNotificationParamModel {
    pub uri: Seq<char>,
}

impl DeepView for ResourceUpdatedNotificationParam {
    type V = ResourceUpdatedNotificationParamModel;

    open spec fn deep_view(&self) -> ResourceUpdatedNotificationParamModel {
        ResourceUpdatedNotificationParamModel { uri: self.uri.deep_view() }
    }
}

impl ResourceUpdatedNotificationParam {
    /// The entries of the object that stands for a value, in the order in which
    /// they are written.
    pub open spec fn entries(m: ResourceUpdatedNotificationParamModel) -> Entries {
        let e = Seq::empty();
        let e = put::<String>(e, "uri"@, m.uri);
        e
    }

    /// What is written under each name: a field that must be there is always
    /// written, also where it is empty; a field that may be left out is written
    /// where it is set and has no entry where it is not; and no other name has
    /// an entry.
    pub proof fn lemma_written(m: ResourceUpdatedNotificationParamModel)
        ensures
            lookup(Self::entries(m), "uri"@) == Some(String::encode(m.uri)),
            forall|key: Seq<char>| key != "uri"@ ==> lookup(Self::entries(m), key) is None,
    {
        broadcast use group_lookup;

        lemma_wire_words();
    }
}

impl Wire for ResourceUpdatedNotificationParam {
    open spec fn encode(m: ResourceUpdatedNotificationParamModel) -> JsonTree {
        JsonTree::Object(Self::entries(m))
    }

    open spec fn decode(t: JsonTree) -> Result<ResourceUpdatedNotificationParamModel, SchemaFault> {
        match t {
            JsonTree::Object(e) => {
                let uri = required_of::<String>(e, "uri"@, "ResourceUpdatedNotificationParam"@);
                if uri is Err {
                    Err(uri->Err_0)
                } else {
                    Ok(ResourceUpdatedNotificationParamModel { uri: uri->Ok_0 })
                }
            },
            _ => Err(SchemaFault::Malformed { of_type: "ResourceUpdatedNotificationParam"@ }),
        }
    }

    open spec fn valid(m: ResourceUpdatedNotificationParamModel) -> bool {
        &&& String::valid(m.uri)
    }

    fn serialize(&self) -> (out: JsonValue) {
        let mut fields: Vec<(String, JsonValue)> = Vec::new();
        assert(entries_of(fields@) =~= Seq::empty());
        push_field::<String>(&mut fields, "uri", &self.uri);
        proof {
            lemma_object_view(fields);
        }
        JsonValue::Object(fields)
    }

    fn deserialize(value: &JsonValue) -> (out: Result<ResourceUpdatedNotificationParam, SchemaError>) {
        match value {
            JsonValue::Object(fields) => {
                proof {
                    lemma_object_view(*fields);
                }
                let uri = required::<String>(fields, "uri", "ResourceUpdatedNotificationParam")?;
                Ok(ResourceUpdatedNotificationParam { uri })
            },
            _ => Err(SchemaError::Malformed { of_type: String::from_str("ResourceUpdatedNotificationParam") }),
        }
    }

    proof fn round_trip(m: ResourceUpdatedNotificationParamModel) {
        Self::lemma_written(m);
        let e = Self::entries(m);
        lemma_required::<String>(e, "uri"@, "ResourceUpdatedNotificationParam"@, m.uri);
    }

    proof fn decoded_valid(t: JsonTree) {
        match t {
            JsonTree::Object(e) => {
                lemma_required_valid::<String>(e, "uri"@, "ResourceUpdatedNotificationParam"@);
            },
            _ => {},
        }
    }
}

/// The notice that a request for input was answered.
#[derive(Debug, Clone, PartialEq, Default)]
pub struct ElicitationResponseNotificationParam {
    /// Identifier of the request for input that was answered
    pub elicitation_id: String,
}

/// The model of [`ElicitationResponseNotificationParam`].
pub struct ElicitationResponseNotificationParamModel {
    pub elicitation_id: Seq<char>,
}

impl DeepView for ElicitationResponseNotificationParam {
    type V = ElicitationResponseNotificationParamModel;

    open spec fn deep_view(&self) -> ElicitationResponseNotificationParamModel {
        ElicitationResponseNotificationParamModel { elicitation_id: self.elicitation_id.deep_view() }
    }
}

impl ElicitationResponseNotificationParam {
    /// The entries of the object that stands for a value, in the order in which
    /// they are written.
    pub open spec fn entries(m: ElicitationResponseNotificationParamModel) -> Entries {
        let e = Seq::empty();
        let e = put::<String>(e, "elicitationId"@, m.elicitation_id);
        e
    }

    /// What is written under each name: a field that must be there is always
    /// written, also where it is empty; a field that may be left out is written
    /// where it is set and has no entry where it is not; and no other name has
    /// an entry.
    pub proof fn lemma_written(m: ElicitationResponseNotificationParamModel)
        ensures
            lookup(Self::entries(m), "elicitationId"@) == Some(String::encode(m.elicitation_id)),
            forall|key: Seq<char>|
                key != "elicitationId"@
                    ==> lookup(Self::entries(m), key) is None,
    {
        broadcast use group_lookup;

        lemma_wire_words();
    }
}

impl Wire for ElicitationResponseNotificationParam {
    open spec fn encode(m: ElicitationResponseNotificationParamModel) -> JsonTree {
        JsonTree::Object(Self::entries(m))
    }

    open spec fn decode(t: JsonTree) -> Result<ElicitationResponseNotificationParamModel, SchemaFault> {
        match t {
            JsonTree::Object(e) => {
                let elicitation_id = required_of::<String>(e, "elicitationId"@, "ElicitationResponseNotificationParam"@);
                if elicitation_id is Err {
                    Err(elicitation_id->Err_0)
                } else {
                    Ok(ElicitationResponseNotificationParamModel { elicitation_id: elicitation_id->Ok_0 })
                }
            },
            _ => Err(SchemaFault::Malformed { of_type: "ElicitationResponseNotificationParam"@ }),
        }
    }

    open spec fn valid(m: ElicitationResponseNotificationParamModel) -> bool {
        &&& String::valid(m.elicitation_id)
    }

    fn serialize(&self) -> (out: JsonValue) {
        let mut fields: Vec<(String, JsonValue)> = Vec::new();
        assert(entries_of(fields@) =~= Seq::empty());
        push_field::<String>(&mut fields, "elicitationId", &self.elicitation_id);
        proof {
            lemma_object_view(fields);
        }
        JsonValue::Object(fields)
    }

    fn deserialize(value: &JsonValue) -> (out: Result<ElicitationResponseNotificationParam, SchemaError>) {
        match value {
            JsonValue::Object(fields) => {
                proof {
                    lemma_object_view(*fields);
                }
                let elicitation_id = required::<String>(fields, "elicitationId", "ElicitationResponseNotificationParam")?;
                Ok(ElicitationResponseNotificationParam { elicitation_id })
            },
            _ => Err(SchemaError::Malformed { of_type: String::from_str("ElicitationResponseNotificationParam") }),
        }
    }

    proof fn round_trip(m: ElicitationResponseNotificationParamModel) {
        Self::lemma_written(m);
        let e = Self::entries(m);
        lemma_required::<String>(e, "elicitationId"@, "ElicitationResponseNotificationParam"@, m.elicitation_id);
    }

    proof fn decoded_valid(t: JsonTree) {
        match t {
            JsonTree::Object(e) => {
                lemma_required_valid::<String>(e, "elicitationId"@, "ElicitationResponseNotificationParam"@);
            },
            _ => {},
        }
    }
}

/// The identifier of a request: a string or an integer.
#[derive(Debug, Clone, PartialEq)]
pub enum PluginRequestId {
    String(String),
    Number(i64),
}

/// The model of [`PluginRequestId`].
pub enum PluginRequestIdModel {
    String(Seq<char>),
    Number(i64),
}

impl DeepView for PluginRequestId {
    type V = PluginRequestIdModel;

    open spec fn deep_view(&self) -> PluginRequestIdModel {
        match self {
            PluginRequestId::String(x) => PluginRequestIdModel::String(x.deep_view()),
            PluginRequestId::Number(x) => PluginRequestIdModel::Number(x.deep_view()),
        }
    }
}

impl Default for PluginRequestId {
    fn default() -> (out: PluginRequestId)
        ensures
            out.deep_view() == PluginRequestIdModel::String(Seq::empty()),
    {
        PluginRequestId::String(String::new())
    }
}

/// Written as the string or the integer is. A value is read as a string where
/// it is one, and as an integer where it is one that fits.
impl Wire for PluginRequestId {
    open spec fn encode(m: PluginRequestIdModel) -> JsonTree {
        match m {
            PluginRequestIdModel::String(x) => String::encode(x),
            PluginRequestIdModel::Number(x) => i64::encode(x),
        }
    }

    open spec fn decode(t: JsonTree) -> Result<PluginRequestIdModel, SchemaFault> {
        if String::decode(t) is Ok {
            Ok(PluginRequestIdModel::String(String::decode(t)->Ok_0))
        } else if i64::decode(t) is Ok {
            Ok(PluginRequestIdModel::Number(i64::decode(t)->Ok_0))
        } else {
            Err(SchemaFault::NoVariantMatched { of_type: "PluginRequestId"@ })
        }
    }

    open spec fn valid(m: PluginRequestIdModel) -> bool {
        match m {
            PluginRequestIdModel::String(x) => String::valid(x),
            PluginRequestIdModel::Number(x) => i64::valid(x),
        }
    }

    fn serialize(&self) -> (out: JsonValue) {
        match self {
            PluginRequestId::String(x) => x.serialize(),
            PluginRequestId::Number(x) => x.serialize(),
        }
    }

    fn deserialize(value: &JsonValue) -> (out: Result<PluginRequestId, SchemaError>) {
        match String::deserialize(value) {
            Ok(x) => {
                return Ok(PluginRequestId::String(x));
            },
            Err(_) => {},
        }
        match i64::deserialize(value) {
            Ok(x) => {
                return Ok(PluginRequestId::Number(x));
            },
            Err(_) => {},
        }
        Err(SchemaError::NoVariantMatched { of_type: String::from_str("PluginRequestId") })
    }

    proof fn round_trip(m: PluginRequestIdModel) {
        match m {
            PluginRequestIdModel::String(x) => {
                String::round_trip(x);
            },
            PluginRequestIdModel::Number(x) => {
                i64::round_trip(x);
            },
        }
    }

    proof fn decoded_valid(t: JsonTree) {
        String::decoded_valid(t);
        i64::decoded_valid(t);
    }
}

} // verus!
