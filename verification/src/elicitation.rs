//! Elicitation: a plugin asks the user for input.

use vstd::prelude::*;
use crate::dictionary::Dictionary;
use crate::enums::ElicitationResultAction;
use crate::error::{SchemaError, SchemaFault};
use crate::json::{Entries, JsonNumber, JsonTree, JsonValue, entries_of, lemma_object_view};
use crate::schema::{Schema, SchemaModel};
use crate::wire::{
    Wire,
    agrees,
    defaulted,
    defaulted_of,
    encoded_some,
    group_lookup,
    lemma_defaulted,
    lemma_defaulted_valid,
    lemma_optional,
    lemma_optional_valid,
    lemma_required,
    lemma_required_valid,
    lookup,
    optional,
    optional_of,
    push_field,
    push_some,
    push_text,
    put,
    put_some,
    put_text,
    required,
    required_of,
    valid_some,
};
use crate::words::lemma_wire_words;

verus! {

/// The answer to a request for input.
#[derive(Debug, Clone, PartialEq, Default)]
pub struct ElicitationResult {
    /// What the user did with the request
    pub action: ElicitationResultAction,
    /// Form data submitted by user (only present when action is accept)
    pub content: Option<Dictionary<ElicitationResultContentValue>>,
}

/// The model of [`ElicitationResult`].
pub struct ElicitationResultModel {
    pub action: ElicitationResultAction,
    pub content: Option<Seq<(Seq<char>, ElicitationResultContentValueModel)>>,
}

impl DeepView for ElicitationResult {
    type V = ElicitationResultModel;

    open spec fn deep_view(&self) -> ElicitationResultModel {
        ElicitationResultModel { action: self.action.deep_view(), content: self.content.deep_view() }
    }
}

impl ElicitationResult {
    /// The entries of the object that stands for a value, in the order in which
    /// they are written.
    pub open spec fn entries(m: ElicitationResultModel) -> Entries {
        let e = Seq::empty();
        let e = put::<ElicitationResultAction>(e, "action"@, m.action);
        let e = put_some::<Dictionary<ElicitationResultContentValue>>(e, "content"@, m.content);
        e
    }

    /// What is written under each name: a field that must be there is always
    /// written, also where it is empty; a field that may be left out is written
    /// where it is set and has no entry where it is not; and no other name has
    /// an entry.
    pub proof fn lemma_written(m: ElicitationResultModel)
        ensures
            lookup(Self::entries(m), "action"@) == Some(ElicitationResultAction::encode(m.action)),
            lookup(Self::entries(m), "content"@) == encoded_some::<Dictionary<ElicitationResultContentValue>>(m.content),
            forall|key: Seq<char>|
                key != "action"@ && key != "content"@
                    ==> lookup(Self::entries(m), key) is None,
    {
        broadcast use group_lookup;

        lemma_wire_words();
    }
}

impl Wire for ElicitationResult {
    open spec fn encode(m: ElicitationResultModel) -> JsonTree {
        JsonTree::Object(Self::entries(m))
    }

    open spec fn decode(t: JsonTree) -> Result<ElicitationResultModel, SchemaFault> {
        match t {
            JsonTree::Object(e) => {
                let action = defaulted_of::<ElicitationResultAction>(e, "action"@, ElicitationResultAction::Accept);
                let content = optional_of::<Dictionary<ElicitationResultContentValue>>(e, "content"@);
                if action is Err {
                    Err(action->Err_0)
                } else if content is Err {
                    Err(content->Err_0)
                } else {
                    Ok(ElicitationResultModel { action: action->Ok_0, content: content->Ok_0 })
                }
            },
            _ => Err(SchemaFault::Malformed { of_type: "ElicitationResult"@ }),
        }
    }

    open spec fn valid(m: ElicitationResultModel) -> bool {
        &&& ElicitationResultAction::valid(m.action)
        &&& valid_some::<Dictionary<ElicitationResultContentValue>>(m.content)
    }

    fn serialize(&self) -> (out: JsonValue) {
        let mut fields: Vec<(String, JsonValue)> = Vec::new();
        assert(entries_of(fields@) =~= Seq::empty());
        push_field::<ElicitationResultAction>(&mut fields, "action", &self.action);
        push_some::<Dictionary<ElicitationResultContentValue>>(&mut fields, "content", &self.content);
        proof {
            lemma_object_view(fields);
        }
        JsonValue::Object(fields)
    }

    fn deserialize(value: &JsonValue) -> (out: Result<ElicitationResult, SchemaError>) {
        match value {
            JsonValue::Object(fields) => {
                proof {
                    lemma_object_view(*fields);
                }
                let action = defaulted::<ElicitationResultAction>(fields, "action", ElicitationResultAction::Accept)?;
                let content = optional::<Dictionary<ElicitationResultContentValue>>(fields, "content")?;
                Ok(ElicitationResult { action, content })
            },
            _ => Err(SchemaError::Malformed { of_type: String::from_str("ElicitationResult") }),
        }
    }

    proof fn round_trip(m: ElicitationResultModel) {
        Self::lemma_written(m);
        let e = Self::entries(m);
        lemma_defaulted::<ElicitationResultAction>(e, "action"@, ElicitationResultAction::Accept, m.action);
        lemma_optional::<Dictionary<ElicitationResultContentValue>>(e, "content"@, m.content);
    }

    proof fn decoded_valid(t: JsonTree) {
        match t {
            JsonTree::Object(e) => {
                lemma_defaulted_valid::<ElicitationResultAction>(e, "action"@, ElicitationResultAction::Accept);
                lemma_optional_valid::<Dictionary<ElicitationResultContentValue>>(e, "content"@);
            },
            _ => {},
        }
    }
}

/// One value of a form that a user filled in: a string, a number, or a boolean.
#[derive(Debug, Clone, PartialEq)]
pub enum ElicitationResultContentValue {
    String(String),
    Number(JsonNumber),
    Bool(bool),
}

/// The model of [`ElicitationResultContentValue`].
pub enum ElicitationResultContentValueModel {
    String(Seq<char>),
    Number(JsonNumber),
    Bool(bool),
}

impl DeepView for ElicitationResultContentValue {
    type V = ElicitationResultContentValueModel;

    open spec fn deep_view(&self) -> ElicitationResultContentValueModel {
        match self {
            ElicitationResultContentValue::String(x) => ElicitationResultContentValueModel::String(x.deep_view()),
            ElicitationResultContentValue::Number(x) => ElicitationResultContentValueModel::Number(x.deep_view()),
            ElicitationResultContentValue::Bool(x) => ElicitationResultContentValueModel::Bool(x.deep_view()),
        }
    }
}

/// Written as the string, the number or the boolean is, and read as the one
/// that it is.
impl Wire for ElicitationResultContentValue {
    open spec fn encode(m: ElicitationResultContentValueModel) -> JsonTree {
        match m {
            ElicitationResultContentValueModel::String(x) => String::encode(x),
            ElicitationResultContentValueModel::Number(x) => JsonNumber::encode(x),
            ElicitationResultContentValueModel::Bool(x) => bool::encode(x),
        }
    }

    open spec fn decode(t: JsonTree) -> Result<ElicitationResultContentValueModel, SchemaFault> {
        if String::decode(t) is Ok {
            Ok(ElicitationResultContentValueModel::String(String::decode(t)->Ok_0))
        } else if JsonNumber::decode(t) is Ok {
            Ok(ElicitationResultContentValueModel::Number(JsonNumber::decode(t)->Ok_0))
        } else if bool::decode(t) is Ok {
            Ok(ElicitationResultContentValueModel::Bool(bool::decode(t)->Ok_0))
        } else {
            Err(SchemaFault::NoVariantMatched { of_type: "ElicitationResultContentValue"@ })
        }
    }

    open spec fn valid(m: ElicitationResultContentValueModel) -> bool {
        match m {
            ElicitationResultContentValueModel::String(x) => String::valid(x),
            ElicitationResultContentValueModel::Number(x) => JsonNumber::valid(x),
            ElicitationResultContentValueModel::Bool(x) => bool::valid(x),
        }
    }

    fn serialize(&self) -> (out: JsonValue) {
        match self {
            ElicitationResultContentValue::String(x) => x.serialize(),
            ElicitationResultContentValue::Number(x) => x.serialize(),
            ElicitationResultContentValue::Bool(x) => x.serialize(),
        }
    }

    fn deserialize(value: &JsonValue) -> (out: Result<ElicitationResultContentValue, SchemaError>) {
        match String::deserialize(value) {
            Ok(x) => {
                return Ok(ElicitationResultContentValue::String(x));
            },
            Err(_) => {},
        }
        match JsonNumber::deserialize(value) {
            Ok(x) => {
                return Ok(ElicitationResultContentValue::Number(x));
            },
            Err(_) => {},
        }
        match bool::deserialize(value) {
            Ok(x) => {
                return Ok(ElicitationResultContentValue::Bool(x));
            },
            Err(_) => {},
        }
        Err(SchemaError::NoVariantMatched { of_type: String::from_str("ElicitationResultContentValue") })
    }

    proof fn round_trip(m: ElicitationResultContentValueModel) {
        match m {
            ElicitationResultContentValueModel::String(x) => {
                String::round_trip(x);
            },
            ElicitationResultContentValueModel::Number(x) => {
                JsonNumber::round_trip(x);
            },
            ElicitationResultContentValueModel::Bool(x) => {
                bool::round_trip(x);
            },
        }
    }

    proof fn decoded_valid(t: JsonTree) {
        String::decoded_valid(t);
        JsonNumber::decoded_valid(t);
        bool::decoded_valid(t);
    }
}

/// A request for input from the user: a form to fill in, or an address to
/// visit.
#[derive(Debug, Clone, PartialEq)]
pub enum ElicitationRequestParam {
    Form {
        /// Message to present to the user
        message: String,
        /// The schema of the form
        requested_schema: Schema,
    },
    Url {
        /// Identifier of the request for input
        elicitation_id: String,
        /// Message to present to the user
        message: String,
        /// The address to visit
        url: String,
    },
}

/// The model of [`ElicitationRequestParam`].
pub enum ElicitationRequestParamModel {
    Form { message: Seq<char>, requested_schema: SchemaModel },
    Url { elicitation_id: Seq<char>, message: Seq<char>, url: Seq<char> },
}

impl DeepView for ElicitationRequestParam {
    type V = ElicitationRequestParamModel;

    open spec fn deep_view(&self) -> ElicitationRequestParamModel {
        match self {
            ElicitationRequestParam::Form {
                message,
                requested_schema,
            } => ElicitationRequestParamModel::Form {
                message: message.deep_view(),
                requested_schema: requested_schema.deep_view(),
            },
            ElicitationRequestParam::Url {
                elicitation_id,
                message,
                url,
            } => ElicitationRequestParamModel::Url {
                elicitation_id: elicitation_id.deep_view(),
                message: message.deep_view(),
                url: url.deep_view(),
            },
        }
    }
}

impl Default for ElicitationRequestParam {
    fn default() -> (out: ElicitationRequestParam)
        ensures
            out.deep_view() == (ElicitationRequestParamModel::Form {
                message: Seq::empty(),
                requested_schema: SchemaModel { properties: Seq::empty(), required: None },
            }),
    {
        ElicitationRequestParam::Form {
            message: String::new(),
            requested_schema: Schema { properties: Dictionary::new(), required: None },
        }
    }
}

impl ElicitationRequestParam {
    /// The entries of the object that stands for a value: the discriminator
    /// `mode` first, then the fields of the member.
    pub open spec fn entries(m: ElicitationRequestParamModel) -> Entries {
        match m {
            ElicitationRequestParamModel::Form { message, requested_schema } => {
                let e = Seq::empty();
                let e = put_text(e, "mode"@, "form"@);
                let e = put::<String>(e, "message"@, message);
                let e = put::<Schema>(e, "requestedSchema"@, requested_schema);
                e
            },
            ElicitationRequestParamModel::Url { elicitation_id, message, url } => {
                let e = Seq::empty();
                let e = put_text(e, "mode"@, "url"@);
                let e = put::<String>(e, "elicitationId"@, elicitation_id);
                let e = put::<String>(e, "message"@, message);
                let e = put::<String>(e, "url"@, url);
                e
            },
        }
    }

    /// What the entries of an object decode to. The discriminator `mode` picks
    /// the member, and a word that names none is malformed.
    pub open spec fn decode_entries(e: Entries) -> Result<ElicitationRequestParamModel, SchemaFault> {
        let mode = required_of::<String>(e, "mode"@, "ElicitationRequestParam"@);
        if mode is Err {
            Err(mode->Err_0)
        } else if mode->Ok_0 == "form"@ {
            let message = required_of::<String>(e, "message"@, "ElicitationRequestParam"@);
            let requested_schema = required_of::<Schema>(
                e,
                "requestedSchema"@,
                "ElicitationRequestParam"@,
            );
            if message is Err {
                Err(message->Err_0)
            } else if requested_schema is Err {
                Err(requested_schema->Err_0)
            } else {
                Ok(
                    ElicitationRequestParamModel::Form {
                        message: message->Ok_0,
                        requested_schema: requested_schema->Ok_0,
                    },
                )
            }
        } else if mode->Ok_0 == "url"@ {
            let elicitation_id = required_of::<String>(
                e,
                "elicitationId"@,
                "ElicitationRequestParam"@,
            );
            let message = required_of::<String>(e, "message"@, "ElicitationRequestParam"@);
            let url = required_of::<String>(e, "url"@, "ElicitationRequestParam"@);
            if elicitation_id is Err {
                Err(elicitation_id->Err_0)
            } else if message is Err {
                Err(message->Err_0)
            } else if url is Err {
                Err(url->Err_0)
            } else {
                Ok(
                    ElicitationRequestParamModel::Url {
                        elicitation_id: elicitation_id->Ok_0,
                        message: message->Ok_0,
                        url: url->Ok_0,
                    },
                )
            }
        } else {
            Err(SchemaFault::Malformed { of_type: "ElicitationRequestParam"@ })
        }
    }

    /// The fields of the object that stands for the value.
    pub fn fields(&self) -> (out: Vec<(String, JsonValue)>)
        ensures
            entries_of(out@) == Self::entries(self.deep_view()),
    {
        let mut fields: Vec<(String, JsonValue)> = Vec::new();
        assert(entries_of(fields@) =~= Seq::empty());
        match self {
            ElicitationRequestParam::Form { message, requested_schema } => {
                push_text(&mut fields, "mode", "form");
                push_field::<String>(&mut fields, "message", message);
                push_field::<Schema>(&mut fields, "requestedSchema", requested_schema);
            },
            ElicitationRequestParam::Url { elicitation_id, message, url } => {
                push_text(&mut fields, "mode", "url");
                push_field::<String>(&mut fields, "elicitationId", elicitation_id);
                push_field::<String>(&mut fields, "message", message);
                push_field::<String>(&mut fields, "url", url);
            },
        }
        fields
    }

    /// Reads a value from the fields of an object.
    pub fn from_fields(fields: &Vec<(String, JsonValue)>) -> (out: Result<
        ElicitationRequestParam,
        SchemaError,
    >)
        ensures
            agrees(out, Self::decode_entries(entries_of(fields@))),
    {
        let mode = required::<String>(fields, "mode", "ElicitationRequestParam")?;
        if mode == String::from_str("form") {
            let message = required::<String>(fields, "message", "ElicitationRequestParam")?;
            let requested_schema = required::<Schema>(
                fields,
                "requestedSchema",
                "ElicitationRequestParam",
            )?;
            Ok(ElicitationRequestParam::Form { message, requested_schema })
        } else if mode == String::from_str("url") {
            let elicitation_id = required::<String>(
                fields,
                "elicitationId",
                "ElicitationRequestParam",
            )?;
            let message = required::<String>(fields, "message", "ElicitationRequestParam")?;
            let url = required::<String>(fields, "url", "ElicitationRequestParam")?;
            Ok(ElicitationRequestParam::Url { elicitation_id, message, url })
        } else {
            Err(SchemaError::Malformed { of_type: String::from_str("ElicitationRequestParam") })
        }
    }

    /// What was written reads back from the entries, also where entries of
    /// other names follow them.
    pub proof fn lemma_entries_round_trip(m: ElicitationRequestParamModel, e: Entries)
        requires
            Self::valid(m),
            forall|key: Seq<char>| #[trigger]
                lookup(Self::entries(m), key) is Some ==> lookup(e, key) == lookup(
                    Self::entries(m),
                    key,
                ),
        ensures
            Self::decode_entries(e) == Ok::<ElicitationRequestParamModel, SchemaFault>(m),
    {
        broadcast use group_lookup;

        lemma_wire_words();
        let own = Self::entries(m);
        match m {
            ElicitationRequestParamModel::Form { message, requested_schema } => {
                assert(lookup(own, "mode"@) is Some);
                assert(lookup(own, "message"@) is Some);
                assert(lookup(own, "requestedSchema"@) is Some);
                lemma_required::<String>(e, "message"@, "ElicitationRequestParam"@, message);
                lemma_required::<Schema>(
                    e,
                    "requestedSchema"@,
                    "ElicitationRequestParam"@,
                    requested_schema,
                );
            },
            ElicitationRequestParamModel::Url { elicitation_id, message, url } => {
                assert(lookup(own, "mode"@) is Some);
                assert(lookup(own, "elicitationId"@) is Some);
                assert(lookup(own, "message"@) is Some);
                assert(lookup(own, "url"@) is Some);
                lemma_required::<String>(
                    e,
                    "elicitationId"@,
                    "ElicitationRequestParam"@,
                    elicitation_id,
                );
                lemma_required::<String>(e, "message"@, "ElicitationRequestParam"@, message);
                lemma_required::<String>(e, "url"@, "ElicitationRequestParam"@, url);
            },
        }
    }

    /// Encoding writes the word of the member under `mode`, whatever the value
    /// holds.
    pub proof fn lemma_mode_written(m: ElicitationRequestParamModel)
        ensures
            lookup(Self::entries(m), "mode"@) == Some(
                JsonTree::String(
                    match m {
                        ElicitationRequestParamModel::Form { .. } => "form"@,
                        ElicitationRequestParamModel::Url { .. } => "url"@,
                    },
                ),
            ),
    {
        broadcast use group_lookup;

        lemma_wire_words();
    }

    /// What the entries of an object decode to is valid.
    pub proof fn lemma_entries_decoded_valid(e: Entries)
        ensures
            Self::decode_entries(e) matches Ok(m) ==> Self::valid(m),
    {
        lemma_required_valid::<String>(e, "message"@, "ElicitationRequestParam"@);
        lemma_required_valid::<Schema>(e, "requestedSchema"@, "ElicitationRequestParam"@);
        lemma_required_valid::<String>(e, "elicitationId"@, "ElicitationRequestParam"@);
        lemma_required_valid::<String>(e, "url"@, "ElicitationRequestParam"@);
    }
}

/// Written as an object with the discriminator `mode`, which is `form` or
/// `url`, and the fields of the member.
impl Wire for ElicitationRequestParam {
    open spec fn encode(m: ElicitationRequestParamModel) -> JsonTree {
        JsonTree::Object(Self::entries(m))
    }

    open spec fn decode(t: JsonTree) -> Result<ElicitationRequestParamModel, SchemaFault> {
        match t {
            JsonTree::Object(e) => Self::decode_entries(e),
            _ => Err(SchemaFault::Malformed { of_type: "ElicitationRequestParam"@ }),
        }
    }

    open spec fn valid(m: ElicitationRequestParamModel) -> bool {
        match m {
            ElicitationRequestParamModel::Form { message, requested_schema } => Schema::valid(
                requested_schema,
            ),
            ElicitationRequestParamModel::Url { elicitation_id, message, url } => true,
        }
    }

    fn serialize(&self) -> (out: JsonValue) {
        let fields = self.fields();
        proof {
            lemma_object_view(fields);
        }
        JsonValue::Object(fields)
    }

    fn deserialize(value: &JsonValue) -> (out: Result<ElicitationRequestParam, SchemaError>) {
        match value {
            JsonValue::Object(fields) => {
                proof {
                    lemma_object_view(*fields);
                }
                ElicitationRequestParam::from_fields(fields)
            },
            _ => Err(
                SchemaError::Malformed { of_type: String::from_str("ElicitationRequestParam") },
            ),
        }
    }

    proof fn round_trip(m: ElicitationRequestParamModel) {
        Self::lemma_entries_round_trip(m, Self::entries(m));
    }

    proof fn decoded_valid(t: JsonTree) {
        match t {
            JsonTree::Object(e) => Self::lemma_entries_decoded_valid(e),
            _ => {},
        }
    }
}

/// A request for input with a limit on the time to wait for the answer.
#[derive(Debug, Clone, PartialEq, Default)]
pub struct ElicitationRequestParamWithTimeout {
    /// The request, whose fields stand beside `timeout` in one object
    pub inner: ElicitationRequestParam,
    /// Optional timeout in milliseconds
    pub timeout: Option<i64>,
}

/// The model of [`ElicitationRequestParamWithTimeout`].
pub struct ElicitationRequestParamWithTimeoutModel {
    pub inner: ElicitationRequestParamModel,
    pub timeout: Option<i64>,
}

impl DeepView for ElicitationRequestParamWithTimeout {
    type V = ElicitationRequestParamWithTimeoutModel;

    open spec fn deep_view(&self) -> ElicitationRequestParamWithTimeoutModel {
        ElicitationRequestParamWithTimeoutModel {
            inner: self.inner.deep_view(),
            timeout: self.timeout.deep_view(),
        }
    }
}

impl ElicitationRequestParamWithTimeout {
    /// The entries of the object that stands for a value: those of the request,
    /// then the timeout.
    pub open spec fn entries(m: ElicitationRequestParamWithTimeoutModel) -> Entries {
        put_some::<i64>(ElicitationRequestParam::entries(m.inner), "timeout"@, m.timeout)
    }
}

/// Written as the object of the request with one more field, `timeout`.
impl Wire for ElicitationRequestParamWithTimeout {
    open spec fn encode(m: ElicitationRequestParamWithTimeoutModel) -> JsonTree {
        JsonTree::Object(Self::entries(m))
    }

    open spec fn decode(t: JsonTree) -> Result<ElicitationRequestParamWithTimeoutModel, SchemaFault> {
        match t {
            JsonTree::Object(e) => {
                let inner = ElicitationRequestParam::decode_entries(e);
                let timeout = optional_of::<i64>(e, "timeout"@);
                if inner is Err {
                    Err(inner->Err_0)
                } else if timeout is Err {
                    Err(timeout->Err_0)
                } else {
                    Ok(
                        ElicitationRequestParamWithTimeoutModel {
                            inner: inner->Ok_0,
                            timeout: timeout->Ok_0,
                        },
                    )
                }
            },
            _ => Err(SchemaFault::Malformed { of_type: "ElicitationRequestParamWithTimeout"@ }),
        }
    }

    open spec fn valid(m: ElicitationRequestParamWithTimeoutModel) -> bool {
        &&& ElicitationRequestParam::valid(m.inner)
        &&& valid_some::<i64>(m.timeout)
    }

    fn serialize(&self) -> (out: JsonValue) {
        let mut fields = self.inner.fields();
        push_some::<i64>(&mut fields, "timeout", &self.timeout);
        proof {
            lemma_object_view(fields);
        }
        JsonValue::Object(fields)
    }

    fn deserialize(value: &JsonValue) -> (out: Result<
        ElicitationRequestParamWithTimeout,
        SchemaError,
    >) {
        match value {
            JsonValue::Object(fields) => {
                proof {
                    lemma_object_view(*fields);
                }
                let inner = ElicitationRequestParam::from_fields(fields)?;
                let timeout = optional::<i64>(fields, "timeout")?;
                Ok(ElicitationRequestParamWithTimeout { inner, timeout })
            },
            _ => Err(
                SchemaError::Malformed {
                    of_type: String::from_str("ElicitationRequestParamWithTimeout"),
                },
            ),
        }
    }

    proof fn round_trip(m: ElicitationRequestParamWithTimeoutModel) {
        broadcast use group_lookup;

        lemma_wire_words();
        let e = Self::entries(m);
        ElicitationRequestParam::lemma_entries_round_trip(m.inner, e);
        lemma_optional::<i64>(e, "timeout"@, m.timeout);
    }

    proof fn decoded_valid(t: JsonTree) {
        match t {
            JsonTree::Object(e) => {
                ElicitationRequestParam::lemma_entries_decoded_valid(e);
                lemma_optional_valid::<i64>(e, "timeout"@);
            },
            _ => {},
        }
    }
}

} // verus!
