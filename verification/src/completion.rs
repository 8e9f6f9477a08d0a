//! Completion of the arguments of prompts and resource templates.

use vstd::prelude::*;
use crate::context::{PluginRequestContext, PluginRequestContextModel};
use crate::dictionary::Dictionary;
use crate::error::{SchemaError, SchemaFault};
use crate::json::{Entries, JsonTree, JsonValue, entries_of, lemma_object_view};
use crate::reference::{Reference, ReferenceModel};
use crate::wire::{
    Wire,
    encoded_some,
    group_lookup,
    lemma_optional,
    lemma_optional_valid,
    lemma_required,
    lemma_required_valid,
    lookup,
    optional,
    optional_of,
    push_field,
    push_some,
    put,
    put_some,
    required,
    required_of,
    valid_some,
};
use crate::words::lemma_wire_words;

verus! {

/// The argument that is being completed.
#[derive(Debug, Clone, PartialEq, Default)]
pub struct CompleteRequestParamArgument {
    /// Name of the argument
    pub name: String,
    /// Current value to complete
    pub value: String,
}

/// The model of [`CompleteRequestParamArgument`].
pub struct CompleteRequestParamArgumentModel {
    pub name: Seq<char>,
    pub value: Seq<char>,
}

impl DeepView for CompleteRequestParamArgument {
    type V = CompleteRequestParamArgumentModel;

    open spec fn deep_view(&self) -> CompleteRequestParamArgumentModel {
        CompleteRequestParamArgumentModel { name: self.name.deep_view(), value: self.value.deep_view() }
    }
}

impl CompleteRequestParamArgument {
    /// The entries of the object that stands for a value, in the order in which
    /// they are written.
    pub open spec fn entries(m: CompleteRequestParamArgumentModel) -> Entries {
        let e = Seq::empty();
        let e = put::<String>(e, "name"@, m.name);
        let e = put::<String>(e, "value"@, m.value);
        e
    }

    /// What is written under each name: a field that must be there is always
    /// written, also where it is empty; a field that may be left out is written
    /// where it is set and has no entry where it is not; and no other name has
    /// an entry.
    pub proof fn lemma_written(m: CompleteRequestParamArgumentModel)
        ensures
            lookup(Self::entries(m), "name"@) == Some(String::encode(m.name)),
            lookup(Self::entries(m), "value"@) == Some(String::encode(m.value)),
            forall|key: Seq<char>|
                key != "name"@ && key != "value"@
                    ==> lookup(Self::entries(m), key) is None,
    {
        broadcast use group_lookup;

        lemma_wire_words();
    }
}

impl Wire for CompleteRequestParamArgument {
    open spec fn encode(m: CompleteRequestParamArgumentModel) -> JsonTree {
        JsonTree::Object(Self::entries(m))
    }

    open spec fn decode(t: JsonTree) -> Result<CompleteRequestParamArgumentModel, SchemaFault> {
        match t {
            JsonTree::Object(e) => {
                let name = required_of::<String>(e, "name"@, "CompleteRequestParamArgument"@);
                let value = required_of::<String>(e, "value"@, "CompleteRequestParamArgument"@);
                if name is Err {
                    Err(name->Err_0)
                } else if value is Err {
                    Err(value->Err_0)
                } else {
                    Ok(CompleteRequestParamArgumentModel { name: name->Ok_0, value: value->Ok_0 })
                }
            },
            _ => Err(SchemaFault::Malformed { of_type: "CompleteRequestParamArgument"@ }),
        }
    }

    open spec fn valid(m: CompleteRequestParamArgumentModel) -> bool {
        &&& String::valid(m.name)
        &&& String::valid(m.value)
    }

    fn serialize(&self) -> (out: JsonValue) {
        let mut fields: Vec<(String, JsonValue)> = Vec::new();
        assert(entries_of(fields@) =~= Seq::empty());
        push_field::<String>(&mut fields, "name", &self.name);
        push_field::<String>(&mut fields, "value", &self.value);
        proof {
            lemma_object_view(fields);
        }
        JsonValue::Object(fields)
    }

    fn deserialize(value: &JsonValue) -> (out: Result<CompleteRequestParamArgument, SchemaError>) {
        match value {
            JsonValue::Object(fields) => {
                proof {
                    lemma_object_view(*fields);
                }
                let name = required::<String>(fields, "name", "CompleteRequestParamArgument")?;
                let value = required::<String>(fields, "value", "CompleteRequestParamArgument")?;
                Ok(CompleteRequestParamArgument { name, value })
            },
            _ => Err(SchemaError::Malformed { of_type: String::from_str("CompleteRequestParamArgument") }),
        }
    }

    proof fn round_trip(m: CompleteRequestParamArgumentModel) {
        Self::lemma_written(m);
        let e = Self::entries(m);
        lemma_required::<String>(e, "name"@, "CompleteRequestParamArgument"@, m.name);
        lemma_required::<String>(e, "value"@, "CompleteRequestParamArgument"@, m.value);
    }

    proof fn decoded_valid(t: JsonTree) {
        match t {
            JsonTree::Object(e) => {
                lemma_required_valid::<String>(e, "name"@, "CompleteRequestParamArgument"@);
                lemma_required_valid::<String>(e, "value"@, "CompleteRequestParamArgument"@);
            },
            _ => {},
        }
    }
}

/// What is already known while an argument is completed.
#[derive(Debug, Clone, PartialEq, Default)]
pub struct CompleteRequestParamContext {
    /// Previously-resolved argument values
    pub arguments: Option<Dictionary<String>>,
}

/// The model of [`CompleteRequestParamContext`].
pub struct CompleteRequestParamContextModel {
    pub arguments: Option<Seq<(Seq<char>, Seq<char>)>>,
}

impl DeepView for CompleteRequestParamContext {
    type V = CompleteRequestParamContextModel;

    open spec fn deep_view(&self) -> CompleteRequestParamContextModel {
        CompleteRequestParamContextModel { arguments: self.arguments.deep_view() }
    }
}

impl CompleteRequestParamContext {
    /// The entries of the object that stands for a value, in the order in which
    /// they are written.
    pub open spec fn entries(m: CompleteRequestParamContextModel) -> Entries {
        let e = Seq::empty();
        let e = put_some::<Dictionary<String>>(e, "arguments"@, m.arguments);
        e
    }

    /// What is written under each name: a field that must be there is always
    /// written, also where it is empty; a field that may be left out is written
    /// where it is set and has no entry where it is not; and no other name has
    /// an entry.
    pub proof fn lemma_written(m: CompleteRequestParamContextModel)
        ensures
            lookup(Self::entries(m), "arguments"@) == encoded_some::<Dictionary<String>>(m.arguments),
            forall|key: Seq<char>| key != "arguments"@ ==> lookup(Self::entries(m), key) is None,
    {
        broadcast use group_lookup;

        lemma_wire_words();
    }
}

impl Wire for CompleteRequestParamContext {
    open spec fn encode(m: CompleteRequestParamContextModel) -> JsonTree {
        JsonTree::Object(Self::entries(m))
    }

    open spec fn decode(t: JsonTree) -> Result<CompleteRequestParamContextModel, SchemaFault> {
        match t {
            JsonTree::Object(e) => {
                let arguments = optional_of::<Dictionary<String>>(e, "arguments"@);
                if arguments is Err {
                    Err(arguments->Err_0)
                } else {
                    Ok(CompleteRequestParamContextModel { arguments: arguments->Ok_0 })
                }
            },
            _ => Err(SchemaFault::Malformed { of_type: "CompleteRequestParamContext"@ }),
        }
    }

    open spec fn valid(m: CompleteRequestParamContextModel) -> bool {
        &&& valid_some::<Dictionary<String>>(m.arguments)
    }

    fn serialize(&self) -> (out: JsonValue) {
        let mut fields: Vec<(String, JsonValue)> = Vec::new();
        assert(entries_of(fields@) =~= Seq::empty());
        push_some::<Dictionary<String>>(&mut fields, "arguments", &self.arguments);
        proof {
            lemma_object_view(fields);
        }
        JsonValue::Object(fields)
    }

    fn deserialize(value: &JsonValue) -> (out: Result<CompleteRequestParamContext, SchemaError>) {
        match value {
            JsonValue::Object(fields) => {
                proof {
                    lemma_object_view(*fields);
                }
                let arguments = optional::<Dictionary<String>>(fields, "arguments")?;
                Ok(CompleteRequestParamContext { arguments })
            },
            _ => Err(SchemaError::Malformed { of_type: String::from_str("CompleteRequestParamContext") }),
        }
    }

    proof fn round_trip(m: CompleteRequestParamContextModel) {
        Self::lemma_written(m);
        let e = Self::entries(m);
        lemma_optional::<Dictionary<String>>(e, "arguments"@, m.arguments);
    }

    proof fn decoded_valid(t: JsonTree) {
        match t {
            JsonTree::Object(e) => {
                lemma_optional_valid::<Dictionary<String>>(e, "arguments"@);
            },
            _ => {},
        }
    }
}

/// What to complete, and for which prompt or resource template.
#[derive(Debug, Clone, PartialEq, Default)]
pub struct CompleteRequestParam {
    /// The argument that is being completed
    pub argument: CompleteRequestParamArgument,
    /// Optional completion context with previously-resolved arguments
    pub context: Option<CompleteRequestParamContext>,
    /// Reference to either a PromptReference or ResourceTemplateReference
    pub reference: Reference,
}

/// The model of [`CompleteRequestParam`].
pub struct CompleteRequestParamModel {
    pub argument: CompleteRequestParamArgumentModel,
    pub context: Option<CompleteRequestParamContextModel>,
    pub reference: ReferenceModel,
}

impl DeepView for CompleteRequestParam {
    type V = CompleteRequestParamModel;

    open spec fn deep_view(&self) -> CompleteRequestParamModel {
        CompleteRequestParamModel {
            argument: self.argument.deep_view(),
            context: self.context.deep_view(),
            reference: self.reference.deep_view(),
        }
    }
}

impl CompleteRequestParam {
    /// The entries of the object that stands for a value, in the order in which
    /// they are written.
    pub open spec fn entries(m: CompleteRequestParamModel) -> Entries {
        let e = Seq::empty();
        let e = put::<CompleteRequestParamArgument>(e, "argument"@, m.argument);
        let e = put_some::<CompleteRequestParamContext>(e, "context"@, m.context);
        let e = put::<Reference>(e, "ref"@, m.reference);
        e
    }

    /// What is written under each name: a field that must be there is always
    /// written, also where it is empty; a field that may be left out is written
    /// where it is set and has no entry where it is not; and no other name has
    /// an entry.
    pub proof fn lemma_written(m: CompleteRequestParamModel)
        ensures
            lookup(Self::entries(m), "argument"@) == Some(CompleteRequestParamArgument::encode(m.argument)),
            lookup(Self::entries(m), "context"@) == encoded_some::<CompleteRequestParamContext>(m.context),
            lookup(Self::entries(m), "ref"@) == Some(Reference::encode(m.reference)),
            forall|key: Seq<char>|
                key != "argument"@ && key != "context"@ && key != "ref"@
                    ==> lookup(Self::entries(m), key) is None,
    {
        broadcast use group_lookup;

        lemma_wire_words();
    }
}

impl Wire for CompleteRequestParam {
    open spec fn encode(m: CompleteRequestParamModel) -> JsonTree {
        JsonTree::Object(Self::entries(m))
    }

    open spec fn decode(t: JsonTree) -> Result<CompleteRequestParamModel, SchemaFault> {
        match t {
            JsonTree::Object(e) => {
                let argument = required_of::<CompleteRequestParamArgument>(e, "argument"@, "CompleteRequestParam"@);
                let context = optional_of::<CompleteRequestParamContext>(e, "context"@);
                let reference = required_of::<Reference>(e, "ref"@, "CompleteRequestParam"@);
                if argument is Err {
                    Err(argument->Err_0)
                } else if context is Err {
                    Err(context->Err_0)
                } else if reference is Err {
                    Err(reference->Err_0)
                } else {
                    Ok(
                        CompleteRequestParamModel {
                            argument: argument->Ok_0,
                            context: context->Ok_0,
                            reference: reference->Ok_0,
                        },
                    )
                }
            },
            _ => Err(SchemaFault::Malformed { of_type: "CompleteRequestParam"@ }),
        }
    }

    open spec fn valid(m: CompleteRequestParamModel) -> bool {
        &&& CompleteRequestParamArgument::valid(m.argument)
        &&& valid_some::<CompleteRequestParamContext>(m.context)
        &&& Reference::valid(m.reference)
    }

    fn serialize(&self) -> (out: JsonValue) {
        let mut fields: Vec<(String, JsonValue)> = Vec::new();
        assert(entries_of(fields@) =~= Seq::empty());
        push_field::<CompleteRequestParamArgument>(&mut fields, "argument", &self.argument);
        push_some::<CompleteRequestParamContext>(&mut fields, "context", &self.context);
        push_field::<Reference>(&mut fields, "ref", &self.reference);
        proof {
            lemma_object_view(fields);
        }
        JsonValue::Object(fields)
    }

    fn deserialize(value: &JsonValue) -> (out: Result<CompleteRequestParam, SchemaError>) {
        match value {
            JsonValue::Object(fields) => {
                proof {
                    lemma_object_view(*fields);
                }
                let argument = required::<CompleteRequestParamArgument>(fields, "argument", "CompleteRequestParam")?;
                let context = optional::<CompleteRequestParamContext>(fields, "context")?;
                let reference = required::<Reference>(fields, "ref", "CompleteRequestParam")?;
                Ok(CompleteRequestParam { argument, context, reference })
            },
            _ => Err(SchemaError::Malformed { of_type: String::from_str("CompleteRequestParam") }),
        }
    }

    proof fn round_trip(m: CompleteRequestParamModel) {
        Self::lemma_written(m);
        let e = Self::entries(m);
        lemma_required::<CompleteRequestParamArgument>(e, "argument"@, "CompleteRequestParam"@, m.argument);
        lemma_optional::<CompleteRequestParamContext>(e, "context"@, m.context);
        lemma_required::<Reference>(e, "ref"@, "CompleteRequestParam"@, m.reference);
    }

    proof fn decoded_valid(t: JsonTree) {
        match t {
            JsonTree::Object(e) => {
                lemma_required_valid::<CompleteRequestParamArgument>(e, "argument"@, "CompleteRequestParam"@);
                lemma_optional_valid::<CompleteRequestParamContext>(e, "context"@);
                lemma_required_valid::<Reference>(e, "ref"@, "CompleteRequestParam"@);
            },
            _ => {},
        }
    }
}

/// The request to complete an argument.
#[derive(Debug, Clone, PartialEq)]
pub struct CompleteRequest {
    /// What the host tells with the request
    pub context: PluginRequestContext,
    /// What to complete
    pub request: CompleteRequestParam,
}

/// The model of [`CompleteRequest`].
pub struct CompleteRequestModel {
    pub context: PluginRequestContextModel,
    pub request: CompleteRequestParamModel,
}

impl DeepView for CompleteRequest {
    type V = CompleteRequestModel;

    open spec fn deep_view(&self) -> CompleteRequestModel {
        CompleteRequestModel { context: self.context.deep_view(), request: self.request.deep_view() }
    }
}

impl CompleteRequest {
    /// The entries of the object that stands for a value, in the order in which
    /// they are written.
    pub open spec fn entries(m: CompleteRequestModel) -> Entries {
        let e = Seq::empty();
        let e = put::<PluginRequestContext>(e, "context"@, m.context);
        let e = put::<CompleteRequestParam>(e, "request"@, m.request);
        e
    }

    /// What is written under each name: a field that must be there is always
    /// written, also where it is empty; a field that may be left out is written
    /// where it is set and has no entry where it is not; and no other name has
    /// an entry.
    pub proof fn lemma_written(m: CompleteRequestModel)
        ensures
            lookup(Self::entries(m), "context"@) == Some(PluginRequestContext::encode(m.context)),
            lookup(Self::entries(m), "request"@) == Some(CompleteRequestParam::encode(m.request)),
            forall|key: Seq<char>|
                key != "context"@ && key != "request"@
                    ==> lookup(Self::entries(m), key) is None,
    {
        broadcast use group_lookup;

        lemma_wire_words();
    }
}

impl Wire for CompleteRequest {
    open spec fn encode(m: CompleteRequestModel) -> JsonTree {
        JsonTree::Object(Self::entries(m))
    }

    open spec fn decode(t: JsonTree) -> Result<CompleteRequestModel, SchemaFault> {
        match t {
            JsonTree::Object(e) => {
                let context = required_of::<PluginRequestContext>(e, "context"@, "CompleteRequest"@);
                let request = required_of::<CompleteRequestParam>(e, "request"@, "CompleteRequest"@);
                if context is Err {
                    Err(context->Err_0)
                } else if request is Err {
                    Err(request->Err_0)
                } else {
                    Ok(CompleteRequestModel { context: context->Ok_0, request: request->Ok_0 })
                }
            },
            _ => Err(SchemaFault::Malformed { of_type: "CompleteRequest"@ }),
        }
    }

    open spec fn valid(m: CompleteRequestModel) -> bool {
        &&& PluginRequestContext::valid(m.context)
        &&& CompleteRequestParam::valid(m.request)
    }

    fn serialize(&self) -> (out: JsonValue) {
        let mut fields: Vec<(String, JsonValue)> = Vec::new();
        assert(entries_of(fields@) =~= Seq::empty());
        push_field::<PluginRequestContext>(&mut fields, "context", &self.context);
        push_field::<CompleteRequestParam>(&mut fields, "request", &self.request);
        proof {
            lemma_object_view(fields);
        }
        JsonValue::Object(fields)
    }

    fn deserialize(value: &JsonValue) -> (out: Result<CompleteRequest, SchemaError>) {
        match value {
            JsonValue::Object(fields) => {
                proof {
                    lemma_object_view(*fields);
                }
                let context = required::<PluginRequestContext>(fields, "context", "CompleteRequest")?;
                let request = required::<CompleteRequestParam>(fields, "request", "CompleteRequest")?;
                Ok(CompleteRequest { context, request })
            },
            _ => Err(SchemaError::Malformed { of_type: String::from_str("CompleteRequest") }),
        }
    }

    proof fn round_trip(m: CompleteRequestModel) {
        Self::lemma_written(m);
        let e = Self::entries(m);
        lemma_required::<PluginRequestContext>(e, "context"@, "CompleteRequest"@, m.context);
        lemma_required::<CompleteRequestParam>(e, "request"@, "CompleteRequest"@, m.request);
    }

    proof fn decoded_valid(t: JsonTree) {
        match t {
            JsonTree::Object(e) => {
                lemma_required_valid::<PluginRequestContext>(e, "context"@, "CompleteRequest"@);
                lemma_required_valid::<CompleteRequestParam>(e, "request"@, "CompleteRequest"@);
            },
            _ => {},
        }
    }
}

/// The completions of an argument. The protocol advises at most 100 values and
/// does not enforce it.
#[derive(Debug, Clone, PartialEq, Default)]
pub struct CompleteResultCompletion {
    /// Whether there are more completions available
    pub has_more: Option<bool>,
    /// Total number of available completions
    pub total: Option<i64>,
    /// Array of completion values
    pub values: Vec<String>,
}

/// The model of [`CompleteResultCompletion`].
pub struct CompleteResultCompletionModel {
    pub has_more: Option<bool>,
    pub total: Option<i64>,
    pub values: Seq<Seq<char>>,
}

impl DeepView for CompleteResultCompletion {
    type V = CompleteResultCompletionModel;

    open spec fn deep_view(&self) -> CompleteResultCompletionModel {
        CompleteResultCompletionModel {
            has_more: self.has_more.deep_view(),
            total: self.total.deep_view(),
            values: self.values.deep_view(),
        }
    }
}

impl CompleteResultCompletion {
    /// The entries of the object that stands for a value, in the order in which
    /// they are written.
    pub open spec fn entries(m: CompleteResultCompletionModel) -> Entries {
        let e = Seq::empty();
        let e = put_some::<bool>(e, "hasMore"@, m.has_more);
        let e = put_some::<i64>(e, "total"@, m.total);
        let e = put::<Vec<String>>(e, "values"@, m.values);
        e
    }

    /// What is written under each name: a field that must be there is always
    /// written, also where it is empty; a field that may be left out is written
    /// where it is set and has no entry where it is not; and no other name has
    /// an entry.
    pub proof fn lemma_written(m: CompleteResultCompletionModel)
        ensures
            lookup(Self::entries(m), "hasMore"@) == encoded_some::<bool>(m.has_more),
            lookup(Self::entries(m), "total"@) == encoded_some::<i64>(m.total),
            lookup(Self::entries(m), "values"@) == Some(<Vec<String>>::encode(m.values)),
            forall|key: Seq<char>|
                key != "hasMore"@ && key != "total"@ && key != "values"@
                    ==> lookup(Self::entries(m), key) is None,
    {
        broadcast use group_lookup;

        lemma_wire_words();
    }
}

impl Wire for CompleteResultCompletion {
    open spec fn encode(m: CompleteResultCompletionModel) -> JsonTree {
        JsonTree::Object(Self::entries(m))
    }

    open spec fn decode(t: JsonTree) -> Result<CompleteResultCompletionModel, SchemaFault> {
        match t {
            JsonTree::Object(e) => {
                let has_more = optional_of::<bool>(e, "hasMore"@);
                let total = optional_of::<i64>(e, "total"@);
                let values = required_of::<Vec<String>>(e, "values"@, "CompleteResultCompletion"@);
                if has_more is Err {
                    Err(has_more->Err_0)
                } else if total is Err {
                    Err(total->Err_0)
                } else if values is Err {
                    Err(values->Err_0)
                } else {
                    Ok(
                        CompleteResultCompletionModel {
                            has_more: has_more->Ok_0,
                            total: total->Ok_0,
                            values: values->Ok_0,
                        },
                    )
                }
            },
            _ => Err(SchemaFault::Malformed { of_type: "CompleteResultCompletion"@ }),
        }
    }

    open spec fn valid(m: CompleteResultCompletionModel) -> bool {
        &&& valid_some::<bool>(m.has_more)
        &&& valid_some::<i64>(m.total)
        &&& <Vec<String>>::valid(m.values)
    }

    fn serialize(&self) -> (out: JsonValue) {
        let mut fields: Vec<(String, JsonValue)> = Vec::new();
        assert(entries_of(fields@) =~= Seq::empty());
        push_some::<bool>(&mut fields, "hasMore", &self.has_more);
        push_some::<i64>(&mut fields, "total", &self.total);
        push_field::<Vec<String>>(&mut fields, "values", &self.values);
        proof {
            lemma_object_view(fields);
        }
        JsonValue::Object(fields)
    }

    fn deserialize(value: &JsonValue) -> (out: Result<CompleteResultCompletion, SchemaError>) {
        match value {
            JsonValue::Object(fields) => {
                proof {
                    lemma_object_view(*fields);
                }
                let has_more = optional::<bool>(fields, "hasMore")?;
                let total = optional::<i64>(fields, "total")?;
                let values = required::<Vec<String>>(fields, "values", "CompleteResultCompletion")?;
                Ok(CompleteResultCompletion { has_more, total, values })
            },
            _ => Err(SchemaError::Malformed { of_type: String::from_str("CompleteResultCompletion") }),
        }
    }

    proof fn round_trip(m: CompleteResultCompletionModel) {
        Self::lemma_written(m);
        let e = Self::entries(m);
        lemma_optional::<bool>(e, "hasMore"@, m.has_more);
        lemma_optional::<i64>(e, "total"@, m.total);
        lemma_required::<Vec<String>>(e, "values"@, "CompleteResultCompletion"@, m.values);
    }

    proof fn decoded_valid(t: JsonTree) {
        match t {
            JsonTree::Object(e) => {
                lemma_optional_valid::<bool>(e, "hasMore"@);
                lemma_optional_valid::<i64>(e, "total"@);
                lemma_required_valid::<Vec<String>>(e, "values"@, "CompleteResultCompletion"@);
            },
            _ => {},
        }
    }
}

/// The answer to a request to complete an argument.
#[derive(Debug, Clone, PartialEq, Default)]
pub struct CompleteResult {
    /// The completions
    pub completion: CompleteResultCompletion,
}

/// The model of [`CompleteResult`].
pub struct CompleteResultModel {
    pub completion: CompleteResultCompletionModel,
}

impl DeepView for CompleteResult {
    type V = CompleteResultModel;

    open spec fn deep_view(&self) -> CompleteResultModel {
        CompleteResultModel { completion: self.completion.deep_view() }
    }
}

impl CompleteResult {
    /// The entries of the object that stands for a value, in the order in which
    /// they are written.
    pub open spec fn entries(m: CompleteResultModel) -> Entries {
        let e = Seq::empty();
        let e = put::<CompleteResultCompletion>(e, "completion"@, m.completion);
        e
    }

    /// What is written under each name: a field that must be there is always
    /// written, also where it is empty; a field that may be left out is written
    /// where it is set and has no entry where it is not; and no other name has
    /// an entry.
    pub proof fn lemma_written(m: CompleteResultModel)
        ensures
            lookup(Self::entries(m), "completion"@) == Some(CompleteResultCompletion::encode(m.completion)),
            forall|key: Seq<char>| key != "completion"@ ==> lookup(Self::entries(m), key) is None,
    {
        broadcast use group_lookup;

        lemma_wire_words();
    }
}

impl Wire for CompleteResult {
    open spec fn encode(m: CompleteResultModel) -> JsonTree {
        JsonTree::Object(Self::entries(m))
    }

    open spec fn decode(t: JsonTree) -> Result<CompleteResultModel, SchemaFault> {
        match t {
            JsonTree::Object(e) => {
                let completion = required_of::<CompleteResultCompletion>(e, "completion"@, "CompleteResult"@);
                if completion is Err {
                    Err(completion->Err_0)
                } else {
                    Ok(CompleteResultModel { completion: completion->Ok_0 })
                }
            },
            _ => Err(SchemaFault::Malformed { of_type: "CompleteResult"@ }),
        }
    }

    open spec fn valid(m: CompleteResultModel) -> bool {
        &&& CompleteResultCompletion::valid(m.completion)
    }

    fn serialize(&self) -> (out: JsonValue) {
        let mut fields: Vec<(String, JsonValue)> = Vec::new();
        assert(entries_of(fields@) =~= Seq::empty());
        push_field::<CompleteResultCompletion>(&mut fields, "completion", &self.completion);
        proof {
            lemma_object_view(fields);
        }
        JsonValue::Object(fields)
    }

    fn deserialize(value: &JsonValue) -> (out: Result<CompleteResult, SchemaError>) {
        match value {
            JsonValue::Object(fields) => {
                proof {
                    lemma_object_view(*fields);
                }
                let completion = required::<CompleteResultCompletion>(fields, "completion", "CompleteResult")?;
                Ok(CompleteResult { completion })
            },
            _ => Err(SchemaError::Malformed { of_type: String::from_str("CompleteResult") }),
        }
    }

    proof fn round_trip(m: CompleteResultModel) {
        Self::lemma_written(m);
        let e = Self::entries(m);
        lemma_required::<CompleteResultCompletion>(e, "completion"@, "CompleteResult"@, m.completion);
    }

    proof fn decoded_valid(t: JsonTree) {
        match t {
            JsonTree::Object(e) => {
                lemma_required_valid::<CompleteResultCompletion>(e, "completion"@, "CompleteResult"@);
            },
            _ => {},
        }
    }
}

} // verus!
