//! Resources, their templates and roots, and the requests to list and to read them.

use vstd::prelude::*;
use crate::content::{Annotations, AnnotationsModel, ResourceContents, ResourceContentsModel};
use crate::context::{PluginRequestContext, PluginRequestContextModel};
use crate::error::{SchemaError, SchemaFault};
use crate::json::{Entries, JsonTree, JsonValue, entries_of, lemma_object_view};
use crate::wire::{
    Wire,
    encoded_some,
    group_lookup,
    lemma_optional,
    lemma_optional_valid,
    lemma_required,
    lemma_required_valid,
    lookup,
    optional,
    optional_of,
    push_field,
    push_some,
    put,
    put_some,
    required,
    required_of,
    valid_some,
};
use crate::words::lemma_wire_words;

verus! {

/// A resource that a plugin can read.
#[derive(Debug, Clone, PartialEq, Default)]
pub struct Resource {
    /// Optional resource annotations
    pub annotations: Option<Annotations>,
    /// Description of the resource
    pub description: Option<String>,
    /// MIME type of the resource
    pub mime_type: Option<String>,
    /// Human-readable name
    pub name: String,
    /// Size in bytes
    pub size: Option<i64>,
    /// Human-readable title
    pub title: Option<String>,
    /// URI of the resource
    pub uri: String,
}

/// The model of [`Resource`].
pub struct ResourceModel {
    pub annotations: Option<AnnotationsModel>,
    pub description: Option<Seq<char>>,
    pub mime_type: Option<Seq<char>>,
    pub name: Seq<char>,
    pub size: Option<i64>,
    pub title: Option<Seq<char>>,
    pub uri: Seq<char>,
}

impl DeepView for Resource {
    type V = ResourceModel;

    open spec fn deep_view(&self) -> ResourceModel {
        ResourceModel {
            annotations: self.annotations.deep_view(),
            description: self.description.deep_view(),
            mime_type: self.mime_type.deep_view(),
            name: self.name.deep_view(),
            size: self.size.deep_view(),
            title: self.title.deep_view(),
            uri: self.uri.deep_view(),
        }
    }
}

impl Resource {
    /// The entries of the object that stands for a value, in the order in which
    /// they are written.
    pub open spec fn entries(m: ResourceModel) -> Entries {
        let e = Seq::empty();
        let e = put_some::<Annotations>(e, "annotations"@, m.annotations);
        let e = put_some::<String>(e, "description"@, m.description);
        let e = put_some::<String>(e, "mimeType"@, m.mime_type);
        let e = put::<String>(e, "name"@, m.name);
        let e = put_some::<i64>(e, "size"@, m.size);
        let e = put_some::<String>(e, "title"@, m.title);
        let e = put::<String>(e, "uri"@, m.uri);
        e
    }

    /// What is written under each name: a field that must be there is always
    /// written, also where it is empty; a field that may be left out is written
    /// where it is set and has no entry where it is not; and no other name has
    /// an entry.
    pub proof fn lemma_written(m: ResourceModel)
        ensures
            lookup(Self::entries(m), "annotations"@) == encoded_some::<Annotations>(m.annotations),
            lookup(Self::entries(m), "description"@) == encoded_some::<String>(m.description),
            lookup(Self::entries(m), "mimeType"@) == encoded_some::<String>(m.mime_type),
            lookup(Self::entries(m), "name"@) == Some(String::encode(m.name)),
            lookup(Self::entries(m), "size"@) == encoded_some::<i64>(m.size),
            lookup(Self::entries(m), "title"@) == encoded_some::<String>(m.title),
            lookup(Self::entries(m), "uri"@) == Some(String::encode(m.uri)),
            forall|key: Seq<char>|
                key != "annotations"@ && key != "description"@ && key != "mimeType"@ &&
                    key != "name"@ && key != "size"@ && key != "title"@ && key != "uri"@
                    ==> lookup(Self::entries(m), key) is None,
    {
        broadcast use group_lookup;

        lemma_wire_words();
    }
}

impl Wire for Resource {
    open spec fn encode(m: ResourceModel) -> JsonTree {
        JsonTree::Object(Self::entries(m))
    }

    open spec fn decode(t: JsonTree) -> Result<ResourceModel, SchemaFault> {
        match t {
            JsonTree::Object(e) => {
                let annotations = optional_of::<Annotations>(e, "annotations"@);
                let description = optional_of::<String>(e, "description"@);
                let mime_type = optional_of::<String>(e, "mimeType"@);
                let name = required_of::<String>(e, "name"@, "Resource"@);
                let size = optional_of::<i64>(e, "size"@);
                let title = optional_of::<String>(e, "title"@);
                let uri = required_of::<String>(e, "uri"@, "Resource"@);
                if annotations is Err {
                    Err(annotations->Err_0)
                } else if description is Err {
                    Err(description->Err_0)
                } else if mime_type is Err {
                    Err(mime_type->Err_0)
                } else if name is Err {
                    Err(name->Err_0)
                } else if size is Err {
                    Err(size->Err_0)
                } else if title is Err {
                    Err(title->Err_0)
                } else if uri is Err {
                    Err(uri->Err_0)
                } else {
                    Ok(
                        ResourceModel {
                            annotations: annotations->Ok_0,
                            description: description->Ok_0,
                            mime_type: mime_type->Ok_0,
                            name: name->Ok_0,
                            size: size->Ok_0,
                            title: title->Ok_0,
                            uri: uri->Ok_0,
                        },
                    )
                }
            },
            _ => Err(SchemaFault::Malformed { of_type: "Resource"@ }),
        }
    }

    open spec fn valid(m: ResourceModel) -> bool {
        &&& valid_some::<Annotations>(m.annotations)
        &&& valid_some::<String>(m.description)
        &&& valid_some::<String>(m.mime_type)
        &&& String::valid(m.name)
        &&& valid_some::<i64>(m.size)
        &&& valid_some::<String>(m.title)
        &&& String::valid(m.uri)
    }

    fn serialize(&self) -> (out: JsonValue) {
        let mut fields: Vec<(String, JsonValue)> = Vec::new();
        assert(entries_of(fields@) =~= Seq::empty());
        push_some::<Annotations>(&mut fields, "annotations", &self.annotations);
        push_some::<String>(&mut fields, "description", &self.description);
        push_some::<String>(&mut fields, "mimeType", &self.mime_type);
        push_field::<String>(&mut fields, "name", &self.name);
        push_some::<i64>(&mut fields, "size", &self.size);
        push_some::<String>(&mut fields, "title", &self.title);
        push_field::<String>(&mut fields, "uri", &self.uri);
        proof {
            lemma_object_view(fields);
        }
        JsonValue::Object(fields)
    }

    fn deserialize(value: &JsonValue) -> (out: Result<Resource, SchemaError>) {
        match value {
            JsonValue::Object(fields) => {
                proof {
                    lemma_object_view(*fields);
                }
                let annotations = optional::<Annotations>(fields, "annotations")?;
                let description = optional::<String>(fields, "description")?;
                let mime_type = optional::<String>(fields, "mimeType")?;
                let name = required::<String>(fields, "name", "Resource")?;
                let size = optional::<i64>(fields, "size")?;
                let title = optional::<String>(fields, "title")?;
                let uri = required::<String>(fields, "uri", "Resource")?;
                Ok(Resource { annotations, description, mime_type, name, size, title, uri })
            },
            _ => Err(SchemaError::Malformed { of_type: String::from_str("Resource") }),
        }
    }

    proof fn round_trip(m: ResourceModel) {
        Self::lemma_written(m);
        let e = Self::entries(m);
        lemma_optional::<Annotations>(e, "annotations"@, m.annotations);
        lemma_optional::<String>(e, "description"@, m.description);
        lemma_optional::<String>(e, "mimeType"@, m.mime_type);
        lemma_required::<String>(e, "name"@, "Resource"@, m.name);
        lemma_optional::<i64>(e, "size"@, m.size);
        lemma_optional::<String>(e, "title"@, m.title);
        lemma_required::<String>(e, "uri"@, "Resource"@, m.uri);
    }

    proof fn decoded_valid(t: JsonTree) {
        match t {
            JsonTree::Object(e) => {
                lemma_optional_valid::<Annotations>(e, "annotations"@);
                lemma_optional_valid::<String>(e, "description"@);
                lemma_optional_valid::<String>(e, "mimeType"@);
                lemma_required_valid::<String>(e, "name"@, "Resource"@);
                lemma_optional_valid::<i64>(e, "size"@);
                lemma_optional_valid::<String>(e, "title"@);
                lemma_required_valid::<String>(e, "uri"@, "Resource"@);
            },
            _ => {},
        }
    }
}

/// A template of the URIs of resources that a plugin can read.
#[derive(Debug, Clone, PartialEq, Default)]
pub struct ResourceTemplate {
    /// Optional resource annotations
    pub annotations: Option<Annotations>,
    /// Description of the template
    pub description: Option<String>,
    /// MIME type for resources matching this template
    pub mime_type: Option<String>,
    /// Human-readable name
    pub name: String,
    /// Human-readable title
    pub title: Option<String>,
    /// RFC 6570 URI template pattern
    pub uri_template: String,
}

/// The model of [`ResourceTemplate`].
pub struct ResourceTemplateModel {
    pub annotations: Option<AnnotationsModel>,
    pub description: Option<Seq<char>>,
    pub mime_type: Option<Seq<char>>,
    pub name: Seq<char>,
    pub title: Option<Seq<char>>,
    pub uri_template: Seq<char>,
}

impl DeepView for ResourceTemplate {
    type V = ResourceTemplateModel;

    open spec fn deep_view(&self) -> ResourceTemplateModel {
        ResourceTemplateModel {
            annotations: self.annotations.deep_view(),
            description: self.description.deep_view(),
            mime_type: self.mime_type.deep_view(),
            name: self.name.deep_view(),
            title: self.title.deep_view(),
            uri_template: self.uri_template.deep_view(),
        }
    }
}

impl ResourceTemplate {
    /// The entries of the object that stands for a value, in the order in which
    /// they are written.
    pub open spec fn entries(m: ResourceTemplateModel) -> Entries {
        let e = Seq::empty();
        let e = put_some::<Annotations>(e, "annotations"@, m.annotations);
        let e = put_some::<String>(e, "description"@, m.description);
        let e = put_some::<String>(e, "mimeType"@, m.mime_type);
        let e = put::<String>(e, "name"@, m.name);
        let e = put_some::<String>(e, "title"@, m.title);
        let e = put::<String>(e, "uriTemplate"@, m.uri_template);
        e
    }

    /// What is written under each name: a field that must be there is always
    /// written, also where it is empty; a field that may be left out is written
    /// where it is set and has no entry where it is not; and no other name has
    /// an entry.
    pub proof fn lemma_written(m: ResourceTemplateModel)
        ensures
            lookup(Self::entries(m), "annotations"@) == encoded_some::<Annotations>(m.annotations),
            lookup(Self::entries(m), "description"@) == encoded_some::<String>(m.description),
            lookup(Self::entries(m), "mimeType"@) == encoded_some::<String>(m.mime_type),
            lookup(Self::entries(m), "name"@) == Some(String::encode(m.name)),
            lookup(Self::entries(m), "title"@) == encoded_some::<String>(m.title),
            lookup(Self::entries(m), "uriTemplate"@) == Some(String::encode(m.uri_template)),
            forall|key: Seq<char>|
                key != "annotations"@ && key != "description"@ && key != "mimeType"@ &&
                    key != "name"@ && key != "title"@ && key != "uriTemplate"@
                    ==> lookup(Self::entries(m), key) is None,
    {
        broadcast use group_lookup;

        lemma_wire_words();
    }
}

impl Wire for ResourceTemplate {
    open spec fn encode(m: ResourceTemplateModel) -> JsonTree {
        JsonTree::Object(Self::entries(m))
    }

    open spec fn decode(t: JsonTree) -> Result<ResourceTemplateModel, SchemaFault> {
        match t {
            JsonTree::Object(e) => {
                let annotations = optional_of::<Annotations>(e, "annotations"@);
                let description = optional_of::<String>(e, "description"@);
                let mime_type = optional_of::<String>(e, "mimeType"@);
                let name = required_of::<String>(e, "name"@, "ResourceTemplate"@);
                let title = optional_of::<String>(e, "title"@);
                let uri_template = required_of::<String>(e, "uriTemplate"@, "ResourceTemplate"@);
                if annotations is Err {
                    Err(annotations->Err_0)
                } else if description is Err {
                    Err(description->Err_0)
                } else if mime_type is Err {
                    Err(mime_type->Err_0)
                } else if name is Err {
                    Err(name->Err_0)
                } else if title is Err {
                    Err(title->Err_0)
                } else if uri_template is Err {
                    Err(uri_template->Err_0)
                } else {
                    Ok(
                        ResourceTemplateModel {
                            annotations: annotations->Ok_0,
                            description: description->Ok_0,
                            mime_type: mime_type->Ok_0,
                            name: name->Ok_0,
                            title: title->Ok_0,
                            uri_template: uri_template->Ok_0,
                        },
                    )
                }
            },
            _ => Err(SchemaFault::Malformed { of_type: "ResourceTemplate"@ }),
        }
    }

    open spec fn valid(m: ResourceTemplateModel) -> bool {
        &&& valid_some::<Annotations>(m.annotations)
        &&& valid_some::<String>(m.description)
        &&& valid_some::<String>(m.mime_type)
        &&& String::valid(m.name)
        &&& valid_some::<String>(m.title)
        &&& String::valid(m.uri_template)
    }

    fn serialize(&self) -> (out: JsonValue) {
        let mut fields: Vec<(String, JsonValue)> = Vec::new();
        assert(entries_of(fields@) =~= Seq::empty());
        push_some::<Annotations>(&mut fields, "annotations", &self.annotations);
        push_some::<String>(&mut fields, "description", &self.description);
        push_some::<String>(&mut fields, "mimeType", &self.mime_type);
        push_field::<String>(&mut fields, "name", &self.name);
        push_some::<String>(&mut fields, "title", &self.title);
        push_field::<String>(&mut fields, "uriTemplate", &self.uri_template);
        proof {
            lemma_object_view(fields);
        }
        JsonValue::Object(fields)
    }

    fn deserialize(value: &JsonValue) -> (out: Result<ResourceTemplate, SchemaError>) {
        match value {
            JsonValue::Object(fields) => {
                proof {
                    lemma_object_view(*fields);
                }
                let annotations = optional::<Annotations>(fields, "annotations")?;
                let description = optional::<String>(fields, "description")?;
                let mime_type = optional::<String>(fields, "mimeType")?;
                let name = required::<String>(fields, "name", "ResourceTemplate")?;
                let title = optional::<String>(fields, "title")?;
                let uri_template = required::<String>(fields, "uriTemplate", "ResourceTemplate")?;
                Ok(
                    ResourceTemplate {
                        annotations,
                        description,
                        mime_type,
                        name,
                        title,
                        uri_template,
                    },
                )
            },
            _ => Err(SchemaError::Malformed { of_type: String::from_str("ResourceTemplate") }),
        }
    }

    proof fn round_trip(m: ResourceTemplateModel) {
        Self::lemma_written(m);
        let e = Self::entries(m);
        lemma_optional::<Annotations>(e, "annotations"@, m.annotations);
        lemma_optional::<String>(e, "description"@, m.description);
        lemma_optional::<String>(e, "mimeType"@, m.mime_type);
        lemma_required::<String>(e, "name"@, "ResourceTemplate"@, m.name);
        lemma_optional::<String>(e, "title"@, m.title);
        lemma_required::<String>(e, "uriTemplate"@, "ResourceTemplate"@, m.uri_template);
    }

    proof fn decoded_valid(t: JsonTree) {
        match t {
            JsonTree::Object(e) => {
                lemma_optional_valid::<Annotations>(e, "annotations"@);
                lemma_optional_valid::<String>(e, "description"@);
                lemma_optional_valid::<String>(e, "mimeType"@);
                lemma_required_valid::<String>(e, "name"@, "ResourceTemplate"@);
                lemma_optional_valid::<String>(e, "title"@);
                lemma_required_valid::<String>(e, "uriTemplate"@, "ResourceTemplate"@);
            },
            _ => {},
        }
    }
}

/// A root under which a client lets a plugin work.
#[derive(Debug, Clone, PartialEq, Default)]
pub struct Root {
    /// Optional human-readable name
    pub name: Option<String>,
    /// URI of the root (typically file://)
    pub uri: String,
}

/// The model of [`Root`].
pub struct RootModel {
    pub name: Option<Seq<char>>,
    pub uri: Seq<char>,
}

impl DeepView for Root {
    type V = RootModel;

    open spec fn deep_view(&self) -> RootModel {
        RootModel { name: self.name.deep_view(), uri: self.uri.deep_view() }
    }
}

impl Root {
    /// The entries of the object that stands for a value, in the order in which
    /// they are written.
    pub open spec fn entries(m: RootModel) -> Entries {
        let e = Seq::empty();
        let e = put_some::<String>(e, "name"@, m.name);
        let e = put::<String>(e, "uri"@, m.uri);
        e
    }

    /// What is written under each name: a field that must be there is always
    /// written, also where it is empty; a field that may be left out is written
    /// where it is set and has no entry where it is not; and no other name has
    /// an entry.
    pub proof fn lemma_written(m: RootModel)
        ensures
            lookup(Self::entries(m), "name"@) == encoded_some::<String>(m.name),
            lookup(Self::entries(m), "uri"@) == Some(String::encode(m.uri)),
            forall|key: Seq<char>|
                key != "name"@ && key != "uri"@
                    ==> lookup(Self::entries(m), key) is None,
    {
        broadcast use group_lookup;

        lemma_wire_words();
    }
}

impl Wire for Root {
    open spec fn encode(m: RootModel) -> JsonTree {
        JsonTree::Object(Self::entries(m))
    }

    open spec fn decode(t: JsonTree) -> Result<RootModel, SchemaFault> {
        match t {
            JsonTree::Object(e) => {
                let name = optional_of::<String>(e, "name"@);
                let uri = required_of::<String>(e, "uri"@, "Root"@);
                if name is Err {
                    Err(name->Err_0)
                } else if uri is Err {
                    Err(uri->Err_0)
                } else {
                    Ok(RootModel { name: name->Ok_0, uri: uri->Ok_0 })
                }
            },
            _ => Err(SchemaFault::Malformed { of_type: "Root"@ }),
        }
    }

    open spec fn valid(m: RootModel) -> bool {
        &&& valid_some::<String>(m.name)
        &&& String::valid(m.uri)
    }

    fn serialize(&self) -> (out: JsonValue) {
        let mut fields: Vec<(String, JsonValue)> = Vec::new();
        assert(entries_of(fields@) =~= Seq::empty());
        push_some::<String>(&mut fields, "name", &self.name);
        push_field::<String>(&mut fields, "uri", &self.uri);
        proof {
            lemma_object_view(fields);
        }
        JsonValue::Object(fields)
    }

    fn deserialize(value: &JsonValue) -> (out: Result<Root, SchemaError>) {
        match value {
            JsonValue::Object(fields) => {
                proof {
                    lemma_object_view(*fields);
                }
                let name = optional::<String>(fields, "name")?;
                let uri = required::<String>(fields, "uri", "Root")?;
                Ok(Root { name, uri })
            },
            _ => Err(SchemaError::Malformed { of_type: String::from_str("Root") }),
        }
    }

    proof fn round_trip(m: RootModel) {
        Self::lemma_written(m);
        let e = Self::entries(m);
        lemma_optional::<String>(e, "name"@, m.name);
        lemma_required::<String>(e, "uri"@, "Root"@, m.uri);
    }

    proof fn decoded_valid(t: JsonTree) {
        match t {
            JsonTree::Object(e) => {
                lemma_optional_valid::<String>(e, "name"@);
                lemma_required_valid::<String>(e, "uri"@, "Root"@);
            },
            _ => {},
        }
    }
}

/// The request to list the resources.
#[derive(Debug, Clone, PartialEq, Default)]
pub struct ListResourcesRequest {
    /// What the host tells with the request
    pub context: PluginRequestContext,
}

/// The model of [`ListResourcesRequest`].
pub struct ListResourcesRequestModel {
    pub context: PluginRequestContextModel,
}

impl DeepView for ListResourcesRequest {
    type V = ListResourcesRequestModel;

    open spec fn deep_view(&self) -> ListResourcesRequestModel {
        ListResourcesRequestModel { context: self.context.deep_view() }
    }
}

impl ListResourcesRequest {
    /// The entries of the object that stands for a value, in the order in which
    /// they are written.
    pub open spec fn entries(m: ListResourcesRequestModel) -> Entries {
        let e = Seq::empty();
        let e = put::<PluginRequestContext>(e, "context"@, m.context);
        e
    }

    /// What is written under each name: a field that must be there is always
    /// written, also where it is empty; a field that may be left out is written
    /// where it is set and has no entry where it is not; and no other name has
    /// an entry.
    pub proof fn lemma_written(m: ListResourcesRequestModel)
        ensures
            lookup(Self::entries(m), "context"@) == Some(PluginRequestContext::encode(m.context)),
            forall|key: Seq<char>| key != "context"@ ==> lookup(Self::entries(m), key) is None,
    {
        broadcast use group_lookup;

        lemma_wire_words();
    }
}

impl Wire for ListResourcesRequest {
    open spec fn encode(m: ListResourcesRequestModel) -> JsonTree {
        JsonTree::Object(Self::entries(m))
    }

    open spec fn decode(t: JsonTree) -> Result<ListResourcesRequestModel, SchemaFault> {
        match t {
            JsonTree::Object(e) => {
                let context = required_of::<PluginRequestContext>(e, "context"@, "ListResourcesRequest"@);
                if context is Err {
                    Err(context->Err_0)
                } else {
                    Ok(ListResourcesRequestModel { context: context->Ok_0 })
                }
            },
            _ => Err(SchemaFault::Malformed { of_type: "ListResourcesRequest"@ }),
        }
    }

    open spec fn valid(m: ListResourcesRequestModel) -> bool {
        &&& PluginRequestContext::valid(m.context)
    }

    fn serialize(&self) -> (out: JsonValue) {
        let mut fields: Vec<(String, JsonValue)> = Vec::new();
        assert(entries_of(fields@) =~= Seq::empty());
        push_field::<PluginRequestContext>(&mut fields, "context", &self.context);
        proof {
            lemma_object_view(fields);
        }
        JsonValue::Object(fields)
    }

    fn deserialize(value: &JsonValue) -> (out: Result<ListResourcesRequest, SchemaError>) {
        match value {
            JsonValue::Object(fields) => {
                proof {
                    lemma_object_view(*fields);
                }
                let context = required::<PluginRequestContext>(fields, "context", "ListResourcesRequest")?;
                Ok(ListResourcesRequest { context })
            },
            _ => Err(SchemaError::Malformed { of_type: String::from_str("ListResourcesRequest") }),
        }
    }

    proof fn round_trip(m: ListResourcesRequestModel) {
        Self::lemma_written(m);
        let e = Self::entries(m);
        lemma_required::<PluginRequestContext>(e, "context"@, "ListResourcesRequest"@, m.context);
    }

    proof fn decoded_valid(t: JsonTree) {
        match t {
            JsonTree::Object(e) => {
                lemma_required_valid::<PluginRequestContext>(e, "context"@, "ListResourcesRequest"@);
            },
            _ => {},
        }
    }
}

/// The resources that a plugin can read.
#[derive(Debug, Clone, PartialEq, Default)]
pub struct ListResourcesResult {
    /// Array of available resources
    pub resources: Vec<Resource>,
}

/// The model of [`ListResourcesResult`].
pub struct ListResourcesResultModel {
    pub resources: Seq<ResourceModel>,
}

impl DeepView for ListResourcesResult {
    type V = ListResourcesResultModel;

    open spec fn deep_view(&self) -> ListResourcesResultModel {
        ListResourcesResultModel { resources: self.resources.deep_view() }
    }
}

impl ListResourcesResult {
    /// The entries of the object that stands for a value, in the order in which
    /// they are written.
    pub open spec fn entries(m: ListResourcesResultModel) -> Entries {
        let e = Seq::empty();
        let e = put::<Vec<Resource>>(e, "resources"@, m.resources);
        e
    }

    /// What is written under each name: a field that must be there is always
    /// written, also where it is empty; a field that may be left out is written
    /// where it is set and has no entry where it is not; and no other name has
    /// an entry.
    pub proof fn lemma_written(m: ListResourcesResultModel)
        ensures
            lookup(Self::entries(m), "resources"@) == Some(<Vec<Resource>>::encode(m.resources)),
            forall|key: Seq<char>| key != "resources"@ ==> lookup(Self::entries(m), key) is None,
    {
        broadcast use group_lookup;

        lemma_wire_words();
    }
}

impl Wire for ListResourcesResult {
    open spec fn encode(m: ListResourcesResultModel) -> JsonTree {
        JsonTree::Object(Self::entries(m))
    }

    open spec fn decode(t: JsonTree) -> Result<ListResourcesResultModel, SchemaFault> {
        match t {
            JsonTree::Object(e) => {
                let resources = required_of::<Vec<Resource>>(e, "resources"@, "ListResourcesResult"@);
                if resources is Err {
                    Err(resources->Err_0)
                } else {
                    Ok(ListResourcesResultModel { resources: resources->Ok_0 })
                }
            },
            _ => Err(SchemaFault::Malformed { of_type: "ListResourcesResult"@ }),
        }
    }

    open spec fn valid(m: ListResourcesResultModel) -> bool {
        &&& <Vec<Resource>>::valid(m.resources)
    }

    fn serialize(&self) -> (out: JsonValue) {
        let mut fields: Vec<(String, JsonValue)> = Vec::new();
        assert(entries_of(fields@) =~= Seq::empty());
        push_field::<Vec<Resource>>(&mut fields, "resources", &self.resources);
        proof {
            lemma_object_view(fields);
        }
        JsonValue::Object(fields)
    }

    fn deserialize(value: &JsonValue) -> (out: Result<ListResourcesResult, SchemaError>) {
        match value {
            JsonValue::Object(fields) => {
                proof {
                    lemma_object_view(*fields);
                }
                let resources = required::<Vec<Resource>>(fields, "resources", "ListResourcesResult")?;
                Ok(ListResourcesResult { resources })
            },
            _ => Err(SchemaError::Malformed { of_type: String::from_str("ListResourcesResult") }),
        }
    }

    proof fn round_trip(m: ListResourcesResultModel) {
        Self::lemma_written(m);
        let e = Self::entries(m);
        lemma_required::<Vec<Resource>>(e, "resources"@, "ListResourcesResult"@, m.resources);
    }

    proof fn decoded_valid(t: JsonTree) {
        match t {
            JsonTree::Object(e) => {
                lemma_required_valid::<Vec<Resource>>(e, "resources"@, "ListResourcesResult"@);
            },
            _ => {},
        }
    }
}

/// The request to list the resource templates.
#[derive(Debug, Clone, PartialEq, Default)]
pub struct ListResourceTemplatesRequest {
    /// What the host tells with the request
    pub context: PluginRequestContext,
}

/// The model of [`ListResourceTemplatesRequest`].
pub struct ListResourceTemplatesRequestModel {
    pub context: PluginRequestContextModel,
}

impl DeepView for ListResourceTemplatesRequest {
    type V = ListResourceTemplatesRequestModel;

    open spec fn deep_view(&self) -> ListResourceTemplatesRequestModel {
        ListResourceTemplatesRequestModel { context: self.context.deep_view() }
    }
}

impl ListResourceTemplatesRequest {
    /// The entries of the object that stands for a value, in the order in which
    /// they are written.
    pub open spec fn entries(m: ListResourceTemplatesRequestModel) -> Entries {
        let e = Seq::empty();
        let e = put::<PluginRequestContext>(e, "context"@, m.context);
        e
    }

    /// What is written under each name: a field that must be there is always
    /// written, also where it is empty; a field that may be left out is written
    /// where it is set and has no entry where it is not; and no other name has
    /// an entry.
    pub proof fn lemma_written(m: ListResourceTemplatesRequestModel)
        ensures
            lookup(Self::entries(m), "context"@) == Some(PluginRequestContext::encode(m.context)),
            forall|key: Seq<char>| key != "context"@ ==> lookup(Self::entries(m), key) is None,
    {
        broadcast use group_lookup;

        lemma_wire_words();
    }
}

impl Wire for ListResourceTemplatesRequest {
    open spec fn encode(m: ListResourceTemplatesRequestModel) -> JsonTree {
        JsonTree::Object(Self::entries(m))
    }

    open spec fn decode(t: JsonTree) -> Result<ListResourceTemplatesRequestModel, SchemaFault> {
        match t {
            JsonTree::Object(e) => {
                let context = required_of::<PluginRequestContext>(e, "context"@, "ListResourceTemplatesRequest"@);
                if context is Err {
                    Err(context->Err_0)
                } else {
                    Ok(ListResourceTemplatesRequestModel { context: context->Ok_0 })
                }
            },
            _ => Err(SchemaFault::Malformed { of_type: "ListResourceTemplatesRequest"@ }),
        }
    }

    open spec fn valid(m: ListResourceTemplatesRequestModel) -> bool {
        &&& PluginRequestContext::valid(m.context)
    }

    fn serialize(&self) -> (out: JsonValue) {
        let mut fields: Vec<(String, JsonValue)> = Vec::new();
        assert(entries_of(fields@) =~= Seq::empty());
        push_field::<PluginRequestContext>(&mut fields, "context", &self.context);
        proof {
            lemma_object_view(fields);
        }
        JsonValue::Object(fields)
    }

    fn deserialize(value: &JsonValue) -> (out: Result<ListResourceTemplatesRequest, SchemaError>) {
        match value {
            JsonValue::Object(fields) => {
                proof {
                    lemma_object_view(*fields);
                }
                let context = required::<PluginRequestContext>(fields, "context", "ListResourceTemplatesRequest")?;
                Ok(ListResourceTemplatesRequest { context })
            },
            _ => Err(SchemaError::Malformed { of_type: String::from_str("ListResourceTemplatesRequest") }),
        }
    }

    proof fn round_trip(m: ListResourceTemplatesRequestModel) {
        Self::lemma_written(m);
        let e = Self::entries(m);
        lemma_required::<PluginRequestContext>(e, "context"@, "ListResourceTemplatesRequest"@, m.context);
    }

    proof fn decoded_valid(t: JsonTree) {
        match t {
            JsonTree::Object(e) => {
                lemma_required_valid::<PluginRequestContext>(e, "context"@, "ListResourceTemplatesRequest"@);
            },
            _ => {},
        }
    }
}

/// The resource templates that a plugin offers.
#[derive(Debug, Clone, PartialEq, Default)]
pub struct ListResourceTemplatesResult {
    /// Array of resource templates
    pub resource_templates: Vec<ResourceTemplate>,
}

/// The model of [`ListResourceTemplatesResult`].
pub struct ListResourceTemplatesResultModel {
    pub resource_templates: Seq<ResourceTemplateModel>,
}

impl DeepView for ListResourceTemplatesResult {
    type V = ListResourceTemplatesResultModel;

    open spec fn deep_view(&self) -> ListResourceTemplatesResultModel {
        ListResourceTemplatesResultModel { resource_templates: self.resource_templates.deep_view() }
    }
}

impl ListResourceTemplatesResult {
    /// The entries of the object that stands for a value, in the order in which
    /// they are written.
    pub open spec fn entries(m: ListResourceTemplatesResultModel) -> Entries {
        let e = Seq::empty();
        let e = put::<Vec<ResourceTemplate>>(e, "resourceTemplates"@, m.resource_templates);
        e
    }

    /// What is written under each name: a field that must be there is always
    /// written, also where it is empty; a field that may be left out is written
    /// where it is set and has no entry where it is not; and no other name has
    /// an entry.
    pub proof fn lemma_written(m: ListResourceTemplatesResultModel)
        ensures
            lookup(Self::entries(m), "resourceTemplates"@) == Some(<Vec<ResourceTemplate>>::encode(m.resource_templates)),
            forall|key: Seq<char>|
                key != "resourceTemplates"@
                    ==> lookup(Self::entries(m), key) is None,
    {
        broadcast use group_lookup;

        lemma_wire_words();
    }
}

impl Wire for ListResourceTemplatesResult {
    open spec fn encode(m: ListResourceTemplatesResultModel) -> JsonTree {
        JsonTree::Object(Self::entries(m))
    }

    open spec fn decode(t: JsonTree) -> Result<ListResourceTemplatesResultModel, SchemaFault> {
        match t {
            JsonTree::Object(e) => {
                let resource_templates = required_of::<Vec<ResourceTemplate>>(e, "resourceTemplates"@, "ListResourceTemplatesResult"@);
                if resource_templates is Err {
                    Err(resource_templates->Err_0)
                } else {
                    Ok(ListResourceTemplatesResultModel { resource_templates: resource_templates->Ok_0 })
                }
            },
            _ => Err(SchemaFault::Malformed { of_type: "ListResourceTemplatesResult"@ }),
        }
    }

    open spec fn valid(m: ListResourceTemplatesResultModel) -> bool {
        &&& <Vec<ResourceTemplate>>::valid(m.resource_templates)
    }

    fn serialize(&self) -> (out: JsonValue) {
        let mut fields: Vec<(String, JsonValue)> = Vec::new();
        assert(entries_of(fields@) =~= Seq::empty());
        push_field::<Vec<ResourceTemplate>>(&mut fields, "resourceTemplates", &self.resource_templates);
        proof {
            lemma_object_view(fields);
        }
        JsonValue::Object(fields)
    }

    fn deserialize(value: &JsonValue) -> (out: Result<ListResourceTemplatesResult, SchemaError>) {
        match value {
            JsonValue::Object(fields) => {
                proof {
                    lemma_object_view(*fields);
                }
                let resource_templates = required::<Vec<ResourceTemplate>>(fields, "resourceTemplates", "ListResourceTemplatesResult")?;
                Ok(ListResourceTemplatesResult { resource_templates })
            },
            _ => Err(SchemaError::Malformed { of_type: String::from_str("ListResourceTemplatesResult") }),
        }
    }

    proof fn round_trip(m: ListResourceTemplatesResultModel) {
        Self::lemma_written(m);
        let e = Self::entries(m);
        lemma_required::<Vec<ResourceTemplate>>(e, "resourceTemplates"@, "ListResourceTemplatesResult"@, m.resource_templates);
    }

    proof fn decoded_valid(t: JsonTree) {
        match t {
            JsonTree::Object(e) => {
                lemma_required_valid::<Vec<ResourceTemplate>>(e, "resourceTemplates"@, "ListResourceTemplatesResult"@);
            },
            _ => {},
        }
    }
}

/// The roots that a client offers.
#[derive(Debug, Clone, PartialEq, Default)]
pub struct ListRootsResult {
    /// Array of root directories/resources
    pub roots: Vec<Root>,
}

/// The model of [`ListRootsResult`].
pub struct ListRootsResultModel {
    pub roots: Seq<RootModel>,
}

impl DeepView for ListRootsResult {
    type V = ListRootsResultModel;

    open spec fn deep_view(&self) -> ListRootsResultModel {
        ListRootsResultModel { roots: self.roots.deep_view() }
    }
}

impl ListRootsResult {
    /// The entries of the object that stands for a value, in the order in which
    /// they are written.
    pub open spec fn entries(m: ListRootsResultModel) -> Entries {
        let e = Seq::empty();
        let e = put::<Vec<Root>>(e, "roots"@, m.roots);
        e
    }

    /// What is written under each name: a field that must be there is always
    /// written, also where it is empty; a field that may be left out is written
    /// where it is set and has no entry where it is not; and no other name has
    /// an entry.
    pub proof fn lemma_written(m: ListRootsResultModel)
        ensures
            lookup(Self::entries(m), "roots"@) == Some(<Vec<Root>>::encode(m.roots)),
            forall|key: Seq<char>| key != "roots"@ ==> lookup(Self::entries(m), key) is None,
    {
        broadcast use group_lookup;

        lemma_wire_words();
    }
}

impl Wire for ListRootsResult {
    open spec fn encode(m: ListRootsResultModel) -> JsonTree {
        JsonTree::Object(Self::entries(m))
    }

    open spec fn decode(t: JsonTree) -> Result<ListRootsResultModel, SchemaFault> {
        match t {
            JsonTree::Object(e) => {
                let roots = required_of::<Vec<Root>>(e, "roots"@, "ListRootsResult"@);
                if roots is Err {
                    Err(roots->Err_0)
                } else {
                    Ok(ListRootsResultModel { roots: roots->Ok_0 })
                }
            },
            _ => Err(SchemaFault::Malformed { of_type: "ListRootsResult"@ }),
        }
    }

    open spec fn valid(m: ListRootsResultModel) -> bool {
        &&& <Vec<Root>>::valid(m.roots)
    }

    fn serialize(&self) -> (out: JsonValue) {
        let mut fields: Vec<(String, JsonValue)> = Vec::new();
        assert(entries_of(fields@) =~= Seq::empty());
        push_field::<Vec<Root>>(&mut fields, "roots", &self.roots);
        proof {
            lemma_object_view(fields);
        }
        JsonValue::Object(fields)
    }

    fn deserialize(value: &JsonValue) -> (out: Result<ListRootsResult, SchemaError>) {
        match value {
            JsonValue::Object(fields) => {
                proof {
                    lemma_object_view(*fields);
                }
                let roots = required::<Vec<Root>>(fields, "roots", "ListRootsResult")?;
                Ok(ListRootsResult { roots })
            },
            _ => Err(SchemaError::Malformed { of_type: String::from_str("ListRootsResult") }),
        }
    }

    proof fn round_trip(m: ListRootsResultModel) {
        Self::lemma_written(m);
        let e = Self::entries(m);
        lemma_required::<Vec<Root>>(e, "roots"@, "ListRootsResult"@, m.roots);
    }

    proof fn decoded_valid(t: JsonTree) {
        match t {
            JsonTree::Object(e) => {
                lemma_required_valid::<Vec<Root>>(e, "roots"@, "ListRootsResult"@);
            },
            _ => {},
        }
    }
}

/// Which resource to read.
#[derive(Debug, Clone, PartialEq, Default)]
pub struct ReadResourceRequestParam {
    /// URI of the resource to read
    pub uri: String,
}

/// The model of [`ReadResourceRequestParam`].
pub struct ReadResourceRequestParamModel {
    pub uri: Seq<char>,
}

impl DeepView for ReadResourceRequestParam {
    type V = ReadResourceRequestParamModel;

    open spec fn deep_view(&self) -> ReadResourceRequestParamModel {
        ReadResourceRequestParamModel { uri: self.uri.deep_view() }
    }
}

impl ReadResourceRequestParam {
    /// The entries of the object that stands for a value, in the order in which
    /// they are written.
    pub open spec fn entries(m: ReadResourceRequestParamModel) -> Entries {
        let e = Seq::empty();
        let e = put::<String>(e, "uri"@, m.uri);
        e
    }

    /// What is written under each name: a field that must be there is always
    /// written, also where it is empty; a field that may be left out is written
    /// where it is set and has no entry where it is not; and no other name has
    /// an entry.
    pub proof fn lemma_written(m: ReadResourceRequestParamModel)
        ensures
            lookup(Self::entries(m), "uri"@) == Some(String::encode(m.uri)),
            forall|key: Seq<char>| key != "uri"@ ==> lookup(Self::entries(m), key) is None,
    {
        broadcast use group_lookup;

        lemma_wire_words();
    }
}

impl Wire for ReadResourceRequestParam {
    open spec fn encode(m: ReadResourceRequestParamModel) -> JsonTree {
        JsonTree::Object(Self::entries(m))
    }

    open spec fn decode(t: JsonTree) -> Result<ReadResourceRequestParamModel, SchemaFault> {
        match t {
            JsonTree::Object(e) => {
                let uri = required_of::<String>(e, "uri"@, "ReadResourceRequestParam"@);
                if uri is Err {
                    Err(uri->Err_0)
                } else {
                    Ok(ReadResourceRequestParamModel { uri: uri->Ok_0 })
                }
            },
            _ => Err(SchemaFault::Malformed { of_type: "ReadResourceRequestParam"@ }),
        }
    }

    open spec fn valid(m: ReadResourceRequestParamModel) -> bool {
        &&& String::valid(m.uri)
    }

    fn serialize(&self) -> (out: JsonValue) {
        let mut fields: Vec<(String, JsonValue)> = Vec::new();
        assert(entries_of(fields@) =~= Seq::empty());
        push_field::<String>(&mut fields, "uri", &self.uri);
        proof {
            lemma_object_view(fields);
        }
        JsonValue::Object(fields)
    }

    fn deserialize(value: &JsonValue) -> (out: Result<ReadResourceRequestParam, SchemaError>) {
        match value {
            JsonValue::Object(fields) => {
                proof {
                    lemma_object_view(*fields);
                }
                let uri = required::<String>(fields, "uri", "ReadResourceRequestParam")?;
                Ok(ReadResourceRequestParam { uri })
            },
            _ => Err(SchemaError::Malformed { of_type: String::from_str("ReadResourceRequestParam") }),
        }
    }

    proof fn round_trip(m: ReadResourceRequestParamModel) {
        Self::lemma_written(m);
        let e = Self::entries(m);
        lemma_required::<String>(e, "uri"@, "ReadResourceRequestParam"@, m.uri);
    }

    proof fn decoded_valid(t: JsonTree) {
        match t {
            JsonTree::Object(e) => {
                lemma_required_valid::<String>(e, "uri"@, "ReadResourceRequestParam"@);
            },
            _ => {},
        }
    }
}

/// The request to read a resource.
#[derive(Debug, Clone, PartialEq, Default)]
pub struct ReadResourceRequest {
    /// What the host tells with the request
    pub context: PluginRequestContext,
    /// Which resource to read
    pub request: ReadResourceRequestParam,
}

/// The model of [`ReadResourceRequest`].
pub struct ReadResourceRequestModel {
    pub context: PluginRequestContextModel,
    pub request: ReadResourceRequestParamModel,
}

impl DeepView for ReadResourceRequest {
    type V = ReadResourceRequestModel;

    open spec fn deep_view(&self) -> ReadResourceRequestModel {
        ReadResourceRequestModel { context: self.context.deep_view(), request: self.request.deep_view() }
    }
}

impl ReadResourceRequest {
    /// The entries of the object that stands for a value, in the order in which
    /// they are written.
    pub open spec fn entries(m: ReadResourceRequestModel) -> Entries {
        let e = Seq::empty();
        let e = put::<PluginRequestContext>(e, "context"@, m.context);
        let e = put::<ReadResourceRequestParam>(e, "request"@, m.request);
        e
    }

    /// What is written under each name: a field that must be there is always
    /// written, also where it is empty; a field that may be left out is written
    /// where it is set and has no entry where it is not; and no other name has
    /// an entry.
    pub proof fn lemma_written(m: ReadResourceRequestModel)
        ensures
            lookup(Self::entries(m), "context"@) == Some(PluginRequestContext::encode(m.context)),
            lookup(Self::entries(m), "request"@) == Some(ReadResourceRequestParam::encode(m.request)),
            forall|key: Seq<char>|
                key != "context"@ && key != "request"@
                    ==> lookup(Self::entries(m), key) is None,
    {
        broadcast use group_lookup;

        lemma_wire_words();
    }
}

impl Wire for ReadResourceRequest {
    open spec fn encode(m: ReadResourceRequestModel) -> JsonTree {
        JsonTree::Object(Self::entries(m))
    }

    open spec fn decode(t: JsonTree) -> Result<ReadResourceRequestModel, SchemaFault> {
        match t {
            JsonTree::Object(e) => {
                let context = required_of::<PluginRequestContext>(e, "context"@, "ReadResourceRequest"@);
                let request = required_of::<ReadResourceRequestParam>(e, "request"@, "ReadResourceRequest"@);
                if context is Err {
                    Err(context->Err_0)
                } else if request is Err {
                    Err(request->Err_0)
                } else {
                    Ok(ReadResourceRequestModel { context: context->Ok_0, request: request->Ok_0 })
                }
            },
            _ => Err(SchemaFault::Malformed { of_type: "ReadResourceRequest"@ }),
        }
    }

    open spec fn valid(m: ReadResourceRequestModel) -> bool {
        &&& PluginRequestContext::valid(m.context)
        &&& ReadResourceRequestParam::valid(m.request)
    }

    fn serialize(&self) -> (out: JsonValue) {
        let mut fields: Vec<(String, JsonValue)> = Vec::new();
        assert(entries_of(fields@) =~= Seq::empty());
        push_field::<PluginRequestContext>(&mut fields, "context", &self.context);
        push_field::<ReadResourceRequestParam>(&mut fields, "request", &self.request);
        proof {
            lemma_object_view(fields);
        }
        JsonValue::Object(fields)
    }

    fn deserialize(value: &JsonValue) -> (out: Result<ReadResourceRequest, SchemaError>) {
        match value {
            JsonValue::Object(fields) => {
                proof {
                    lemma_object_view(*fields);
                }
                let context = required::<PluginRequestContext>(fields, "context", "ReadResourceRequest")?;
                let request = required::<ReadResourceRequestParam>(fields, "request", "ReadResourceRequest")?;
                Ok(ReadResourceRequest { context, request })
            },
            _ => Err(SchemaError::Malformed { of_type: String::from_str("ReadResourceRequest") }),
        }
    }

    proof fn round_trip(m: ReadResourceRequestModel) {
        Self::lemma_written(m);
        let e = Self::entries(m);
        lemma_required::<PluginRequestContext>(e, "context"@, "ReadResourceRequest"@, m.context);
        lemma_required::<ReadResourceRequestParam>(e, "request"@, "ReadResourceRequest"@, m.request);
    }

    proof fn decoded_valid(t: JsonTree) {
        match t {
            JsonTree::Object(e) => {
                lemma_required_valid::<PluginRequestContext>(e, "context"@, "ReadResourceRequest"@);
                lemma_required_valid::<ReadResourceRequestParam>(e, "request"@, "ReadResourceRequest"@);
            },
            _ => {},
        }
    }
}

/// What a resource holds.
#[derive(Debug, Clone, PartialEq, Default)]
pub struct ReadResourceResult {
    /// Array of TextResourceContents or BlobResourceContents
    pub contents: Vec<ResourceContents>,
}

/// The model of [`ReadResourceResult`].
pub struct ReadResourceResultModel {
    pub contents: Seq<ResourceContentsModel>,
}

impl DeepView for ReadResourceResult {
    type V = ReadResourceResultModel;

    open spec fn deep_view(&self) -> ReadResourceResultModel {
        ReadResourceResultModel { contents: self.contents.deep_view() }
    }
}

impl ReadResourceResult {
    /// The entries of the object that stands for a value, in the order in which
    /// they are written.
    pub open spec fn entries(m: ReadResourceResultModel) -> Entries {
        let e = Seq::empty();
        let e = put::<Vec<ResourceContents>>(e, "contents"@, m.contents);
        e
    }

    /// What is written under each name: a field that must be there is always
    /// written, also where it is empty; a field that may be left out is written
    /// where it is set and has no entry where it is not; and no other name has
    /// an entry.
    pub proof fn lemma_written(m: ReadResourceResultModel)
        ensures
            lookup(Self::entries(m), "contents"@) == Some(<Vec<ResourceContents>>::encode(m.contents)),
            forall|key: Seq<char>| key != "contents"@ ==> lookup(Self::entries(m), key) is None,
    {
        broadcast use group_lookup;

        lemma_wire_words();
    }
}

impl Wire for ReadResourceResult {
    open spec fn encode(m: ReadResourceResultModel) -> JsonTree {
        JsonTree::Object(Self::entries(m))
    }

    open spec fn decode(t: JsonTree) -> Result<ReadResourceResultModel, SchemaFault> {
        match t {
            JsonTree::Object(e) => {
                let contents = required_of::<Vec<ResourceContents>>(e, "contents"@, "ReadResourceResult"@);
                if contents is Err {
                    Err(contents->Err_0)
                } else {
                    Ok(ReadResourceResultModel { contents: contents->Ok_0 })
                }
            },
            _ => Err(SchemaFault::Malformed { of_type: "ReadResourceResult"@ }),
        }
    }

    open spec fn valid(m: ReadResourceResultModel) -> bool {
        &&& <Vec<ResourceContents>>::valid(m.contents)
    }

    fn serialize(&self) -> (out: JsonValue) {
        let mut fields: Vec<(String, JsonValue)> = Vec::new();
        assert(entries_of(fields@) =~= Seq::empty());
        push_field::<Vec<ResourceContents>>(&mut fields, "contents", &self.contents);
        proof {
            lemma_object_view(fields);
        }
        JsonValue::Object(fields)
    }

    fn deserialize(value: &JsonValue) -> (out: Result<ReadResourceResult, SchemaError>) {
        match value {
            JsonValue::Object(fields) => {
                proof {
                    lemma_object_view(*fields);
                }
                let contents = required::<Vec<ResourceContents>>(fields, "contents", "ReadResourceResult")?;
                Ok(ReadResourceResult { contents })
            },
            _ => Err(SchemaError::Malformed { of_type: String::from_str("ReadResourceResult") }),
        }
    }

    proof fn round_trip(m: ReadResourceResultModel) {
        Self::lemma_written(m);
        let e = Self::entries(m);
        lemma_required::<Vec<ResourceContents>>(e, "contents"@, "ReadResourceResult"@, m.contents);
    }

    proof fn decoded_valid(t: JsonTree) {
        match t {
            JsonTree::Object(e) => {
                lemma_required_valid::<Vec<ResourceContents>>(e, "contents"@, "ReadResourceResult"@);
            },
            _ => {},
        }
    }
}

/// A resource without a description is written without the field
/// `description`: the object has no entry of that name, not one that holds
/// `null`.
pub proof fn lemma_resource_omits_description(m: ResourceModel)
    requires
        m.description is None,
    ensures
        lookup(Resource::entries(m), "description"@) is None,
{
    Resource::lemma_written(m);
}

/// A resource with a description is written with it under `description`.
pub proof fn lemma_resource_writes_description(m: ResourceModel, text: Seq<char>)
    requires
        m.description == Some(text),
    ensures
        lookup(Resource::entries(m), "description"@) == Some(JsonTree::String(text)),
{
    Resource::lemma_written(m);
}

} // verus!
