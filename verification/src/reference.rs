//! References to prompts and to resource templates.

use vstd::prelude::*;
use crate::content::{Empty, EmptyModel};
use crate::error::{SchemaError, SchemaFault};
use crate::json::{Entries, JsonTree, JsonValue, entries_of, lemma_object_view};
use crate::wire::{
    Tagged,
    Wire,
    discriminator,
    encoded_some,
    group_lookup,
    lemma_optional,
    lemma_optional_valid,
    lemma_other_tag_refused,
    lemma_required,
    lemma_required_valid,
    lookup,
    optional,
    optional_of,
    push_field,
    push_some,
    push_text,
    put,
    put_some,
    put_text,
    required,
    required_of,
    tagged,
    tagged_of,
    valid_some,
};
use crate::words::lemma_wire_words;

verus! {

/// A reference to a prompt, by name.
#[derive(Debug, Clone, PartialEq, Default)]
pub struct PromptReference {
    /// Name of the prompt
    pub name: String,
    /// Optional human-readable title
    pub title: Option<String>,
}

/// The model of [`PromptReference`].
pub struct PromptReferenceModel {
    pub name: Seq<char>,
    pub title: Option<Seq<char>>,
}

impl DeepView for PromptReference {
    type V = PromptReferenceModel;

    open spec fn deep_view(&self) -> PromptReferenceModel {
        PromptReferenceModel { name: self.name.deep_view(), title: self.title.deep_view() }
    }
}

impl PromptReference {
    /// The entries of the object that stands for a value, in the order in which
    /// they are written.
    pub open spec fn entries(m: PromptReferenceModel) -> Entries {
        let e = Seq::empty();
        let e = put::<String>(e, "name"@, m.name);
        let e = put_some::<String>(e, "title"@, m.title);
        let e = put_text(e, "type"@, "prompt"@);
        e
    }

    /// What is written under each name: a field that must be there is always
    /// written, also where it is empty; a field that may be left out is written
    /// where it is set and has no entry where it is not; and no other name has
    /// an entry.
    pub proof fn lemma_written(m: PromptReferenceModel)
        ensures
            lookup(Self::entries(m), "name"@) == Some(String::encode(m.name)),
            lookup(Self::entries(m), "title"@) == encoded_some::<String>(m.title),
            lookup(Self::entries(m), "type"@) == Some(JsonTree::String("prompt"@)),
            forall|key: Seq<char>|
                key != "name"@ && key != "title"@ && key != "type"@
                    ==> lookup(Self::entries(m), key) is None,
    {
        broadcast use group_lookup;

        lemma_wire_words();
    }
}

/// Written as an object with the discriminator `"type": "prompt"`. A value is read
/// field by field, and the discriminator is checked last.
impl Wire for PromptReference {
    open spec fn encode(m: PromptReferenceModel) -> JsonTree {
        JsonTree::Object(Self::entries(m))
    }

    open spec fn decode(t: JsonTree) -> Result<PromptReferenceModel, SchemaFault> {
        match t {
            JsonTree::Object(e) => {
                let name = required_of::<String>(e, "name"@, "PromptReference"@);
                let title = optional_of::<String>(e, "title"@);
                let tag = tagged_of(e, "type"@, "prompt"@, "PromptReference"@);
                if name is Err {
                    Err(name->Err_0)
                } else if title is Err {
                    Err(title->Err_0)
                } else if tag is Err {
                    Err(tag->Err_0)
                } else {
                    Ok(PromptReferenceModel { name: name->Ok_0, title: title->Ok_0 })
                }
            },
            _ => Err(SchemaFault::Malformed { of_type: "PromptReference"@ }),
        }
    }

    open spec fn valid(m: PromptReferenceModel) -> bool {
        &&& String::valid(m.name)
        &&& valid_some::<String>(m.title)
    }

    fn serialize(&self) -> (out: JsonValue) {
        let mut fields: Vec<(String, JsonValue)> = Vec::new();
        assert(entries_of(fields@) =~= Seq::empty());
        push_field::<String>(&mut fields, "name", &self.name);
        push_some::<String>(&mut fields, "title", &self.title);
        push_text(&mut fields, "type", "prompt");
        proof {
            lemma_object_view(fields);
        }
        JsonValue::Object(fields)
    }

    fn deserialize(value: &JsonValue) -> (out: Result<PromptReference, SchemaError>) {
        match value {
            JsonValue::Object(fields) => {
                proof {
                    lemma_object_view(*fields);
                }
                let name = required::<String>(fields, "name", "PromptReference")?;
                let title = optional::<String>(fields, "title")?;
                tagged(fields, "type", "prompt", "PromptReference")?;
                Ok(PromptReference { name, title })
            },
            _ => Err(SchemaError::Malformed { of_type: String::from_str("PromptReference") }),
        }
    }

    proof fn round_trip(m: PromptReferenceModel) {
        Self::lemma_written(m);
        let e = Self::entries(m);
        lemma_required::<String>(e, "name"@, "PromptReference"@, m.name);
        lemma_optional::<String>(e, "title"@, m.title);
    }

    proof fn decoded_valid(t: JsonTree) {
        match t {
            JsonTree::Object(e) => {
                lemma_required_valid::<String>(e, "name"@, "PromptReference"@);
                lemma_optional_valid::<String>(e, "title"@);
            },
            _ => {},
        }
    }
}

impl Tagged for PromptReference {
    open spec fn tag() -> Seq<char> {
        "prompt"@
    }

    proof fn tag_written(m: PromptReferenceModel) {
        Self::lemma_written(m);
    }

    proof fn tag_read(t: JsonTree) {
    }
}

/// A reference to a resource or to a template of resources, by URI.
#[derive(Debug, Clone, PartialEq, Default)]
pub struct ResourceTemplateReference {
    /// URI or URI template pattern of the resource
    pub uri: String,
}

/// The model of [`ResourceTemplateReference`].
pub struct ResourceTemplateReferenceModel {
    pub uri: Seq<char>,
}

impl DeepView for ResourceTemplateReference {
    type V = ResourceTemplateReferenceModel;

    open spec fn deep_view(&self) -> ResourceTemplateReferenceModel {
        ResourceTemplateReferenceModel { uri: self.uri.deep_view() }
    }
}

impl ResourceTemplateReference {
    /// The entries of the object that stands for a value, in the order in which
    /// they are written.
    pub open spec fn entries(m: ResourceTemplateReferenceModel) -> Entries {
        let e = Seq::empty();
        let e = put_text(e, "type"@, "resource"@);
        let e = put::<String>(e, "uri"@, m.uri);
        e
    }

    /// What is written under each name: a field that must be there is always
    /// written, also where it is empty; a field that may be left out is written
    /// where it is set and has no entry where it is not; and no other name has
    /// an entry.
    pub proof fn lemma_written(m: ResourceTemplateReferenceModel)
        ensures
            lookup(Self::entries(m), "type"@) == Some(JsonTree::String("resource"@)),
            lookup(Self::entries(m), "uri"@) == Some(String::encode(m.uri)),
            forall|key: Seq<char>|
                key != "type"@ && key != "uri"@
                    ==> lookup(Self::entries(m), key) is None,
    {
        broadcast use group_lookup;

        lemma_wire_words();
    }
}

/// Written as an object with the discriminator `"type": "resource"`. A value is read
/// field by field, and the discriminator is checked last.
impl Wire for ResourceTemplateReference {
    open spec fn encode(m: ResourceTemplateReferenceModel) -> JsonTree {
        JsonTree::Object(Self::entries(m))
    }

    open spec fn decode(t: JsonTree) -> Result<ResourceTemplateReferenceModel, SchemaFault> {
        match t {
            JsonTree::Object(e) => {
                let uri = required_of::<String>(e, "uri"@, "ResourceTemplateReference"@);
                let tag = tagged_of(e, "type"@, "resource"@, "ResourceTemplateReference"@);
                if uri is Err {
                    Err(uri->Err_0)
                } else if tag is Err {
                    Err(tag->Err_0)
                } else {
                    Ok(ResourceTemplateReferenceModel { uri: uri->Ok_0 })
                }
            },
            _ => Err(SchemaFault::Malformed { of_type: "ResourceTemplateReference"@ }),
        }
    }

    open spec fn valid(m: ResourceTemplateReferenceModel) -> bool {
        &&& String::valid(m.uri)
    }

    fn serialize(&self) -> (out: JsonValue) {
        let mut fields: Vec<(String, JsonValue)> = Vec::new();
        assert(entries_of(fields@) =~= Seq::empty());
        push_text(&mut fields, "type", "resource");
        push_field::<String>(&mut fields, "uri", &self.uri);
        proof {
            lemma_object_view(fields);
        }
        JsonValue::Object(fields)
    }

    fn deserialize(value: &JsonValue) -> (out: Result<ResourceTemplateReference, SchemaError>) {
        match value {
            JsonValue::Object(fields) => {
                proof {
                    lemma_object_view(*fields);
                }
                let uri = required::<String>(fields, "uri", "ResourceTemplateReference")?;
                tagged(fields, "type", "resource", "ResourceTemplateReference")?;
                Ok(ResourceTemplateReference { uri })
            },
            _ => Err(SchemaError::Malformed { of_type: String::from_str("ResourceTemplateReference") }),
        }
    }

    proof fn round_trip(m: ResourceTemplateReferenceModel) {
        Self::lemma_written(m);
        let e = Self::entries(m);
        lemma_required::<String>(e, "uri"@, "ResourceTemplateReference"@, m.uri);
    }

    proof fn decoded_valid(t: JsonTree) {
        match t {
            JsonTree::Object(e) => {
                lemma_required_valid::<String>(e, "uri"@, "ResourceTemplateReference"@);
            },
            _ => {},
        }
    }
}

impl Tagged for ResourceTemplateReference {
    open spec fn tag() -> Seq<char> {
        "resource"@
    }

    proof fn tag_written(m: ResourceTemplateReferenceModel) {
        Self::lemma_written(m);
    }

    proof fn tag_read(t: JsonTree) {
    }
}

/// A reference to a prompt or to a resource template.
#[derive(Debug, Clone, PartialEq)]
pub enum Reference {
    Prompt(PromptReference),
    ResourceTemplate(ResourceTemplateReference),
    Empty(Empty),
}

/// The model of [`Reference`].
pub enum ReferenceModel {
    Prompt(PromptReferenceModel),
    ResourceTemplate(ResourceTemplateReferenceModel),
    Empty(EmptyModel),
}

impl DeepView for Reference {
    type V = ReferenceModel;

    open spec fn deep_view(&self) -> ReferenceModel {
        match self {
            Reference::Prompt(x) => ReferenceModel::Prompt(x.deep_view()),
            Reference::ResourceTemplate(x) => ReferenceModel::ResourceTemplate(x.deep_view()),
            Reference::Empty(x) => ReferenceModel::Empty(x.deep_view()),
        }
    }
}

impl Default for Reference {
    fn default() -> (out: Reference)
        ensures
            out.deep_view() == ReferenceModel::Empty(EmptyModel {  }),
    {
        Reference::Empty(Empty {  })
    }
}

/// Written as the member is. A value is read as the first member that accepts
/// it, in the order of the declaration. Where none does, it is read as the
/// empty shape, and what the empty shape refuses is refused with its fault.
impl Wire for Reference {
    open spec fn encode(m: ReferenceModel) -> JsonTree {
        match m {
            ReferenceModel::Prompt(x) => PromptReference::encode(x),
            ReferenceModel::ResourceTemplate(x) => ResourceTemplateReference::encode(x),
            ReferenceModel::Empty(x) => Empty::encode(x),
        }
    }

    open spec fn decode(t: JsonTree) -> Result<ReferenceModel, SchemaFault> {
        if PromptReference::decode(t) is Ok {
            Ok(ReferenceModel::Prompt(PromptReference::decode(t)->Ok_0))
        } else if ResourceTemplateReference::decode(t) is Ok {
            Ok(ReferenceModel::ResourceTemplate(ResourceTemplateReference::decode(t)->Ok_0))
        } else {
            match Empty::decode(t) {
                Ok(x) => Ok(ReferenceModel::Empty(x)),
                Err(e) => Err(e),
            }
        }
    }

    open spec fn valid(m: ReferenceModel) -> bool {
        match m {
            ReferenceModel::Prompt(x) => PromptReference::valid(x),
            ReferenceModel::ResourceTemplate(x) => ResourceTemplateReference::valid(x),
            ReferenceModel::Empty(x) => Empty::valid(x),
        }
    }

    fn serialize(&self) -> (out: JsonValue) {
        match self {
            Reference::Prompt(x) => x.serialize(),
            Reference::ResourceTemplate(x) => x.serialize(),
            Reference::Empty(x) => x.serialize(),
        }
    }

    fn deserialize(value: &JsonValue) -> (out: Result<Reference, SchemaError>) {
        match PromptReference::deserialize(value) {
            Ok(x) => {
                return Ok(Reference::Prompt(x));
            },
            Err(_) => {},
        }
        match ResourceTemplateReference::deserialize(value) {
            Ok(x) => {
                return Ok(Reference::ResourceTemplate(x));
            },
            Err(_) => {},
        }
        match Empty::deserialize(value) {
            Ok(x) => Ok(Reference::Empty(x)),
            Err(e) => Err(e),
        }
    }

    proof fn round_trip(m: ReferenceModel) {
        broadcast use group_lookup;

        lemma_wire_words();
        match m {
            ReferenceModel::Prompt(x) => {
                PromptReference::round_trip(x);
            },
            ReferenceModel::ResourceTemplate(x) => {
                ResourceTemplateReference::round_trip(x);
                lemma_other_tag_refused::<PromptReference, ResourceTemplateReference>(x);
            },
            ReferenceModel::Empty(x) => {
                Empty::round_trip(x);
                PromptReference::tag_read(Empty::encode(x));
                ResourceTemplateReference::tag_read(Empty::encode(x));
            },
        }
    }

    proof fn decoded_valid(t: JsonTree) {
        PromptReference::decoded_valid(t);
        ResourceTemplateReference::decoded_valid(t);
        Empty::decoded_valid(t);
    }
}

/// What the union refuses is what the empty shape refuses, and the fault is
/// that of the empty shape: an entry that it does not know, or a value that
/// is no object.
pub proof fn lemma_reference_refusal(t: JsonTree)
    ensures
        Reference::decode(t) matches Err(e) ==> Empty::decode(t) == Err::<EmptyModel, SchemaFault>(e),
{
}

/// Encoding a member of the union writes the discriminator of that member,
/// whatever the value holds; the empty member has none.
pub proof fn lemma_reference_discriminator(m: ReferenceModel)
    ensures
        discriminator(Reference::encode(m)) == match m {
            ReferenceModel::Prompt(_) => Some("prompt"@),
            ReferenceModel::ResourceTemplate(_) => Some("resource"@),
            ReferenceModel::Empty(_) => None::<Seq<char>>,
        },
{
    broadcast use group_lookup;

    lemma_wire_words();
    match m {
        ReferenceModel::Prompt(x) => PromptReference::tag_written(x),
        ReferenceModel::ResourceTemplate(x) => ResourceTemplateReference::tag_written(x),
        ReferenceModel::Empty(x) => {},
    }
}

} // verus!
