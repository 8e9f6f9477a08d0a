//! The schemas of the inputs that a plugin may ask of a user.

use vstd::prelude::*;
use crate::content::{Empty, EmptyModel};
use crate::dictionary::Dictionary;
use crate::enums::{NumberType, StringSchemaFormat};
use crate::error::{SchemaError, SchemaFault};
use crate::json::{Entries, JsonNumber, JsonTree, JsonValue, entries_of, lemma_object_view};
use crate::wire::{
    Tagged,
    Wire,
    discriminator,
    encoded_some,
    group_lookup,
    lemma_optional,
    lemma_optional_valid,
    lemma_other_tag_refused,
    lemma_required,
    lemma_required_valid,
    lookup,
    optional,
    optional_of,
    push_field,
    push_some,
    push_text,
    put,
    put_some,
    put_text,
    required,
    required_of,
    tagged,
    tagged_of,
    valid_some,
};
use crate::words::lemma_wire_words;

verus! {

/// The schema of a boolean input.
#[derive(Debug, Clone, PartialEq, Default)]
pub struct BooleanSchema {
    /// Optional default value
    pub default: Option<bool>,
    /// Description of the boolean input
    pub description: Option<String>,
    /// Optional human-readable title
    pub title: Option<String>,
}

/// The model of [`BooleanSchema`].
pub struct BooleanSchemaModel {
    pub default: Option<bool>,
    pub description: Option<Seq<char>>,
    pub title: Option<Seq<char>>,
}

impl DeepView for BooleanSchema {
    type V = BooleanSchemaModel;

    open spec fn deep_view(&self) -> BooleanSchemaModel {
        BooleanSchemaModel {
            default: self.default.deep_view(),
            description: self.description.deep_view(),
            title: self.title.deep_view(),
        }
    }
}

impl BooleanSchema {
    /// The entries of the object that stands for a value, in the order in which
    /// they are written.
    pub open spec fn entries(m: BooleanSchemaModel) -> Entries {
        let e = Seq::empty();
        let e = put_some::<bool>(e, "default"@, m.default);
        let e = put_some::<String>(e, "description"@, m.description);
        let e = put_some::<String>(e, "title"@, m.title);
        let e = put_text(e, "type"@, "boolean"@);
        e
    }

    /// What is written under each name: a field that must be there is always
    /// written, also where it is empty; a field that may be left out is written
    /// where it is set and has no entry where it is not; and no other name has
    /// an entry.
    pub proof fn lemma_written(m: BooleanSchemaModel)
        ensures
            lookup(Self::entries(m), "default"@) == encoded_some::<bool>(m.default),
            lookup(Self::entries(m), "description"@) == encoded_some::<String>(m.description),
            lookup(Self::entries(m), "title"@) == encoded_some::<String>(m.title),
            lookup(Self::entries(m), "type"@) == Some(JsonTree::String("boolean"@)),
            forall|key: Seq<char>|
                key != "default"@ && key != "description"@ && key != "title"@ &&
                    key != "type"@
                    ==> lookup(Self::entries(m), key) is None,
    {
        broadcast use group_lookup;

        lemma_wire_words();
    }
}

/// Written as an object with the discriminator `"type": "boolean"`. A value is read
/// field by field, and the discriminator is checked last.
impl Wire for BooleanSchema {
    open spec fn encode(m: BooleanSchemaModel) -> JsonTree {
        JsonTree::Object(Self::entries(m))
    }

    open spec fn decode(t: JsonTree) -> Result<BooleanSchemaModel, SchemaFault> {
        match t {
            JsonTree::Object(e) => {
                let default = optional_of::<bool>(e, "default"@);
                let description = optional_of::<String>(e, "description"@);
                let title = optional_of::<String>(e, "title"@);
                let tag = tagged_of(e, "type"@, "boolean"@, "BooleanSchema"@);
                if default is Err {
                    Err(default->Err_0)
                } else if description is Err {
                    Err(description->Err_0)
                } else if title is Err {
                    Err(title->Err_0)
                } else if tag is Err {
                    Err(tag->Err_0)
                } else {
                    Ok(
                        BooleanSchemaModel {
                            default: default->Ok_0,
                            description: description->Ok_0,
                            title: title->Ok_0,
                        },
                    )
                }
            },
            _ => Err(SchemaFault::Malformed { of_type: "BooleanSchema"@ }),
        }
    }

    open spec fn valid(m: BooleanSchemaModel) -> bool {
        &&& valid_some::<bool>(m.default)
        &&& valid_some::<String>(m.description)
        &&& valid_some::<String>(m.title)
    }

    fn serialize(&self) -> (out: JsonValue) {
        let mut fields: Vec<(String, JsonValue)> = Vec::new();
        assert(entries_of(fields@) =~= Seq::empty());
        push_some::<bool>(&mut fields, "default", &self.default);
        push_some::<String>(&mut fields, "description", &self.description);
        push_some::<String>(&mut fields, "title", &self.title);
        push_text(&mut fields, "type", "boolean");
        proof {
            lemma_object_view(fields);
        }
        JsonValue::Object(fields)
    }

    fn deserialize(value: &JsonValue) -> (out: Result<BooleanSchema, SchemaError>) {
        match value {
            JsonValue::Object(fields) => {
                proof {
                    lemma_object_view(*fields);
                }
                let default = optional::<bool>(fields, "default")?;
                let description = optional::<String>(fields, "description")?;
                let title = optional::<String>(fields, "title")?;
                tagged(fields, "type", "boolean", "BooleanSchema")?;
                Ok(BooleanSchema { default, description, title })
            },
            _ => Err(SchemaError::Malformed { of_type: String::from_str("BooleanSchema") }),
        }
    }

    proof fn round_trip(m: BooleanSchemaModel) {
        Self::lemma_written(m);
        let e = Self::entries(m);
        lemma_optional::<bool>(e, "default"@, m.default);
        lemma_optional::<String>(e, "description"@, m.description);
        lemma_optional::<String>(e, "title"@, m.title);
    }

    proof fn decoded_valid(t: JsonTree) {
        match t {
            JsonTree::Object(e) => {
                lemma_optional_valid::<bool>(e, "default"@);
                lemma_optional_valid::<String>(e, "description"@);
                lemma_optional_valid::<String>(e, "title"@);
            },
            _ => {},
        }
    }
}

impl Tagged for BooleanSchema {
    open spec fn tag() -> Seq<char> {
        "boolean"@
    }

    proof fn tag_written(m: BooleanSchemaModel) {
        Self::lemma_written(m);
    }

    proof fn tag_read(t: JsonTree) {
    }
}

/// The schema of an input that takes one of a list of strings.
#[derive(Debug, Clone, PartialEq, Default)]
pub struct EnumSchema {
    /// Description of the enum input
    pub description: Option<String>,
    /// Array of allowed string values
    pub enum_values: Vec<String>,
    /// Optional array of human-readable names for the enum values
    pub enum_names: Option<Vec<String>>,
    /// Optional human-readable title
    pub title: Option<String>,
}

/// The model of [`EnumSchema`].
pub struct EnumSchemaModel {
    pub description: Option<Seq<char>>,
    pub enum_values: Seq<Seq<char>>,
    pub enum_names: Option<Seq<Seq<char>>>,
    pub title: Option<Seq<char>>,
}

impl DeepView for EnumSchema {
    type V = EnumSchemaModel;

    open spec fn deep_view(&self) -> EnumSchemaModel {
        EnumSchemaModel {
            description: self.description.deep_view(),
            enum_values: self.enum_values.deep_view(),
            enum_names: self.enum_names.deep_view(),
            title: self.title.deep_view(),
        }
    }
}

impl EnumSchema {
    /// The entries of the object that stands for a value, in the order in which
    /// they are written.
    pub open spec fn entries(m: EnumSchemaModel) -> Entries {
        let e = Seq::empty();
        let e = put_some::<String>(e, "description"@, m.description);
        let e = put::<Vec<String>>(e, "enum"@, m.enum_values);
        let e = put_some::<Vec<String>>(e, "enumNames"@, m.enum_names);
        let e = put_some::<String>(e, "title"@, m.title);
        let e = put_text(e, "type"@, "string"@);
        e
    }

    /// What is written under each name: a field that must be there is always
    /// written, also where it is empty; a field that may be left out is written
    /// where it is set and has no entry where it is not; and no other name has
    /// an entry.
    pub proof fn lemma_written(m: EnumSchemaModel)
        ensures
            lookup(Self::entries(m), "description"@) == encoded_some::<String>(m.description),
            lookup(Self::entries(m), "enum"@) == Some(<Vec<String>>::encode(m.enum_values)),
            lookup(Self::entries(m), "enumNames"@) == encoded_some::<Vec<String>>(m.enum_names),
            lookup(Self::entries(m), "title"@) == encoded_some::<String>(m.title),
            lookup(Self::entries(m), "type"@) == Some(JsonTree::String("string"@)),
            forall|key: Seq<char>|
                key != "description"@ && key != "enum"@ && key != "enumNames"@ &&
                    key != "title"@ && key != "type"@
                    ==> lookup(Self::entries(m), key) is None,
    {
        broadcast use group_lookup;

        lemma_wire_words();
    }
}

/// Written as an object with the discriminator `"type": "string"`. A value is read
/// field by field, and the discriminator is checked last.
impl Wire for EnumSchema {
    open spec fn encode(m: EnumSchemaModel) -> JsonTree {
        JsonTree::Object(Self::entries(m))
    }

    open spec fn decode(t: JsonTree) -> Result<EnumSchemaModel, SchemaFault> {
        match t {
            JsonTree::Object(e) => {
                let description = optional_of::<String>(e, "description"@);
                let enum_values = required_of::<Vec<String>>(e, "enum"@, "EnumSchema"@);
                let enum_names = optional_of::<Vec<String>>(e, "enumNames"@);
                let title = optional_of::<String>(e, "title"@);
                let tag = tagged_of(e, "type"@, "string"@, "EnumSchema"@);
                if description is Err {
                    Err(description->Err_0)
                } else if enum_values is Err {
                    Err(enum_values->Err_0)
                } else if enum_names is Err {
                    Err(enum_names->Err_0)
                } else if title is Err {
                    Err(title->Err_0)
                } else if tag is Err {
                    Err(tag->Err_0)
                } else {
                    Ok(
                        EnumSchemaModel {
                            description: description->Ok_0,
                            enum_values: enum_values->Ok_0,
                            enum_names: enum_names->Ok_0,
                            title: title->Ok_0,
                        },
                    )
                }
            },
            _ => Err(SchemaFault::Malformed { of_type: "EnumSchema"@ }),
        }
    }

    open spec fn valid(m: EnumSchemaModel) -> bool {
        &&& valid_some::<String>(m.description)
        &&& <Vec<String>>::valid(m.enum_values)
        &&& valid_some::<Vec<String>>(m.enum_names)
        &&& valid_some::<String>(m.title)
    }

    fn serialize(&self) -> (out: JsonValue) {
        let mut fields: Vec<(String, JsonValue)> = Vec::new();
        assert(entries_of(fields@) =~= Seq::empty());
        push_some::<String>(&mut fields, "description", &self.description);
        push_field::<Vec<String>>(&mut fields, "enum", &self.enum_values);
        push_some::<Vec<String>>(&mut fields, "enumNames", &self.enum_names);
        push_some::<String>(&mut fields, "title", &self.title);
        push_text(&mut fields, "type", "string");
        proof {
            lemma_object_view(fields);
        }
        JsonValue::Object(fields)
    }

    fn deserialize(value: &JsonValue) -> (out: Result<EnumSchema, SchemaError>) {
        match value {
            JsonValue::Object(fields) => {
                proof {
                    lemma_object_view(*fields);
                }
                let description = optional::<String>(fields, "description")?;
                let enum_values = required::<Vec<String>>(fields, "enum", "EnumSchema")?;
                let enum_names = optional::<Vec<String>>(fields, "enumNames")?;
                let title = optional::<String>(fields, "title")?;
                tagged(fields, "type", "string", "EnumSchema")?;
                Ok(EnumSchema { description, enum_values, enum_names, title })
            },
            _ => Err(SchemaError::Malformed { of_type: String::from_str("EnumSchema") }),
        }
    }

    proof fn round_trip(m: EnumSchemaModel) {
        Self::lemma_written(m);
        let e = Self::entries(m);
        lemma_optional::<String>(e, "description"@, m.description);
        lemma_required::<Vec<String>>(e, "enum"@, "EnumSchema"@, m.enum_values);
        lemma_optional::<Vec<String>>(e, "enumNames"@, m.enum_names);
        lemma_optional::<String>(e, "title"@, m.title);
    }

    proof fn decoded_valid(t: JsonTree) {
        match t {
            JsonTree::Object(e) => {
                lemma_optional_valid::<String>(e, "description"@);
                lemma_required_valid::<Vec<String>>(e, "enum"@, "EnumSchema"@);
                lemma_optional_valid::<Vec<String>>(e, "enumNames"@);
                lemma_optional_valid::<String>(e, "title"@);
            },
            _ => {},
        }
    }
}

impl Tagged for EnumSchema {
    open spec fn tag() -> Seq<char> {
        "string"@
    }

    proof fn tag_written(m: EnumSchemaModel) {
        Self::lemma_written(m);
    }

    proof fn tag_read(t: JsonTree) {
    }
}

/// The schema of a number input. Its discriminator is one of two words, which
/// `kind` holds.
#[derive(Debug, Clone, PartialEq, Default)]
pub struct NumberSchema {
    /// Description of the number input
    pub description: Option<String>,
    /// Maximum value
    pub maximum: Option<JsonNumber>,
    /// Minimum value
    pub minimum: Option<JsonNumber>,
    /// Optional human-readable title
    pub title: Option<String>,
    /// Whether any number is taken or integers only
    pub kind: NumberType,
}

/// The model of [`NumberSchema`].
pub struct NumberSchemaModel {
    pub description: Option<Seq<char>>,
    pub maximum: Option<JsonNumber>,
    pub minimum: Option<JsonNumber>,
    pub title: Option<Seq<char>>,
    pub kind: NumberType,
}

impl DeepView for NumberSchema {
    type V = NumberSchemaModel;

    open spec fn deep_view(&self) -> NumberSchemaModel {
        NumberSchemaModel {
            description: self.description.deep_view(),
            maximum: self.maximum.deep_view(),
            minimum: self.minimum.deep_view(),
            title: self.title.deep_view(),
            kind: self.kind.deep_view(),
        }
    }
}

impl NumberSchema {
    /// The entries of the object that stands for a value, in the order in which
    /// they are written.
    pub open spec fn entries(m: NumberSchemaModel) -> Entries {
        let e = Seq::empty();
        let e = put_some::<String>(e, "description"@, m.description);
        let e = put_some::<JsonNumber>(e, "maximum"@, m.maximum);
        let e = put_some::<JsonNumber>(e, "minimum"@, m.minimum);
        let e = put_some::<String>(e, "title"@, m.title);
        let e = put::<NumberType>(e, "type"@, m.kind);
        e
    }

    /// What is written under each name: a field that must be there is always
    /// written, also where it is empty; a field that may be left out is written
    /// where it is set and has no entry where it is not; and no other name has
    /// an entry.
    pub proof fn lemma_written(m: NumberSchemaModel)
        ensures
            lookup(Self::entries(m), "description"@) == encoded_some::<String>(m.description),
            lookup(Self::entries(m), "maximum"@) == encoded_some::<JsonNumber>(m.maximum),
            lookup(Self::entries(m), "minimum"@) == encoded_some::<JsonNumber>(m.minimum),
            lookup(Self::entries(m), "title"@) == encoded_some::<String>(m.title),
            lookup(Self::entries(m), "type"@) == Some(NumberType::encode(m.kind)),
            forall|key: Seq<char>|
                key != "description"@ && key != "maximum"@ && key != "minimum"@ &&
                    key != "title"@ && key != "type"@
                    ==> lookup(Self::entries(m), key) is None,
    {
        broadcast use group_lookup;

        lemma_wire_words();
    }
}

impl Wire for NumberSchema {
    open spec fn encode(m: NumberSchemaModel) -> JsonTree {
        JsonTree::Object(Self::entries(m))
    }

    open spec fn decode(t: JsonTree) -> Result<NumberSchemaModel, SchemaFault> {
        match t {
            JsonTree::Object(e) => {
                let description = optional_of::<String>(e, "description"@);
                let maximum = optional_of::<JsonNumber>(e, "maximum"@);
                let minimum = optional_of::<JsonNumber>(e, "minimum"@);
                let title = optional_of::<String>(e, "title"@);
                let kind = required_of::<NumberType>(e, "type"@, "NumberSchema"@);
                if description is Err {
                    Err(description->Err_0)
                } else if maximum is Err {
                    Err(maximum->Err_0)
                } else if minimum is Err {
                    Err(minimum->Err_0)
                } else if title is Err {
                    Err(title->Err_0)
                } else if kind is Err {
                    Err(kind->Err_0)
                } else {
                    Ok(
                        NumberSchemaModel {
                            description: description->Ok_0,
                            maximum: maximum->Ok_0,
                            minimum: minimum->Ok_0,
                            title: title->Ok_0,
                            kind: kind->Ok_0,
                        },
                    )
                }
            },
            _ => Err(SchemaFault::Malformed { of_type: "NumberSchema"@ }),
        }
    }

    open spec fn valid(m: NumberSchemaModel) -> bool {
        &&& valid_some::<String>(m.description)
        &&& valid_some::<JsonNumber>(m.maximum)
        &&& valid_some::<JsonNumber>(m.minimum)
        &&& valid_some::<String>(m.title)
        &&& NumberType::valid(m.kind)
    }

    fn serialize(&self) -> (out: JsonValue) {
        let mut fields: Vec<(String, JsonValue)> = Vec::new();
        assert(entries_of(fields@) =~= Seq::empty());
        push_some::<String>(&mut fields, "description", &self.description);
        push_some::<JsonNumber>(&mut fields, "maximum", &self.maximum);
        push_some::<JsonNumber>(&mut fields, "minimum", &self.minimum);
        push_some::<String>(&mut fields, "title", &self.title);
        push_field::<NumberType>(&mut fields, "type", &self.kind);
        proof {
            lemma_object_view(fields);
        }
        JsonValue::Object(fields)
    }

    fn deserialize(value: &JsonValue) -> (out: Result<NumberSchema, SchemaError>) {
        match value {
            JsonValue::Object(fields) => {
                proof {
                    lemma_object_view(*fields);
                }
                let description = optional::<String>(fields, "description")?;
                let maximum = optional::<JsonNumber>(fields, "maximum")?;
                let minimum = optional::<JsonNumber>(fields, "minimum")?;
                let title = optional::<String>(fields, "title")?;
                let kind = required::<NumberType>(fields, "type", "NumberSchema")?;
                Ok(NumberSchema { description, maximum, minimum, title, kind })
            },
            _ => Err(SchemaError::Malformed { of_type: String::from_str("NumberSchema") }),
        }
    }

    proof fn round_trip(m: NumberSchemaModel) {
        Self::lemma_written(m);
        let e = Self::entries(m);
        lemma_optional::<String>(e, "description"@, m.description);
        lemma_optional::<JsonNumber>(e, "maximum"@, m.maximum);
        lemma_optional::<JsonNumber>(e, "minimum"@, m.minimum);
        lemma_optional::<String>(e, "title"@, m.title);
        lemma_required::<NumberType>(e, "type"@, "NumberSchema"@, m.kind);
    }

    proof fn decoded_valid(t: JsonTree) {
        match t {
            JsonTree::Object(e) => {
                lemma_optional_valid::<String>(e, "description"@);
                lemma_optional_valid::<JsonNumber>(e, "maximum"@);
                lemma_optional_valid::<JsonNumber>(e, "minimum"@);
                lemma_optional_valid::<String>(e, "title"@);
                lemma_required_valid::<NumberType>(e, "type"@, "NumberSchema"@);
            },
            _ => {},
        }
    }
}

/// The schema of a string input.
#[derive(Debug, Clone, PartialEq, Default)]
pub struct StringSchema {
    /// Description of the string input
    pub description: Option<String>,
    /// The format that the string must have
    pub format: Option<StringSchemaFormat>,
    /// Maximum length of the string
    pub max_length: Option<i64>,
    /// Minimum length of the string
    pub min_length: Option<i64>,
    /// Optional human-readable title
    pub title: Option<String>,
}

/// The model of [`StringSchema`].
pub struct StringSchemaModel {
    pub description: Option<Seq<char>>,
    pub format: Option<StringSchemaFormat>,
    pub max_length: Option<i64>,
    pub min_length: Option<i64>,
    pub title: Option<Seq<char>>,
}

impl DeepView for StringSchema {
    type V = StringSchemaModel;

    open spec fn deep_view(&self) -> StringSchemaModel {
        StringSchemaModel {
            description: self.description.deep_view(),
            format: self.format.deep_view(),
            max_length: self.max_length.deep_view(),
            min_length: self.min_length.deep_view(),
            title: self.title.deep_view(),
        }
    }
}

impl StringSchema {
    /// The entries of the object that stands for a value, in the order in which
    /// they are written.
    pub open spec fn entries(m: StringSchemaModel) -> Entries {
        let e = Seq::empty();
        let e = put_some::<String>(e, "description"@, m.description);
        let e = put_some::<StringSchemaFormat>(e, "format"@, m.format);
        let e = put_some::<i64>(e, "maxLength"@, m.max_length);
        let e = put_some::<i64>(e, "minLength"@, m.min_length);
        let e = put_some::<String>(e, "title"@, m.title);
        let e = put_text(e, "type"@, "string"@);
        e
    }

    /// What is written under each name: a field that must be there is always
    /// written, also where it is empty; a field that may be left out is written
    /// where it is set and has no entry where it is not; and no other name has
    /// an entry.
    pub proof fn lemma_written(m: StringSchemaModel)
        ensures
            lookup(Self::entries(m), "description"@) == encoded_some::<String>(m.description),
            lookup(Self::entries(m), "format"@) == encoded_some::<StringSchemaFormat>(m.format),
            lookup(Self::entries(m), "maxLength"@) == encoded_some::<i64>(m.max_length),
            lookup(Self::entries(m), "minLength"@) == encoded_some::<i64>(m.min_length),
            lookup(Self::entries(m), "title"@) == encoded_some::<String>(m.title),
            lookup(Self::entries(m), "type"@) == Some(JsonTree::String("string"@)),
            forall|key: Seq<char>|
                key != "description"@ && key != "format"@ && key != "maxLength"@ &&
                    key != "minLength"@ && key != "title"@ && key != "type"@
                    ==> lookup(Self::entries(m), key) is None,
    {
        broadcast use group_lookup;

        lemma_wire_words();
    }
}

/// Written as an object with the discriminator `"type": "string"`. A value is read
/// field by field, and the discriminator is checked last.
impl Wire for StringSchema {
    open spec fn encode(m: StringSchemaModel) -> JsonTree {
        JsonTree::Object(Self::entries(m))
    }

    open spec fn decode(t: JsonTree) -> Result<StringSchemaModel, SchemaFault> {
        match t {
            JsonTree::Object(e) => {
                let description = optional_of::<String>(e, "description"@);
                let format = optional_of::<StringSchemaFormat>(e, "format"@);
                let max_length = optional_of::<i64>(e, "maxLength"@);
                let min_length = optional_of::<i64>(e, "minLength"@);
                let title = optional_of::<String>(e, "title"@);
                let tag = tagged_of(e, "type"@, "string"@, "StringSchema"@);
                if description is Err {
                    Err(description->Err_0)
                } else if format is Err {
                    Err(format->Err_0)
                } else if max_length is Err {
                    Err(max_length->Err_0)
                } else if min_length is Err {
                    Err(min_length->Err_0)
                } else if title is Err {
                    Err(title->Err_0)
                } else if tag is Err {
                    Err(tag->Err_0)
                } else {
                    Ok(
                        StringSchemaModel {
                            description: description->Ok_0,
                            format: format->Ok_0,
                            max_length: max_length->Ok_0,
                            min_length: min_length->Ok_0,
                            title: title->Ok_0,
                        },
                    )
                }
            },
            _ => Err(SchemaFault::Malformed { of_type: "StringSchema"@ }),
        }
    }

    open spec fn valid(m: StringSchemaModel) -> bool {
        &&& valid_some::<String>(m.description)
        &&& valid_some::<StringSchemaFormat>(m.format)
        &&& valid_some::<i64>(m.max_length)
        &&& valid_some::<i64>(m.min_length)
        &&& valid_some::<String>(m.title)
    }

    fn serialize(&self) -> (out: JsonValue) {
        let mut fields: Vec<(String, JsonValue)> = Vec::new();
        assert(entries_of(fields@) =~= Seq::empty());
        push_some::<String>(&mut fields, "description", &self.description);
        push_some::<StringSchemaFormat>(&mut fields, "format", &self.format);
        push_some::<i64>(&mut fields, "maxLength", &self.max_length);
        push_some::<i64>(&mut fields, "minLength", &self.min_length);
        push_some::<String>(&mut fields, "title", &self.title);
        push_text(&mut fields, "type", "string");
        proof {
            lemma_object_view(fields);
        }
        JsonValue::Object(fields)
    }

    fn deserialize(value: &JsonValue) -> (out: Result<StringSchema, SchemaError>) {
        match value {
            JsonValue::Object(fields) => {
                proof {
                    lemma_object_view(*fields);
                }
                let description = optional::<String>(fields, "description")?;
                let format = optional::<StringSchemaFormat>(fields, "format")?;
                let max_length = optional::<i64>(fields, "maxLength")?;
                let min_length = optional::<i64>(fields, "minLength")?;
                let title = optional::<String>(fields, "title")?;
                tagged(fields, "type", "string", "StringSchema")?;
                Ok(StringSchema { description, format, max_length, min_length, title })
            },
            _ => Err(SchemaError::Malformed { of_type: String::from_str("StringSchema") }),
        }
    }

    proof fn round_trip(m: StringSchemaModel) {
        Self::lemma_written(m);
        let e = Self::entries(m);
        lemma_optional::<String>(e, "description"@, m.description);
        lemma_optional::<StringSchemaFormat>(e, "format"@, m.format);
        lemma_optional::<i64>(e, "maxLength"@, m.max_length);
        lemma_optional::<i64>(e, "minLength"@, m.min_length);
        lemma_optional::<String>(e, "title"@, m.title);
    }

    proof fn decoded_valid(t: JsonTree) {
        match t {
            JsonTree::Object(e) => {
                lemma_optional_valid::<String>(e, "description"@);
                lemma_optional_valid::<StringSchemaFormat>(e, "format"@);
                lemma_optional_valid::<i64>(e, "maxLength"@);
                lemma_optional_valid::<i64>(e, "minLength"@);
                lemma_optional_valid::<String>(e, "title"@);
            },
            _ => {},
        }
    }
}

impl Tagged for StringSchema {
    open spec fn tag() -> Seq<char> {
        "string"@
    }

    proof fn tag_written(m: StringSchemaModel) {
        Self::lemma_written(m);
    }

    proof fn tag_read(t: JsonTree) {
    }
}

/// The schema of a form: an object whose properties are inputs of primitive
/// types.
#[derive(Debug, Clone, PartialEq, Default)]
pub struct Schema {
    /// A map of StringSchema, NumberSchema, BooleanSchema or EnumSchema
    /// definitions (no nesting)
    pub properties: Dictionary<PrimitiveSchemaDefinition>,
    /// Required property names
    pub required: Option<Vec<String>>,
}

/// The model of [`Schema`].
pub struct SchemaModel {
    pub properties: Seq<(Seq<char>, PrimitiveSchemaDefinitionModel)>,
    pub required: Option<Seq<Seq<char>>>,
}

impl DeepView for Schema {
    type V = SchemaModel;

    open spec fn deep_view(&self) -> SchemaModel {
        SchemaModel { properties: self.properties.deep_view(), required: self.required.deep_view() }
    }
}

impl Schema {
    /// The entries of the object that stands for a value, in the order in which
    /// they are written.
    pub open spec fn entries(m: SchemaModel) -> Entries {
        let e = Seq::empty();
        let e = put::<Dictionary<PrimitiveSchemaDefinition>>(e, "properties"@, m.properties);
        let e = put_some::<Vec<String>>(e, "required"@, m.required);
        let e = put_text(e, "type"@, "object"@);
        e
    }

    /// What is written under each name: a field that must be there is always
    /// written, also where it is empty; a field that may be left out is written
    /// where it is set and has no entry where it is not; and no other name has
    /// an entry.
    pub proof fn lemma_written(m: SchemaModel)
        ensures
            lookup(Self::entries(m), "properties"@) == Some(<Dictionary<PrimitiveSchemaDefinition>>::encode(m.properties)),
            lookup(Self::entries(m), "required"@) == encoded_some::<Vec<String>>(m.required),
            lookup(Self::entries(m), "type"@) == Some(JsonTree::String("object"@)),
            forall|key: Seq<char>|
                key != "properties"@ && key != "required"@ && key != "type"@
                    ==> lookup(Self::entries(m), key) is None,
    {
        broadcast use group_lookup;

        lemma_wire_words();
    }
}

/// Written as an object with the discriminator `"type": "object"`. A value is read
/// field by field, and the discriminator is checked last.
impl Wire for Schema {
    open spec fn encode(m: SchemaModel) -> JsonTree {
        JsonTree::Object(Self::entries(m))
    }

    open spec fn decode(t: JsonTree) -> Result<SchemaModel, SchemaFault> {
        match t {
            JsonTree::Object(e) => {
                let properties = required_of::<Dictionary<PrimitiveSchemaDefinition>>(e, "properties"@, "Schema"@);
                let required = optional_of::<Vec<String>>(e, "required"@);
                let tag = tagged_of(e, "type"@, "object"@, "Schema"@);
                if properties is Err {
                    Err(properties->Err_0)
                } else if required is Err {
                    Err(required->Err_0)
                } else if tag is Err {
                    Err(tag->Err_0)
                } else {
                    Ok(SchemaModel { properties: properties->Ok_0, required: required->Ok_0 })
                }
            },
            _ => Err(SchemaFault::Malformed { of_type: "Schema"@ }),
        }
    }

    open spec fn valid(m: SchemaModel) -> bool {
        &&& <Dictionary<PrimitiveSchemaDefinition>>::valid(m.properties)
        &&& valid_some::<Vec<String>>(m.required)
    }

    fn serialize(&self) -> (out: JsonValue) {
        let mut fields: Vec<(String, JsonValue)> = Vec::new();
        assert(entries_of(fields@) =~= Seq::empty());
        push_field::<Dictionary<PrimitiveSchemaDefinition>>(&mut fields, "properties", &self.properties);
        push_some::<Vec<String>>(&mut fields, "required", &self.required);
        push_text(&mut fields, "type", "object");
        proof {
            lemma_object_view(fields);
        }
        JsonValue::Object(fields)
    }

    fn deserialize(value: &JsonValue) -> (out: Result<Schema, SchemaError>) {
        match value {
            JsonValue::Object(fields) => {
                proof {
                    lemma_object_view(*fields);
                }
                let properties = required::<Dictionary<PrimitiveSchemaDefinition>>(fields, "properties", "Schema")?;
                let required = optional::<Vec<String>>(fields, "required")?;
                tagged(fields, "type", "object", "Schema")?;
                Ok(Schema { properties, required })
            },
            _ => Err(SchemaError::Malformed { of_type: String::from_str("Schema") }),
        }
    }

    proof fn round_trip(m: SchemaModel) {
        Self::lemma_written(m);
        let e = Self::entries(m);
        lemma_required::<Dictionary<PrimitiveSchemaDefinition>>(e, "properties"@, "Schema"@, m.properties);
        lemma_optional::<Vec<String>>(e, "required"@, m.required);
    }

    proof fn decoded_valid(t: JsonTree) {
        match t {
            JsonTree::Object(e) => {
                lemma_required_valid::<Dictionary<PrimitiveSchemaDefinition>>(e, "properties"@, "Schema"@);
                lemma_optional_valid::<Vec<String>>(e, "required"@);
            },
            _ => {},
        }
    }
}

impl Tagged for Schema {
    open spec fn tag() -> Seq<char> {
        "object"@
    }

    proof fn tag_written(m: SchemaModel) {
        Self::lemma_written(m);
    }

    proof fn tag_read(t: JsonTree) {
    }
}

/// The schema of one input: a boolean, a choice among strings, a number, or a
/// string.
#[derive(Debug, Clone, PartialEq)]
pub enum PrimitiveSchemaDefinition {
    Boolean(BooleanSchema),
    Enum(EnumSchema),
    Number(NumberSchema),
    String(StringSchema),
    Empty(Empty),
}

/// The model of [`PrimitiveSchemaDefinition`].
pub enum PrimitiveSchemaDefinitionModel {
    Boolean(BooleanSchemaModel),
    Enum(EnumSchemaModel),
    Number(NumberSchemaModel),
    String(StringSchemaModel),
    Empty(EmptyModel),
}

impl DeepView for PrimitiveSchemaDefinition {
    type V = PrimitiveSchemaDefinitionModel;

    open spec fn deep_view(&self) -> PrimitiveSchemaDefinitionModel {
        match self {
            PrimitiveSchemaDefinition::Boolean(x) => PrimitiveSchemaDefinitionModel::Boolean(x.deep_view()),
            PrimitiveSchemaDefinition::Enum(x) => PrimitiveSchemaDefinitionModel::Enum(x.deep_view()),
            PrimitiveSchemaDefinition::Number(x) => PrimitiveSchemaDefinitionModel::Number(x.deep_view()),
            PrimitiveSchemaDefinition::String(x) => PrimitiveSchemaDefinitionModel::String(x.deep_view()),
            PrimitiveSchemaDefinition::Empty(x) => PrimitiveSchemaDefinitionModel::Empty(x.deep_view()),
        }
    }
}

impl Default for PrimitiveSchemaDefinition {
    fn default() -> (out: PrimitiveSchemaDefinition)
        ensures
            out.deep_view() == PrimitiveSchemaDefinitionModel::Empty(EmptyModel {  }),
    {
        PrimitiveSchemaDefinition::Empty(Empty {  })
    }
}

/// Written as the member is. A value is read as the first member that accepts
/// it, in the order of the declaration. A choice among strings and a string
/// have one discriminator, and the choice also asks for the field `enum`: it
/// stands before the string, so that a value with that field is read as a
/// choice. Where no member accepts, the value is read as the empty shape, and
/// what the empty shape refuses is refused with its fault.
impl Wire for PrimitiveSchemaDefinition {
    open spec fn encode(m: PrimitiveSchemaDefinitionModel) -> JsonTree {
        match m {
            PrimitiveSchemaDefinitionModel::Boolean(x) => BooleanSchema::encode(x),
            PrimitiveSchemaDefinitionModel::Enum(x) => EnumSchema::encode(x),
            PrimitiveSchemaDefinitionModel::Number(x) => NumberSchema::encode(x),
            PrimitiveSchemaDefinitionModel::String(x) => StringSchema::encode(x),
            PrimitiveSchemaDefinitionModel::Empty(x) => Empty::encode(x),
        }
    }

    open spec fn decode(t: JsonTree) -> Result<PrimitiveSchemaDefinitionModel, SchemaFault> {
        if BooleanSchema::decode(t) is Ok {
            Ok(PrimitiveSchemaDefinitionModel::Boolean(BooleanSchema::decode(t)->Ok_0))
        } else if EnumSchema::decode(t) is Ok {
            Ok(PrimitiveSchemaDefinitionModel::Enum(EnumSchema::decode(t)->Ok_0))
        } else if NumberSchema::decode(t) is Ok {
            Ok(PrimitiveSchemaDefinitionModel::Number(NumberSchema::decode(t)->Ok_0))
        } else if StringSchema::decode(t) is Ok {
            Ok(PrimitiveSchemaDefinitionModel::String(StringSchema::decode(t)->Ok_0))
        } else {
            match Empty::decode(t) {
                Ok(x) => Ok(PrimitiveSchemaDefinitionModel::Empty(x)),
                Err(e) => Err(e),
            }
        }
    }

    open spec fn valid(m: PrimitiveSchemaDefinitionModel) -> bool {
        match m {
            PrimitiveSchemaDefinitionModel::Boolean(x) => BooleanSchema::valid(x),
            PrimitiveSchemaDefinitionModel::Enum(x) => EnumSchema::valid(x),
            PrimitiveSchemaDefinitionModel::Number(x) => NumberSchema::valid(x),
            PrimitiveSchemaDefinitionModel::String(x) => StringSchema::valid(x),
            PrimitiveSchemaDefinitionModel::Empty(x) => Empty::valid(x),
        }
    }

    fn serialize(&self) -> (out: JsonValue) {
        match self {
            PrimitiveSchemaDefinition::Boolean(x) => x.serialize(),
            PrimitiveSchemaDefinition::Enum(x) => x.serialize(),
            PrimitiveSchemaDefinition::Number(x) => x.serialize(),
            PrimitiveSchemaDefinition::String(x) => x.serialize(),
            PrimitiveSchemaDefinition::Empty(x) => x.serialize(),
        }
    }

    fn deserialize(value: &JsonValue) -> (out: Result<PrimitiveSchemaDefinition, SchemaError>) {
        match BooleanSchema::deserialize(value) {
            Ok(x) => {
                return Ok(PrimitiveSchemaDefinition::Boolean(x));
            },
            Err(_) => {},
        }
        match EnumSchema::deserialize(value) {
            Ok(x) => {
                return Ok(PrimitiveSchemaDefinition::Enum(x));
            },
            Err(_) => {},
        }
        match NumberSchema::deserialize(value) {
            Ok(x) => {
                return Ok(PrimitiveSchemaDefinition::Number(x));
            },
            Err(_) => {},
        }
        match StringSchema::deserialize(value) {
            Ok(x) => {
                return Ok(PrimitiveSchemaDefinition::String(x));
            },
            Err(_) => {},
        }
        match Empty::deserialize(value) {
            Ok(x) => Ok(PrimitiveSchemaDefinition::Empty(x)),
            Err(e) => Err(e),
        }
    }

    proof fn round_trip(m: PrimitiveSchemaDefinitionModel) {
        broadcast use group_lookup;

        lemma_wire_words();
        match m {
            PrimitiveSchemaDefinitionModel::Boolean(x) => {
                BooleanSchema::round_trip(x);
            },
            PrimitiveSchemaDefinitionModel::Enum(x) => {
                EnumSchema::round_trip(x);
                lemma_other_tag_refused::<BooleanSchema, EnumSchema>(x);
            },
            PrimitiveSchemaDefinitionModel::Number(x) => {
                NumberSchema::round_trip(x);
                lemma_number_schema_kind(x);
                BooleanSchema::tag_read(NumberSchema::encode(x));
                lemma_number_schema_kind(x);
                EnumSchema::tag_read(NumberSchema::encode(x));
            },
            PrimitiveSchemaDefinitionModel::String(x) => {
                StringSchema::round_trip(x);
                lemma_other_tag_refused::<BooleanSchema, StringSchema>(x);
                StringSchema::tag_written(x);
            },
            PrimitiveSchemaDefinitionModel::Empty(x) => {
                Empty::round_trip(x);
                BooleanSchema::tag_read(Empty::encode(x));
                EnumSchema::tag_read(Empty::encode(x));
                StringSchema::tag_read(Empty::encode(x));
            },
        }
    }

    proof fn decoded_valid(t: JsonTree) {
        BooleanSchema::decoded_valid(t);
        EnumSchema::decoded_valid(t);
        NumberSchema::decoded_valid(t);
        StringSchema::decoded_valid(t);
        Empty::decoded_valid(t);
    }
}

/// What the union refuses is what the empty shape refuses, and the fault is
/// that of the empty shape: an entry that it does not know, or a value that
/// is no object.
pub proof fn lemma_primitive_schema_definition_refusal(t: JsonTree)
    ensures
        PrimitiveSchemaDefinition::decode(t) matches Err(e) ==> Empty::decode(t) == Err::<EmptyModel, SchemaFault>(e),
{
}

/// Encoding a member of the union writes the discriminator of that member,
/// whatever the value holds; the empty member has none.
pub proof fn lemma_primitive_schema_definition_discriminator(m: PrimitiveSchemaDefinitionModel)
    ensures
        discriminator(PrimitiveSchemaDefinition::encode(m)) == match m {
            PrimitiveSchemaDefinitionModel::Boolean(_) => Some("boolean"@),
            PrimitiveSchemaDefinitionModel::Enum(_) => Some("string"@),
            PrimitiveSchemaDefinitionModel::Number(x) => Some(x.kind.word()),
            PrimitiveSchemaDefinitionModel::String(_) => Some("string"@),
            PrimitiveSchemaDefinitionModel::Empty(_) => None::<Seq<char>>,
        },
{
    broadcast use group_lookup;

    lemma_wire_words();
    match m {
        PrimitiveSchemaDefinitionModel::Boolean(x) => BooleanSchema::tag_written(x),
        PrimitiveSchemaDefinitionModel::Enum(x) => EnumSchema::tag_written(x),
        PrimitiveSchemaDefinitionModel::Number(x) => {},
        PrimitiveSchemaDefinitionModel::String(x) => StringSchema::tag_written(x),
        PrimitiveSchemaDefinitionModel::Empty(x) => {},
    }
}

/// A number schema writes the word of its kind as the discriminator, and that
/// word is `number` or `integer`.
pub proof fn lemma_number_schema_kind(m: NumberSchemaModel)
    ensures
        lookup(NumberSchema::entries(m), "type"@) == Some(JsonTree::String(m.kind.word())),
        m.kind.word() == "number"@ || m.kind.word() == "integer"@,
{
    NumberSchema::lemma_written(m);
}

/// The order of the members decides between a choice among strings and a
/// string: what reads as a choice is read as a choice, never as a string.
pub proof fn lemma_enum_before_string(t: JsonTree)
    ensures
        EnumSchema::decode(t) matches Ok(x) ==> PrimitiveSchemaDefinition::decode(t) == Ok::<
            PrimitiveSchemaDefinitionModel,
            SchemaFault,
        >(PrimitiveSchemaDefinitionModel::Enum(x)),
{
    lemma_wire_words();
    BooleanSchema::tag_read(t);
    EnumSchema::tag_read(t);
}

} // verus!
