//! Content: what a prompt, a tool call or a resource hands over.

use vstd::prelude::*;
use crate::binary::Base64Bytes;
use crate::dictionary::Meta;
use crate::enums::Role;
use crate::error::{SchemaError, SchemaFault};
use crate::json::{Entries, JsonNumber, JsonTree, JsonValue, entries_of, lemma_object_view};
use crate::timestamp::{Timestamp, TimestampModel};
use crate::wire::{
    Tagged,
    Wire,
    discriminator,
    encoded_some,
    group_lookup,
    lemma_optional,
    lemma_optional_valid,
    lemma_other_tag_refused,
    lemma_required,
    lemma_required_valid,
    lookup,
    optional,
    optional_of,
    push_field,
    push_some,
    push_text,
    put,
    put_some,
    put_text,
    required,
    required_of,
    tagged,
    tagged_of,
    valid_some,
};
use crate::words::lemma_wire_words;

verus! {

/// The shape without fields: the fallback member of the unions. It stands for
/// the object without entries, and refuses an object that has any.
#[derive(Debug, Clone, PartialEq, Eq, Default)]
pub struct Empty {}

/// The model of [`Empty`].
pub struct EmptyModel {}

impl DeepView for Empty {
    type V = EmptyModel;

    open spec fn deep_view(&self) -> EmptyModel {
        EmptyModel {  }
    }
}

impl Wire for Empty {
    open spec fn encode(m: EmptyModel) -> JsonTree {
        JsonTree::Object(Seq::empty())
    }

    open spec fn decode(t: JsonTree) -> Result<EmptyModel, SchemaFault> {
        match t {
            JsonTree::Object(e) => if e.len() == 0 {
                Ok(EmptyModel {  })
            } else {
                Err(SchemaFault::UnknownField { of_type: "Empty"@, field: e[0].0 })
            },
            _ => Err(SchemaFault::Malformed { of_type: "Empty"@ }),
        }
    }

    open spec fn valid(m: EmptyModel) -> bool {
        true
    }

    fn serialize(&self) -> (out: JsonValue) {
        let fields: Vec<(String, JsonValue)> = Vec::new();
        proof {
            lemma_object_view(fields);
            assert(entries_of(fields@) =~= Seq::empty());
        }
        JsonValue::Object(fields)
    }

    fn deserialize(value: &JsonValue) -> (out: Result<Empty, SchemaError>) {
        match value {
            JsonValue::Object(fields) => {
                proof {
                    lemma_object_view(*fields);
                }
                if fields.len() == 0 {
                    Ok(Empty {  })
                } else {
                    Err(
                        SchemaError::UnknownField {
                            of_type: String::from_str("Empty"),
                            field: fields[0].0.clone(),
                        },
                    )
                }
            },
            _ => Err(SchemaError::Malformed { of_type: String::from_str("Empty") }),
        }
    }

    proof fn round_trip(m: EmptyModel) {
    }

    proof fn decoded_valid(t: JsonTree) {
    }
}

/// Hints to a client on how to use or show a piece of content. The priority is
/// by convention between 0 and 1, which is not enforced: any number is taken.
#[derive(Debug, Clone, PartialEq, Default)]
pub struct Annotations {
    /// Intended audience for the resource
    pub audience: Vec<Role>,
    /// Last modified timestamp for the resource
    pub last_modified: Timestamp,
    /// Priority level indicating the importance of the resource
    pub priority: JsonNumber,
}

/// The model of [`Annotations`].
pub struct AnnotationsModel {
    pub audience: Seq<Role>,
    pub last_modified: TimestampModel,
    pub priority: JsonNumber,
}

impl DeepView for Annotations {
    type V = AnnotationsModel;

    open spec fn deep_view(&self) -> AnnotationsModel {
        AnnotationsModel {
            audience: self.audience.deep_view(),
            last_modified: self.last_modified.deep_view(),
            priority: self.priority.deep_view(),
        }
    }
}

impl Annotations {
    /// The entries of the object that stands for a value, in the order in which
    /// they are written.
    pub open spec fn entries(m: AnnotationsModel) -> Entries {
        let e = Seq::empty();
        let e = put::<Vec<Role>>(e, "audience"@, m.audience);
        let e = put::<Timestamp>(e, "lastModified"@, m.last_modified);
        let e = put::<JsonNumber>(e, "priority"@, m.priority);
        e
    }

    /// What is written under each name: a field that must be there is always
    /// written, also where it is empty; a field that may be left out is written
    /// where it is set and has no entry where it is not; and no other name has
    /// an entry.
    pub proof fn lemma_written(m: AnnotationsModel)
        ensures
            lookup(Self::entries(m), "audience"@) == Some(<Vec<Role>>::encode(m.audience)),
            lookup(Self::entries(m), "lastModified"@) == Some(Timestamp::encode(m.last_modified)),
            lookup(Self::entries(m), "priority"@) == Some(JsonNumber::encode(m.priority)),
            forall|key: Seq<char>|
                key != "audience"@ && key != "lastModified"@ && key != "priority"@
                    ==> lookup(Self::entries(m), key) is None,
    {
        broadcast use group_lookup;

        lemma_wire_words();
    }
}

impl Wire for Annotations {
    open spec fn encode(m: AnnotationsModel) -> JsonTree {
        JsonTree::Object(Self::entries(m))
    }

    open spec fn decode(t: JsonTree) -> Result<AnnotationsModel, SchemaFault> {
        match t {
            JsonTree::Object(e) => {
                let audience = required_of::<Vec<Role>>(e, "audience"@, "Annotations"@);
                let last_modified = required_of::<Timestamp>(e, "lastModified"@, "Annotations"@);
                let priority = required_of::<JsonNumber>(e, "priority"@, "Annotations"@);
                if audience is Err {
                    Err(audience->Err_0)
                } else if last_modified is Err {
                    Err(last_modified->Err_0)
                } else if priority is Err {
                    Err(priority->Err_0)
                } else {
                    Ok(
                        AnnotationsModel {
                            audience: audience->Ok_0,
                            last_modified: last_modified->Ok_0,
                            priority: priority->Ok_0,
                        },
                    )
                }
            },
            _ => Err(SchemaFault::Malformed { of_type: "Annotations"@ }),
        }
    }

    open spec fn valid(m: AnnotationsModel) -> bool {
        &&& <Vec<Role>>::valid(m.audience)
        &&& Timestamp::valid(m.last_modified)
        &&& JsonNumber::valid(m.priority)
    }

    fn serialize(&self) -> (out: JsonValue) {
        let mut fields: Vec<(String, JsonValue)> = Vec::new();
        assert(entries_of(fields@) =~= Seq::empty());
        push_field::<Vec<Role>>(&mut fields, "audience", &self.audience);
        push_field::<Timestamp>(&mut fields, "lastModified", &self.last_modified);
        push_field::<JsonNumber>(&mut fields, "priority", &self.priority);
        proof {
            lemma_object_view(fields);
        }
        JsonValue::Object(fields)
    }

    fn deserialize(value: &JsonValue) -> (out: Result<Annotations, SchemaError>) {
        match value {
            JsonValue::Object(fields) => {
                proof {
                    lemma_object_view(*fields);
                }
                let audience = required::<Vec<Role>>(fields, "audience", "Annotations")?;
                let last_modified = required::<Timestamp>(fields, "lastModified", "Annotations")?;
                let priority = required::<JsonNumber>(fields, "priority", "Annotations")?;
                Ok(Annotations { audience, last_modified, priority })
            },
            _ => Err(SchemaError::Malformed { of_type: String::from_str("Annotations") }),
        }
    }

    proof fn round_trip(m: AnnotationsModel) {
        Self::lemma_written(m);
        let e = Self::entries(m);
        lemma_required::<Vec<Role>>(e, "audience"@, "Annotations"@, m.audience);
        lemma_required::<Timestamp>(e, "lastModified"@, "Annotations"@, m.last_modified);
        lemma_required::<JsonNumber>(e, "priority"@, "Annotations"@, m.priority);
    }

    proof fn decoded_valid(t: JsonTree) {
        match t {
            JsonTree::Object(e) => {
                lemma_required_valid::<Vec<Role>>(e, "audience"@, "Annotations"@);
                lemma_required_valid::<Timestamp>(e, "lastModified"@, "Annotations"@);
                lemma_required_valid::<JsonNumber>(e, "priority"@, "Annotations"@);
            },
            _ => {},
        }
    }
}

/// Audio handed to or from a model.
#[derive(Debug, Clone, PartialEq, Default)]
pub struct AudioContent {
    /// Optional additional metadata about the content block
    pub meta: Option<Meta>,
    /// Optional content annotations
    pub annotations: Option<Annotations>,
    /// The audio data, base64 text on the wire
    pub data: Base64Bytes,
    /// MIME type of the audio (e.g. 'audio/mpeg')
    pub mime_type: String,
}

/// The model of [`AudioContent`].
pub struct AudioContentModel {
    pub meta: Option<Seq<(Seq<char>, JsonTree)>>,
    pub annotations: Option<AnnotationsModel>,
    pub data: Seq<u8>,
    pub mime_type: Seq<char>,
}

impl DeepView for AudioContent {
    type V = AudioContentModel;

    open spec fn deep_view(&self) -> AudioContentModel {
        AudioContentModel {
            meta: self.meta.deep_view(),
            annotations: self.annotations.deep_view(),
            data: self.data.deep_view(),
            mime_type: self.mime_type.deep_view(),
        }
    }
}

impl AudioContent {
    /// The entries of the object that stands for a value, in the order in which
    /// they are written.
    pub open spec fn entries(m: AudioContentModel) -> Entries {
        let e = Seq::empty();
        let e = put_some::<Meta>(e, "_meta"@, m.meta);
        let e = put_some::<Annotations>(e, "annotations"@, m.annotations);
        let e = put::<Base64Bytes>(e, "data"@, m.data);
        let e = put::<String>(e, "mimeType"@, m.mime_type);
        let e = put_text(e, "type"@, "audio"@);
        e
    }

    /// What is written under each name: a field that must be there is always
    /// written, also where it is empty; a field that may be left out is written
    /// where it is set and has no entry where it is not; and no other name has
    /// an entry.
    pub proof fn lemma_written(m: AudioContentModel)
        ensures
            lookup(Self::entries(m), "_meta"@) == encoded_some::<Meta>(m.meta),
            lookup(Self::entries(m), "annotations"@) == encoded_some::<Annotations>(m.annotations),
            lookup(Self::entries(m), "data"@) == Some(Base64Bytes::encode(m.data)),
            lookup(Self::entries(m), "mimeType"@) == Some(String::encode(m.mime_type)),
            lookup(Self::entries(m), "type"@) == Some(JsonTree::String("audio"@)),
            forall|key: Seq<char>|
                key != "_meta"@ && key != "annotations"@ && key != "data"@ &&
                    key != "mimeType"@ && key != "type"@
                    ==> lookup(Self::entries(m), key) is None,
    {
        broadcast use group_lookup;

        lemma_wire_words();
    }
}

/// Written as an object with the discriminator `"type": "audio"`. A value is read
/// field by field, and the discriminator is checked last.
impl Wire for AudioContent {
    open spec fn encode(m: AudioContentModel) -> JsonTree {
        JsonTree::Object(Self::entries(m))
    }

    open spec fn decode(t: JsonTree) -> Result<AudioContentModel, SchemaFault> {
        match t {
            JsonTree::Object(e) => {
                let meta = optional_of::<Meta>(e, "_meta"@);
                let annotations = optional_of::<Annotations>(e, "annotations"@);
                let data = required_of::<Base64Bytes>(e, "data"@, "AudioContent"@);
                let mime_type = required_of::<String>(e, "mimeType"@, "AudioContent"@);
                let tag = tagged_of(e, "type"@, "audio"@, "AudioContent"@);
                if meta is Err {
                    Err(meta->Err_0)
                } else if annotations is Err {
                    Err(annotations->Err_0)
                } else if data is Err {
                    Err(data->Err_0)
                } else if mime_type is Err {
                    Err(mime_type->Err_0)
                } else if tag is Err {
                    Err(tag->Err_0)
                } else {
                    Ok(
                        AudioContentModel {
                            meta: meta->Ok_0,
                            annotations: annotations->Ok_0,
                            data: data->Ok_0,
                            mime_type: mime_type->Ok_0,
                        },
                    )
                }
            },
            _ => Err(SchemaFault::Malformed { of_type: "AudioContent"@ }),
        }
    }

    open spec fn valid(m: AudioContentModel) -> bool {
        &&& valid_some::<Meta>(m.meta)
        &&& valid_some::<Annotations>(m.annotations)
        &&& Base64Bytes::valid(m.data)
        &&& String::valid(m.mime_type)
    }

    fn serialize(&self) -> (out: JsonValue) {
        let mut fields: Vec<(String, JsonValue)> = Vec::new();
        assert(entries_of(fields@) =~= Seq::empty());
        push_some::<Meta>(&mut fields, "_meta", &self.meta);
        push_some::<Annotations>(&mut fields, "annotations", &self.annotations);
        push_field::<Base64Bytes>(&mut fields, "data", &self.data);
        push_field::<String>(&mut fields, "mimeType", &self.mime_type);
        push_text(&mut fields, "type", "audio");
        proof {
            lemma_object_view(fields);
        }
        JsonValue::Object(fields)
    }

    fn deserialize(value: &JsonValue) -> (out: Result<AudioContent, SchemaError>) {
        match value {
            JsonValue::Object(fields) => {
                proof {
                    lemma_object_view(*fields);
                }
                let meta = optional::<Meta>(fields, "_meta")?;
                let annotations = optional::<Annotations>(fields, "annotations")?;
                let data = required::<Base64Bytes>(fields, "data", "AudioContent")?;
                let mime_type = required::<String>(fields, "mimeType", "AudioContent")?;
                tagged(fields, "type", "audio", "AudioContent")?;
                Ok(AudioContent { meta, annotations, data, mime_type })
            },
            _ => Err(SchemaError::Malformed { of_type: String::from_str("AudioContent") }),
        }
    }

    proof fn round_trip(m: AudioContentModel) {
        Self::lemma_written(m);
        let e = Self::entries(m);
        lemma_optional::<Meta>(e, "_meta"@, m.meta);
        lemma_optional::<Annotations>(e, "annotations"@, m.annotations);
        lemma_required::<Base64Bytes>(e, "data"@, "AudioContent"@, m.data);
        lemma_required::<String>(e, "mimeType"@, "AudioContent"@, m.mime_type);
    }

    proof fn decoded_valid(t: JsonTree) {
        match t {
            JsonTree::Object(e) => {
                lemma_optional_valid::<Meta>(e, "_meta"@);
                lemma_optional_valid::<Annotations>(e, "annotations"@);
                lemma_required_valid::<Base64Bytes>(e, "data"@, "AudioContent"@);
                lemma_required_valid::<String>(e, "mimeType"@, "AudioContent"@);
            },
            _ => {},
        }
    }
}

impl Tagged for AudioContent {
    open spec fn tag() -> Seq<char> {
        "audio"@
    }

    proof fn tag_written(m: AudioContentModel) {
        Self::lemma_written(m);
    }

    proof fn tag_read(t: JsonTree) {
    }
}

/// An image handed to or from a model.
#[derive(Debug, Clone, PartialEq, Default)]
pub struct ImageContent {
    /// Optional additional metadata about the content block
    pub meta: Option<Meta>,
    /// Optional content annotations
    pub annotations: Option<Annotations>,
    /// The image data, base64 text on the wire
    pub data: Base64Bytes,
    /// MIME type of the image (e.g. 'image/png')
    pub mime_type: String,
}

/// The model of [`ImageContent`].
pub struct ImageContentModel {
    pub meta: Option<Seq<(Seq<char>, JsonTree)>>,
    pub annotations: Option<AnnotationsModel>,
    pub data: Seq<u8>,
    pub mime_type: Seq<char>,
}

impl DeepView for ImageContent {
    type V = ImageContentModel;

    open spec fn deep_view(&self) -> ImageContentModel {
        ImageContentModel {
            meta: self.meta.deep_view(),
            annotations: self.annotations.deep_view(),
            data: self.data.deep_view(),
            mime_type: self.mime_type.deep_view(),
        }
    }
}

impl ImageContent {
    /// The entries of the object that stands for a value, in the order in which
    /// they are written.
    pub open spec fn entries(m: ImageContentModel) -> Entries {
        let e = Seq::empty();
        let e = put_some::<Meta>(e, "_meta"@, m.meta);
        let e = put_some::<Annotations>(e, "annotations"@, m.annotations);
        let e = put::<Base64Bytes>(e, "data"@, m.data);
        let e = put::<String>(e, "mimeType"@, m.mime_type);
        let e = put_text(e, "type"@, "image"@);
        e
    }

    /// What is written under each name: a field that must be there is always
    /// written, also where it is empty; a field that may be left out is written
    /// where it is set and has no entry where it is not; and no other name has
    /// an entry.
    pub proof fn lemma_written(m: ImageContentModel)
        ensures
            lookup(Self::entries(m), "_meta"@) == encoded_some::<Meta>(m.meta),
            lookup(Self::entries(m), "annotations"@) == encoded_some::<Annotations>(m.annotations),
            lookup(Self::entries(m), "data"@) == Some(Base64Bytes::encode(m.data)),
            lookup(Self::entries(m), "mimeType"@) == Some(String::encode(m.mime_type)),
            lookup(Self::entries(m), "type"@) == Some(JsonTree::String("image"@)),
            forall|key: Seq<char>|
                key != "_meta"@ && key != "annotations"@ && key != "data"@ &&
                    key != "mimeType"@ && key != "type"@
                    ==> lookup(Self::entries(m), key) is None,
    {
        broadcast use group_lookup;

        lemma_wire_words();
    }
}

/// Written as an object with the discriminator `"type": "image"`. A value is read
/// field by field, and the discriminator is checked last.
impl Wire for ImageContent {
    open spec fn encode(m: ImageContentModel) -> JsonTree {
        JsonTree::Object(Self::entries(m))
    }

    open spec fn decode(t: JsonTree) -> Result<ImageContentModel, SchemaFault> {
        match t {
            JsonTree::Object(e) => {
                let meta = optional_of::<Meta>(e, "_meta"@);
                let annotations = optional_of::<Annotations>(e, "annotations"@);
                let data = required_of::<Base64Bytes>(e, "data"@, "ImageContent"@);
                let mime_type = required_of::<String>(e, "mimeType"@, "ImageContent"@);
                let tag = tagged_of(e, "type"@, "image"@, "ImageContent"@);
                if meta is Err {
                    Err(meta->Err_0)
                } else if annotations is Err {
                    Err(annotations->Err_0)
                } else if data is Err {
                    Err(data->Err_0)
                } else if mime_type is Err {
                    Err(mime_type->Err_0)
                } else if tag is Err {
                    Err(tag->Err_0)
                } else {
                    Ok(
                        ImageContentModel {
                            meta: meta->Ok_0,
                            annotations: annotations->Ok_0,
                            data: data->Ok_0,
                            mime_type: mime_type->Ok_0,
                        },
                    )
                }
            },
            _ => Err(SchemaFault::Malformed { of_type: "ImageContent"@ }),
        }
    }

    open spec fn valid(m: ImageContentModel) -> bool {
        &&& valid_some::<Meta>(m.meta)
        &&& valid_some::<Annotations>(m.annotations)
        &&& Base64Bytes::valid(m.data)
        &&& String::valid(m.mime_type)
    }

    fn serialize(&self) -> (out: JsonValue) {
        let mut fields: Vec<(String, JsonValue)> = Vec::new();
        assert(entries_of(fields@) =~= Seq::empty());
        push_some::<Meta>(&mut fields, "_meta", &self.meta);
        push_some::<Annotations>(&mut fields, "annotations", &self.annotations);
        push_field::<Base64Bytes>(&mut fields, "data", &self.data);
        push_field::<String>(&mut fields, "mimeType", &self.mime_type);
        push_text(&mut fields, "type", "image");
        proof {
            lemma_object_view(fields);
        }
        JsonValue::Object(fields)
    }

    fn deserialize(value: &JsonValue) -> (out: Result<ImageContent, SchemaError>) {
        match value {
            JsonValue::Object(fields) => {
                proof {
                    lemma_object_view(*fields);
                }
                let meta = optional::<Meta>(fields, "_meta")?;
                let annotations = optional::<Annotations>(fields, "annotations")?;
                let data = required::<Base64Bytes>(fields, "data", "ImageContent")?;
                let mime_type = required::<String>(fields, "mimeType", "ImageContent")?;
                tagged(fields, "type", "image", "ImageContent")?;
                Ok(ImageContent { meta, annotations, data, mime_type })
            },
            _ => Err(SchemaError::Malformed { of_type: String::from_str("ImageContent") }),
        }
    }

    proof fn round_trip(m: ImageContentModel) {
        Self::lemma_written(m);
        let e = Self::entries(m);
        lemma_optional::<Meta>(e, "_meta"@, m.meta);
        lemma_optional::<Annotations>(e, "annotations"@, m.annotations);
        lemma_required::<Base64Bytes>(e, "data"@, "ImageContent"@, m.data);
        lemma_required::<String>(e, "mimeType"@, "ImageContent"@, m.mime_type);
    }

    proof fn decoded_valid(t: JsonTree) {
        match t {
            JsonTree::Object(e) => {
                lemma_optional_valid::<Meta>(e, "_meta"@);
                lemma_optional_valid::<Annotations>(e, "annotations"@);
                lemma_required_valid::<Base64Bytes>(e, "data"@, "ImageContent"@);
                lemma_required_valid::<String>(e, "mimeType"@, "ImageContent"@);
            },
            _ => {},
        }
    }
}

impl Tagged for ImageContent {
    open spec fn tag() -> Seq<char> {
        "image"@
    }

    proof fn tag_written(m: ImageContentModel) {
        Self::lemma_written(m);
    }

    proof fn tag_read(t: JsonTree) {
    }
}

/// Text handed to or from a model.
#[derive(Debug, Clone, PartialEq, Default)]
pub struct TextContent {
    /// Optional additional metadata about the content block
    pub meta: Option<Meta>,
    /// Optional content annotations
    pub annotations: Option<Annotations>,
    /// The text content
    pub text: String,
}

/// The model of [`TextContent`].
pub struct TextContentModel {
    pub meta: Option<Seq<(Seq<char>, JsonTree)>>,
    pub annotations: Option<AnnotationsModel>,
    pub text: Seq<char>,
}

impl DeepView for TextContent {
    type V = TextContentModel;

    open spec fn deep_view(&self) -> TextContentModel {
        TextContentModel {
            meta: self.meta.deep_view(),
            annotations: self.annotations.deep_view(),
            text: self.text.deep_view(),
        }
    }
}

impl TextContent {
    /// The entries of the object that stands for a value, in the order in which
    /// they are written.
    pub open spec fn entries(m: TextContentModel) -> Entries {
        let e = Seq::empty();
        let e = put_some::<Meta>(e, "_meta"@, m.meta);
        let e = put_some::<Annotations>(e, "annotations"@, m.annotations);
        let e = put::<String>(e, "text"@, m.text);
        let e = put_text(e, "type"@, "text"@);
        e
    }

    /// What is written under each name: a field that must be there is always
    /// written, also where it is empty; a field that may be left out is written
    /// where it is set and has no entry where it is not; and no other name has
    /// an entry.
    pub proof fn lemma_written(m: TextContentModel)
        ensures
            lookup(Self::entries(m), "_meta"@) == encoded_some::<Meta>(m.meta),
            lookup(Self::entries(m), "annotations"@) == encoded_some::<Annotations>(m.annotations),
            lookup(Self::entries(m), "text"@) == Some(String::encode(m.text)),
            lookup(Self::entries(m), "type"@) == Some(JsonTree::String("text"@)),
            forall|key: Seq<char>|
                key != "_meta"@ && key != "annotations"@ && key != "text"@ && key != "type"@
                    ==> lookup(Self::entries(m), key) is None,
    {
        broadcast use group_lookup;

        lemma_wire_words();
    }
}

/// Written as an object with the discriminator `"type": "text"`. A value is read
/// field by field, and the discriminator is checked last.
impl Wire for TextContent {
    open spec fn encode(m: TextContentModel) -> JsonTree {
        JsonTree::Object(Self::entries(m))
    }

    open spec fn decode(t: JsonTree) -> Result<TextContentModel, SchemaFault> {
        match t {
            JsonTree::Object(e) => {
                let meta = optional_of::<Meta>(e, "_meta"@);
                let annotations = optional_of::<Annotations>(e, "annotations"@);
                let text = required_of::<String>(e, "text"@, "TextContent"@);
                let tag = tagged_of(e, "type"@, "text"@, "TextContent"@);
                if meta is Err {
                    Err(meta->Err_0)
                } else if annotations is Err {
                    Err(annotations->Err_0)
                } else if text is Err {
                    Err(text->Err_0)
                } else if tag is Err {
                    Err(tag->Err_0)
                } else {
                    Ok(
                        TextContentModel {
                            meta: meta->Ok_0,
                            annotations: annotations->Ok_0,
                            text: text->Ok_0,
                        },
                    )
                }
            },
            _ => Err(SchemaFault::Malformed { of_type: "TextContent"@ }),
        }
    }

    open spec fn valid(m: TextContentModel) -> bool {
        &&& valid_some::<Meta>(m.meta)
        &&& valid_some::<Annotations>(m.annotations)
        &&& String::valid(m.text)
    }

    fn serialize(&self) -> (out: JsonValue) {
        let mut fields: Vec<(String, JsonValue)> = Vec::new();
        assert(entries_of(fields@) =~= Seq::empty());
        push_some::<Meta>(&mut fields, "_meta", &self.meta);
        push_some::<Annotations>(&mut fields, "annotations", &self.annotations);
        push_field::<String>(&mut fields, "text", &self.text);
        push_text(&mut fields, "type", "text");
        proof {
            lemma_object_view(fields);
        }
        JsonValue::Object(fields)
    }

    fn deserialize(value: &JsonValue) -> (out: Result<TextContent, SchemaError>) {
        match value {
            JsonValue::Object(fields) => {
                proof {
                    lemma_object_view(*fields);
                }
                let meta = optional::<Meta>(fields, "_meta")?;
                let annotations = optional::<Annotations>(fields, "annotations")?;
                let text = required::<String>(fields, "text", "TextContent")?;
                tagged(fields, "type", "text", "TextContent")?;
                Ok(TextContent { meta, annotations, text })
            },
            _ => Err(SchemaError::Malformed { of_type: String::from_str("TextContent") }),
        }
    }

    proof fn round_trip(m: TextContentModel) {
        Self::lemma_written(m);
        let e = Self::entries(m);
        lemma_optional::<Meta>(e, "_meta"@, m.meta);
        lemma_optional::<Annotations>(e, "annotations"@, m.annotations);
        lemma_required::<String>(e, "text"@, "TextContent"@, m.text);
    }

    proof fn decoded_valid(t: JsonTree) {
        match t {
            JsonTree::Object(e) => {
                lemma_optional_valid::<Meta>(e, "_meta"@);
                lemma_optional_valid::<Annotations>(e, "annotations"@);
                lemma_required_valid::<String>(e, "text"@, "TextContent"@);
            },
            _ => {},
        }
    }
}

impl Tagged for TextContent {
    open spec fn tag() -> Seq<char> {
        "text"@
    }

    proof fn tag_written(m: TextContentModel) {
        Self::lemma_written(m);
    }

    proof fn tag_read(t: JsonTree) {
    }
}

/// The contents of a binary resource.
#[derive(Debug, Clone, PartialEq, Default)]
pub struct BlobResourceContents {
    /// Optional additional metadata about the blob resource
    pub meta: Option<Meta>,
    /// The binary data of the resource, base64 text on the wire
    pub blob: Base64Bytes,
    /// MIME type of the binary content (e.g. 'application/pdf')
    pub mime_type: Option<String>,
    /// URI of the resource
    pub uri: String,
}

/// The model of [`BlobResourceContents`].
pub struct BlobResourceContentsModel {
    pub meta: Option<Seq<(Seq<char>, JsonTree)>>,
    pub blob: Seq<u8>,
    pub mime_type: Option<Seq<char>>,
    pub uri: Seq<char>,
}

impl DeepView for BlobResourceContents {
    type V = BlobResourceContentsModel;

    open spec fn deep_view(&self) -> BlobResourceContentsModel {
        BlobResourceContentsModel {
            meta: self.meta.deep_view(),
            blob: self.blob.deep_view(),
            mime_type: self.mime_type.deep_view(),
            uri: self.uri.deep_view(),
        }
    }
}

impl BlobResourceContents {
    /// The entries of the object that stands for a value, in the order in which
    /// they are written.
    pub open spec fn entries(m: BlobResourceContentsModel) -> Entries {
        let e = Seq::empty();
        let e = put_some::<Meta>(e, "_meta"@, m.meta);
        let e = put::<Base64Bytes>(e, "blob"@, m.blob);
        let e = put_some::<String>(e, "mimeType"@, m.mime_type);
        let e = put::<String>(e, "uri"@, m.uri);
        e
    }

    /// What is written under each name: a field that must be there is always
    /// written, also where it is empty; a field that may be left out is written
    /// where it is set and has no entry where it is not; and no other name has
    /// an entry.
    pub proof fn lemma_written(m: BlobResourceContentsModel)
        ensures
            lookup(Self::entries(m), "_meta"@) == encoded_some::<Meta>(m.meta),
            lookup(Self::entries(m), "blob"@) == Some(Base64Bytes::encode(m.blob)),
            lookup(Self::entries(m), "mimeType"@) == encoded_some::<String>(m.mime_type),
            lookup(Self::entries(m), "uri"@) == Some(String::encode(m.uri)),
            forall|key: Seq<char>|
                key != "_meta"@ && key != "blob"@ && key != "mimeType"@ && key != "uri"@
                    ==> lookup(Self::entries(m), key) is None,
    {
        broadcast use group_lookup;

        lemma_wire_words();
    }
}

impl Wire for BlobResourceContents {
    open spec fn encode(m: BlobResourceContentsModel) -> JsonTree {
        JsonTree::Object(Self::entries(m))
    }

    open spec fn decode(t: JsonTree) -> Result<BlobResourceContentsModel, SchemaFault> {
        match t {
            JsonTree::Object(e) => {
                let meta = optional_of::<Meta>(e, "_meta"@);
                let blob = required_of::<Base64Bytes>(e, "blob"@, "BlobResourceContents"@);
                let mime_type = optional_of::<String>(e, "mimeType"@);
                let uri = required_of::<String>(e, "uri"@, "BlobResourceContents"@);
                if meta is Err {
                    Err(meta->Err_0)
                } else if blob is Err {
                    Err(blob->Err_0)
                } else if mime_type is Err {
                    Err(mime_type->Err_0)
                } else if uri is Err {
                    Err(uri->Err_0)
                } else {
                    Ok(
                        BlobResourceContentsModel {
                            meta: meta->Ok_0,
                            blob: blob->Ok_0,
                            mime_type: mime_type->Ok_0,
                            uri: uri->Ok_0,
                        },
                    )
                }
            },
            _ => Err(SchemaFault::Malformed { of_type: "BlobResourceContents"@ }),
        }
    }

    open spec fn valid(m: BlobResourceContentsModel) -> bool {
        &&& valid_some::<Meta>(m.meta)
        &&& Base64Bytes::valid(m.blob)
        &&& valid_some::<String>(m.mime_type)
        &&& String::valid(m.uri)
    }

    fn serialize(&self) -> (out: JsonValue) {
        let mut fields: Vec<(String, JsonValue)> = Vec::new();
        assert(entries_of(fields@) =~= Seq::empty());
        push_some::<Meta>(&mut fields, "_meta", &self.meta);
        push_field::<Base64Bytes>(&mut fields, "blob", &self.blob);
        push_some::<String>(&mut fields, "mimeType", &self.mime_type);
        push_field::<String>(&mut fields, "uri", &self.uri);
        proof {
            lemma_object_view(fields);
        }
        JsonValue::Object(fields)
    }

    fn deserialize(value: &JsonValue) -> (out: Result<BlobResourceContents, SchemaError>) {
        match value {
            JsonValue::Object(fields) => {
                proof {
                    lemma_object_view(*fields);
                }
                let meta = optional::<Meta>(fields, "_meta")?;
                let blob = required::<Base64Bytes>(fields, "blob", "BlobResourceContents")?;
                let mime_type = optional::<String>(fields, "mimeType")?;
                let uri = required::<String>(fields, "uri", "BlobResourceContents")?;
                Ok(BlobResourceContents { meta, blob, mime_type, uri })
            },
            _ => Err(SchemaError::Malformed { of_type: String::from_str("BlobResourceContents") }),
        }
    }

    proof fn round_trip(m: BlobResourceContentsModel) {
        Self::lemma_written(m);
        let e = Self::entries(m);
        lemma_optional::<Meta>(e, "_meta"@, m.meta);
        lemma_required::<Base64Bytes>(e, "blob"@, "BlobResourceContents"@, m.blob);
        lemma_optional::<String>(e, "mimeType"@, m.mime_type);
        lemma_required::<String>(e, "uri"@, "BlobResourceContents"@, m.uri);
    }

    proof fn decoded_valid(t: JsonTree) {
        match t {
            JsonTree::Object(e) => {
                lemma_optional_valid::<Meta>(e, "_meta"@);
                lemma_required_valid::<Base64Bytes>(e, "blob"@, "BlobResourceContents"@);
                lemma_optional_valid::<String>(e, "mimeType"@);
                lemma_required_valid::<String>(e, "uri"@, "BlobResourceContents"@);
            },
            _ => {},
        }
    }
}

/// The contents of a text resource.
#[derive(Debug, Clone, PartialEq, Default)]
pub struct TextResourceContents {
    /// Optional additional metadata about the text resource
    pub meta: Option<Meta>,
    /// MIME type of the text content (e.g. 'text/plain')
    pub mime_type: Option<String>,
    /// Text content of the resource
    pub text: String,
    /// URI of the resource
    pub uri: String,
}

/// The model of [`TextResourceContents`].
pub struct TextResourceContentsModel {
    pub meta: Option<Seq<(Seq<char>, JsonTree)>>,
    pub mime_type: Option<Seq<char>>,
    pub text: Seq<char>,
    pub uri: Seq<char>,
}

impl DeepView for TextResourceContents {
    type V = TextResourceContentsModel;

    open spec fn deep_view(&self) -> TextResourceContentsModel {
        TextResourceContentsModel {
            meta: self.meta.deep_view(),
            mime_type: self.mime_type.deep_view(),
            text: self.text.deep_view(),
            uri: self.uri.deep_view(),
        }
    }
}

impl TextResourceContents {
    /// The entries of the object that stands for a value, in the order in which
    /// they are written.
    pub open spec fn entries(m: TextResourceContentsModel) -> Entries {
        let e = Seq::empty();
        let e = put_some::<Meta>(e, "_meta"@, m.meta);
        let e = put_some::<String>(e, "mimeType"@, m.mime_type);
        let e = put::<String>(e, "text"@, m.text);
        let e = put::<String>(e, "uri"@, m.uri);
        e
    }

    /// What is written under each name: a field that must be there is always
    /// written, also where it is empty; a field that may be left out is written
    /// where it is set and has no entry where it is not; and no other name has
    /// an entry.
    pub proof fn lemma_written(m: TextResourceContentsModel)
        ensures
            lookup(Self::entries(m), "_meta"@) == encoded_some::<Meta>(m.meta),
            lookup(Self::entries(m), "mimeType"@) == encoded_some::<String>(m.mime_type),
            lookup(Self::entries(m), "text"@) == Some(String::encode(m.text)),
            lookup(Self::entries(m), "uri"@) == Some(String::encode(m.uri)),
            forall|key: Seq<char>|
                key != "_meta"@ && key != "mimeType"@ && key != "text"@ && key != "uri"@
                    ==> lookup(Self::entries(m), key) is None,
    {
        broadcast use group_lookup;

        lemma_wire_words();
    }
}

impl Wire for TextResourceContents {
    open spec fn encode(m: TextResourceContentsModel) -> JsonTree {
        JsonTree::Object(Self::entries(m))
    }

    open spec fn decode(t: JsonTree) -> Result<TextResourceContentsModel, SchemaFault> {
        match t {
            JsonTree::Object(e) => {
                let meta = optional_of::<Meta>(e, "_meta"@);
                let mime_type = optional_of::<String>(e, "mimeType"@);
                let text = required_of::<String>(e, "text"@, "TextResourceContents"@);
                let uri = required_of::<String>(e, "uri"@, "TextResourceContents"@);
                if meta is Err {
                    Err(meta->Err_0)
                } else if mime_type is Err {
                    Err(mime_type->Err_0)
                } else if text is Err {
                    Err(text->Err_0)
                } else if uri is Err {
                    Err(uri->Err_0)
                } else {
                    Ok(
                        TextResourceContentsModel {
                            meta: meta->Ok_0,
                            mime_type: mime_type->Ok_0,
                            text: text->Ok_0,
                            uri: uri->Ok_0,
                        },
                    )
                }
            },
            _ => Err(SchemaFault::Malformed { of_type: "TextResourceContents"@ }),
        }
    }

    open spec fn valid(m: TextResourceContentsModel) -> bool {
        &&& valid_some::<Meta>(m.meta)
        &&& valid_some::<String>(m.mime_type)
        &&& String::valid(m.text)
        &&& String::valid(m.uri)
    }

    fn serialize(&self) -> (out: JsonValue) {
        let mut fields: Vec<(String, JsonValue)> = Vec::new();
        assert(entries_of(fields@) =~= Seq::empty());
        push_some::<Meta>(&mut fields, "_meta", &self.meta);
        push_some::<String>(&mut fields, "mimeType", &self.mime_type);
        push_field::<String>(&mut fields, "text", &self.text);
        push_field::<String>(&mut fields, "uri", &self.uri);
        proof {
            lemma_object_view(fields);
        }
        JsonValue::Object(fields)
    }

    fn deserialize(value: &JsonValue) -> (out: Result<TextResourceContents, SchemaError>) {
        match value {
            JsonValue::Object(fields) => {
                proof {
                    lemma_object_view(*fields);
                }
                let meta = optional::<Meta>(fields, "_meta")?;
                let mime_type = optional::<String>(fields, "mimeType")?;
                let text = required::<String>(fields, "text", "TextResourceContents")?;
                let uri = required::<String>(fields, "uri", "TextResourceContents")?;
                Ok(TextResourceContents { meta, mime_type, text, uri })
            },
            _ => Err(SchemaError::Malformed { of_type: String::from_str("TextResourceContents") }),
        }
    }

    proof fn round_trip(m: TextResourceContentsModel) {
        Self::lemma_written(m);
        let e = Self::entries(m);
        lemma_optional::<Meta>(e, "_meta"@, m.meta);
        lemma_optional::<String>(e, "mimeType"@, m.mime_type);
        lemma_required::<String>(e, "text"@, "TextResourceContents"@, m.text);
        lemma_required::<String>(e, "uri"@, "TextResourceContents"@, m.uri);
    }

    proof fn decoded_valid(t: JsonTree) {
        match t {
            JsonTree::Object(e) => {
                lemma_optional_valid::<Meta>(e, "_meta"@);
                lemma_optional_valid::<String>(e, "mimeType"@);
                lemma_required_valid::<String>(e, "text"@, "TextResourceContents"@);
                lemma_required_valid::<String>(e, "uri"@, "TextResourceContents"@);
            },
            _ => {},
        }
    }
}

/// The contents of a resource, embedded in a prompt or in the result of a tool
/// call.
#[derive(Debug, Clone, PartialEq, Default)]
pub struct EmbeddedResource {
    /// Optional additional metadata about the embedded resource
    pub meta: Option<Meta>,
    /// Optional resource annotations
    pub annotations: Option<Annotations>,
    /// The embedded TextResourceContents or BlobResourceContents
    pub resource: ResourceContents,
}

/// The model of [`EmbeddedResource`].
pub struct EmbeddedResourceModel {
    pub meta: Option<Seq<(Seq<char>, JsonTree)>>,
    pub annotations: Option<AnnotationsModel>,
    pub resource: ResourceContentsModel,
}

impl DeepView for EmbeddedResource {
    type V = EmbeddedResourceModel;

    open spec fn deep_view(&self) -> EmbeddedResourceModel {
        EmbeddedResourceModel {
            meta: self.meta.deep_view(),
            annotations: self.annotations.deep_view(),
            resource: self.resource.deep_view(),
        }
    }
}

impl EmbeddedResource {
    /// The entries of the object that stands for a value, in the order in which
    /// they are written.
    pub open spec fn entries(m: EmbeddedResourceModel) -> Entries {
        let e = Seq::empty();
        let e = put_some::<Meta>(e, "_meta"@, m.meta);
        let e = put_some::<Annotations>(e, "annotations"@, m.annotations);
        let e = put::<ResourceContents>(e, "resource"@, m.resource);
        let e = put_text(e, "type"@, "resource"@);
        e
    }

    /// What is written under each name: a field that must be there is always
    /// written, also where it is empty; a field that may be left out is written
    /// where it is set and has no entry where it is not; and no other name has
    /// an entry.
    pub proof fn lemma_written(m: EmbeddedResourceModel)
        ensures
            lookup(Self::entries(m), "_meta"@) == encoded_some::<Meta>(m.meta),
            lookup(Self::entries(m), "annotations"@) == encoded_some::<Annotations>(m.annotations),
            lookup(Self::entries(m), "resource"@) == Some(ResourceContents::encode(m.resource)),
            lookup(Self::entries(m), "type"@) == Some(JsonTree::String("resource"@)),
            forall|key: Seq<char>|
                key != "_meta"@ && key != "annotations"@ && key != "resource"@ &&
                    key != "type"@
                    ==> lookup(Self::entries(m), key) is None,
    {
        broadcast use group_lookup;

        lemma_wire_words();
    }
}

/// Written as an object with the discriminator `"type": "resource"`. A value is read
/// field by field, and the discriminator is checked last.
impl Wire for EmbeddedResource {
    open spec fn encode(m: EmbeddedResourceModel) -> JsonTree {
        JsonTree::Object(Self::entries(m))
    }

    open spec fn decode(t: JsonTree) -> Result<EmbeddedResourceModel, SchemaFault> {
        match t {
            JsonTree::Object(e) => {
                let meta = optional_of::<Meta>(e, "_meta"@);
                let annotations = optional_of::<Annotations>(e, "annotations"@);
                let resource = required_of::<ResourceContents>(e, "resource"@, "EmbeddedResource"@);
                let tag = tagged_of(e, "type"@, "resource"@, "EmbeddedResource"@);
                if meta is Err {
                    Err(meta->Err_0)
                } else if annotations is Err {
                    Err(annotations->Err_0)
                } else if resource is Err {
                    Err(resource->Err_0)
                } else if tag is Err {
                    Err(tag->Err_0)
                } else {
                    Ok(
                        EmbeddedResourceModel {
                            meta: meta->Ok_0,
                            annotations: annotations->Ok_0,
                            resource: resource->Ok_0,
                        },
                    )
                }
            },
            _ => Err(SchemaFault::Malformed { of_type: "EmbeddedResource"@ }),
        }
    }

    open spec fn valid(m: EmbeddedResourceModel) -> bool {
        &&& valid_some::<Meta>(m.meta)
        &&& valid_some::<Annotations>(m.annotations)
        &&& ResourceContents::valid(m.resource)
    }

    fn serialize(&self) -> (out: JsonValue) {
        let mut fields: Vec<(String, JsonValue)> = Vec::new();
        assert(entries_of(fields@) =~= Seq::empty());
        push_some::<Meta>(&mut fields, "_meta", &self.meta);
        push_some::<Annotations>(&mut fields, "annotations", &self.annotations);
        push_field::<ResourceContents>(&mut fields, "resource", &self.resource);
        push_text(&mut fields, "type", "resource");
        proof {
            lemma_object_view(fields);
        }
        JsonValue::Object(fields)
    }

    fn deserialize(value: &JsonValue) -> (out: Result<EmbeddedResource, SchemaError>) {
        match value {
            JsonValue::Object(fields) => {
                proof {
                    lemma_object_view(*fields);
                }
                let meta = optional::<Meta>(fields, "_meta")?;
                let annotations = optional::<Annotations>(fields, "annotations")?;
                let resource = required::<ResourceContents>(fields, "resource", "EmbeddedResource")?;
                tagged(fields, "type", "resource", "EmbeddedResource")?;
                Ok(EmbeddedResource { meta, annotations, resource })
            },
            _ => Err(SchemaError::Malformed { of_type: String::from_str("EmbeddedResource") }),
        }
    }

    proof fn round_trip(m: EmbeddedResourceModel) {
        Self::lemma_written(m);
        let e = Self::entries(m);
        lemma_optional::<Meta>(e, "_meta"@, m.meta);
        lemma_optional::<Annotations>(e, "annotations"@, m.annotations);
        lemma_required::<ResourceContents>(e, "resource"@, "EmbeddedResource"@, m.resource);
    }

    proof fn decoded_valid(t: JsonTree) {
        match t {
            JsonTree::Object(e) => {
                lemma_optional_valid::<Meta>(e, "_meta"@);
                lemma_optional_valid::<Annotations>(e, "annotations"@);
                lemma_required_valid::<ResourceContents>(e, "resource"@, "EmbeddedResource"@);
            },
            _ => {},
        }
    }
}

impl Tagged for EmbeddedResource {
    open spec fn tag() -> Seq<char> {
        "resource"@
    }

    proof fn tag_written(m: EmbeddedResourceModel) {
        Self::lemma_written(m);
    }

    proof fn tag_read(t: JsonTree) {
    }
}

/// A link to a resource that a server can read.
#[derive(Debug, Clone, PartialEq, Default)]
pub struct ResourceLink {
    /// Optional additional metadata about the resource link
    pub meta: Option<Meta>,
    /// Optional resource annotations
    pub annotations: Option<Annotations>,
    /// Optional description of the resource
    pub description: Option<String>,
    /// Optional MIME type of the resource
    pub mime_type: Option<String>,
    /// Human-readable name
    pub name: String,
    /// Optional size in bytes
    pub size: Option<i64>,
    /// Optional human-readable title
    pub title: Option<String>,
    /// URI of the resource
    pub uri: String,
}

/// The model of [`ResourceLink`].
pub struct ResourceLinkModel {
    pub meta: Option<Seq<(Seq<char>, JsonTree)>>,
    pub annotations: Option<AnnotationsModel>,
    pub description: Option<Seq<char>>,
    pub mime_type: Option<Seq<char>>,
    pub name: Seq<char>,
    pub size: Option<i64>,
    pub title: Option<Seq<char>>,
    pub uri: Seq<char>,
}

impl DeepView for ResourceLink {
    type V = ResourceLinkModel;

    open spec fn deep_view(&self) -> ResourceLinkModel {
        ResourceLinkModel {
            meta: self.meta.deep_view(),
            annotations: self.annotations.deep_view(),
            description: self.description.deep_view(),
            mime_type: self.mime_type.deep_view(),
            name: self.name.deep_view(),
            size: self.size.deep_view(),
            title: self.title.deep_view(),
            uri: self.uri.deep_view(),
        }
    }
}

impl ResourceLink {
    /// The entries of the object that stands for a value, in the order in which
    /// they are written.
    pub open spec fn entries(m: ResourceLinkModel) -> Entries {
        let e = Seq::empty();
        let e = put_some::<Meta>(e, "_meta"@, m.meta);
        let e = put_some::<Annotations>(e, "annotations"@, m.annotations);
        let e = put_some::<String>(e, "description"@, m.description);
        let e = put_some::<String>(e, "mimeType"@, m.mime_type);
        let e = put::<String>(e, "name"@, m.name);
        let e = put_some::<i64>(e, "size"@, m.size);
        let e = put_some::<String>(e, "title"@, m.title);
        let e = put_text(e, "type"@, "resource_link"@);
        let e = put::<String>(e, "uri"@, m.uri);
        e
    }

    /// What is written under each name: a field that must be there is always
    /// written, also where it is empty; a field that may be left out is written
    /// where it is set and has no entry where it is not; and no other name has
    /// an entry.
    pub proof fn lemma_written(m: ResourceLinkModel)
        ensures
            lookup(Self::entries(m), "_meta"@) == encoded_some::<Meta>(m.meta),
            lookup(Self::entries(m), "annotations"@) == encoded_some::<Annotations>(m.annotations),
            lookup(Self::entries(m), "description"@) == encoded_some::<String>(m.description),
            lookup(Self::entries(m), "mimeType"@) == encoded_some::<String>(m.mime_type),
            lookup(Self::entries(m), "name"@) == Some(String::encode(m.name)),
            lookup(Self::entries(m), "size"@) == encoded_some::<i64>(m.size),
            lookup(Self::entries(m), "title"@) == encoded_some::<String>(m.title),
            lookup(Self::entries(m), "type"@) == Some(JsonTree::String("resource_link"@)),
            lookup(Self::entries(m), "uri"@) == Some(String::encode(m.uri)),
            forall|key: Seq<char>|
                key != "_meta"@ && key != "annotations"@ && key != "description"@ &&
                    key != "mimeType"@ && key != "name"@ && key != "size"@ && key != "title"@ &&
                    key != "type"@ && key != "uri"@
                    ==> lookup(Self::entries(m), key) is None,
    {
        broadcast use group_lookup;

        lemma_wire_words();
    }
}

/// Written as an object with the discriminator `"type": "resource_link"`. A value is read
/// field by field, and the discriminator is checked last.
impl Wire for ResourceLink {
    open spec fn encode(m: ResourceLinkModel) -> JsonTree {
        JsonTree::Object(Self::entries(m))
    }

    open spec fn decode(t: JsonTree) -> Result<ResourceLinkModel, SchemaFault> {
        match t {
            JsonTree::Object(e) => {
                let meta = optional_of::<Meta>(e, "_meta"@);
                let annotations = optional_of::<Annotations>(e, "annotations"@);
                let description = optional_of::<String>(e, "description"@);
                let mime_type = optional_of::<String>(e, "mimeType"@);
                let name = required_of::<String>(e, "name"@, "ResourceLink"@);
                let size = optional_of::<i64>(e, "size"@);
                let title = optional_of::<String>(e, "title"@);
                let uri = required_of::<String>(e, "uri"@, "ResourceLink"@);
                let tag = tagged_of(e, "type"@, "resource_link"@, "ResourceLink"@);
                if meta is Err {
                    Err(meta->Err_0)
                } else if annotations is Err {
                    Err(annotations->Err_0)
                } else if description is Err {
                    Err(description->Err_0)
                } else if mime_type is Err {
                    Err(mime_type->Err_0)
                } else if name is Err {
                    Err(name->Err_0)
                } else if size is Err {
                    Err(size->Err_0)
                } else if title is Err {
                    Err(title->Err_0)
                } else if uri is Err {
                    Err(uri->Err_0)
                } else if tag is Err {
                    Err(tag->Err_0)
                } else {
                    Ok(
                        ResourceLinkModel {
                            meta: meta->Ok_0,
                            annotations: annotations->Ok_0,
                            description: description->Ok_0,
                            mime_type: mime_type->Ok_0,
                            name: name->Ok_0,
                            size: size->Ok_0,
                            title: title->Ok_0,
                            uri: uri->Ok_0,
                        },
                    )
                }
            },
            _ => Err(SchemaFault::Malformed { of_type: "ResourceLink"@ }),
        }
    }

    open spec fn valid(m: ResourceLinkModel) -> bool {
        &&& valid_some::<Meta>(m.meta)
        &&& valid_some::<Annotations>(m.annotations)
        &&& valid_some::<String>(m.description)
        &&& valid_some::<String>(m.mime_type)
        &&& String::valid(m.name)
        &&& valid_some::<i64>(m.size)
        &&& valid_some::<String>(m.title)
        &&& String::valid(m.uri)
    }

    fn serialize(&self) -> (out: JsonValue) {
        let mut fields: Vec<(String, JsonValue)> = Vec::new();
        assert(entries_of(fields@) =~= Seq::empty());
        push_some::<Meta>(&mut fields, "_meta", &self.meta);
        push_some::<Annotations>(&mut fields, "annotations", &self.annotations);
        push_some::<String>(&mut fields, "description", &self.description);
        push_some::<String>(&mut fields, "mimeType", &self.mime_type);
        push_field::<String>(&mut fields, "name", &self.name);
        push_some::<i64>(&mut fields, "size", &self.size);
        push_some::<String>(&mut fields, "title", &self.title);
        push_text(&mut fields, "type", "resource_link");
        push_field::<String>(&mut fields, "uri", &self.uri);
        proof {
            lemma_object_view(fields);
        }
        JsonValue::Object(fields)
    }

    fn deserialize(value: &JsonValue) -> (out: Result<ResourceLink, SchemaError>) {
        match value {
            JsonValue::Object(fields) => {
                proof {
                    lemma_object_view(*fields);
                }
                let meta = optional::<Meta>(fields, "_meta")?;
                let annotations = optional::<Annotations>(fields, "annotations")?;
                let description = optional::<String>(fields, "description")?;
                let mime_type = optional::<String>(fields, "mimeType")?;
                let name = required::<String>(fields, "name", "ResourceLink")?;
                let size = optional::<i64>(fields, "size")?;
                let title = optional::<String>(fields, "title")?;
                let uri = required::<String>(fields, "uri", "ResourceLink")?;
                tagged(fields, "type", "resource_link", "ResourceLink")?;
                Ok(
                    ResourceLink {
                        meta,
                        annotations,
                        description,
                        mime_type,
                        name,
                        size,
                        title,
                        uri,
                    },
                )
            },
            _ => Err(SchemaError::Malformed { of_type: String::from_str("ResourceLink") }),
        }
    }

    proof fn round_trip(m: ResourceLinkModel) {
        Self::lemma_written(m);
        let e = Self::entries(m);
        lemma_optional::<Meta>(e, "_meta"@, m.meta);
        lemma_optional::<Annotations>(e, "annotations"@, m.annotations);
        lemma_optional::<String>(e, "description"@, m.description);
        lemma_optional::<String>(e, "mimeType"@, m.mime_type);
        lemma_required::<String>(e, "name"@, "ResourceLink"@, m.name);
        lemma_optional::<i64>(e, "size"@, m.size);
        lemma_optional::<String>(e, "title"@, m.title);
        lemma_required::<String>(e, "uri"@, "ResourceLink"@, m.uri);
    }

    proof fn decoded_valid(t: JsonTree) {
        match t {
            JsonTree::Object(e) => {
                lemma_optional_valid::<Meta>(e, "_meta"@);
                lemma_optional_valid::<Annotations>(e, "annotations"@);
                lemma_optional_valid::<String>(e, "description"@);
                lemma_optional_valid::<String>(e, "mimeType"@);
                lemma_required_valid::<String>(e, "name"@, "ResourceLink"@);
                lemma_optional_valid::<i64>(e, "size"@);
                lemma_optional_valid::<String>(e, "title"@);
                lemma_required_valid::<String>(e, "uri"@, "ResourceLink"@);
            },
            _ => {},
        }
    }
}

impl Tagged for ResourceLink {
    open spec fn tag() -> Seq<char> {
        "resource_link"@
    }

    proof fn tag_written(m: ResourceLinkModel) {
        Self::lemma_written(m);
    }

    proof fn tag_read(t: JsonTree) {
    }
}

/// What a resource holds: binary data or text. The two are told apart by the
/// field that holds the data.
#[derive(Debug, Clone, PartialEq)]
pub enum ResourceContents {
    Blob(BlobResourceContents),
    Text(TextResourceContents),
    Empty(Empty),
}

/// The model of [`ResourceContents`].
pub enum ResourceContentsModel {
    Blob(BlobResourceContentsModel),
    Text(TextResourceContentsModel),
    Empty(EmptyModel),
}

impl DeepView for ResourceContents {
    type V = ResourceContentsModel;

    open spec fn deep_view(&self) -> ResourceContentsModel {
        match self {
            ResourceContents::Blob(x) => ResourceContentsModel::Blob(x.deep_view()),
            ResourceContents::Text(x) => ResourceContentsModel::Text(x.deep_view()),
            ResourceContents::Empty(x) => ResourceContentsModel::Empty(x.deep_view()),
        }
    }
}

impl Default for ResourceContents {
    fn default() -> (out: ResourceContents)
        ensures
            out.deep_view() == ResourceContentsModel::Empty(EmptyModel {  }),
    {
        ResourceContents::Empty(Empty {  })
    }
}

/// Written as the member is. A value is read as the first of binary contents
/// and text contents that accepts it. Where neither does, it is read as the
/// empty shape, and what the empty shape refuses is refused with its fault.
impl Wire for ResourceContents {
    open spec fn encode(m: ResourceContentsModel) -> JsonTree {
        match m {
            ResourceContentsModel::Blob(x) => BlobResourceContents::encode(x),
            ResourceContentsModel::Text(x) => TextResourceContents::encode(x),
            ResourceContentsModel::Empty(x) => Empty::encode(x),
        }
    }

    open spec fn decode(t: JsonTree) -> Result<ResourceContentsModel, SchemaFault> {
        if BlobResourceContents::decode(t) is Ok {
            Ok(ResourceContentsModel::Blob(BlobResourceContents::decode(t)->Ok_0))
        } else if TextResourceContents::decode(t) is Ok {
            Ok(ResourceContentsModel::Text(TextResourceContents::decode(t)->Ok_0))
        } else {
            match Empty::decode(t) {
                Ok(x) => Ok(ResourceContentsModel::Empty(x)),
                Err(e) => Err(e),
            }
        }
    }

    open spec fn valid(m: ResourceContentsModel) -> bool {
        match m {
            ResourceContentsModel::Blob(x) => BlobResourceContents::valid(x),
            ResourceContentsModel::Text(x) => TextResourceContents::valid(x),
            ResourceContentsModel::Empty(x) => Empty::valid(x),
        }
    }

    fn serialize(&self) -> (out: JsonValue) {
        match self {
            ResourceContents::Blob(x) => x.serialize(),
            ResourceContents::Text(x) => x.serialize(),
            ResourceContents::Empty(x) => x.serialize(),
        }
    }

    fn deserialize(value: &JsonValue) -> (out: Result<ResourceContents, SchemaError>) {
        match BlobResourceContents::deserialize(value) {
            Ok(x) => {
                return Ok(ResourceContents::Blob(x));
            },
            Err(_) => {},
        }
        match TextResourceContents::deserialize(value) {
            Ok(x) => {
                return Ok(ResourceContents::Text(x));
            },
            Err(_) => {},
        }
        match Empty::deserialize(value) {
            Ok(x) => Ok(ResourceContents::Empty(x)),
            Err(e) => Err(e),
        }
    }

    proof fn round_trip(m: ResourceContentsModel) {
        broadcast use group_lookup;

        lemma_wire_words();
        match m {
            ResourceContentsModel::Blob(x) => {
                BlobResourceContents::round_trip(x);
            },
            ResourceContentsModel::Text(x) => {
                TextResourceContents::round_trip(x);
            },
            ResourceContentsModel::Empty(x) => {
                Empty::round_trip(x);
            },
        }
    }

    proof fn decoded_valid(t: JsonTree) {
        BlobResourceContents::decoded_valid(t);
        TextResourceContents::decoded_valid(t);
        Empty::decoded_valid(t);
    }
}

/// What the union refuses is what the empty shape refuses, and the fault is
/// that of the empty shape: an entry that it does not know, or a value that
/// is no object.
pub proof fn lemma_resource_contents_refusal(t: JsonTree)
    ensures
        ResourceContents::decode(t) matches Err(e) ==> Empty::decode(t) == Err::<EmptyModel, SchemaFault>(e),
{
}

/// One piece of content: audio, an embedded resource, an image, a link to a
/// resource, or text.
#[derive(Debug, Clone, PartialEq)]
pub enum ContentBlock {
    Audio(AudioContent),
    EmbeddedResource(EmbeddedResource),
    Image(ImageContent),
    ResourceLink(ResourceLink),
    Text(TextContent),
    Empty(Empty),
}

/// The model of [`ContentBlock`].
pub enum ContentBlockModel {
    Audio(AudioContentModel),
    EmbeddedResource(EmbeddedResourceModel),
    Image(ImageContentModel),
    ResourceLink(ResourceLinkModel),
    Text(TextContentModel),
    Empty(EmptyModel),
}

impl DeepView for ContentBlock {
    type V = ContentBlockModel;

    open spec fn deep_view(&self) -> ContentBlockModel {
        match self {
            ContentBlock::Audio(x) => ContentBlockModel::Audio(x.deep_view()),
            ContentBlock::EmbeddedResource(x) => ContentBlockModel::EmbeddedResource(x.deep_view()),
            ContentBlock::Image(x) => ContentBlockModel::Image(x.deep_view()),
            ContentBlock::ResourceLink(x) => ContentBlockModel::ResourceLink(x.deep_view()),
            ContentBlock::Text(x) => ContentBlockModel::Text(x.deep_view()),
            ContentBlock::Empty(x) => ContentBlockModel::Empty(x.deep_view()),
        }
    }
}

impl Default for ContentBlock {
    fn default() -> (out: ContentBlock)
        ensures
            out.deep_view() == ContentBlockModel::Empty(EmptyModel {  }),
    {
        ContentBlock::Empty(Empty {  })
    }
}

/// Written as the member is. A value is read as the first member that accepts
/// it, in the order of the declaration; the discriminators tell the members
/// apart. Where none does, it is read as the empty shape, and what the empty
/// shape refuses is refused with its fault.
impl Wire for ContentBlock {
    open spec fn encode(m: ContentBlockModel) -> JsonTree {
        match m {
            ContentBlockModel::Audio(x) => AudioContent::encode(x),
            ContentBlockModel::EmbeddedResource(x) => EmbeddedResource::encode(x),
            ContentBlockModel::Image(x) => ImageContent::encode(x),
            ContentBlockModel::ResourceLink(x) => ResourceLink::encode(x),
            ContentBlockModel::Text(x) => TextContent::encode(x),
            ContentBlockModel::Empty(x) => Empty::encode(x),
        }
    }

    open spec fn decode(t: JsonTree) -> Result<ContentBlockModel, SchemaFault> {
        if AudioContent::decode(t) is Ok {
            Ok(ContentBlockModel::Audio(AudioContent::decode(t)->Ok_0))
        } else if EmbeddedResource::decode(t) is Ok {
            Ok(ContentBlockModel::EmbeddedResource(EmbeddedResource::decode(t)->Ok_0))
        } else if ImageContent::decode(t) is Ok {
            Ok(ContentBlockModel::Image(ImageContent::decode(t)->Ok_0))
        } else if ResourceLink::decode(t) is Ok {
            Ok(ContentBlockModel::ResourceLink(ResourceLink::decode(t)->Ok_0))
        } else if TextContent::decode(t) is Ok {
            Ok(ContentBlockModel::Text(TextContent::decode(t)->Ok_0))
        } else {
            match Empty::decode(t) {
                Ok(x) => Ok(ContentBlockModel::Empty(x)),
                Err(e) => Err(e),
            }
        }
    }

    open spec fn valid(m: ContentBlockModel) -> bool {
        match m {
            ContentBlockModel::Audio(x) => AudioContent::valid(x),
            ContentBlockModel::EmbeddedResource(x) => EmbeddedResource::valid(x),
            ContentBlockModel::Image(x) => ImageContent::valid(x),
            ContentBlockModel::ResourceLink(x) => ResourceLink::valid(x),
            ContentBlockModel::Text(x) => TextContent::valid(x),
            ContentBlockModel::Empty(x) => Empty::valid(x),
        }
    }

    fn serialize(&self) -> (out: JsonValue) {
        match self {
            ContentBlock::Audio(x) => x.serialize(),
            ContentBlock::EmbeddedResource(x) => x.serialize(),
            ContentBlock::Image(x) => x.serialize(),
            ContentBlock::ResourceLink(x) => x.serialize(),
            ContentBlock::Text(x) => x.serialize(),
            ContentBlock::Empty(x) => x.serialize(),
        }
    }

    fn deserialize(value: &JsonValue) -> (out: Result<ContentBlock, SchemaError>) {
        match AudioContent::deserialize(value) {
            Ok(x) => {
                return Ok(ContentBlock::Audio(x));
            },
            Err(_) => {},
        }
        match EmbeddedResource::deserialize(value) {
            Ok(x) => {
                return Ok(ContentBlock::EmbeddedResource(x));
            },
            Err(_) => {},
        }
        match ImageContent::deserialize(value) {
            Ok(x) => {
                return Ok(ContentBlock::Image(x));
            },
            Err(_) => {},
        }
        match ResourceLink::deserialize(value) {
            Ok(x) => {
                return Ok(ContentBlock::ResourceLink(x));
            },
            Err(_) => {},
        }
        match TextContent::deserialize(value) {
            Ok(x) => {
                return Ok(ContentBlock::Text(x));
            },
            Err(_) => {},
        }
        match Empty::deserialize(value) {
            Ok(x) => Ok(ContentBlock::Empty(x)),
            Err(e) => Err(e),
        }
    }

    proof fn round_trip(m: ContentBlockModel) {
        broadcast use group_lookup;

        lemma_wire_words();
        match m {
            ContentBlockModel::Audio(x) => {
                AudioContent::round_trip(x);
            },
            ContentBlockModel::EmbeddedResource(x) => {
                EmbeddedResource::round_trip(x);
                lemma_other_tag_refused::<AudioContent, EmbeddedResource>(x);
            },
            ContentBlockModel::Image(x) => {
                ImageContent::round_trip(x);
                lemma_other_tag_refused::<AudioContent, ImageContent>(x);
                lemma_other_tag_refused::<EmbeddedResource, ImageContent>(x);
            },
            ContentBlockModel::ResourceLink(x) => {
                ResourceLink::round_trip(x);
                lemma_other_tag_refused::<AudioContent, ResourceLink>(x);
                lemma_other_tag_refused::<EmbeddedResource, ResourceLink>(x);
                lemma_other_tag_refused::<ImageContent, ResourceLink>(x);
            },
            ContentBlockModel::Text(x) => {
                TextContent::round_trip(x);
                lemma_other_tag_refused::<AudioContent, TextContent>(x);
                lemma_other_tag_refused::<EmbeddedResource, TextContent>(x);
                lemma_other_tag_refused::<ImageContent, TextContent>(x);
                lemma_other_tag_refused::<ResourceLink, TextContent>(x);
            },
            ContentBlockModel::Empty(x) => {
                Empty::round_trip(x);
                AudioContent::tag_read(Empty::encode(x));
                EmbeddedResource::tag_read(Empty::encode(x));
                ImageContent::tag_read(Empty::encode(x));
                ResourceLink::tag_read(Empty::encode(x));
                TextContent::tag_read(Empty::encode(x));
            },
        }
    }

    proof fn decoded_valid(t: JsonTree) {
        AudioContent::decoded_valid(t);
        EmbeddedResource::decoded_valid(t);
        ImageContent::decoded_valid(t);
        ResourceLink::decoded_valid(t);
        TextContent::decoded_valid(t);
        Empty::decoded_valid(t);
    }
}

/// What the union refuses is what the empty shape refuses, and the fault is
/// that of the empty shape: an entry that it does not know, or a value that
/// is no object.
pub proof fn lemma_content_block_refusal(t: JsonTree)
    ensures
        ContentBlock::decode(t) matches Err(e) ==> Empty::decode(t) == Err::<EmptyModel, SchemaFault>(e),
{
}

/// Encoding a member of the union writes the discriminator of that member,
/// whatever the value holds; the empty member has none.
pub proof fn lemma_content_block_discriminator(m: ContentBlockModel)
    ensures
        discriminator(ContentBlock::encode(m)) == match m {
            ContentBlockModel::Audio(_) => Some("audio"@),
            ContentBlockModel::EmbeddedResource(_) => Some("resource"@),
            ContentBlockModel::Image(_) => Some("image"@),
            ContentBlockModel::ResourceLink(_) => Some("resource_link"@),
            ContentBlockModel::Text(_) => Some("text"@),
            ContentBlockModel::Empty(_) => None::<Seq<char>>,
        },
{
    broadcast use group_lookup;

    lemma_wire_words();
    match m {
        ContentBlockModel::Audio(x) => AudioContent::tag_written(x),
        ContentBlockModel::EmbeddedResource(x) => EmbeddedResource::tag_written(x),
        ContentBlockModel::Image(x) => ImageContent::tag_written(x),
        ContentBlockModel::ResourceLink(x) => ResourceLink::tag_written(x),
        ContentBlockModel::Text(x) => TextContent::tag_written(x),
        ContentBlockModel::Empty(x) => {},
    }
}

/// The content of a message to or from a model: audio, an image, or text.
#[derive(Debug, Clone, PartialEq)]
pub enum SamplingMessage {
    Audio(AudioContent),
    Image(ImageContent),
    Text(TextContent),
    Empty(Empty),
}

/// The model of [`SamplingMessage`].
pub enum SamplingMessageModel {
    Audio(AudioContentModel),
    Image(ImageContentModel),
    Text(TextContentModel),
    Empty(EmptyModel),
}

impl DeepView for SamplingMessage {
    type V = SamplingMessageModel;

    open spec fn deep_view(&self) -> SamplingMessageModel {
        match self {
            SamplingMessage::Audio(x) => SamplingMessageModel::Audio(x.deep_view()),
            SamplingMessage::Image(x) => SamplingMessageModel::Image(x.deep_view()),
            SamplingMessage::Text(x) => SamplingMessageModel::Text(x.deep_view()),
            SamplingMessage::Empty(x) => SamplingMessageModel::Empty(x.deep_view()),
        }
    }
}

impl Default for SamplingMessage {
    fn default() -> (out: SamplingMessage)
        ensures
            out.deep_view() == SamplingMessageModel::Empty(EmptyModel {  }),
    {
        SamplingMessage::Empty(Empty {  })
    }
}

/// Written as the member is. A value is read as the first member that accepts
/// it, in the order of the declaration. Where none does, it is read as the
/// empty shape, and what the empty shape refuses is refused with its fault.
impl Wire for SamplingMessage {
    open spec fn encode(m: SamplingMessageModel) -> JsonTree {
        match m {
            SamplingMessageModel::Audio(x) => AudioContent::encode(x),
            SamplingMessageModel::Image(x) => ImageContent::encode(x),
            SamplingMessageModel::Text(x) => TextContent::encode(x),
            SamplingMessageModel::Empty(x) => Empty::encode(x),
        }
    }

    open spec fn decode(t: JsonTree) -> Result<SamplingMessageModel, SchemaFault> {
        if AudioContent::decode(t) is Ok {
            Ok(SamplingMessageModel::Audio(AudioContent::decode(t)->Ok_0))
        } else if ImageContent::decode(t) is Ok {
            Ok(SamplingMessageModel::Image(ImageContent::decode(t)->Ok_0))
        } else if TextContent::decode(t) is Ok {
            Ok(SamplingMessageModel::Text(TextContent::decode(t)->Ok_0))
        } else {
            match Empty::decode(t) {
                Ok(x) => Ok(SamplingMessageModel::Empty(x)),
                Err(e) => Err(e),
            }
        }
    }

    open spec fn valid(m: SamplingMessageModel) -> bool {
        match m {
            SamplingMessageModel::Audio(x) => AudioContent::valid(x),
            SamplingMessageModel::Image(x) => ImageContent::valid(x),
            SamplingMessageModel::Text(x) => TextContent::valid(x),
            SamplingMessageModel::Empty(x) => Empty::valid(x),
        }
    }

    fn serialize(&self) -> (out: JsonValue) {
        match self {
            SamplingMessage::Audio(x) => x.serialize(),
            SamplingMessage::Image(x) => x.serialize(),
            SamplingMessage::Text(x) => x.serialize(),
            SamplingMessage::Empty(x) => x.serialize(),
        }
    }

    fn deserialize(value: &JsonValue) -> (out: Result<SamplingMessage, SchemaError>) {
        match AudioContent::deserialize(value) {
            Ok(x) => {
                return Ok(SamplingMessage::Audio(x));
            },
            Err(_) => {},
        }
        match ImageContent::deserialize(value) {
            Ok(x) => {
                return Ok(SamplingMessage::Image(x));
            },
            Err(_) => {},
        }
        match TextContent::deserialize(value) {
            Ok(x) => {
                return Ok(SamplingMessage::Text(x));
            },
            Err(_) => {},
        }
        match Empty::deserialize(value) {
            Ok(x) => Ok(SamplingMessage::Empty(x)),
            Err(e) => Err(e),
        }
    }

    proof fn round_trip(m: SamplingMessageModel) {
        broadcast use group_lookup;

        lemma_wire_words();
        match m {
            SamplingMessageModel::Audio(x) => {
                AudioContent::round_trip(x);
            },
            SamplingMessageModel::Image(x) => {
                ImageContent::round_trip(x);
                lemma_other_tag_refused::<AudioContent, ImageContent>(x);
            },
            SamplingMessageModel::Text(x) => {
                TextContent::round_trip(x);
                lemma_other_tag_refused::<AudioContent, TextContent>(x);
                lemma_other_tag_refused::<ImageContent, TextContent>(x);
            },
            SamplingMessageModel::Empty(x) => {
                Empty::round_trip(x);
                AudioContent::tag_read(Empty::encode(x));
                ImageContent::tag_read(Empty::encode(x));
                TextContent::tag_read(Empty::encode(x));
            },
        }
    }

    proof fn decoded_valid(t: JsonTree) {
        AudioContent::decoded_valid(t);
        ImageContent::decoded_valid(t);
        TextContent::decoded_valid(t);
        Empty::decoded_valid(t);
    }
}

/// What the union refuses is what the empty shape refuses, and the fault is
/// that of the empty shape: an entry that it does not know, or a value that
/// is no object.
pub proof fn lemma_sampling_message_refusal(t: JsonTree)
    ensures
        SamplingMessage::decode(t) matches Err(e) ==> Empty::decode(t) == Err::<EmptyModel, SchemaFault>(e),
{
}

/// Encoding a member of the union writes the discriminator of that member,
/// whatever the value holds; the empty member has none.
pub proof fn lemma_sampling_message_discriminator(m: SamplingMessageModel)
    ensures
        discriminator(SamplingMessage::encode(m)) == match m {
            SamplingMessageModel::Audio(_) => Some("audio"@),
            SamplingMessageModel::Image(_) => Some("image"@),
            SamplingMessageModel::Text(_) => Some("text"@),
            SamplingMessageModel::Empty(_) => None::<Seq<char>>,
        },
{
    broadcast use group_lookup;

    lemma_wire_words();
    match m {
        SamplingMessageModel::Audio(x) => AudioContent::tag_written(x),
        SamplingMessageModel::Image(x) => ImageContent::tag_written(x),
        SamplingMessageModel::Text(x) => TextContent::tag_written(x),
        SamplingMessageModel::Empty(x) => {},
    }
}

} // verus!
