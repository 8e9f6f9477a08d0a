//! The codec discipline shared by every protocol type.
//!
//! A type with a wire form implements [`Wire`]: two specification functions
//! say which JSON value stands for a value and what a JSON value decodes to,
//! and the executable `serialize` and `deserialize` are proved against them.
//! The functions of this module read and write the fields of a JSON object
//! under the three presence policies of the protocol: a field that must be
//! there, a field that may be left out, and a field that has a default.
//!
//! A reader looks its fields up by name. Where a name occurs twice in an
//! object, the first entry is the one read; entries of names that the type
//! does not have are passed over, except by the empty shape, which refuses
//! them.

use vstd::prelude::*;
use crate::error::{SchemaError, SchemaFault, type_field_checked, validate_type_field};
use crate::json::{
    JsonNumber,
    JsonTree,
    JsonValue,
    Entries,
    entries_of,
    items_of,
    lemma_array_view,
    lemma_normal_same,
    lemma_normal_well_formed,
    normal,
    well_formed,
};

verus! {

/// A type with a JSON wire form.
pub trait Wire: DeepView + Sized {
    /// The JSON value that stands for `m` on the wire.
    spec fn encode(m: Self::V) -> JsonTree;

    /// What the JSON value `t` decodes to.
    spec fn decode(t: JsonTree) -> Result<Self::V, SchemaFault>;

    /// The values that survive the wire: every value that a decoder hands out,
    /// and every value that comes back when it is written and read again.
    spec fn valid(m: Self::V) -> bool;

    /// Encodes the value.
    fn serialize(&self) -> (out: JsonValue)
        ensures
            out@ == Self::encode(self.deep_view()),
    ;

    /// Decodes a JSON value, or says why it is refused.
    fn deserialize(value: &JsonValue) -> (out: Result<Self, SchemaError>)
        ensures
            out is Ok <==> Self::decode(value@) is Ok,
            match out {
                Ok(x) => Self::decode(value@) == Ok::<Self::V, SchemaFault>(x.deep_view()),
                Err(e) => Self::decode(value@) == Err::<Self::V, SchemaFault>(e@),
            },
    ;

    /// Decoding what was encoded gives the value back.
    proof fn round_trip(m: Self::V)
        requires
            Self::valid(m),
        ensures
            Self::decode(Self::encode(m)) == Ok::<Self::V, SchemaFault>(m),
    ;

    /// What was decoded is valid, and so survives the wire again. Only what
    /// was read from `null` is written as `null`.
    proof fn decoded_valid(t: JsonTree)
        ensures
            Self::decode(t) matches Ok(m) ==> Self::valid(m) && (Self::encode(m) == JsonTree::Null
                ==> t == JsonTree::Null),
    ;
}

/// Two valid values with one wire form are one value.
pub proof fn lemma_encode_injective<T: Wire>(a: T::V, b: T::V)
    requires
        T::valid(a),
        T::valid(b),
        T::encode(a) == T::encode(b),
    ensures
        a == b,
{
    T::round_trip(a);
    T::round_trip(b);
}

/// What was read from a JSON value is read again from its own wire form.
pub proof fn lemma_decode_stable<T: Wire>(t: JsonTree)
    ensures
        T::decode(t) matches Ok(m) ==> T::decode(T::encode(m)) == Ok::<T::V, SchemaFault>(m),
{
    T::decoded_valid(t);
    match T::decode(t) {
        Ok(m) => T::round_trip(m),
        Err(_) => {},
    }
}

/// Whether a decoding result is the one that its specification gives.
pub open spec fn agrees<T: DeepView>(out: Result<T, SchemaError>, model: Result<T::V, SchemaFault>) -> bool {
    match out {
        Ok(x) => model == Ok::<T::V, SchemaFault>(x.deep_view()),
        Err(e) => model == Err::<T::V, SchemaFault>(e@),
    }
}

/// The value under the first entry named `key`.
pub open spec fn lookup(entries: Entries, key: Seq<char>) -> Option<JsonTree>
    decreases entries.len(),
{
    if entries.len() == 0 {
        None
    } else if entries[0].0 == key {
        Some(entries[0].1)
    } else {
        lookup(entries.skip(1), key)
    }
}

/// `lookup` after one more entry was appended: an earlier entry of that name
/// still wins.
pub broadcast proof fn lemma_lookup_push(entries: Entries, name: Seq<char>, value: JsonTree, key: Seq<char>)
    ensures
        #[trigger] lookup(entries.push((name, value)), key) == if lookup(entries, key) is Some {
            lookup(entries, key)
        } else if name == key {
            Some(value)
        } else {
            None
        },
    decreases entries.len(),
{
    let pushed = entries.push((name, value));
    if entries.len() == 0 {
        assert(pushed[0] == (name, value));
        assert(pushed.skip(1).len() == 0);
        assert(lookup(pushed.skip(1), key) is None);
    } else {
        assert(pushed[0] == entries[0]);
        assert(pushed.skip(1) =~= entries.skip(1).push((name, value)));
        lemma_lookup_push(entries.skip(1), name, value, key);
    }
}

/// The value under the first field named `key`, if there is one.
pub fn find<'a>(fields: &'a Vec<(String, JsonValue)>, key: &str) -> (out: Option<&'a JsonValue>)
    ensures
        match out {
            Some(v) => lookup(entries_of(fields@), key@) == Some(v@),
            None => lookup(entries_of(fields@), key@) is None,
        },
{
    let wanted = String::from_str(key);
    let mut i: usize = 0;
    assert(entries_of(fields@).skip(0) =~= entries_of(fields@));
    while i < fields.len()
        invariant
            0 <= i <= fields.len(),
            wanted@ == key@,
            lookup(entries_of(fields@), key@) == lookup(entries_of(fields@).skip(i as int), key@),
        decreases fields.len() - i,
    {
        let ghost rest = entries_of(fields@).skip(i as int);
        assert(rest.len() > 0);
        assert(rest[0] == (fields[i as int].0@, fields[i as int].1@));
        if fields[i].0 == wanted {
            return Some(&fields[i].1);
        }
        assert(rest.skip(1) =~= entries_of(fields@).skip(i + 1));
        i = i + 1;
    }
    None
}

/// The value of a field that must be there: without the field the value is
/// malformed.
pub open spec fn required_of<T: Wire>(entries: Entries, key: Seq<char>, owner: Seq<char>) -> Result<
    T::V,
    SchemaFault,
> {
    match lookup(entries, key) {
        Some(t) => T::decode(t),
        None => Err(SchemaFault::Malformed { of_type: owner }),
    }
}

/// The value of a field that may be left out: without the field, or with
/// `null` under it, there is no value.
pub open spec fn optional_of<T: Wire>(entries: Entries, key: Seq<char>) -> Result<
    Option<T::V>,
    SchemaFault,
> {
    match lookup(entries, key) {
        None => Ok(None),
        Some(JsonTree::Null) => Ok(None),
        Some(t) => match T::decode(t) {
            Ok(v) => Ok(Some(v)),
            Err(e) => Err(e),
        },
    }
}

/// The value of a field that has a default: without the field the value is
/// `default`.
pub open spec fn defaulted_of<T: Wire>(entries: Entries, key: Seq<char>, default: T::V) -> Result<
    T::V,
    SchemaFault,
> {
    match lookup(entries, key) {
        Some(t) => T::decode(t),
        None => Ok(default),
    }
}

/// The outcome of the discriminator check: the field `key` must hold the
/// string `expected`.
pub open spec fn tagged_of(entries: Entries, key: Seq<char>, expected: Seq<char>, owner: Seq<char>) -> Result<
    (),
    SchemaFault,
> {
    match required_of::<String>(entries, key, owner) {
        Ok(found) => type_field_checked(found, expected, owner),
        Err(e) => Err(e),
    }
}

/// Reads a field that must be there.
pub fn required<T: Wire>(fields: &Vec<(String, JsonValue)>, key: &str, owner: &str) -> (out: Result<
    T,
    SchemaError,
>)
    ensures
        agrees(out, required_of::<T>(entries_of(fields@), key@, owner@)),
{
    match find(fields, key) {
        Some(v) => T::deserialize(v),
        None => Err(SchemaError::Malformed { of_type: String::from_str(owner) }),
    }
}

/// Reads a field that may be left out.
pub fn optional<T: Wire>(fields: &Vec<(String, JsonValue)>, key: &str) -> (out: Result<
    Option<T>,
    SchemaError,
>)
    ensures
        agrees(out, optional_of::<T>(entries_of(fields@), key@)),
{
    match find(fields, key) {
        None => Ok(None),
        Some(JsonValue::Null) => Ok(None),
        Some(v) => match T::deserialize(v) {
            Ok(x) => Ok(Some(x)),
            Err(e) => Err(e),
        },
    }
}

/// Reads a field that has a default.
pub fn defaulted<T: Wire>(fields: &Vec<(String, JsonValue)>, key: &str, default: T) -> (out: Result<
    T,
    SchemaError,
>)
    ensures
        agrees(out, defaulted_of::<T>(entries_of(fields@), key@, default.deep_view())),
{
    match find(fields, key) {
        Some(v) => T::deserialize(v),
        None => Ok(default),
    }
}

/// Checks the discriminator of an object.
pub fn tagged(fields: &Vec<(String, JsonValue)>, key: &str, expected: &str, owner: &str) -> (out:
    Result<(), SchemaError>)
    ensures
        match out {
            Ok(_) => tagged_of(entries_of(fields@), key@, expected@, owner@) == Ok::<(), SchemaFault>(()),
            Err(e) => tagged_of(entries_of(fields@), key@, expected@, owner@) == Err::<(), SchemaFault>(
                e@,
            ),
        },
{
    let found = required::<String>(fields, key, owner)?;
    validate_type_field(found.as_str(), expected, owner)
}

/// The entries with one more field.
#[verifier::opaque]
pub open spec fn put<T: Wire>(entries: Entries, key: Seq<char>, v: T::V) -> Entries {
    entries.push((key, T::encode(v)))
}

/// The entries with one more field where a value is set, and unchanged where
/// none is.
#[verifier::opaque]
pub open spec fn put_some<T: Wire>(entries: Entries, key: Seq<char>, v: Option<T::V>) -> Entries {
    match v {
        Some(x) => entries.push((key, T::encode(x))),
        None => entries,
    }
}

/// The entries with one more field, which holds a string.
#[verifier::opaque]
pub open spec fn put_text(entries: Entries, key: Seq<char>, text: Seq<char>) -> Entries {
    entries.push((key, JsonTree::String(text)))
}

/// What is found after `put`: an earlier entry of that name, or else the new
/// one.
pub broadcast proof fn lemma_lookup_put<T: Wire>(entries: Entries, name: Seq<char>, v: T::V, key: Seq<char>)
    ensures
        #[trigger] lookup(put::<T>(entries, name, v), key) == if lookup(entries, key) is Some {
            lookup(entries, key)
        } else if name == key {
            Some(T::encode(v))
        } else {
            None
        },
{
    reveal(put);
    lemma_lookup_push(entries, name, T::encode(v), key);
}

/// What is found after `put_some`: an earlier entry of that name, or else the
/// new one where a value was set.
pub broadcast proof fn lemma_lookup_put_some<T: Wire>(
    entries: Entries,
    name: Seq<char>,
    v: Option<T::V>,
    key: Seq<char>,
)
    ensures
        #[trigger] lookup(put_some::<T>(entries, name, v), key) == if lookup(entries, key) is Some {
            lookup(entries, key)
        } else if name == key && v is Some {
            Some(T::encode(v->Some_0))
        } else {
            None
        },
{
    reveal(put_some);
    match v {
        Some(x) => lemma_lookup_push(entries, name, T::encode(x), key),
        None => {},
    }
}

/// What is found after `put_text`: an earlier entry of that name, or else the
/// new one.
pub broadcast proof fn lemma_lookup_put_text(entries: Entries, name: Seq<char>, text: Seq<char>, key: Seq<char>)
    ensures
        #[trigger] lookup(put_text(entries, name, text), key) == if lookup(entries, key) is Some {
            lookup(entries, key)
        } else if name == key {
            Some(JsonTree::String(text))
        } else {
            None
        },
{
    reveal(put_text);
    lemma_lookup_push(entries, name, JsonTree::String(text), key);
}

/// A field that may be left out and holds no value is not written: the entries
/// stay as they are, and gain no entry that holds `null`.
pub proof fn lemma_absent_not_written<T: Wire>(entries: Entries, key: Seq<char>)
    ensures
        put_some::<T>(entries, key, None) == entries,
{
    reveal(put_some);
}

/// What `lookup` finds in entries that were written field by field.
pub broadcast group group_lookup {
    lemma_lookup_put,
    lemma_lookup_put_some,
    lemma_lookup_put_text,
}

/// Appends a field.
pub fn push_field<T: Wire>(fields: &mut Vec<(String, JsonValue)>, key: &str, v: &T)
    ensures
        entries_of(final(fields)@) == put::<T>(entries_of(old(fields)@), key@, v.deep_view()),
{
    fields.push((String::from_str(key), v.serialize()));
    proof {
        reveal(put);
        assert(entries_of(fields@) =~= put::<T>(entries_of(old(fields)@), key@, v.deep_view()));
    }
}

/// Appends a field where a value is set.
pub fn push_some<T: Wire>(fields: &mut Vec<(String, JsonValue)>, key: &str, v: &Option<T>)
    ensures
        entries_of(final(fields)@) == put_some::<T>(entries_of(old(fields)@), key@, v.deep_view()),
{
    proof {
        reveal(put_some);
    }
    match v {
        Some(x) => {
            fields.push((String::from_str(key), x.serialize()));
            assert(entries_of(fields@) =~= put_some::<T>(
                entries_of(old(fields)@),
                key@,
                v.deep_view(),
            ));
        },
        None => {},
    }
}

/// Appends a field that holds a fixed string, such as a discriminator.
pub fn push_text(fields: &mut Vec<(String, JsonValue)>, key: &str, text: &str)
    ensures
        entries_of(final(fields)@) == put_text(entries_of(old(fields)@), key@, text@),
{
    fields.push((String::from_str(key), JsonValue::String(String::from_str(text))));
    proof {
        reveal(put_text);
        assert(entries_of(fields@) =~= put_text(entries_of(old(fields)@), key@, text@));
    }
}

/// What an optional value is written as: its encoding where a value is set,
/// and nothing where none is.
pub open spec fn encoded_some<T: Wire>(v: Option<T::V>) -> Option<JsonTree> {
    match v {
        Some(x) => Some(T::encode(x)),
        None => None,
    }
}

/// An optional value that survives the wire: it is valid, and it is not
/// written as `null`, which reads as no value.
pub open spec fn valid_some<T: Wire>(v: Option<T::V>) -> bool {
    v matches Some(x) ==> T::valid(x) && T::encode(x) != JsonTree::Null
}

/// A required field that holds the encoding of `v` reads as `v`.
pub proof fn lemma_required<T: Wire>(entries: Entries, key: Seq<char>, owner: Seq<char>, v: T::V)
    requires
        T::valid(v),
        lookup(entries, key) == Some(T::encode(v)),
    ensures
        required_of::<T>(entries, key, owner) == Ok::<T::V, SchemaFault>(v),
{
    T::round_trip(v);
}

/// An optional field that holds the encoding of `v`, or is left out where
/// there is none, reads as `v`.
pub proof fn lemma_optional<T: Wire>(entries: Entries, key: Seq<char>, v: Option<T::V>)
    requires
        valid_some::<T>(v),
        lookup(entries, key) == encoded_some::<T>(v),
    ensures
        optional_of::<T>(entries, key) == Ok::<Option<T::V>, SchemaFault>(v),
{
    match v {
        Some(x) => T::round_trip(x),
        None => {},
    }
}

/// A field with a default that holds the encoding of `v` reads as `v`.
pub proof fn lemma_defaulted<T: Wire>(entries: Entries, key: Seq<char>, default: T::V, v: T::V)
    requires
        T::valid(v),
        lookup(entries, key) == Some(T::encode(v)),
    ensures
        defaulted_of::<T>(entries, key, default) == Ok::<T::V, SchemaFault>(v),
{
    T::round_trip(v);
}

/// What a required field reads as is valid.
pub proof fn lemma_required_valid<T: Wire>(entries: Entries, key: Seq<char>, owner: Seq<char>)
    ensures
        required_of::<T>(entries, key, owner) matches Ok(v) ==> T::valid(v),
{
    match lookup(entries, key) {
        Some(t) => T::decoded_valid(t),
        None => {},
    }
}

/// What an optional field reads as is valid, and is not written as `null`.
pub proof fn lemma_optional_valid<T: Wire>(entries: Entries, key: Seq<char>)
    ensures
        optional_of::<T>(entries, key) matches Ok(v) ==> valid_some::<T>(v),
{
    match lookup(entries, key) {
        Some(t) => T::decoded_valid(t),
        None => {},
    }
}

/// What a field with a valid default reads as is valid.
pub proof fn lemma_defaulted_valid<T: Wire>(entries: Entries, key: Seq<char>, default: T::V)
    requires
        T::valid(default),
    ensures
        defaulted_of::<T>(entries, key, default) matches Ok(v) ==> T::valid(v),
{
    match lookup(entries, key) {
        Some(t) => T::decoded_valid(t),
        None => {},
    }
}

/// A type whose wire form is an object with a discriminator under `type`.
pub trait Tagged: Wire {
    /// The literal that is the discriminator of the type.
    spec fn tag() -> Seq<char>;

    /// Encoding writes the literal of the type as the discriminator, whatever
    /// the value holds.
    proof fn tag_written(m: Self::V)
        ensures
            Self::encode(m) matches JsonTree::Object(e) && lookup(e, "type"@) == Some(
                JsonTree::String(Self::tag()),
            ),
    ;

    /// Only an object with the literal of the type as its discriminator is
    /// accepted.
    proof fn tag_read(t: JsonTree)
        ensures
            Self::decode(t) is Ok ==> (t matches JsonTree::Object(e) && lookup(e, "type"@) == Some(
                JsonTree::String(Self::tag()),
            )),
    ;
}

/// The discriminator of a JSON value: the string under `type`, where the value
/// is an object that has one.
pub open spec fn discriminator(t: JsonTree) -> Option<Seq<char>> {
    match t {
        JsonTree::Object(e) => match lookup(e, "type"@) {
            Some(JsonTree::String(s)) => Some(s),
            _ => None,
        },
        _ => None,
    }
}

/// A type refuses what a type with another discriminator wrote.
pub proof fn lemma_other_tag_refused<A: Tagged, B: Tagged>(m: B::V)
    requires
        A::tag() != B::tag(),
    ensures
        A::decode(B::encode(m)) is Err,
{
    B::tag_written(m);
    A::tag_read(B::encode(m));
}

impl Wire for String {
    open spec fn encode(m: Seq<char>) -> JsonTree {
        JsonTree::String(m)
    }

    open spec fn decode(t: JsonTree) -> Result<Seq<char>, SchemaFault> {
        match t {
            JsonTree::String(s) => Ok(s),
            _ => Err(SchemaFault::Malformed { of_type: "string"@ }),
        }
    }

    open spec fn valid(m: Seq<char>) -> bool {
        true
    }

    fn serialize(&self) -> (out: JsonValue) {
        JsonValue::String(self.clone())
    }

    fn deserialize(value: &JsonValue) -> (out: Result<String, SchemaError>) {
        match value {
            JsonValue::String(s) => Ok(s.clone()),
            _ => Err(SchemaError::Malformed { of_type: String::from_str("string") }),
        }
    }

    proof fn round_trip(m: Seq<char>) {
    }

    proof fn decoded_valid(t: JsonTree) {
    }
}

impl Wire for bool {
    open spec fn encode(m: bool) -> JsonTree {
        JsonTree::Bool(m)
    }

    open spec fn decode(t: JsonTree) -> Result<bool, SchemaFault> {
        match t {
            JsonTree::Bool(b) => Ok(b),
            _ => Err(SchemaFault::Malformed { of_type: "boolean"@ }),
        }
    }

    open spec fn valid(m: bool) -> bool {
        true
    }

    fn serialize(&self) -> (out: JsonValue) {
        JsonValue::Bool(*self)
    }

    fn deserialize(value: &JsonValue) -> (out: Result<bool, SchemaError>) {
        match value {
            JsonValue::Bool(b) => Ok(*b),
            _ => Err(SchemaError::Malformed { of_type: String::from_str("boolean") }),
        }
    }

    proof fn round_trip(m: bool) {
    }

    proof fn decoded_valid(t: JsonTree) {
    }
}

/// An integer is written as an unsigned number where it is not negative, and
/// as a negative number where it is. A number with a fraction or an exponent
/// is no integer, and one above the largest `i64` does not fit.
impl Wire for i64 {
    open spec fn encode(m: i64) -> JsonTree {
        if m >= 0 {
            JsonTree::Number(JsonNumber::PosInt(m as u64))
        } else {
            JsonTree::Number(JsonNumber::NegInt(m))
        }
    }

    open spec fn decode(t: JsonTree) -> Result<i64, SchemaFault> {
        match t {
            JsonTree::Number(JsonNumber::PosInt(u)) => if u <= i64::MAX as u64 {
                Ok(u as i64)
            } else {
                Err(SchemaFault::Malformed { of_type: "integer"@ })
            },
            JsonTree::Number(JsonNumber::NegInt(i)) => Ok(i),
            _ => Err(SchemaFault::Malformed { of_type: "integer"@ }),
        }
    }

    open spec fn valid(m: i64) -> bool {
        true
    }

    fn serialize(&self) -> (out: JsonValue) {
        if *self >= 0 {
            JsonValue::Number(JsonNumber::PosInt(*self as u64))
        } else {
            JsonValue::Number(JsonNumber::NegInt(*self))
        }
    }

    fn deserialize(value: &JsonValue) -> (out: Result<i64, SchemaError>) {
        match value {
            JsonValue::Number(JsonNumber::PosInt(u)) => {
                if *u <= i64::MAX as u64 {
                    Ok(*u as i64)
                } else {
                    Err(SchemaError::Malformed { of_type: String::from_str("integer") })
                }
            },
            JsonValue::Number(JsonNumber::NegInt(i)) => Ok(*i),
            _ => Err(SchemaError::Malformed { of_type: String::from_str("integer") }),
        }
    }

    proof fn round_trip(m: i64) {
    }

    proof fn decoded_valid(t: JsonTree) {
    }
}

/// A number of any form stands for itself.
impl DeepView for JsonNumber {
    type V = JsonNumber;

    open spec fn deep_view(&self) -> JsonNumber {
        *self
    }
}

impl Wire for JsonNumber {
    open spec fn encode(m: JsonNumber) -> JsonTree {
        JsonTree::Number(m)
    }

    open spec fn decode(t: JsonTree) -> Result<JsonNumber, SchemaFault> {
        match t {
            JsonTree::Number(n) => Ok(n),
            _ => Err(SchemaFault::Malformed { of_type: "number"@ }),
        }
    }

    open spec fn valid(m: JsonNumber) -> bool {
        true
    }

    fn serialize(&self) -> (out: JsonValue) {
        JsonValue::Number(*self)
    }

    fn deserialize(value: &JsonValue) -> (out: Result<JsonNumber, SchemaError>) {
        match value {
            JsonValue::Number(n) => Ok(*n),
            _ => Err(SchemaError::Malformed { of_type: String::from_str("number") }),
        }
    }

    proof fn round_trip(m: JsonNumber) {
    }

    proof fn decoded_valid(t: JsonTree) {
    }
}

/// A JSON value that the protocol carries as it is stands for itself. It is
/// read with every object cut down to the first entry of each name, so that
/// what was read holds no name twice.
impl Wire for JsonValue {
    open spec fn encode(m: JsonTree) -> JsonTree {
        m
    }

    open spec fn decode(t: JsonTree) -> Result<JsonTree, SchemaFault> {
        Ok(normal(t))
    }

    open spec fn valid(m: JsonTree) -> bool {
        well_formed(m)
    }

    fn serialize(&self) -> (out: JsonValue) {
        self.copy()
    }

    fn deserialize(value: &JsonValue) -> (out: Result<JsonValue, SchemaError>) {
        Ok(value.normalized())
    }

    proof fn round_trip(m: JsonTree) {
        lemma_normal_same(m);
    }

    proof fn decoded_valid(t: JsonTree) {
        lemma_normal_well_formed(t);
    }
}

/// The encodings of the items of a sequence.
pub open spec fn encode_items<T: Wire>(items: Seq<T::V>) -> Seq<JsonTree> {
    Seq::new(items.len(), |i: int| T::encode(items[i]))
}

/// What the items of an array decode to: the decoded items where every one is
/// accepted, and else the fault of the first that is refused.
pub open spec fn decode_items<T: Wire>(items: Seq<JsonTree>) -> Result<Seq<T::V>, SchemaFault>
    decreases items.len(),
{
    if items.len() == 0 {
        Ok(Seq::empty())
    } else {
        match decode_items::<T>(items.drop_last()) {
            Ok(front) => match T::decode(items.last()) {
                Ok(x) => Ok(front.push(x)),
                Err(e) => Err(e),
            },
            Err(e) => Err(e),
        }
    }
}

/// Once a front part of an array is refused, the whole array is refused with
/// the same fault.
pub proof fn lemma_decode_items_refused<T: Wire>(items: Seq<JsonTree>, n: int)
    requires
        0 <= n <= items.len(),
        decode_items::<T>(items.take(n)) is Err,
    ensures
        decode_items::<T>(items) == decode_items::<T>(items.take(n)),
    decreases items.len() - n,
{
    if n == items.len() {
        assert(items.take(n) =~= items);
    } else {
        assert(items.take(n + 1).drop_last() =~= items.take(n));
        lemma_decode_items_refused::<T>(items, n + 1);
    }
}

/// Decoding the encodings of valid items gives the items back.
pub proof fn lemma_items_round_trip<T: Wire>(items: Seq<T::V>)
    requires
        forall|i: int| 0 <= i < items.len() ==> T::valid(#[trigger] items[i]),
    ensures
        decode_items::<T>(encode_items::<T>(items)) == Ok::<Seq<T::V>, SchemaFault>(items),
    decreases items.len(),
{
    let encoded = encode_items::<T>(items);
    if items.len() == 0 {
        assert(decode_items::<T>(encoded)->Ok_0 =~= items);
    } else {
        assert(encoded.drop_last() =~= encode_items::<T>(items.drop_last()));
        lemma_items_round_trip::<T>(items.drop_last());
        T::round_trip(items.last());
        assert(items.drop_last().push(items.last()) =~= items);
    }
}

/// The items that an array decodes to are valid, and as many as the array has.
pub proof fn lemma_items_decoded<T: Wire>(items: Seq<JsonTree>)
    ensures
        decode_items::<T>(items) matches Ok(out) ==> out.len() == items.len() && forall|i: int|
            0 <= i < out.len() ==> T::valid(#[trigger] out[i]) && T::decode(items[i]) == Ok::<
                T::V,
                SchemaFault,
            >(out[i]),
    decreases items.len(),
{
    if items.len() > 0 {
        lemma_items_decoded::<T>(items.drop_last());
        T::decoded_valid(items.last());
    }
}

/// A sequence is written as an array of its items, in order.
impl<T: Wire> Wire for Vec<T> {
    open spec fn encode(m: Seq<T::V>) -> JsonTree {
        JsonTree::Array(encode_items::<T>(m))
    }

    open spec fn decode(t: JsonTree) -> Result<Seq<T::V>, SchemaFault> {
        match t {
            JsonTree::Array(items) => decode_items::<T>(items),
            _ => Err(SchemaFault::Malformed { of_type: "array"@ }),
        }
    }

    open spec fn valid(m: Seq<T::V>) -> bool {
        forall|i: int| 0 <= i < m.len() ==> T::valid(#[trigger] m[i])
    }

    fn serialize(&self) -> (out: JsonValue) {
        let mut items: Vec<JsonValue> = Vec::new();
        let mut i: usize = 0;
        while i < self.len()
            invariant
                0 <= i <= self.len(),
                items.len() == i,
                forall|j: int| 0 <= j < i ==> items[j]@ == T::encode(self[j].deep_view()),
            decreases self.len() - i,
        {
            items.push(self[i].serialize());
            i = i + 1;
        }
        proof {
            lemma_array_view(items);
            assert(items_of(items@) =~= encode_items::<T>(self.deep_view()));
        }
        JsonValue::Array(items)
    }

    fn deserialize(value: &JsonValue) -> (out: Result<Vec<T>, SchemaError>) {
        match value {
            JsonValue::Array(items) => {
                proof {
                    lemma_array_view(*items);
                }
                let ghost trees = items_of(items@);
                let mut out: Vec<T> = Vec::new();
                let mut i: usize = 0;
                assert(out.deep_view() =~= Seq::empty());
                while i < items.len()
                    invariant
                        0 <= i <= items.len(),
                        value@ == JsonTree::Array(trees),
                        trees == items_of(items@),
                        decode_items::<T>(trees.take(i as int)) == Ok::<Seq<T::V>, SchemaFault>(
                            out.deep_view(),
                        ),
                    decreases items.len() - i,
                {
                    let ghost front = out.deep_view();
                    assert(trees.take(i + 1).drop_last() =~= trees.take(i as int));
                    assert(trees.take(i + 1).last() == items[i as int]@);
                    match T::deserialize(&items[i]) {
                        Ok(x) => {
                            out.push(x);
                            assert(out.deep_view() =~= front.push(x.deep_view()));
                        },
                        Err(e) => {
                            proof {
                                assert(decode_items::<T>(trees.take(i + 1)) == Err::<
                                    Seq<T::V>,
                                    SchemaFault,
                                >(e@));
                                lemma_decode_items_refused::<T>(trees, i + 1);
                            }
                            return Err(e);
                        },
                    }
                    i = i + 1;
                }
                assert(trees.take(i as int) =~= trees);
                Ok(out)
            },
            _ => Err(SchemaError::Malformed { of_type: String::from_str("array") }),
        }
    }

    proof fn round_trip(m: Seq<T::V>) {
        lemma_items_round_trip::<T>(m);
    }

    proof fn decoded_valid(t: JsonTree) {
        match t {
            JsonTree::Array(items) => lemma_items_decoded::<T>(items),
            _ => {},
        }
    }
}

} // verus!
