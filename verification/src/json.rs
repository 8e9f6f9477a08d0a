//! The JSON value tree on which the codec works.
//!
//! A [`JsonValue`] is what a JSON text denotes: null, a boolean, a number, a
//! string, an array or an object. Objects keep their entries in the order in
//! which they were written. [`JsonTree`] is the mathematical model of a value,
//! and every contract of the codec is stated over it.
//!
//! A JSON text may write a name twice in one object, and a reader of this
//! crate sees the first entry of a name. A value is well formed where no
//! object of it holds a name twice; `normalized` cuts a value down to that
//! form, and every value that a decoder hands out has it.

use vstd::prelude::*;
use crate::dictionary::{distinct_names, has_name, lemma_new_name, lemma_position, position};

verus! {

/// A JSON number: an unsigned integer, a negative integer, or the bit pattern of
/// a binary64 floating-point value.
#[derive(Clone, Copy, Debug, PartialEq, Eq, Structural)]
pub enum JsonNumber {
    PosInt(u64),
    NegInt(i64),
    Float(u64),
}

impl Default for JsonNumber {
    /// The floating-point zero, written as `0.0`.
    fn default() -> (out: JsonNumber)
        ensures
            out == JsonNumber::Float(0),
    {
        JsonNumber::Float(0)
    }
}

/// A JSON value held in memory.
#[derive(Debug)]
pub enum JsonValue {
    Null,
    Bool(bool),
    Number(JsonNumber),
    String(String),
    Array(Vec<JsonValue>),
    Object(Vec<(String, JsonValue)>),
}

/// The mathematical model of a JSON value.
pub enum JsonTree {
    Null,
    Bool(bool),
    Number(JsonNumber),
    String(Seq<char>),
    Array(Seq<JsonTree>),
    Object(Seq<(Seq<char>, JsonTree)>),
}

/// The entries of a JSON object: names and values, in the order of the text.
pub type Entries = Seq<(Seq<char>, JsonTree)>;

/// The model of a JSON value.
pub open spec fn tree_of(value: JsonValue) -> JsonTree
    decreases value,
{
    match value {
        JsonValue::Null => JsonTree::Null,
        JsonValue::Bool(b) => JsonTree::Bool(b),
        JsonValue::Number(n) => JsonTree::Number(n),
        JsonValue::String(s) => JsonTree::String(s@),
        JsonValue::Array(items) => JsonTree::Array(
            Seq::new(
                items@.len(),
                |i: int|
                    if 0 <= i < items@.len() {
                        tree_of(items@[i])
                    } else {
                        JsonTree::Null
                    },
            ),
        ),
        JsonValue::Object(fields) => JsonTree::Object(
            Seq::new(
                fields@.len(),
                |i: int|
                    if 0 <= i < fields@.len() {
                        (fields@[i].0@, tree_of(fields@[i].1))
                    } else {
                        (Seq::empty(), JsonTree::Null)
                    },
            ),
        ),
    }
}

impl View for JsonValue {
    type V = JsonTree;

    open spec fn view(&self) -> JsonTree {
        tree_of(*self)
    }
}

impl DeepView for JsonValue {
    type V = JsonTree;

    open spec fn deep_view(&self) -> JsonTree {
        tree_of(*self)
    }
}

/// The models of the items of an array.
pub open spec fn items_of(items: Seq<JsonValue>) -> Seq<JsonTree> {
    Seq::new(items.len(), |i: int| items[i]@)
}

/// The models of the entries of an object.
pub open spec fn entries_of(fields: Seq<(String, JsonValue)>) -> Entries {
    Seq::new(fields.len(), |i: int| (fields[i].0@, fields[i].1@))
}

/// The model of an array is the array of its items' models.
pub broadcast proof fn lemma_array_view(items: Vec<JsonValue>)
    ensures
        #[trigger] JsonValue::Array(items)@ == JsonTree::Array(items_of(items@)),
{
    assert(JsonValue::Array(items)@->Array_0 =~= items_of(items@));
}

/// The model of an object is the object of its entries' models.
pub broadcast proof fn lemma_object_view(fields: Vec<(String, JsonValue)>)
    ensures
        #[trigger] JsonValue::Object(fields)@ == JsonTree::Object(entries_of(fields@)),
{
    assert(JsonValue::Object(fields)@->Object_0 =~= entries_of(fields@));
}

impl JsonValue {
    /// A deep copy of the value.
    pub fn copy(&self) -> (out: JsonValue)
        ensures
            out@ == self@,
        decreases self,
    {
        broadcast use {lemma_array_view, lemma_object_view};

        match self {
            JsonValue::Null => JsonValue::Null,
            JsonValue::Bool(b) => JsonValue::Bool(*b),
            JsonValue::Number(n) => JsonValue::Number(*n),
            JsonValue::String(s) => JsonValue::String(s.clone()),
            JsonValue::Array(items) => {
                let mut out: Vec<JsonValue> = Vec::new();
                let mut i: usize = 0;
                while i < items.len()
                    invariant
                        self is Array,
                        self->Array_0 == *items,
                        0 <= i <= items.len(),
                        out.len() == i,
                        forall|j: int| 0 <= j < i ==> out[j]@ == items[j]@,
                    decreases items.len() - i,
                {
                    out.push(items[i].copy());
                    i = i + 1;
                }
                assert(items_of(out@) =~= items_of(items@));
                JsonValue::Array(out)
            },
            JsonValue::Object(fields) => {
                let mut out: Vec<(String, JsonValue)> = Vec::new();
                let mut i: usize = 0;
                while i < fields.len()
                    invariant
                        self is Object,
                        self->Object_0 == *fields,
                        0 <= i <= fields.len(),
                        out.len() == i,
                        forall|j: int|
                            0 <= j < i ==> out[j].0@ == fields[j].0@ && out[j].1@ == fields[j].1@,
                    decreases fields.len() - i,
                {
                    out.push((fields[i].0.clone(), fields[i].1.copy()));
                    i = i + 1;
                }
                assert(entries_of(out@) =~= entries_of(fields@));
                JsonValue::Object(out)
            },
        }
    }

    /// Whether two values denote the same JSON value: the same kind, and the
    /// same content in the same order.
    pub fn same(&self, other: &JsonValue) -> (out: bool)
        ensures
            out == (self@ == other@),
        decreases self,
    {
        broadcast use {lemma_array_view, lemma_object_view};

        match (self, other) {
            (JsonValue::Null, JsonValue::Null) => true,
            (JsonValue::Bool(a), JsonValue::Bool(b)) => *a == *b,
            (JsonValue::Number(a), JsonValue::Number(b)) => *a == *b,
            (JsonValue::String(a), JsonValue::String(b)) => *a == *b,
            (JsonValue::Array(a), JsonValue::Array(b)) => {
                if a.len() != b.len() {
                    assert(items_of(a@).len() != items_of(b@).len());
                    return false;
                }
                let mut i: usize = 0;
                while i < a.len()
                    invariant
                        self is Array,
                        self->Array_0 == *a,
                        other is Array,
                        other->Array_0 == *b,
                        a.len() == b.len(),
                        0 <= i <= a.len(),
                        forall|j: int| 0 <= j < i ==> a[j]@ == b[j]@,
                    decreases a.len() - i,
                {
                    if !a[i].same(&b[i]) {
                        proof {
                            lemma_array_view(*a);
                            lemma_array_view(*b);
                        }
                        assert(items_of(a@)[i as int] != items_of(b@)[i as int]);
                        return false;
                    }
                    i = i + 1;
                }
                assert(items_of(a@) =~= items_of(b@));
                true
            },
            (JsonValue::Object(a), JsonValue::Object(b)) => {
                if a.len() != b.len() {
                    assert(entries_of(a@).len() != entries_of(b@).len());
                    return false;
                }
                let mut i: usize = 0;
                while i < a.len()
                    invariant
                        self is Object,
                        self->Object_0 == *a,
                        other is Object,
                        other->Object_0 == *b,
                        a.len() == b.len(),
                        0 <= i <= a.len(),
                        forall|j: int| 0 <= j < i ==> a[j].0@ == b[j].0@ && a[j].1@ == b[j].1@,
                    decreases a.len() - i,
                {
                    if a[i].0 != b[i].0 || !a[i].1.same(&b[i].1) {
                        proof {
                            lemma_object_view(*a);
                            lemma_object_view(*b);
                        }
                        assert(entries_of(a@)[i as int] != entries_of(b@)[i as int]);
                        return false;
                    }
                    i = i + 1;
                }
                assert(entries_of(a@) =~= entries_of(b@));
                true
            },
            _ => false,
        }
    }
}

/// No object of the value holds a name twice.
pub open spec fn well_formed(t: JsonTree) -> bool
    decreases t,
{
    match t {
        JsonTree::Array(items) => forall|i: int|
            0 <= i < items.len() ==> well_formed(#[trigger] items[i]),
        JsonTree::Object(entries) => distinct_names(entries) && forall|i: int|
            0 <= i < entries.len() ==> well_formed((#[trigger] entries[i]).1),
        _ => true,
    }
}

/// The value with every object cut down to the first entry of each name.
pub open spec fn normal(t: JsonTree) -> JsonTree
    decreases t, 0nat,
{
    match t {
        JsonTree::Array(items) => JsonTree::Array(
            Seq::new(
                items.len(),
                |i: int|
                    if 0 <= i < items.len() {
                        normal(items[i])
                    } else {
                        JsonTree::Null
                    },
            ),
        ),
        JsonTree::Object(entries) => JsonTree::Object(normal_entries(entries, entries.len())),
        _ => t,
    }
}

/// The first `n` entries of an object, cut down to the first entry of each
/// name, with their values cut down in the same way.
pub open spec fn normal_entries(entries: Entries, n: nat) -> Entries
    decreases entries, n,
{
    if n == 0 || n > entries.len() {
        Seq::empty()
    } else {
        let front = normal_entries(entries, (n - 1) as nat);
        if has_name(front, entries[n - 1].0) {
            front
        } else {
            front.push((entries[n - 1].0, normal(entries[n - 1].1)))
        }
    }
}

/// The cut-down entries have distinct names and well-formed values.
pub proof fn lemma_normal_entries_well_formed(entries: Entries, n: nat)
    ensures
        distinct_names(normal_entries(entries, n)),
        forall|i: int|
            0 <= i < normal_entries(entries, n).len() ==> well_formed(
                (#[trigger] normal_entries(entries, n)[i]).1,
            ),
    decreases entries, n,
{
    if n != 0 && n <= entries.len() {
        let front = normal_entries(entries, (n - 1) as nat);
        lemma_normal_entries_well_formed(entries, (n - 1) as nat);
        if !has_name(front, entries[n - 1].0) {
            let value = normal(entries[n - 1].1);
            lemma_normal_well_formed(entries[n - 1].1);
            lemma_new_name(front, entries[n - 1].0, value);
            let all = front.push((entries[n - 1].0, value));
            assert forall|i: int| 0 <= i < all.len() implies well_formed((#[trigger] all[i]).1) by {
                if i < front.len() {
                    assert(all[i] == front[i]);
                }
            }
        }
    }
}

/// The cut-down value is well formed.
pub proof fn lemma_normal_well_formed(t: JsonTree)
    ensures
        well_formed(normal(t)),
    decreases t, 0nat,
{
    match t {
        JsonTree::Array(items) => {
            let out = normal(t)->Array_0;
            assert forall|i: int| 0 <= i < out.len() implies well_formed(#[trigger] out[i]) by {
                lemma_normal_well_formed(items[i]);
            }
        },
        JsonTree::Object(entries) => {
            lemma_normal_entries_well_formed(entries, entries.len());
        },
        _ => {},
    }
}

/// Well-formed entries stay as they are.
pub proof fn lemma_normal_entries_same(entries: Entries, n: nat)
    requires
        n <= entries.len(),
        distinct_names(entries),
        forall|i: int| 0 <= i < entries.len() ==> well_formed((#[trigger] entries[i]).1),
    ensures
        normal_entries(entries, n) == entries.take(n as int),
    decreases entries, n,
{
    if n == 0 {
        assert(normal_entries(entries, n) =~= entries.take(n as int));
    } else {
        let front = normal_entries(entries, (n - 1) as nat);
        let key = entries[n - 1].0;
        lemma_normal_entries_same(entries, (n - 1) as nat);
        lemma_position(front, key);
        if has_name(front, key) {
            let at = position(front, key);
            assert(front[at] == entries[at]);
            assert(entries[at].0 != entries[n - 1].0);
        }
        lemma_normal_same(entries[n - 1].1);
        assert(front.push((key, normal(entries[n - 1].1))) =~= entries.take(n as int));
    }
}

/// A well-formed value stays as it is.
pub proof fn lemma_normal_same(t: JsonTree)
    requires
        well_formed(t),
    ensures
        normal(t) == t,
    decreases t, 0nat,
{
    match t {
        JsonTree::Array(items) => {
            let out = normal(t)->Array_0;
            assert forall|i: int| 0 <= i < out.len() implies out[i] == items[i] by {
                lemma_normal_same(items[i]);
            }
            assert(out =~= items);
        },
        JsonTree::Object(entries) => {
            lemma_normal_entries_same(entries, entries.len());
            assert(entries.take(entries.len() as int) =~= entries);
        },
        _ => {},
    }
}

/// Whether one of the fields is named `key`.
pub fn holds_name(fields: &Vec<(String, JsonValue)>, key: &String) -> (out: bool)
    ensures
        out == has_name(entries_of(fields@), key@),
{
    let ghost m = entries_of(fields@);
    let mut i: usize = 0;
    proof {
        lemma_position(m, key@);
    }
    while i < fields.len()
        invariant
            0 <= i <= fields.len(),
            m == entries_of(fields@),
            i <= position(m, key@) <= m.len(),
        decreases fields.len() - i,
    {
        assert(m[i as int].0 == fields@[i as int].0@);
        if fields[i].0 == *key {
            proof {
                lemma_position(m, key@);
            }
            return true;
        }
        proof {
            lemma_position(m, key@);
        }
        i = i + 1;
    }
    false
}

impl JsonValue {
    /// The value with every object cut down to the first entry of each name:
    /// a later entry of a name is the one that no reader sees.
    pub fn normalized(&self) -> (out: JsonValue)
        ensures
            out@ == normal(self@),
        decreases self,
    {
        broadcast use {lemma_array_view, lemma_object_view};

        match self {
            JsonValue::Null => JsonValue::Null,
            JsonValue::Bool(b) => JsonValue::Bool(*b),
            JsonValue::Number(n) => JsonValue::Number(*n),
            JsonValue::String(s) => JsonValue::String(s.clone()),
            JsonValue::Array(items) => {
                let mut out: Vec<JsonValue> = Vec::new();
                let mut i: usize = 0;
                while i < items.len()
                    invariant
                        self is Array,
                        self->Array_0 == *items,
                        0 <= i <= items.len(),
                        out.len() == i,
                        forall|j: int| 0 <= j < i ==> out[j]@ == normal(items[j]@),
                    decreases items.len() - i,
                {
                    out.push(items[i].normalized());
                    i = i + 1;
                }
                assert(items_of(out@) =~= normal(JsonTree::Array(items_of(items@)))->Array_0);
                JsonValue::Array(out)
            },
            JsonValue::Object(fields) => {
                let ghost entries = entries_of(fields@);
                let mut out: Vec<(String, JsonValue)> = Vec::new();
                let mut i: usize = 0;
                assert(entries_of(out@) =~= normal_entries(entries, 0));
                while i < fields.len()
                    invariant
                        self is Object,
                        self->Object_0 == *fields,
                        entries == entries_of(fields@),
                        0 <= i <= fields.len(),
                        entries_of(out@) == normal_entries(entries, i as nat),
                    decreases fields.len() - i,
                {
                    let ghost front = entries_of(out@);
                    assert(entries[i as int] == (fields[i as int].0@, fields[i as int].1@));
                    if !holds_name(&out, &fields[i].0) {
                        let value = fields[i].1.normalized();
                        out.push((fields[i].0.clone(), value));
                        assert(entries_of(out@) =~= front.push(
                            (entries[i as int].0, normal(entries[i as int].1)),
                        ));
                    }
                    i = i + 1;
                }
                JsonValue::Object(out)
            },
        }
    }
}

impl Clone for JsonValue {
    fn clone(&self) -> (out: JsonValue)
        ensures
            out@ == self@,
    {
        self.copy()
    }
}

impl PartialEq for JsonValue {
    fn eq(&self, other: &JsonValue) -> (out: bool) {
        self.same(other)
    }
}

impl vstd::std_specs::cmp::PartialEqSpecImpl for JsonValue {
    open spec fn obeys_eq_spec() -> bool {
        true
    }

    open spec fn eq_spec(&self, other: &JsonValue) -> bool {
        self@ == other@
    }
}

impl Default for JsonValue {
    fn default() -> (out: JsonValue)
        ensures
            out@ == JsonTree::Null,
    {
        JsonValue::Null
    }
}

} // verus!
