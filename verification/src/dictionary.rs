//! String-keyed maps, written on the wire as JSON objects.

use vstd::prelude::*;
use crate::error::{SchemaError, SchemaFault};
use crate::json::{JsonTree, JsonValue, Entries, entries_of, lemma_object_view};
use crate::wire::{Wire, lemma_lookup_push, lookup};

verus! {

/// A map from names to values which keeps the order in which the names came.
/// It stands for a JSON object whose values all have one type. No name occurs
/// twice: the dictionary is made empty, `insert` keeps names distinct, and a
/// decoder keeps the first entry of a name.
#[derive(Debug, Clone, PartialEq)]
pub struct Dictionary<T> {
    entries: Vec<(String, T)>,
}

/// A JSON object that the protocol carries as it is.
pub type JsonObject = Dictionary<JsonValue>;

/// The metadata that a message or a value may carry under `_meta`.
pub type Meta = Dictionary<JsonValue>;

/// The model of a dictionary: its names and the models of its values.
pub type Named<V> = Seq<(Seq<char>, V)>;

impl<T: DeepView> DeepView for Dictionary<T> {
    type V = Seq<(Seq<char>, T::V)>;

    closed spec fn deep_view(&self) -> Seq<(Seq<char>, T::V)> {
        Seq::new(self.entries@.len(), |i: int| (self.entries@[i].0@, self.entries@[i].1.deep_view()))
    }
}

/// No name occurs twice.
pub open spec fn distinct_names<V>(m: Named<V>) -> bool {
    forall|i: int, j: int| 0 <= i < j < m.len() ==> m[i].0 != m[j].0
}

/// The index of the first entry named `key`, or the length where there is none.
pub open spec fn position<V>(m: Named<V>, key: Seq<char>) -> int
    decreases m.len(),
{
    if m.len() == 0 {
        0
    } else if m[0].0 == key {
        0
    } else {
        1 + position(m.skip(1), key)
    }
}

/// `position` is the least index of an entry of that name.
pub proof fn lemma_position<V>(m: Named<V>, key: Seq<char>)
    ensures
        0 <= position(m, key) <= m.len(),
        position(m, key) < m.len() ==> m[position(m, key)].0 == key,
        forall|i: int| 0 <= i < position(m, key) ==> (#[trigger] m[i]).0 != key,
    decreases m.len(),
{
    if m.len() > 0 && m[0].0 != key {
        let rest = m.skip(1);
        lemma_position(rest, key);
        assert forall|i: int| 0 <= i < position(m, key) implies (#[trigger] m[i]).0 != key by {
            if i > 0 {
                assert(m[i] == rest[i - 1]);
            }
        }
    }
}

/// Whether an entry is named `key`.
pub open spec fn has_name<V>(m: Named<V>, key: Seq<char>) -> bool {
    position(m, key) < m.len()
}

/// A name that no entry has can be added, and the names stay distinct.
pub proof fn lemma_new_name<V>(m: Named<V>, key: Seq<char>, value: V)
    requires
        distinct_names(m),
        !has_name(m, key),
    ensures
        distinct_names(m.push((key, value))),
{
    lemma_position(m, key);
    let after = m.push((key, value));
    assert forall|i: int, j: int| 0 <= i < j < after.len() implies after[i].0 != after[j].0 by {
        assert(after[i] == m[i]);
        if j < m.len() {
            assert(after[j] == m[j]);
        }
    }
}

/// Among distinct names, none of the entries before the last has the name of
/// the last.
pub proof fn lemma_last_name_is_new<V>(m: Named<V>)
    requires
        distinct_names(m),
        m.len() > 0,
    ensures
        !has_name(m.drop_last(), m.last().0),
        distinct_names(m.drop_last()),
{
    let front = m.drop_last();
    lemma_position(front, m.last().0);
    if position(front, m.last().0) < front.len() {
        let i = position(front, m.last().0);
        assert(front[i] == m[i]);
    }
    assert forall|i: int, j: int| 0 <= i < j < front.len() implies front[i].0 != front[j].0 by {
        assert(front[i] == m[i]);
        assert(front[j] == m[j]);
    }
}

/// `position` after one more entry was appended: an earlier entry of that name
/// is still the first.
pub proof fn lemma_position_push<V>(m: Named<V>, name: Seq<char>, value: V, key: Seq<char>)
    ensures
        position(m.push((name, value)), key) == if has_name(m, key) {
            position(m, key)
        } else if name == key {
            m.len() as int
        } else {
            m.len() as int + 1
        },
    decreases m.len(),
{
    let pushed = m.push((name, value));
    lemma_position(m, key);
    if m.len() == 0 {
        assert(pushed[0] == (name, value));
        assert(pushed.skip(1).len() == 0);
        assert(position(pushed.skip(1), key) == 0);
    } else {
        assert(pushed[0] == m[0]);
        if m[0].0 != key {
            assert(pushed.skip(1) =~= m.skip(1).push((name, value)));
            lemma_position(m.skip(1), key);
            lemma_position_push(m.skip(1), name, value, key);
        }
    }
}

impl<T: DeepView> Dictionary<T> {
    /// The dictionary without entries.
    pub fn new() -> (out: Dictionary<T>)
        ensures
            out.deep_view() == Seq::<(Seq<char>, T::V)>::empty(),
    {
        let out = Dictionary { entries: Vec::new() };
        assert(out.deep_view() =~= Seq::<(Seq<char>, T::V)>::empty());
        out
    }

    /// The number of entries.
    pub fn len(&self) -> (out: usize)
        ensures
            out == self.deep_view().len(),
    {
        self.entries.len()
    }

    /// The entries, in order.
    pub fn entries(&self) -> (out: &Vec<(String, T)>)
        ensures
            out@.len() == self.deep_view().len(),
            forall|i: int|
                0 <= i < out@.len() ==> (#[trigger] out@[i]).0@ == self.deep_view()[i].0
                    && out@[i].1.deep_view() == self.deep_view()[i].1,
    {
        &self.entries
    }

    /// Whether an entry is named `key`.
    pub fn contains(&self, key: &str) -> (out: bool)
        ensures
            out == has_name(self.deep_view(), key@),
    {
        self.get(key).is_some()
    }

    /// The value of the entry named `key`.
    pub fn get(&self, key: &str) -> (out: Option<&T>)
        ensures
            match out {
                Some(v) => position(self.deep_view(), key@) < self.deep_view().len()
                    && self.deep_view()[position(self.deep_view(), key@)].1 == v.deep_view(),
                None => position(self.deep_view(), key@) == self.deep_view().len(),
            },
    {
        let wanted = String::from_str(key);
        let ghost m = self.deep_view();
        let mut i: usize = 0;
        proof {
            lemma_position(m, key@);
        }
        while i < self.entries.len()
            invariant
                0 <= i <= self.entries.len(),
                wanted@ == key@,
                m == self.deep_view(),
                i <= position(m, key@) <= m.len(),
                position(m, key@) < m.len() ==> m[position(m, key@)].0 == key@,
            decreases self.entries.len() - i,
        {
            assert(m[i as int].0 == self.entries@[i as int].0@);
            if self.entries[i].0 == wanted {
                proof {
                    lemma_position(m, key@);
                }
                return Some(&self.entries[i].1);
            }
            i = i + 1;
        }
        None
    }

    /// Sets the value under `key`: in place of the first entry of that name, or
    /// in a new last entry where there is none. Distinct names stay distinct.
    pub fn insert(&mut self, key: &str, value: T)
        ensures
            ({
                let before = old(self).deep_view();
                let after = final(self).deep_view();
                let at = position(before, key@);
                &&& 0 <= at <= before.len()
                &&& at < before.len() ==> after == before.update(at, (key@, value.deep_view()))
                &&& at == before.len() ==> after == before.push((key@, value.deep_view()))
                &&& distinct_names(before) ==> distinct_names(after)
            }),
    {
        let wanted = String::from_str(key);
        let ghost before = self.deep_view();
        let ghost element = value.deep_view();
        let mut i: usize = 0;
        proof {
            lemma_position(before, key@);
        }
        while i < self.entries.len()
            invariant
                0 <= i <= self.entries.len(),
                wanted@ == key@,
                before == self.deep_view(),
                before == old(self).deep_view(),
                element == value.deep_view(),
                i <= position(before, key@) <= before.len(),
                position(before, key@) < before.len() ==> before[position(before, key@)].0 == key@,
            decreases self.entries.len() - i,
        {
            assert(before[i as int].0 == self.entries@[i as int].0@);
            if self.entries[i].0 == wanted {
                proof {
                    lemma_position(before, key@);
                    assert(before[i as int].0 == key@);
                    assert(position(before, key@) == i);
                }
                self.entries.set(i, (wanted, value));
                proof {
                    let after = self.deep_view();
                    assert(after =~= before.update(i as int, (key@, element)));
                    assert forall|j: int| 0 <= j < after.len() implies (#[trigger] after[j]).0
                        == before[j].0 by {}
                }
                return ;
            }
            i = i + 1;
        }
        self.entries.push((wanted, value));
        proof {
            lemma_position(before, key@);
            let after = self.deep_view();
            assert(after =~= before.push((key@, element)));
            assert forall|j: int| 0 <= j < before.len() implies (#[trigger] after[j]).0
                != key@ by {
                assert(after[j] == before[j]);
            }
        }
    }
}

impl<T: DeepView> Default for Dictionary<T> {
    fn default() -> (out: Dictionary<T>)
        ensures
            out.deep_view() == Seq::<(Seq<char>, T::V)>::empty(),
    {
        Dictionary::new()
    }
}

/// The entries of the object that stands for a dictionary.
pub open spec fn encode_named<T: Wire>(m: Named<T::V>) -> Entries {
    Seq::new(m.len(), |i: int| (m[i].0, T::encode(m[i].1)))
}

/// What the entries of an object decode to. The entries are read in order. The
/// first entry of a name stays, with its value decoded; a later entry of a name
/// that was read already is passed over. The fault of the first value that is
/// refused is the fault of the whole.
pub open spec fn decode_named<T: Wire>(entries: Entries) -> Result<Named<T::V>, SchemaFault>
    decreases entries.len(),
{
    if entries.len() == 0 {
        Ok(Seq::empty())
    } else {
        match decode_named::<T>(entries.drop_last()) {
            Ok(front) => if has_name(front, entries.last().0) {
                Ok(front)
            } else {
                match T::decode(entries.last().1) {
                    Ok(x) => Ok(front.push((entries.last().0, x))),
                    Err(e) => Err(e),
                }
            },
            Err(e) => Err(e),
        }
    }
}

/// Once a front part of the entries is refused, all of them are refused with
/// the same fault.
pub proof fn lemma_decode_named_refused<T: Wire>(entries: Entries, n: int)
    requires
        0 <= n <= entries.len(),
        decode_named::<T>(entries.take(n)) is Err,
    ensures
        decode_named::<T>(entries) == decode_named::<T>(entries.take(n)),
    decreases entries.len() - n,
{
    if n == entries.len() {
        assert(entries.take(n) =~= entries);
    } else {
        assert(entries.take(n + 1).drop_last() =~= entries.take(n));
        lemma_decode_named_refused::<T>(entries, n + 1);
    }
}

/// Decoding the encoded entries of a dictionary of distinct names and valid
/// values gives the dictionary back.
pub proof fn lemma_named_round_trip<T: Wire>(m: Named<T::V>)
    requires
        distinct_names(m),
        forall|i: int| 0 <= i < m.len() ==> T::valid((#[trigger] m[i]).1),
    ensures
        decode_named::<T>(encode_named::<T>(m)) == Ok::<Named<T::V>, SchemaFault>(m),
    decreases m.len(),
{
    let encoded = encode_named::<T>(m);
    if m.len() == 0 {
        assert(decode_named::<T>(encoded)->Ok_0 =~= m);
    } else {
        assert(encoded.drop_last() =~= encode_named::<T>(m.drop_last()));
        lemma_last_name_is_new(m);
        lemma_named_round_trip::<T>(m.drop_last());
        T::round_trip(m.last().1);
        assert(m.drop_last().push(m.last()) =~= m);
    }
}

/// What the entries of an object decode to has distinct names and valid
/// values.
pub proof fn lemma_named_decoded<T: Wire>(entries: Entries)
    ensures
        decode_named::<T>(entries) matches Ok(out) ==> distinct_names(out) && forall|i: int|
            0 <= i < out.len() ==> T::valid((#[trigger] out[i]).1),
    decreases entries.len(),
{
    if entries.len() > 0 {
        lemma_named_decoded::<T>(entries.drop_last());
        T::decoded_valid(entries.last().1);
        match decode_named::<T>(entries.drop_last()) {
            Ok(front) => {
                if !has_name(front, entries.last().0) {
                    match T::decode(entries.last().1) {
                        Ok(x) => lemma_new_name(front, entries.last().0, x),
                        Err(_) => {},
                    }
                }
            },
            Err(_) => {},
        }
    }
}

/// Where no name occurs twice in an object, every entry stays: the dictionary
/// has the names of the entries, in their order, each with its value decoded.
pub proof fn lemma_distinct_entries_kept<T: Wire>(entries: Entries)
    requires
        distinct_names(entries),
    ensures
        decode_named::<T>(entries) matches Ok(out) ==> out.len() == entries.len() && forall|i: int|
            0 <= i < out.len() ==> (#[trigger] out[i]).0 == entries[i].0 && T::decode(entries[i].1)
                == Ok::<T::V, SchemaFault>(out[i].1),
    decreases entries.len(),
{
    if entries.len() > 0 {
        let rest = entries.drop_last();
        lemma_last_name_is_new(entries);
        lemma_distinct_entries_kept::<T>(rest);
        match decode_named::<T>(rest) {
            Ok(front) => {
                lemma_position(front, entries.last().0);
                if has_name(front, entries.last().0) {
                    let i = position(front, entries.last().0);
                    assert(front[i].0 == rest[i].0);
                    lemma_position(rest, entries.last().0);
                    assert(rest[i] == entries[i]);
                    assert(entries[i].0 != entries[entries.len() - 1].0);
                }
            },
            Err(_) => {},
        }
    }
}

/// The entry of a name that stays is the one that a reader finds under the
/// name: the first. A name has an entry in the dictionary if and only if it
/// has one in the object.
pub proof fn lemma_first_entry_stays<T: Wire>(entries: Entries, key: Seq<char>)
    ensures
        decode_named::<T>(entries) matches Ok(out) ==> (has_name(out, key) <==> lookup(entries, key)
            is Some) && (has_name(out, key) ==> T::decode(lookup(entries, key)->Some_0) == Ok::<
            T::V,
            SchemaFault,
        >(out[position(out, key)].1)),
    decreases entries.len(),
{
    if entries.len() > 0 {
        let rest = entries.drop_last();
        let last = entries.last();
        assert(rest.push(last) =~= entries);
        lemma_lookup_push(rest, last.0, last.1, key);
        lemma_first_entry_stays::<T>(rest, key);
        lemma_first_entry_stays::<T>(rest, last.0);
        match decode_named::<T>(rest) {
            Ok(front) => {
                if !has_name(front, last.0) {
                    match T::decode(last.1) {
                        Ok(x) => {
                            lemma_position_push(front, last.0, x, key);
                            lemma_position(front, key);
                            let out = front.push((last.0, x));
                            if has_name(front, key) {
                                assert(out[position(front, key)] == front[position(front, key)]);
                            }
                        },
                        Err(_) => {},
                    }
                }
            },
            Err(_) => {},
        }
    }
}

/// A dictionary is written as an object with one entry for each of its own, in
/// order. An object is read entry by entry, and the first entry of a name is
/// the one that stays.
impl<T: Wire> Wire for Dictionary<T> {
    open spec fn encode(m: Seq<(Seq<char>, T::V)>) -> JsonTree {
        JsonTree::Object(encode_named::<T>(m))
    }

    open spec fn decode(t: JsonTree) -> Result<Seq<(Seq<char>, T::V)>, SchemaFault> {
        match t {
            JsonTree::Object(entries) => decode_named::<T>(entries),
            _ => Err(SchemaFault::Malformed { of_type: "object"@ }),
        }
    }

    open spec fn valid(m: Seq<(Seq<char>, T::V)>) -> bool {
        &&& distinct_names(m)
        &&& forall|i: int| 0 <= i < m.len() ==> T::valid((#[trigger] m[i]).1)
    }

    fn serialize(&self) -> (out: JsonValue) {
        let mut fields: Vec<(String, JsonValue)> = Vec::new();
        let mut i: usize = 0;
        while i < self.entries.len()
            invariant
                0 <= i <= self.entries.len(),
                fields.len() == i,
                forall|j: int|
                    0 <= j < i ==> fields[j].0@ == self.entries[j].0@ && fields[j].1@ == T::encode(
                        self.entries[j].1.deep_view(),
                    ),
            decreases self.entries.len() - i,
        {
            fields.push((self.entries[i].0.clone(), self.entries[i].1.serialize()));
            i = i + 1;
        }
        proof {
            lemma_object_view(fields);
            assert(entries_of(fields@) =~= encode_named::<T>(self.deep_view()));
        }
        JsonValue::Object(fields)
    }

    fn deserialize(value: &JsonValue) -> (out: Result<Dictionary<T>, SchemaError>) {
        match value {
            JsonValue::Object(fields) => {
                proof {
                    lemma_object_view(*fields);
                }
                let ghost entries = entries_of(fields@);
                let mut out: Dictionary<T> = Dictionary { entries: Vec::new() };
                let mut i: usize = 0;
                assert(out.deep_view() =~= Seq::empty());
                while i < fields.len()
                    invariant
                        0 <= i <= fields.len(),
                        value@ == JsonTree::Object(entries),
                        entries == entries_of(fields@),
                        decode_named::<T>(entries.take(i as int)) == Ok::<
                            Seq<(Seq<char>, T::V)>,
                            SchemaFault,
                        >(out.deep_view()),
                    decreases fields.len() - i,
                {
                    let ghost front = out.deep_view();
                    assert(entries.take(i + 1).drop_last() =~= entries.take(i as int));
                    assert(entries.take(i + 1).last() == (fields[i as int].0@, fields[i as int].1@));
                    if !out.contains(fields[i].0.as_str()) {
                        match T::deserialize(&fields[i].1) {
                            Ok(x) => {
                                out.entries.push((fields[i].0.clone(), x));
                                assert(out.deep_view() =~= front.push(
                                    (fields[i as int].0@, x.deep_view()),
                                ));
                            },
                            Err(e) => {
                                proof {
                                    assert(decode_named::<T>(entries.take(i + 1)) == Err::<
                                        Seq<(Seq<char>, T::V)>,
                                        SchemaFault,
                                    >(e@));
                                    lemma_decode_named_refused::<T>(entries, i + 1);
                                }
                                return Err(e);
                            },
                        }
                    }
                    i = i + 1;
                }
                assert(entries.take(i as int) =~= entries);
                Ok(out)
            },
            _ => Err(SchemaError::Malformed { of_type: String::from_str("object") }),
        }
    }

    proof fn round_trip(m: Seq<(Seq<char>, T::V)>) {
        lemma_named_round_trip::<T>(m);
    }

    proof fn decoded_valid(t: JsonTree) {
        match t {
            JsonTree::Object(entries) => lemma_named_decoded::<T>(entries),
            _ => {},
        }
    }
}

} // verus!
