//! The JSON values that requests and responses carry. Objects keep their
//! entries in insertion order; a later entry for a key replaces earlier ones.

use vstd::prelude::*;

use crate::text::str_eq;

verus! {

broadcast use vstd::seq_lib::group_seq_properties, vstd::map::group_map_axioms;

/// An integer JSON number (non-negative ones are `PosInt`).
#[derive(Debug, Clone, Copy, PartialEq, Eq, Structural)]
pub enum JsonNumber {
    PosInt(u64),
    NegInt(i64),
}

impl JsonNumber {
    pub open spec fn value(self) -> int {
        match self {
            JsonNumber::PosInt(n) => n as int,
            JsonNumber::NegInt(n) => n as int,
        }
    }

    /// The number as an `i64`, when it fits.
    pub fn as_i64(&self) -> (r: Option<i64>)
        ensures
            r matches Some(n) ==> n == self.value(),
            r is None <==> self.value() > i64::MAX,
    {
        match *self {
            JsonNumber::PosInt(n) => if n <= 9223372036854775807u64 {
                Some(n as i64)
            } else {
                None
            },
            JsonNumber::NegInt(n) => Some(n),
        }
    }

    /// The number as a `u64`, when it is not negative.
    pub fn as_u64(&self) -> (r: Option<u64>)
        ensures
            r matches Some(n) ==> n == self.value(),
            r is None <==> self.value() < 0,
    {
        match *self {
            JsonNumber::PosInt(n) => Some(n),
            JsonNumber::NegInt(n) => if n >= 0 {
                Some(n as u64)
            } else {
                None
            },
        }
    }

    /// The JSON number for a non-negative integer.
    pub fn from_u64(n: u64) -> (r: JsonNumber)
        ensures
            r.value() == n,
    {
        JsonNumber::PosInt(n)
    }

    /// The JSON number for an integer (non-negative ones become `PosInt`).
    pub fn from_i64(n: i64) -> (r: JsonNumber)
        ensures
            r.value() == n,
            n >= 0 ==> r is PosInt,
    {
        if n >= 0 {
            JsonNumber::PosInt(n as u64)
        } else {
            JsonNumber::NegInt(n)
        }
    }
}

/// A JSON value whose numbers are integers.
#[derive(Debug)]
pub enum JsonValue {
    Null,
    Bool(bool),
    Number(JsonNumber),
    String(String),
    Array(Vec<JsonValue>),
    Object(JsonObject),
}

/// A JSON object: entries in insertion order, the last entry of a key wins.
#[derive(Debug)]
pub struct JsonObject {
    entries: Vec<(String, JsonValue)>,
}

/// `v` is the string value with text `s`.
pub open spec fn is_string_of(v: JsonValue, s: Seq<char>) -> bool {
    v matches JsonValue::String(t) && t@ == s
}

pub open spec fn map_get<K, V>(m: Map<K, V>, k: K) -> Option<V> {
    if m.dom().contains(k) {
        Some(m[k])
    } else {
        None
    }
}

/// The key/value map that a list of entries denotes.
pub open spec fn entries_map(e: Seq<(String, JsonValue)>) -> Map<Seq<char>, JsonValue>
    decreases e.len(),
{
    if e.len() == 0 {
        Map::empty()
    } else {
        entries_map(e.drop_last()).insert(e.last().0@, e.last().1)
    }
}

proof fn lemma_entries_map_skip_tail(e: Seq<(String, JsonValue)>, i: int, k: Seq<char>)
    requires
        0 <= i <= e.len(),
        forall|j: int| i <= j < e.len() ==> e[j].0@ != k,
    ensures
        map_get(entries_map(e), k) == map_get(entries_map(e.subrange(0, i)), k),
    decreases e.len(),
{
    if e.len() > i {
        lemma_entries_map_skip_tail(e.drop_last(), i, k);
        assert(e.drop_last().subrange(0, i) =~= e.subrange(0, i));
    } else {
        assert(e.subrange(0, i) =~= e);
    }
}

impl JsonValue {
    /// The text of a string value.
    pub fn as_str(&self) -> (r: Option<&str>)
        ensures
            match *self {
                JsonValue::String(s) => r matches Some(t) && t@ == s@,
                _ => r is None,
            },
    {
        match self {
            JsonValue::String(s) => Some(s.as_str()),
            _ => None,
        }
    }

    /// An integer value as `i64`, when it is a number that fits.
    pub fn as_i64(&self) -> (r: Option<i64>)
        ensures
            match *self {
                JsonValue::Number(n) => (r matches Some(x) ==> x == n.value()) && (r is None
                    <==> n.value() > i64::MAX),
                _ => r is None,
            },
    {
        match self {
            JsonValue::Number(n) => n.as_i64(),
            _ => None,
        }
    }

    /// An integer value as `u64`, when it is a non-negative number.
    pub fn as_u64(&self) -> (r: Option<u64>)
        ensures
            match *self {
                JsonValue::Number(n) => (r matches Some(x) ==> x == n.value()) && (r is None
                    <==> n.value() < 0),
                _ => r is None,
            },
    {
        match self {
            JsonValue::Number(n) => n.as_u64(),
            _ => None,
        }
    }

    /// The entries of an object value.
    pub fn as_object(&self) -> (r: Option<&JsonObject>)
        ensures
            match *self {
                JsonValue::Object(o) => r == Some(&o),
                _ => r is None,
            },
    {
        match self {
            JsonValue::Object(o) => Some(o),
            _ => None,
        }
    }

    /// The elements of an array value.
    pub fn as_array(&self) -> (r: Option<&Vec<JsonValue>>)
        ensures
            match *self {
                JsonValue::Array(a) => r == Some(&a),
                _ => r is None,
            },
    {
        match self {
            JsonValue::Array(a) => Some(a),
            _ => None,
        }
    }

    /// An array of strings.
    pub fn from_strings(items: &Vec<String>) -> (r: JsonValue)
        ensures
            r matches JsonValue::Array(a) && a.len() == items.len() && forall|i: int|
                0 <= i < items.len() ==> is_string_of(#[trigger] a[i], items[i]@),
    {
        let mut a: Vec<JsonValue> = Vec::new();
        let mut i: usize = 0;
        while i < items.len()
            invariant
                i <= items.len(),
                a.len() == i,
                forall|j: int| 0 <= j < i ==> is_string_of(#[trigger] a[j], items[j]@),
            decreases items.len() - i,
        {
            a.push(JsonValue::String(items[i].clone()));
            i = i + 1;
        }
        JsonValue::Array(a)
    }
}

impl JsonObject {
    /// The key/value map of the object.
    pub open spec fn as_map(&self) -> Map<Seq<char>, JsonValue> {
        entries_map(self.spec_entries())
    }

    pub closed spec fn spec_entries(&self) -> Seq<(String, JsonValue)> {
        self.entries@
    }

    /// An empty object.
    pub fn new() -> (o: JsonObject)
        ensures
            o.as_map() == Map::<Seq<char>, JsonValue>::empty(),
            o.spec_entries().len() == 0,
    {
        JsonObject { entries: Vec::new() }
    }

    /// Sets `key` to `value`, replacing any earlier value.
    pub fn insert(&mut self, key: String, value: JsonValue)
        ensures
            final(self).as_map() == old(self).as_map().insert(key@, value),
            final(self).spec_entries() == old(self).spec_entries().push((key, value)),
    {
        let ghost e = self.entries@;
        self.entries.push((key, value));
        assert(self.entries@.drop_last() =~= e);
    }

    /// The value of `key`, if set.
    pub fn get(&self, key: &str) -> (r: Option<&JsonValue>)
        ensures
            match map_get(self.as_map(), key@) {
                Some(v) => r == Some(&v),
                None => r is None,
            },
    {
        let mut i: usize = self.entries.len();
        while i > 0
            invariant
                i <= self.entries.len(),
                forall|j: int| i <= j < self.entries.len() ==> self.entries@[j].0@ != key@,
            decreases i,
        {
            let k = &self.entries[i - 1].0;
            if str_eq(k.as_str(), key) {
                proof {
                    lemma_entries_map_skip_tail(self.entries@, i as int, key@);
                    assert(self.entries@.subrange(0, i as int).drop_last() =~= self.entries@.subrange(0, i - 1));
                }
                return Some(&self.entries[i - 1].1);
            }
            i = i - 1;
        }
        proof {
            lemma_entries_map_skip_tail(self.entries@, 0, key@);
            assert(self.entries@.subrange(0, 0) =~= Seq::<(String, JsonValue)>::empty());
        }
        None
    }

    /// The entries in insertion order (later ones win on repeated keys).
    pub fn entries(&self) -> (r: &[(String, JsonValue)])
        ensures
            r@ == self.spec_entries(),
    {
        self.entries.as_slice()
    }

    /// The entries in insertion order, taken out of the object.
    pub fn into_entries(self) -> (r: Vec<(String, JsonValue)>)
        ensures
            r@ == self.spec_entries(),
    {
        self.entries
    }

    /// The object holding the given entries.
    pub fn from_entries(entries: Vec<(String, JsonValue)>) -> (o: JsonObject)
        ensures
            o.spec_entries() == entries@,
    {
        JsonObject { entries }
    }
}

} // verus!
