//! The JSON values that the server reads and writes.
use vstd::prelude::*;
use crate::text::{spec_digits_u64, parse_digits_u64};

verus! {

/// A JSON value as the library holds it. A number is kept as the text that
/// `serde_json` writes for it; an object keeps its entries in the order in
/// which the parsed map yields them, each key once.
#[derive(Debug)]
pub enum Json {
    Null,
    Bool(bool),
    Number(String),
    Str(String),
    Array(Vec<Json>),
    Object(Vec<(String, Json)>),
}

/// The mathematical model of a JSON value.
pub enum JsonValue {
    Null,
    Bool(bool),
    Number(Seq<char>),
    Str(Seq<char>),
    Array(Seq<JsonValue>),
    Object(Seq<(Seq<char>, JsonValue)>),
}

/// The model of one value.
pub open spec fn json_view(j: Json) -> JsonValue
    decreases j, 0nat,
{
    match j {
        Json::Null => JsonValue::Null,
        Json::Bool(b) => JsonValue::Bool(b),
        Json::Number(t) => JsonValue::Number(t@),
        Json::Str(s) => JsonValue::Str(s@),
        Json::Array(v) => JsonValue::Array(json_seq_view(v@)),
        Json::Object(v) => JsonValue::Object(json_entries_view(v@)),
    }
}

/// The models of a sequence of values.
pub open spec fn json_seq_view(s: Seq<Json>) -> Seq<JsonValue>
    decreases s, s.len(),
{
    if s.len() == 0 {
        Seq::empty()
    } else {
        seq![json_view(s[0])] + json_seq_view(s.subrange(1, s.len() as int))
    }
}

/// The models of a sequence of object entries.
pub open spec fn json_entries_view(s: Seq<(String, Json)>) -> Seq<(Seq<char>, JsonValue)>
    decreases s, s.len(),
{
    if s.len() == 0 {
        Seq::empty()
    } else {
        seq![(s[0].0@, json_view(s[0].1))] + json_entries_view(s.subrange(1, s.len() as int))
    }
}

impl View for Json {
    type V = JsonValue;

    open spec fn view(&self) -> JsonValue {
        json_view(*self)
    }
}

/// The value of the first entry of `entries` whose key is `key`.
pub open spec fn entries_lookup(entries: Seq<(Seq<char>, JsonValue)>, key: Seq<char>) -> Option<JsonValue>
    decreases entries.len(),
{
    if entries.len() == 0 {
        None
    } else if entries[0].0 == key {
        Some(entries[0].1)
    } else {
        entries_lookup(entries.drop_first(), key)
    }
}

impl JsonValue {
    /// `Value::get` with a key: the entry's value when `self` is an object
    /// that has the key.
    pub open spec fn get(self, key: Seq<char>) -> Option<JsonValue> {
        match self {
            JsonValue::Object(entries) => entries_lookup(entries, key),
            _ => None,
        }
    }

    /// `value[key]`: the entry's value, or `null` when there is none.
    pub open spec fn at(self, key: Seq<char>) -> JsonValue {
        match self.get(key) {
            Some(v) => v,
            None => JsonValue::Null,
        }
    }

    /// `Value::as_u64`: the value of a non-negative integer that fits.
    pub open spec fn as_u64(self) -> Option<u64> {
        match self {
            JsonValue::Number(t) => spec_digits_u64(t),
            _ => None,
        }
    }

    /// `Value::as_str`.
    pub open spec fn as_str(self) -> Option<Seq<char>> {
        match self {
            JsonValue::Str(s) => Some(s),
            _ => None,
        }
    }

    /// `Value::as_bool`.
    pub open spec fn as_bool(self) -> Option<bool> {
        match self {
            JsonValue::Bool(b) => Some(b),
            _ => None,
        }
    }

    /// `Value::as_array`.
    pub open spec fn as_array(self) -> Option<Seq<JsonValue>> {
        match self {
            JsonValue::Array(a) => Some(a),
            _ => None,
        }
    }

    /// `Value::is_null`.
    pub open spec fn is_null(self) -> bool {
        self is Null
    }
}

/// The model of a sequence has one model per element, in order.
pub proof fn lemma_seq_view(s: Seq<Json>)
    ensures
        json_seq_view(s).len() == s.len(),
        forall|i: int| 0 <= i < s.len() ==> #[trigger] json_seq_view(s)[i] == json_view(s[i]),
    decreases s.len(),
{
    if s.len() > 0 {
        lemma_seq_view(s.subrange(1, s.len() as int));
        assert forall|i: int| 0 <= i < s.len() implies #[trigger] json_seq_view(s)[i] == json_view(s[i]) by {
            if i > 0 {
                assert(s.subrange(1, s.len() as int)[i - 1] == s[i]);
            }
        }
    }
}

/// The model of a sequence of entries has one model per entry, in order.
pub proof fn lemma_entries_view(s: Seq<(String, Json)>)
    ensures
        json_entries_view(s).len() == s.len(),
        forall|i: int| 0 <= i < s.len() ==> #[trigger] json_entries_view(s)[i] == (s[i].0@, json_view(s[i].1)),
    decreases s.len(),
{
    if s.len() > 0 {
        lemma_entries_view(s.subrange(1, s.len() as int));
        assert forall|i: int| 0 <= i < s.len() implies #[trigger] json_entries_view(s)[i] == (s[i].0@, json_view(s[i].1)) by {
            if i > 0 {
                assert(s.subrange(1, s.len() as int)[i - 1] == s[i]);
            }
        }
    }
}

proof fn lemma_lookup_first(entries: Seq<(Seq<char>, JsonValue)>, key: Seq<char>, i: int)
    requires
        0 <= i <= entries.len(),
        forall|j: int| 0 <= j < i ==> (#[trigger] entries[j]).0 != key,
    ensures
        i < entries.len() && entries[i].0 == key ==> entries_lookup(entries, key) == Some(entries[i].1),
        i == entries.len() ==> entries_lookup(entries, key) is None,
    decreases i,
{
    if i > 0 {
        let rest = entries.drop_first();
        assert forall|j: int| 0 <= j < i - 1 implies (#[trigger] rest[j]).0 != key by {
            assert(rest[j] == entries[j + 1]);
        }
        lemma_lookup_first(rest, key, i - 1);
        if i < entries.len() {
            assert(rest[i - 1] == entries[i]);
        }
    }
}

/// Reading a value by key: an object gives the value of the first entry
/// with that key, whatever entries follow it; an object with no entry of
/// that key, and any value that is no object, give `null`.
#[verifier::spinoff_prover]
#[verifier::rlimit(60)]
pub proof fn law_lookup_by_key(
    key: Seq<char>,
    v: JsonValue,
    before: Seq<(Seq<char>, JsonValue)>,
    after: Seq<(Seq<char>, JsonValue)>,
    other: JsonValue,
)
    requires
        forall|j: int| 0 <= j < before.len() ==> (#[trigger] before[j]).0 != key,
    ensures
        JsonValue::Object(before + seq![(key, v)] + after).at(key) == v,
        JsonValue::Object(before).at(key) == JsonValue::Null,
        !(other is Object) ==> other.at(key) == JsonValue::Null,
{
    let entries = before + seq![(key, v)] + after;
    assert forall|j: int| 0 <= j < before.len() implies (#[trigger] entries[j]).0 != key by {
        assert(entries[j] == before[j]);
    }
    lemma_lookup_first(entries, key, before.len() as int);
    lemma_lookup_first(before, key, before.len() as int);
}

/// A number written in decimal reads back, as a count, as that number.
#[verifier::spinoff_prover]
#[verifier::rlimit(60)]
pub proof fn law_count_reads_decimal(n: u64)
    ensures
        JsonValue::Number(crate::text::decimal(n as nat)).as_u64() == Some(n),
{
    crate::text::lemma_decimal_digits(n as nat);
}

impl Json {
    /// `Value::get(key)`: the value of the entry `key` of an object.
    pub fn get(&self, key: &str) -> (r: Option<&Json>)
        ensures
            match r {
                Some(v) => self@.get(key@) == Some(v@),
                None => self@.get(key@) is None,
            },
    {
        match self {
            Json::Object(entries) => {
                proof {
                    lemma_entries_view(entries@);
                }
                let ghost ev = json_entries_view(entries@);
                let mut i: usize = 0;
                while i < entries.len()
                    invariant
                        i <= entries.len(),
                        ev == json_entries_view(entries@),
                        self@ == JsonValue::Object(ev),
                        ev.len() == entries@.len(),
                        forall|j: int| 0 <= j < entries@.len() ==> #[trigger] ev[j] == (entries@[j].0@, json_view(entries@[j].1)),
                        forall|j: int| 0 <= j < i ==> (#[trigger] ev[j]).0 != key@,
                    decreases entries.len() - i,
                {
                    if crate::text::str_eq(entries[i].0.as_str(), key) {
                        proof {
                            assert(ev[i as int].0 == key@);
                            lemma_lookup_first(ev, key@, i as int);
                            assert(self@ == JsonValue::Object(ev));
                            assert(ev[i as int].1 == entries@[i as int].1@);
                        }
                        return Some(&entries[i].1);
                    }
                    i = i + 1;
                }
                proof {
                    lemma_lookup_first(ev, key@, i as int);
                    assert(self@ == JsonValue::Object(ev));
                }
                None
            }
            _ => None,
        }
    }

    /// `Value::as_u64`.
    pub fn as_u64(&self) -> (r: Option<u64>)
        ensures
            r == self@.as_u64(),
    {
        match self {
            Json::Number(t) => parse_digits_u64(t.as_str()),
            _ => None,
        }
    }

    /// `Value::as_str`.
    pub fn as_str(&self) -> (r: Option<&str>)
        ensures
            match r {
                Some(s) => self@.as_str() == Some(s@),
                None => self@.as_str() is None,
            },
    {
        match self {
            Json::Str(s) => Some(s.as_str()),
            _ => None,
        }
    }

    /// `Value::as_bool`.
    pub fn as_bool(&self) -> (r: Option<bool>)
        ensures
            r == self@.as_bool(),
    {
        match self {
            Json::Bool(b) => Some(*b),
            _ => None,
        }
    }

    /// `Value::as_array`.
    pub fn as_array(&self) -> (r: Option<&Vec<Json>>)
        ensures
            match r {
                Some(v) => self@.as_array() == Some(json_seq_view(v@)),
                None => self@.as_array() is None,
            },
    {
        match self {
            Json::Array(v) => Some(v),
            _ => None,
        }
    }

    /// `Value::is_null`.
    pub fn is_null(&self) -> (r: bool)
        ensures
            r == self@.is_null(),
    {
        match self {
            Json::Null => true,
            _ => false,
        }
    }
}

} // verus!
