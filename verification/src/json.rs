//! A JSON document model holding, as plain values, what the runtime reads from
//! protocol messages, page scripts and extension messages.
//!
//! Objects keep their members in document order; lookups return the first member
//! with a given key.

use vstd::prelude::*;
use serde_json::Value;
use crate::text::{decimal, str_eq, u64_to_string};

verus! {

/// A JSON number: its unsigned and signed integer readings (when it has one), and
/// the text and bits of its 64-bit floating-point reading.
#[derive(Debug)]
pub struct JsonNumber {
    /// The number as an unsigned 64-bit integer, if it is one.
    pub as_u64: Option<u64>,
    /// The number as a signed 64-bit integer, if it is one.
    pub as_i64: Option<i64>,
    /// The shortest decimal text of the number's floating-point reading (numbers made
    /// here from an integer carry the integer's decimal text).
    pub float_text: String,
    /// The bit pattern of the number's floating-point reading, when it travels with
    /// the number (numbers read from a document carry it).
    pub float_bits: Option<u64>,
}

/// A JSON value.
#[derive(Debug)]
pub enum JsonValue {
    Null,
    Bool(bool),
    Number(JsonNumber),
    Str(String),
    Array(Vec<JsonValue>),
    Object(Vec<(String, JsonValue)>),
}

/// The value of the first member named `key`.
pub open spec fn entry_lookup(entries: Seq<(String, JsonValue)>, key: Seq<char>) -> Option<
    JsonValue,
>
    decreases entries.len(),
{
    if entries.len() == 0 {
        None
    } else if entries[0].0@ == key {
        Some(entries[0].1)
    } else {
        entry_lookup(entries.drop_first(), key)
    }
}

/// The member found at position `i` when no earlier member has the key.
pub proof fn lemma_entry_lookup_at(entries: Seq<(String, JsonValue)>, i: int, key: Seq<char>)
    requires
        0 <= i < entries.len(),
        entries[i].0@ == key,
        forall|j: int| 0 <= j < i ==> (#[trigger] entries[j]).0@ != key,
    ensures
        entry_lookup(entries, key) == Some(entries[i].1),
    decreases i,
{
    if i > 0 {
        let rest = entries.drop_first();
        assert forall|j: int| 0 <= j < i - 1 implies (#[trigger] rest[j]).0@ != key by {
            assert(rest[j] == entries[j + 1]);
        }
        lemma_entry_lookup_at(rest, i - 1, key);
        assert(entries[0].0@ != key);
    }
}

/// The value of the first member named `key`.
pub fn find_entry<'a>(entries: &'a Vec<(String, JsonValue)>, key: &str) -> (r: Option<
    &'a JsonValue,
>)
    ensures
        r matches Some(v) ==> entry_lookup(entries@, key@) == Some(*v),
        r is None <==> entry_lookup(entries@, key@) is None,
{
    let mut i: usize = 0;
    assert(entries@.skip(0) =~= entries@);
    while i < entries.len()
        invariant
            i <= entries@.len(),
            entry_lookup(entries@, key@) == entry_lookup(entries@.skip(i as int), key@),
        decreases entries.len() - i,
    {
        assert(entries@.skip(i as int).drop_first() =~= entries@.skip(i + 1));
        assert(entries@.skip(i as int)[0] == entries@[i as int]);
        if str_eq(entries[i].0.as_str(), key) {
            return Some(&entries[i].1);
        }
        i = i + 1;
    }
    None
}

impl JsonValue {
    /// The member named `key`, if this is an object that has one.
    pub open spec fn lookup(self, key: Seq<char>) -> Option<JsonValue> {
        match self {
            JsonValue::Object(entries) => entry_lookup(entries@, key),
            _ => None,
        }
    }

    /// The text of the member named `key`, if it is a string.
    pub open spec fn str_member(self, key: Seq<char>) -> Option<Seq<char>> {
        match self.lookup(key) {
            Some(JsonValue::Str(s)) => Some(s@),
            _ => None,
        }
    }

    /// The member named `key`, if it is a boolean.
    pub open spec fn bool_member(self, key: Seq<char>) -> Option<bool> {
        match self.lookup(key) {
            Some(JsonValue::Bool(b)) => Some(b),
            _ => None,
        }
    }

    /// The member named `key`, if it is a number with a signed 64-bit reading.
    pub open spec fn i64_member(self, key: Seq<char>) -> Option<i64> {
        match self.lookup(key) {
            Some(JsonValue::Number(n)) => n.as_i64,
            _ => None,
        }
    }

    /// The member named `key`, if it is a number with an unsigned 64-bit reading.
    pub open spec fn u64_member(self, key: Seq<char>) -> Option<u64> {
        match self.lookup(key) {
            Some(JsonValue::Number(n)) => n.as_u64,
            _ => None,
        }
    }

    /// The floating-point bits of the member named `key`, if it is a number carrying them.
    pub open spec fn float_bits_member(self, key: Seq<char>) -> Option<u64> {
        match self.lookup(key) {
            Some(JsonValue::Number(n)) => n.float_bits,
            _ => None,
        }
    }

    /// The member named `key`, if this is an object that has one.
    pub fn get(&self, key: &str) -> (r: Option<&JsonValue>)
        ensures
            r matches Some(v) ==> self.lookup(key@) == Some(*v),
            r is None <==> self.lookup(key@) is None,
    {
        match self {
            JsonValue::Object(entries) => find_entry(entries, key),
            _ => None,
        }
    }

    /// The text of the member named `key`, if it is a string.
    pub fn get_str(&self, key: &str) -> (r: Option<String>)
        ensures
            r matches Some(s) ==> self.str_member(key@) == Some(s@),
            r is None <==> self.str_member(key@) is None,
    {
        match self.get(key) {
            Some(JsonValue::Str(s)) => Some(s.clone()),
            _ => None,
        }
    }

    /// The member named `key`, if it is a boolean.
    pub fn get_bool(&self, key: &str) -> (r: Option<bool>)
        ensures
            r == self.bool_member(key@),
    {
        match self.get(key) {
            Some(JsonValue::Bool(b)) => Some(*b),
            _ => None,
        }
    }

    /// The member named `key`, if it is a number with a signed 64-bit reading.
    pub fn get_i64(&self, key: &str) -> (r: Option<i64>)
        ensures
            r == self.i64_member(key@),
    {
        match self.get(key) {
            Some(JsonValue::Number(n)) => n.as_i64,
            _ => None,
        }
    }

    /// The member named `key`, if it is a number with an unsigned 64-bit reading.
    pub fn get_u64(&self, key: &str) -> (r: Option<u64>)
        ensures
            r == self.u64_member(key@),
    {
        match self.get(key) {
            Some(JsonValue::Number(n)) => n.as_u64,
            _ => None,
        }
    }

    /// The floating-point bits of the member named `key`, if it is a number carrying them.
    pub fn get_float_bits(&self, key: &str) -> (r: Option<u64>)
        ensures
            r == self.float_bits_member(key@),
    {
        match self.get(key) {
            Some(JsonValue::Number(n)) => n.float_bits,
            _ => None,
        }
    }

    /// Whether this is an object with a member named `key`.
    pub fn has(&self, key: &str) -> (b: bool)
        ensures
            b == (self.lookup(key@) is Some),
    {
        self.get(key).is_some()
    }
}

/// The keys of an object's members, in order (none for other values).
pub open spec fn object_keys(v: JsonValue) -> Seq<Seq<char>> {
    match v {
        JsonValue::Object(entries) => entries@.map_values(|e: (String, JsonValue)| e.0@),
        _ => Seq::empty(),
    }
}

/// A member of an object under construction.
pub fn member(key: &str, v: JsonValue) -> (e: (String, JsonValue))
    ensures
        e.0@ == key@,
        e.1 == v,
{
    (String::from_str(key), v)
}

impl JsonValue {
    /// A string value.
    pub fn text(s: &str) -> (v: JsonValue)
        ensures
            v matches JsonValue::Str(t) && t@ == s@,
    {
        JsonValue::Str(String::from_str(s))
    }

    /// A number value for an unsigned integer.
    pub fn unsigned(n: u64) -> (v: JsonValue)
        ensures
            v matches JsonValue::Number(num) && num.as_u64 == Some(n) && num.as_i64 == (if n
                <= i64::MAX {
                Some(n as i64)
            } else {
                None
            }) && num.float_text@ == decimal(n as nat) && num.float_bits is None,
    {
        JsonValue::Number(
            JsonNumber {
                as_u64: Some(n),
                as_i64: if n <= 9223372036854775807u64 {
                    Some(n as i64)
                } else {
                    None
                },
                float_text: u64_to_string(n),
                float_bits: None,
            },
        )
    }

    /// The member named `key`, taken out of this value (if this is an object that has one).
    pub fn into_member(self, key: &str) -> (r: Option<JsonValue>)
        ensures
            r == self.lookup(key@),
    {
        let ghost orig = self;
        match self {
            JsonValue::Object(entries) => {
                let ghost all = entries@;
                assert(orig.lookup(key@) == entry_lookup(all, key@));
                let mut rest = entries;
                let mut k: usize = 0;
                let total = rest.len();
                assert(all.skip(0) =~= all);
                assert(rest@ =~= all.skip(0));
                while rest.len() > 0
                    invariant
                        total == all.len(),
                        k + rest@.len() == total,
                        rest@ == all.skip(k as int),
                        entry_lookup(all, key@) == entry_lookup(all.skip(k as int), key@),
                        orig.lookup(key@) == entry_lookup(all, key@),
                        orig == self,
                    decreases rest.len(),
                {
                    assert(all.skip(k as int).drop_first() =~= all.skip(k + 1));
                    assert(all.skip(k as int)[0] == rest@[0]);
                    let ghost head = rest@[0];
                    let e = rest.remove(0);
                    assert(e == head);
                    if str_eq(e.0.as_str(), key) {
                        assert(entry_lookup(all.skip(k as int), key@) == Some(head.1));
                        return Some(e.1);
                    }
                    k = k + 1;
                    assert(rest@ =~= all.skip(k as int));
                }
                None
            },
            _ => None,
        }
    }
}


/// `serde_json`'s document type, which a parse of text produces.
#[verifier::external_type_specification]
#[verifier::external_body]
pub struct ExSerdeValue(Value);

/// What `serde_json` parses a text into, as the library's value: the document, or the
/// parser's error message.
pub uninterp spec fn parsed_json(text: Seq<char>) -> Result<JsonValue, Seq<char>>;

/// The parsed document, or `None` when the text is not JSON.
pub open spec fn parsed_json_value(text: Seq<char>) -> Option<JsonValue> {
    match parsed_json(text) {
        Ok(v) => Some(v),
        Err(_) => None,
    }
}

/// Converts a `serde_json` document into the library's value, one node for one node:
/// each number keeps its integer readings and its floating-point reading (text and bits),
/// each object its members in the document's order.
#[verifier::external_body]
fn value_of_serde(v: &Value) -> JsonValue {
    match v {
        Value::Null => JsonValue::Null,
        Value::Bool(b) => JsonValue::Bool(*b),
        Value::Number(n) => JsonValue::Number(JsonNumber {
            as_u64: n.as_u64(),
            as_i64: n.as_i64(),
            float_text: n.as_f64().map(|f| f.to_string()).unwrap_or_else(|| n.to_string()),
            float_bits: n.as_f64().map(|f| f.to_bits()),
        }),
        Value::String(s) => JsonValue::Str(s.clone()),
        Value::Array(items) => JsonValue::Array(items.iter().map(value_of_serde).collect()),
        Value::Object(m) => JsonValue::Object(m.iter().map(|(k, x)| (k.clone(), value_of_serde(x))).collect()),
    }
}

/// Parses JSON text with `serde_json::from_str` into `serde_json::Value`. Claimed: the
/// outcome is a function of the text alone (named `parsed_json`): the document as the
/// library's value, or the parser's error message.
#[verifier::external_body]
pub fn parse_json(text: &str) -> (r: Result<JsonValue, String>)
    ensures
        match r {
            Ok(v) => parsed_json(text@) == Ok::<JsonValue, Seq<char>>(v),
            Err(e) => parsed_json(text@) == Err::<JsonValue, Seq<char>>(e@),
        },
{
    match serde_json::from_str::<Value>(text) {
        Ok(v) => Ok(value_of_serde(&v)),
        Err(e) => Err(e.to_string()),
    }
}

} // verus!
