use vstd::prelude::*;

use crate::config::{config_text, AppConfig};

verus! {

/// A JSON number as read from a session log: a non-negative integer, a
/// negative integer, or any other number (held by the bits of its IEEE-754
/// double, which this library carries but never reads).
#[derive(Clone, Copy, Debug, PartialEq, Eq, Structural)]
pub enum JsonNumber {
    PosInt(u64),
    NegInt(i64),
    Float(u64),
}

/// A parsed JSON document. An object lists its members in order; a key occurs
/// at most once (a document with a repeated key keeps the last value).
#[derive(Debug)]
pub enum JsonValue {
    Null,
    Bool(bool),
    Number(JsonNumber),
    String(String),
    Array(Vec<JsonValue>),
    Object(Vec<(String, JsonValue)>),
}

/// The value of the first member named `key`, if any.
pub open spec fn member(entries: Seq<(String, JsonValue)>, key: Seq<char>) -> Option<JsonValue>
    decreases entries.len(),
{
    if entries.len() == 0 {
        None
    } else if entries[0].0@ == key {
        Some(entries[0].1)
    } else {
        member(entries.drop_first(), key)
    }
}

/// The member `key` of an object; nothing for any other value.
pub open spec fn json_get(v: JsonValue, key: Seq<char>) -> Option<JsonValue> {
    match v {
        JsonValue::Object(entries) => member(entries@, key),
        _ => None,
    }
}

/// `json_get` applied to an optional value.
pub open spec fn json_get_opt(v: Option<JsonValue>, key: Seq<char>) -> Option<JsonValue> {
    match v {
        Some(x) => json_get(x, key),
        None => None,
    }
}

/// A string value.
pub open spec fn json_as_str(v: Option<JsonValue>) -> Option<Seq<char>> {
    match v {
        Some(JsonValue::String(s)) => Some(s@),
        _ => None,
    }
}

/// A boolean value.
pub open spec fn json_as_bool(v: Option<JsonValue>) -> Option<bool> {
    match v {
        Some(JsonValue::Bool(b)) => Some(b),
        _ => None,
    }
}

/// An integer that fits in `i64`.
pub open spec fn json_as_i64(v: Option<JsonValue>) -> Option<i64> {
    match v {
        Some(JsonValue::Number(JsonNumber::PosInt(n))) => if n <= i64::MAX {
            Some(n as i64)
        } else {
            None
        },
        Some(JsonValue::Number(JsonNumber::NegInt(n))) => Some(n),
        _ => None,
    }
}

/// A non-negative integer.
pub open spec fn json_as_u64(v: Option<JsonValue>) -> Option<u64> {
    match v {
        Some(JsonValue::Number(JsonNumber::PosInt(n))) => Some(n),
        _ => None,
    }
}

/// Any number.
pub open spec fn json_as_number(v: Option<JsonValue>) -> Option<JsonNumber> {
    match v {
        Some(JsonValue::Number(n)) => Some(n),
        _ => None,
    }
}

impl JsonValue {
    /// The member `key` of an object; `None` for any other value.
    pub fn get(&self, key: &str) -> (res: Option<&JsonValue>)
        ensures
            match res {
                Some(r) => json_get(*self, key@) == Some(*r),
                None => json_get(*self, key@) is None,
            },
    {
        match self {
            JsonValue::Object(entries) => {
                let k = String::from_str(key);
                let mut i: usize = 0;
                assert(entries@.skip(0) =~= entries@);
                while i < entries.len()
                    invariant
                        i <= entries@.len(),
                        k@ == key@,
                        json_get(*self, key@) == member(entries@, key@),
                        member(entries@, key@) == member(entries@.skip(i as int), key@),
                    decreases entries@.len() - i,
                {
                    assert(entries@.skip(i as int).drop_first() =~= entries@.skip(i + 1));
                    assert(entries@.skip(i as int)[0] == entries@[i as int]);
                    if entries[i].0 == k {
                        return Some(&entries[i].1);
                    }
                    i += 1;
                }
                None
            },
            _ => None,
        }
    }

    /// The text of a string value.
    pub fn as_str(&self) -> (res: Option<&String>)
        ensures
            match res {
                Some(r) => json_as_str(Some(*self)) == Some(r@),
                None => json_as_str(Some(*self)) is None,
            },
    {
        match self {
            JsonValue::String(s) => Some(s),
            _ => None,
        }
    }

    /// The value of a boolean.
    pub fn as_bool(&self) -> (res: Option<bool>)
        ensures
            res == json_as_bool(Some(*self)),
    {
        match self {
            JsonValue::Bool(b) => Some(*b),
            _ => None,
        }
    }

    /// An integer number that fits in `i64`.
    pub fn as_i64(&self) -> (res: Option<i64>)
        ensures
            res == json_as_i64(Some(*self)),
    {
        match self {
            JsonValue::Number(JsonNumber::PosInt(n)) => if *n <= 9223372036854775807u64 {
                Some(*n as i64)
            } else {
                None
            },
            JsonValue::Number(JsonNumber::NegInt(n)) => Some(*n),
            _ => None,
        }
    }

    /// A non-negative integer number.
    pub fn as_u64(&self) -> (res: Option<u64>)
        ensures
            res == json_as_u64(Some(*self)),
    {
        match self {
            JsonValue::Number(JsonNumber::PosInt(n)) => Some(*n),
            _ => None,
        }
    }

    /// Any number.
    pub fn as_number(&self) -> (res: Option<JsonNumber>)
        ensures
            res == json_as_number(Some(*self)),
    {
        match self {
            JsonValue::Number(n) => Some(*n),
            _ => None,
        }
    }
}


/// `serde_json::Value`, the document that serde_json parses text into.
#[verifier::external_type_specification]
#[verifier::external_body]
pub struct ExSerdeValue(serde_json::Value);

/// `serde_json::Number`, a number of such a document.
#[verifier::external_type_specification]
#[verifier::external_body]
pub struct ExSerdeNumber(serde_json::Number);

/// The document that `serde_json::from_str::<serde_json::Value>` reads from a
/// text, in this library's form, if it accepts the text.
pub uninterp spec fn json_of(text: Seq<char>) -> Option<JsonValue>;

/// A number of a serde_json document in this library's form: `u64` where
/// `Number::as_u64` gives one, else `i64` where `as_i64` does, else the bits
/// of `as_f64`. Nothing is claimed of it; it serves `parse_json` alone.
#[verifier::external_body]
fn number_from_serde(n: &serde_json::Number) -> JsonNumber {
    match (n.as_u64(), n.as_i64()) {
        (Some(u), _) => JsonNumber::PosInt(u),
        (None, Some(i)) => JsonNumber::NegInt(i),
        (None, None) => JsonNumber::Float(n.as_f64().map_or(0, |f| f.to_bits())),
    }
}

/// A serde_json document in this library's form, variant by variant; an
/// object's members in the order serde_json's `Map` walks them. Nothing is
/// claimed of it; it serves `parse_json` alone.
#[verifier::external_body]
fn value_from_serde(v: &serde_json::Value) -> JsonValue {
    match v {
        serde_json::Value::Null => JsonValue::Null,
        serde_json::Value::Bool(b) => JsonValue::Bool(*b),
        serde_json::Value::Number(n) => JsonValue::Number(number_from_serde(n)),
        serde_json::Value::String(t) => JsonValue::String(t.clone()),
        serde_json::Value::Array(a) => JsonValue::Array(a.iter().map(value_from_serde).collect()),
        serde_json::Value::Object(m) => {
            JsonValue::Object(m.iter().map(|(k, x)| (k.clone(), value_from_serde(x))).collect())
        },
    }
}

/// A document that is an object holding the settings `c`: `party_mode` as a
/// boolean and `refresh_seconds` as a non-negative integer.
pub open spec fn settings_document(doc: Option<JsonValue>, c: AppConfig) -> bool {
    &&& doc is Some
    &&& json_get(doc.unwrap(), "party_mode"@) == Some(JsonValue::Bool(c.party_mode))
    &&& json_get(doc.unwrap(), "refresh_seconds"@) == Some(
        JsonValue::Number(JsonNumber::PosInt(c.refresh_seconds as u64)),
    )
}

/// `serde_json::from_str::<serde_json::Value>`, the document in this
/// library's form. Claims: the result is the document named `json_of` of the
/// text; and a settings text as `config_text` writes it, an object with a
/// boolean member `party_mode` and a member `refresh_seconds` of decimal
/// digits, reads as an object with those two members, the digits as a
/// non-negative integer (JSON's grammar, which serde_json follows, reads it
/// so).
#[verifier::external_body]
pub fn parse_json(text: &str) -> (res: Option<JsonValue>)
    ensures
        res == json_of(text@),
        forall|c: AppConfig| #[trigger] config_text(c) == text@ ==> settings_document(res, c),
{
    match serde_json::from_str::<serde_json::Value>(text) {
        Ok(v) => Some(value_from_serde(&v)),
        Err(_) => None,
    }
}

} // verus!
