//! JSON documents as the library reads them, and the parser behind them.

use vstd::prelude::*;
use vstd::string::*;
use crate::text::same_text;

verus! {

/// A JSON value. A number is kept as the unsigned 64-bit integer it denotes,
/// or as `None` where it is negative or has a fraction or an exponent.
/// An object lists its members in order; of two members with one key the
/// later one counts.
#[derive(Debug, PartialEq, Eq)]
pub enum JsonValue {
    Null,
    Bool(bool),
    Number(Option<u64>),
    Text(String),
    Array(Vec<JsonValue>),
    Object(Vec<(String, JsonValue)>),
}

/// `serde_json::Value`, declared so that a signature can name it. Nothing is
/// known of what such a value holds.
#[verifier::external_type_specification]
#[verifier::external_body]
pub struct ExJsonTree(serde_json::Value);

/// What `serde_json::from_slice` makes of a byte string: the document that it
/// reads, or the message with which it rejects the bytes.
pub uninterp spec fn parse_outcome(bytes: Seq<u8>) -> Result<JsonValue, Seq<char>>;

/// A parse result with its message as characters.
pub open spec fn outcome_view(r: Result<JsonValue, String>) -> Result<JsonValue, Seq<char>> {
    match r {
        Ok(doc) => Ok(doc),
        Err(msg) => Err(msg@),
    }
}

/// The value of the last member with this key, if there is one.
pub open spec fn lookup(members: Seq<(String, JsonValue)>, key: Seq<char>) -> Option<JsonValue>
    decreases members.len(),
{
    if members.len() == 0 {
        None
    } else if members.last().0@ == key {
        Some(members.last().1)
    } else {
        lookup(members.drop_last(), key)
    }
}

impl JsonValue {
    /// The member of an object under `key`; `None` for a missing key and for
    /// a value that is no object.
    pub open spec fn member(self, key: Seq<char>) -> Option<JsonValue> {
        match self {
            JsonValue::Object(members) => lookup(members@, key),
            _ => None,
        }
    }

    /// The characters of a string value.
    pub open spec fn text(self) -> Option<Seq<char>> {
        match self {
            JsonValue::Text(s) => Some(s@),
            _ => None,
        }
    }

    /// The number, where the value is one that fits an unsigned 64-bit integer.
    pub open spec fn unsigned(self) -> Option<u64> {
        match self {
            JsonValue::Number(n) => n,
            _ => None,
        }
    }

    /// The elements of an array value.
    pub open spec fn items(self) -> Option<Seq<JsonValue>> {
        match self {
            JsonValue::Array(items) => Some(items@),
            _ => None,
        }
    }

    /// The string under `key`, where the value is an object that has one there.
    pub open spec fn text_at(self, key: Seq<char>) -> Option<Seq<char>> {
        match self.member(key) {
            Some(v) => v.text(),
            None => None,
        }
    }

    /// The unsigned number under `key`, where the value is an object that has
    /// one there.
    pub open spec fn unsigned_at(self, key: Seq<char>) -> Option<u64> {
        match self.member(key) {
            Some(v) => v.unsigned(),
            None => None,
        }
    }

    /// The array under `key`, where the value is an object that has one there.
    pub open spec fn items_at(self, key: Seq<char>) -> Option<Seq<JsonValue>> {
        match self.member(key) {
            Some(v) => v.items(),
            None => None,
        }
    }

    /// Looks a member up by its key.
    pub fn get(&self, key: &str) -> (found: Option<&JsonValue>)
        ensures
            found == match self.member(key@) {
                Some(v) => Some(&v),
                None => None,
            },
    {
        match self {
            JsonValue::Object(members) => {
                let mut i: usize = members.len();
                assert(members@.take(i as int) =~= members@);
                while i > 0
                    invariant
                        i <= members.len(),
                        self.member(key@) == lookup(members@, key@),
                        lookup(members@, key@) == lookup(members@.take(i as int), key@),
                    decreases i,
                {
                    let entry = &members[i - 1];
                    proof {
                        let prefix = members@.take(i as int);
                        assert(prefix.last() == members@[i - 1]);
                        assert(prefix.drop_last() =~= members@.take(i - 1));
                    }
                    if same_text(entry.0.as_str(), key) {
                        return Some(&entry.1);
                    }
                    i -= 1;
                }
                None
            },
            _ => None,
        }
    }

    /// The string that the value holds, if it is a string.
    pub fn as_str(&self) -> (found: Option<&str>)
        ensures
            found is Some <==> self.text() is Some,
            found is Some ==> found->0@ == self.text()->0,
    {
        match self {
            JsonValue::Text(s) => Some(s.as_str()),
            _ => None,
        }
    }

    /// The number that the value holds, if it is an unsigned 64-bit integer.
    pub fn as_u64(&self) -> (found: Option<u64>)
        ensures
            found == self.unsigned(),
    {
        match self {
            JsonValue::Number(n) => *n,
            _ => None,
        }
    }

    /// The elements that the value holds, if it is an array.
    pub fn as_array(&self) -> (found: Option<&Vec<JsonValue>>)
        ensures
            found is Some <==> self.items() is Some,
            found is Some ==> found->0@ == self.items()->0,
    {
        match self {
            JsonValue::Array(items) => Some(items),
            _ => None,
        }
    }
}

/// Converts the parser's tree into the library's, node by node. A number
/// becomes what `serde_json::Number::as_u64` reads from it, an object's
/// members come in the order in which its map hands them out.
#[verifier::external_body]
fn lift(tree: &serde_json::Value) -> JsonValue {
    match tree {
        serde_json::Value::Null => JsonValue::Null,
        serde_json::Value::Bool(b) => JsonValue::Bool(*b),
        serde_json::Value::Number(n) => JsonValue::Number(n.as_u64()),
        serde_json::Value::String(s) => JsonValue::Text(s.clone()),
        serde_json::Value::Array(a) => JsonValue::Array(a.iter().map(lift).collect()),
        serde_json::Value::Object(m) => JsonValue::Object(
            m.iter().map(|(k, v)| (k.clone(), lift(v))).collect(),
        ),
    }
}

/// Calls `serde_json::from_slice` for a `serde_json::Value` and converts what
/// comes back: the tree with `lift`, the error to its message. The result is
/// a function of the bytes alone.
#[verifier::external_body]
fn parse_json(bytes: &[u8]) -> (r: Result<JsonValue, String>)
    ensures
        outcome_view(r) == parse_outcome(bytes@),
{
    match serde_json::from_slice::<serde_json::Value>(bytes) {
        Ok(tree) => Ok(lift(&tree)),
        Err(e) => Err(e.to_string()),
    }
}

/// Parses a byte string as one JSON document.
pub fn parse_document(bytes: &[u8]) -> (r: Result<JsonValue, String>)
    ensures
        outcome_view(r) == parse_outcome(bytes@),
{
    parse_json(bytes)
}

} // verus!
