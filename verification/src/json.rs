//! JSON documents as plain values, parsed by `serde_json`.

use vstd::prelude::*;

verus! {

#[verifier::external_type_specification]
#[verifier::external_body]
pub struct ExSerdeJsonValue(serde_json::Value);

/// A JSON document. Numbers keep the text that `serde_json` renders them
/// as; an object keeps its members in the order `serde_json` hands them out.
#[derive(Debug)]
pub enum JsonValue {
    Null,
    Bool(bool),
    Number(String),
    Str(String),
    Array(Vec<JsonValue>),
    Object(Vec<(String, JsonValue)>),
}

/// The document that `serde_json::from_str::<serde_json::Value>` reads from
/// `text`, or `None` where it reports an error.
pub uninterp spec fn json_parse(text: Seq<char>) -> Option<JsonValue>;

/// Changes a `serde_json::Value` into a [`JsonValue`], variant for variant.
#[verifier::external_body]
fn from_serde(v: serde_json::Value) -> JsonValue {
    match v {
        serde_json::Value::Null => JsonValue::Null,
        serde_json::Value::Bool(b) => JsonValue::Bool(b),
        serde_json::Value::Number(n) => JsonValue::Number(n.to_string()),
        serde_json::Value::String(s) => JsonValue::Str(s),
        serde_json::Value::Array(a) => JsonValue::Array(a.into_iter().map(from_serde).collect()),
        serde_json::Value::Object(m) => JsonValue::Object(
            m.into_iter().map(|(k, v)| (k, from_serde(v))).collect(),
        ),
    }
}

/// Parses `text` with `serde_json::from_str::<serde_json::Value>`.
/// Claims only that the result is a function of `text` (named [`json_parse`]):
/// which texts parse, and to what, is `serde_json`'s grammar and is not restated.
#[verifier::external_body]
pub(crate) fn parse_json(text: &str) -> (parsed: Option<JsonValue>)
    ensures
        parsed == json_parse(text@),
{
    serde_json::from_str::<serde_json::Value>(text).ok().map(from_serde)
}

/// The value of the first member named `key` among `members`.
pub open spec fn lookup(members: Seq<(String, JsonValue)>, key: Seq<char>) -> Option<JsonValue>
    decreases members.len(),
{
    if members.len() == 0 {
        None
    } else if members[0].0@ == key {
        Some(members[0].1)
    } else {
        lookup(members.drop_first(), key)
    }
}

impl JsonValue {
    /// The member `key` of an object; `None` for a missing member or a
    /// value that is not an object.
    pub open spec fn member(self, key: Seq<char>) -> Option<JsonValue> {
        match self {
            JsonValue::Object(members) => lookup(members@, key),
            _ => None,
        }
    }

    /// The member `key` of an object (as `serde_json::Value::get` with a string key).
    pub fn get(&self, key: &str) -> (r: Option<&JsonValue>)
        ensures
            match r {
                Some(v) => self.member(key@) == Some(*v),
                None => self.member(key@) is None,
            },
    {
        match self {
            JsonValue::Object(members) => {
                let wanted = key.to_owned();
                let mut i: usize = 0;
                assert(members@.subrange(0, members@.len() as int) =~= members@);
                while i < members.len()
                    invariant
                        wanted@ == key@,
                        i <= members@.len(),
                        self.member(key@) == lookup(members@, key@),
                        lookup(members@, key@) == lookup(members@.subrange(i as int, members@.len() as int), key@),
                    decreases members@.len() - i,
                {
                    let ghost rest = members@.subrange(i as int, members@.len() as int);
                    assert(rest.drop_first() =~= members@.subrange(i + 1, members@.len() as int));
                    if members[i].0 == wanted {
                        assert(rest[0] == members@[i as int]);
                        return Some(&members[i].1);
                    }
                    i = i + 1;
                }
                None
            },
            _ => None,
        }
    }

    /// The text of a string value (as `serde_json::Value::as_str`).
    pub fn as_str(&self) -> (r: Option<&str>)
        ensures
            match r {
                Some(s) => self matches JsonValue::Str(t) && t@ == s@,
                None => !(self is Str),
            },
    {
        match self {
            JsonValue::Str(s) => Some(s.as_str()),
            _ => None,
        }
    }

    /// Whether the value is an object (as `serde_json::Value::is_object`).
    pub fn is_object(&self) -> (r: bool)
        ensures
            r == (self is Object),
    {
        match self {
            JsonValue::Object(_) => true,
            _ => false,
        }
    }
}

} // verus!
