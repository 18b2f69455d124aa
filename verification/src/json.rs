//! JSON values, as read by `serde_json`, and the lookups message decoding
//! needs.
use vstd::prelude::*;

verus! {

/// A JSON value.  A number keeps its value when it is an integer that fits
/// an `i64`; an object keeps its members in the order `serde_json` yields
/// them.
#[derive(Debug)]
pub enum JsonValue {
    Null,
    Bool(bool),
    Number(Option<i64>),
    Text(String),
    Array(Vec<JsonValue>),
    Object(Vec<(String, JsonValue)>),
}

/// What `serde_json` reads from a text: a value, or nothing when the text
/// is not JSON.
pub uninterp spec fn json_parse(text: Seq<char>) -> Option<JsonValue>;

/// The message `serde_json` gives for a text that is not JSON.
pub uninterp spec fn json_error_text(text: Seq<char>) -> Seq<char>;

/// `serde_json::from_str::<serde_json::Value>`, its result rebuilt as a
/// `JsonValue`, or the error's message.  Both depend on the text alone.
#[verifier::external_body]
pub(crate) fn parse_json_or_error(text: &str) -> (r: Result<JsonValue, String>)
    ensures
        match json_parse(text@) {
            Some(v) => r == Ok::<JsonValue, String>(v),
            None => r matches Err(e) && e@ == json_error_text(text@),
        },
{
    match serde_json::from_str::<serde_json::Value>(text) {
        Ok(v) => Ok(from_serde(&v)),
        Err(e) => Err(e.to_string()),
    }
}

/// The JSON value a text holds, or nothing when it is not JSON.
pub(crate) fn parse_json(text: &str) -> (r: Option<JsonValue>)
    ensures
        r == json_parse(text@),
{
    match parse_json_or_error(text) {
        Ok(v) => Some(v),
        Err(_) => None,
    }
}

/// `serde_json::Value`, held only to be rebuilt as a `JsonValue`.
#[verifier::external_type_specification]
#[verifier::external_body]
pub struct ExSerdeJsonValue(serde_json::Value);

/// Rebuilds a `serde_json::Value` as a `JsonValue`, node by node.
#[verifier::external_body]
fn from_serde(v: &serde_json::Value) -> JsonValue {
    match v {
        serde_json::Value::Null => JsonValue::Null,
        serde_json::Value::Bool(b) => JsonValue::Bool(*b),
        serde_json::Value::Number(n) => JsonValue::Number(n.as_i64()),
        serde_json::Value::String(s) => JsonValue::Text(s.clone()),
        serde_json::Value::Array(a) => JsonValue::Array(a.iter().map(from_serde).collect()),
        serde_json::Value::Object(o) => JsonValue::Object(
            o.iter().map(|(k, x)| (k.clone(), from_serde(x))).collect(),
        ),
    }
}

/// The first member of an object named `key`.
pub open spec fn member(v: JsonValue, key: Seq<char>) -> Option<JsonValue> {
    match v {
        JsonValue::Object(members) => first_member(members@, key),
        _ => None,
    }
}

pub open spec fn first_member(members: Seq<(String, JsonValue)>, key: Seq<char>) -> Option<JsonValue>
    decreases members.len(),
{
    if members.len() == 0 {
        None
    } else if members[0].0@ == key {
        Some(members[0].1)
    } else {
        first_member(members.drop_first(), key)
    }
}

/// The text of a string value.
pub open spec fn text_of(v: Option<&JsonValue>) -> Option<Seq<char>> {
    match v {
        Some(JsonValue::Text(s)) => Some(s@),
        _ => None,
    }
}

/// The integer of a number value that fits an `i64`.
pub open spec fn int_of(v: Option<&JsonValue>) -> Option<i64> {
    match v {
        Some(JsonValue::Number(Some(n))) => Some(*n),
        _ => None,
    }
}

/// The member `key` of `v`, if `v` is an object that has one.
pub fn get<'a>(v: &'a JsonValue, key: &str) -> (r: Option<&'a JsonValue>)
    ensures
        match r {
            Some(x) => member(*v, key@) == Some(*x),
            None => member(*v, key@) is None,
        },
{
    match v {
        JsonValue::Object(members) => {
            let wanted = key.to_string();
            let mut i: usize = 0;
            assert(members@.skip(0) =~= members@);
            while i < members.len()
                invariant
                    i <= members@.len(),
                    wanted@ == key@,
                    member(*v, key@) == first_member(members@, key@),
                    first_member(members@, key@) == first_member(members@.skip(i as int), key@),
                decreases members@.len() - i,
            {
                assert(members@.skip(i as int).drop_first() =~= members@.skip(i as int + 1));
                if members[i].0 == wanted {
                    assert(members@.skip(i as int)[0] == members@[i as int]);
                    return Some(&members[i].1);
                }
                i += 1;
            }
            None
        },
        _ => None,
    }
}

/// The text of `v`, if it is a string.
pub fn as_str(v: Option<&JsonValue>) -> (r: Option<&str>)
    ensures
        match r {
            Some(s) => text_of(v) == Some(s@),
            None => text_of(v) is None,
        },
{
    match v {
        Some(JsonValue::Text(s)) => Some(s.as_str()),
        _ => None,
    }
}

/// The integer of `v`, if it is a number that fits an `i64`.
pub fn as_i64(v: Option<&JsonValue>) -> (r: Option<i64>)
    ensures
        r == int_of(v),
{
    match v {
        Some(JsonValue::Number(Some(n))) => Some(*n),
        _ => None,
    }
}

} // verus!
