//! The library's own model of a JSON document, and the trusted bridge that
//! turns response bytes into it.
//!
//! The bridge leans on serde_json for the JSON grammar itself; everything
//! that reads the resulting tree is verified code over [`JsonValue`].

use vstd::prelude::*;

verus! {

/// A JSON value as plain data. Numbers that are non-negative integers are
/// kept exactly ([`JsonValue::Int`]); any other number (negative or
/// fractional) is collapsed to [`JsonValue::NumOther`], since the response
/// shape this client reads only ever needs a non-negative integer.
pub enum JsonValue {
    Null,
    Bool(bool),
    /// A number that is a non-negative integer fitting in 64 bits.
    Int(u64),
    /// Any other JSON number.
    NumOther,
    Str(String),
    Arr(Vec<JsonValue>),
    /// An object's entries; keys are unique (the underlying map keeps one
    /// value per key).
    Obj(Vec<(String, JsonValue)>),
}

/// The declaration of serde_json's tree type, so that the trusted bridge
/// below can mention it; the library never looks inside such a value.
#[verifier::external_type_specification]
#[verifier::external_body]
pub struct ExValue(serde_json::Value);

/// The JSON document that a byte sequence holds, in the library's model:
/// `None` when the bytes are not one valid JSON document. What serde_json
/// parses a given byte sequence into depends on those bytes alone, so this
/// is a function of its argument.
pub uninterp spec fn json_doc_of(bytes: Seq<u8>) -> Option<JsonValue>;

/// Relies on serde_json::from_slice::<serde_json::Value>: it parses the
/// bytes as one JSON document, returning its tree exactly when the bytes
/// are valid JSON, and an error otherwise.
#[verifier::external_body]
pub(crate) fn parse_json(bytes: &[u8]) -> (r: Option<JsonValue>)
    ensures
        r == json_doc_of(bytes@),
{
    match serde_json::from_slice::<serde_json::Value>(bytes) {
        Ok(v) => Some(convert_value(&v)),
        Err(_) => None,
    }
}

/// Relies on the shape of serde_json::Value and on
/// serde_json::Number::as_u64: converts serde_json's tree one-for-one into
/// the library's model. Only called from the body of [`parse_json`].
#[verifier::external_body]
fn convert_value(v: &serde_json::Value) -> JsonValue {
    match v {
        serde_json::Value::Null => JsonValue::Null,
        serde_json::Value::Bool(b) => JsonValue::Bool(*b),
        serde_json::Value::Number(n) => match n.as_u64() {
            Some(u) => JsonValue::Int(u),
            None => JsonValue::NumOther,
        },
        serde_json::Value::String(s) => JsonValue::Str(s.clone()),
        serde_json::Value::Array(a) => JsonValue::Arr(a.iter().map(convert_value).collect()),
        serde_json::Value::Object(m) => JsonValue::Obj(
            m.iter().map(|(k, x)| (k.clone(), convert_value(x))).collect(),
        ),
    }
}

/// The value under `key` in an object's entry list: the first entry whose
/// key matches, or `None` when no entry does.
pub open spec fn obj_get(entries: Seq<(String, JsonValue)>, key: Seq<char>) -> Option<JsonValue>
    decreases entries.len(),
{
    if entries.len() == 0 {
        None
    } else if entries[0].0@ == key {
        Some(entries[0].1)
    } else {
        obj_get(entries.drop_first(), key)
    }
}

/// Look a key up in an object's entry list.
pub fn obj_get_exec<'a>(entries: &'a Vec<(String, JsonValue)>, key: &String) -> (r: Option<
    &'a JsonValue,
>)
    ensures
        match r {
            Some(v) => obj_get(entries@, key@) == Some(*v),
            None => obj_get(entries@, key@) is None,
        },
{
    let n = entries.len();
    proof {
        assert(entries@.skip(0) =~= entries@);
    }
    for i in 0..n
        invariant
            n == entries@.len(),
            obj_get(entries@, key@) == obj_get(entries@.skip(i as int), key@),
    {
        proof {
            assert(entries@.skip(i as int).len() > 0);
            assert(entries@.skip(i as int)[0] == entries@[i as int]);
        }
        if entries[i].0 == *key {
            proof {
                assert(obj_get(entries@.skip(i as int), key@) == Some(entries@[i as int].1));
            }
            return Some(&entries[i].1);
        }
        proof {
            assert(obj_get(entries@.skip(i as int), key@) == obj_get(
                entries@.skip(i as int).drop_first(),
                key@,
            ));
            assert(entries@.skip(i as int).drop_first() =~= entries@.skip(i as int + 1));
        }
    }
    proof {
        assert(entries@.skip(n as int).len() == 0);
    }
    None
}

} // verus!
