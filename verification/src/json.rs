//! The library's own model of a JSON document.
//!
//! API responses arrive as JSON text. The text is parsed by `serde_json`
//! behind a trusted wrapper; the resulting document is converted, node for
//! node, into [`JsonValue`], a plain enum that the verified decoders can
//! inspect. Numbers that fit in a `u64` keep their value; any other number is
//! kept only as a marker, since no field the seeder reads is of that shape.

use vstd::prelude::*;

verus! {

/// A JSON document as the verified decoders see it.
///
/// An object is a list of bindings; a lookup takes the first binding of a
/// key. A document produced by the trusted parse carries its bindings in
/// serde_json's default map order — sorted by key, one binding per key, a
/// key duplicated in the text keeping its last value — so no caller may
/// rely on the text's own ordering.
#[derive(Debug)]
pub enum JsonValue {
    Null,
    Bool(bool),
    UInt(u64),
    OtherNum,
    Str(String),
    Arr(Vec<JsonValue>),
    Obj(Vec<(String, JsonValue)>),
}

#[verifier::external_type_specification]
#[verifier::external_body]
pub struct ExSerdeValue(serde_json::Value);

/// The document that a piece of JSON text parses to, if any. The result of
/// `serde_json::from_str` depends on the text alone.
pub uninterp spec fn spec_parse_json(s: Seq<char>) -> Option<JsonValue>;

/// Relies on `serde_json::from_str`: parses JSON text into a document, or
/// fails on malformed text; the outcome is a function of the text alone.
#[verifier::external_body]
pub(crate) fn parse_json_text(s: &str) -> (r: Option<JsonValue>)
    ensures
        r == spec_parse_json(s@),
{
    serde_json::from_str::<serde_json::Value>(s).ok().map(|v| json_from_value(&v))
}

/// Relies on `serde_json::Value`: each variant of the parsed document is
/// carried over to the corresponding [`JsonValue`] variant, node for node.
#[verifier::external_body]
fn json_from_value(v: &serde_json::Value) -> JsonValue {
    match v {
        serde_json::Value::Null => JsonValue::Null,
        serde_json::Value::Bool(b) => JsonValue::Bool(*b),
        serde_json::Value::Number(n) => match n.as_u64() {
            Some(u) => JsonValue::UInt(u),
            None => JsonValue::OtherNum,
        },
        serde_json::Value::String(s) => JsonValue::Str(s.clone()),
        serde_json::Value::Array(a) => JsonValue::Arr(a.iter().map(json_from_value).collect()),
        serde_json::Value::Object(m) => JsonValue::Obj(
            m.iter().map(|(k, x)| (k.clone(), json_from_value(x))).collect(),
        ),
    }
}

/// The bindings of an object; empty for any other document.
pub open spec fn spec_obj_fields(v: JsonValue) -> Seq<(String, JsonValue)> {
    match v {
        JsonValue::Obj(fields) => fields@,
        _ => Seq::empty(),
    }
}

/// The elements of an array; empty for any other document.
pub open spec fn spec_arr_elems(v: JsonValue) -> Seq<JsonValue> {
    match v {
        JsonValue::Arr(elems) => elems@,
        _ => Seq::empty(),
    }
}

/// The first binding of `key` in a list of bindings.
pub open spec fn spec_lookup(fields: Seq<(String, JsonValue)>, key: Seq<char>) -> Option<
    JsonValue,
>
    decreases fields.len(),
{
    if fields.len() == 0 {
        None
    } else if fields[0].0@ == key {
        Some(fields[0].1)
    } else {
        spec_lookup(fields.skip(1), key)
    }
}

/// The value of field `key` of an object, if the document is an object and
/// has the field.
pub open spec fn spec_field(v: JsonValue, key: Seq<char>) -> Option<JsonValue> {
    if v is Obj {
        spec_lookup(spec_obj_fields(v), key)
    } else {
        None
    }
}

/// Looks a field up in an object, taking the first binding of the key.
pub fn json_get<'a>(v: &'a JsonValue, key: &str) -> (r: Option<&'a JsonValue>)
    ensures
        r is Some <==> spec_field(*v, key@) is Some,
        r is Some ==> *r->0 == spec_field(*v, key@)->0,
{
    match v {
        JsonValue::Obj(fields) => {
            let key_string = key.to_owned();
            let n = fields.len();
            let mut i: usize = 0;
            proof {
                assert(fields@.skip(0) =~= fields@);
            }
            while i < n
                invariant
                    *v is Obj && spec_obj_fields(*v) == fields@,
                    n == fields@.len(),
                    i <= n,
                    key_string@ == key@,
                    spec_lookup(fields@, key@) == spec_lookup(fields@.skip(i as int), key@),
                decreases n - i,
            {
                proof {
                    assert(fields@.skip(i as int)[0] == fields@[i as int]);
                    assert(fields@.skip(i as int).skip(1) =~= fields@.skip(i + 1));
                }
                if fields[i].0.eq(&key_string) {
                    return Some(&fields[i].1);
                }
                i += 1;
            }
            None
        },
        _ => None,
    }
}

} // verus!
