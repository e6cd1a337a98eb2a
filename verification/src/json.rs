//! The library's model of a JSON value, and the trusted parse that turns
//! text into one.
//!
//! Settings and the remote flag snapshot arrive as JSON.  The logic that
//! reads them works on [`JsonValue`], a tree of plain values, so that every
//! shape check is verified; only the parse itself is trusted.

use vstd::prelude::*;

use crate::strutil::str_eq;

verus! {

/// A JSON value as the library models it.  Numbers with a fractional part
/// or outside the `i64` range are kept only as `OtherNumber`: no field the
/// configuration reads may hold such a number, so only their presence
/// matters.  Object entries keep the order in which the document gave
/// them; a repeated key is resolved by [`obj_lookup`], where the last
/// occurrence wins.
pub enum JsonValue {
    Null,
    Bool(bool),
    Int(i64),
    OtherNumber,
    Str(String),
    Arr(Vec<JsonValue>),
    Obj(Vec<(String, JsonValue)>),
}

/// The value under `key` in an object's entry list; of a repeated key the
/// last occurrence wins, as it does when a JSON document is parsed.
pub open spec fn obj_lookup(entries: Seq<(String, JsonValue)>, key: Seq<char>) -> Option<
    JsonValue,
>
    decreases entries.len(),
{
    if entries.len() == 0 {
        None
    } else if entries.last().0@ == key {
        Some(entries.last().1)
    } else {
        obj_lookup(entries.drop_last(), key)
    }
}

/// Looks `key` up in an object's entry list.
pub fn obj_get<'a>(entries: &'a Vec<(String, JsonValue)>, key: &str) -> (r: Option<
    &'a JsonValue,
>)
    ensures
        match r {
            Some(v) => obj_lookup(entries@, key@) == Some(*v),
            None => obj_lookup(entries@, key@) is None,
        },
{
    let mut i: usize = entries.len();
    assert(entries@.take(i as int) =~= entries@);
    while i > 0
        invariant
            0 <= i <= entries@.len(),
            obj_lookup(entries@, key@) == obj_lookup(entries@.take(i as int), key@),
        decreases i,
    {
        i = i - 1;
        let e = &entries[i];
        proof {
            assert(entries@.take(i as int + 1).last() == entries@[i as int]);
            assert(entries@.take(i as int + 1).drop_last() =~= entries@.take(i as int));
        }
        if str_eq(e.0.as_str(), key) {
            return Some(&e.1);
        }
    }
    assert(entries@.take(0) =~= Seq::<(String, JsonValue)>::empty());
    None
}

#[verifier::external_type_specification]
#[verifier::external_body]
pub struct ExSerdeValue(serde_json::Value);

/// What parsing a text as JSON yields, before the tree is mirrored into
/// the library's model: `None` where the text is not valid JSON.
pub uninterp spec fn raw_json_of(s: Seq<char>) -> Option<serde_json::Value>;

/// Relies on serde_json::from_str::<serde_json::Value>: it accepts exactly
/// the valid JSON texts, and the value it returns depends on the text
/// alone.
#[verifier::external_body]
fn parse_raw(s: &str) -> (r: Option<serde_json::Value>)
    ensures
        r == raw_json_of(s@),
{
    serde_json::from_str::<serde_json::Value>(s).ok()
}

/// The library's model of a parsed serde_json value: the same tree, with
/// each number collapsed onto `i64` where it fits.
pub uninterp spec fn json_model(v: serde_json::Value) -> JsonValue;

/// Relies on serde_json::Value (an enum of the six JSON shapes, whose
/// object map is sorted by key and holds each key once) and on
/// serde_json::Number::as_i64 (`Some` exactly for integers in `i64`
/// range): each node is mirrored one for one.
#[verifier::external_body]
fn mirror_value(v: &serde_json::Value) -> (r: JsonValue)
    ensures
        r == json_model(*v),
{
    match v {
        serde_json::Value::Null => JsonValue::Null,
        serde_json::Value::Bool(b) => JsonValue::Bool(*b),
        serde_json::Value::Number(n) => n.as_i64().map_or(JsonValue::OtherNumber, JsonValue::Int),
        serde_json::Value::String(s) => JsonValue::Str(s.clone()),
        serde_json::Value::Array(a) => JsonValue::Arr(a.iter().map(mirror_value).collect()),
        serde_json::Value::Object(m) => JsonValue::Obj(
            m.iter().map(|(k, x)| (k.clone(), mirror_value(x))).collect(),
        ),
    }
}

/// The library's model of what parsing `s` as JSON yields.
pub open spec fn json_of_text(s: Seq<char>) -> Option<JsonValue> {
    match raw_json_of(s) {
        Some(v) => Some(json_model(v)),
        None => None,
    }
}

/// Parses a text as JSON into the library's model; `None` where the text
/// is not valid JSON.
pub fn parse_json(s: &str) -> (r: Option<JsonValue>)
    ensures
        r == json_of_text(s@),
{
    match parse_raw(s) {
        Some(v) => Some(mirror_value(&v)),
        None => None,
    }
}

} // verus!
