//! A JSON value tree held as plain values, and the accessors the document
//! parser reads it with.
use vstd::prelude::*;

use crate::error::{ImportError, ImportErrorType};

verus! {

#[verifier::external_type_specification]
#[verifier::external_body]
pub struct ExSerdeValue(serde_json::Value);

/// A JSON number, as the two readings the format uses.
#[derive(Debug, Clone, Copy)]
pub struct JsonNumber {
    /// The value, where it is a non-negative integer that fits in `u64`.
    pub unsigned: Option<u64>,
    /// The bit pattern of the value as a double, where it has one.
    pub bits: Option<u64>,
}

/// A JSON value tree.
#[derive(Debug)]
pub enum JsonValue {
    Null,
    Bool(bool),
    Number(JsonNumber),
    Text(String),
    Array(Vec<JsonValue>),
    /// Members, each key once (in key order, as serde_json's map keeps them).
    Object(Vec<(String, JsonValue)>),
}

/// The value of the first member named `k`.
pub open spec fn lookup(es: Seq<(String, JsonValue)>, k: Seq<char>) -> Option<JsonValue>
    decreases es.len(),
{
    if es.len() == 0 {
        None
    } else if es[0].0@ == k {
        Some(es[0].1)
    } else {
        lookup(es.drop_first(), k)
    }
}

/// The member `k` of `v`, where `v` is an object that has one.
pub open spec fn member(v: JsonValue, k: Seq<char>) -> Option<JsonValue> {
    match v {
        JsonValue::Object(es) => lookup(es@, k),
        _ => None,
    }
}

pub open spec fn as_u64(v: JsonValue) -> Option<u64> {
    match v {
        JsonValue::Number(n) => n.unsigned,
        _ => None,
    }
}

pub open spec fn as_bits(v: JsonValue) -> Option<u64> {
    match v {
        JsonValue::Number(n) => n.bits,
        _ => None,
    }
}

pub open spec fn as_bool(v: JsonValue) -> Option<bool> {
    match v {
        JsonValue::Bool(b) => Some(b),
        _ => None,
    }
}

pub open spec fn as_text(v: JsonValue) -> Option<Seq<char>> {
    match v {
        JsonValue::Text(s) => Some(s@),
        _ => None,
    }
}

pub open spec fn as_array(v: JsonValue) -> Option<Seq<JsonValue>> {
    match v {
        JsonValue::Array(a) => Some(a@),
        _ => None,
    }
}

pub open spec fn as_object(v: JsonValue) -> Option<Seq<(String, JsonValue)>> {
    match v {
        JsonValue::Object(es) => Some(es@),
        _ => None,
    }
}

/// Member `k` of `v` read as an unsigned integer, `None` where it is absent.
pub open spec fn opt_u64(v: JsonValue, k: Seq<char>) -> Option<u64> {
    match member(v, k) {
        Some(x) => as_u64(x),
        None => None,
    }
}

/// Member `k` of `v` read as a string, `None` where it is absent.
pub open spec fn opt_text(v: JsonValue, k: Seq<char>) -> Option<Seq<char>> {
    match member(v, k) {
        Some(x) => as_text(x),
        None => None,
    }
}

/// Member `k` of `v` read as a double's bits, `None` where it is absent.
pub open spec fn opt_bits(v: JsonValue, k: Seq<char>) -> Option<u64> {
    match member(v, k) {
        Some(x) => as_bits(x),
        None => None,
    }
}

/// The string held by an optional `String`.
pub open spec fn opt_view(s: Option<String>) -> Option<Seq<char>> {
    match s {
        Some(s) => Some(s@),
        None => None,
    }
}

/// Looks up member `key` of `v`.
pub fn get<'a>(v: &'a JsonValue, key: &str) -> (r: Option<&'a JsonValue>)
    ensures
        match r {
            Some(x) => member(*v, key@) == Some(*x),
            None => member(*v, key@) is None,
        },
{
    match v {
        JsonValue::Object(es) => {
            let k = key.to_owned();
            let mut i: usize = 0;
            assert(es@.subrange(0, es@.len() as int) =~= es@);
            while i < es.len()
                invariant
                    0 <= i <= es@.len(),
                    k@ == key@,
                    member(*v, key@) == lookup(es@, key@),
                    lookup(es@, key@) == lookup(es@.subrange(i as int, es@.len() as int), key@),
                decreases es.len() - i,
            {
                let ghost rest = es@.subrange(i as int, es@.len() as int);
                assert(rest.drop_first() =~= es@.subrange(i + 1, es@.len() as int));
                assert(rest[0] == es@[i as int]);
                if es[i].0 == k {
                    return Some(&es[i].1);
                }
                i = i + 1;
            }
            assert(es@.subrange(i as int, es@.len() as int).len() == 0);
            None
        },
        _ => None,
    }
}

/// Reads `v` as an unsigned integer.
pub fn to_u64(v: &JsonValue) -> (r: Option<u64>)
    ensures
        r == as_u64(*v),
{
    match v {
        JsonValue::Number(n) => n.unsigned,
        _ => None,
    }
}

/// Reads `v` as the bits of a double.
pub fn to_bits(v: &JsonValue) -> (r: Option<u64>)
    ensures
        r == as_bits(*v),
{
    match v {
        JsonValue::Number(n) => n.bits,
        _ => None,
    }
}

/// Reads `v` as a boolean.
pub fn to_bool(v: &JsonValue) -> (r: Option<bool>)
    ensures
        r == as_bool(*v),
{
    match v {
        JsonValue::Bool(b) => Some(*b),
        _ => None,
    }
}

/// Reads `v` as a string.
pub fn to_text(v: &JsonValue) -> (r: Option<String>)
    ensures
        opt_view(r) == as_text(*v),
{
    match v {
        JsonValue::Text(s) => Some(s.clone()),
        _ => None,
    }
}

/// Reads `v` as an array.
pub fn to_array(v: &JsonValue) -> (r: Option<&Vec<JsonValue>>)
    ensures
        match r {
            Some(a) => as_array(*v) == Some(a@),
            None => as_array(*v) is None,
        },
{
    match v {
        JsonValue::Array(a) => Some(a),
        _ => None,
    }
}

/// Reads `v` as an object.
pub fn to_object(v: &JsonValue) -> (r: Option<&Vec<(String, JsonValue)>>)
    ensures
        match r {
            Some(es) => as_object(*v) == Some(es@),
            None => as_object(*v) is None,
        },
{
    match v {
        JsonValue::Object(es) => Some(es),
        _ => None,
    }
}

/// One level of a `serde_json::Value`, its children not yet converted.
enum SerdeNode {
    Null,
    Bool(bool),
    Number(JsonNumber),
    Text(String),
    Array(Vec<serde_json::Value>),
    Object(Vec<(String, serde_json::Value)>),
}

/// Relies on the variants of `serde_json::Value`, and on `Number::as_u64`
/// and `Number::as_f64` for its numbers.
#[verifier::external_body]
fn serde_node(v: serde_json::Value) -> (r: SerdeNode) {
    match v {
        serde_json::Value::Null => SerdeNode::Null,
        serde_json::Value::Bool(b) => SerdeNode::Bool(b),
        serde_json::Value::Number(n) => SerdeNode::Number(
            JsonNumber { unsigned: n.as_u64(), bits: n.as_f64().map(|x| x.to_bits()) },
        ),
        serde_json::Value::String(s) => SerdeNode::Text(s),
        serde_json::Value::Array(a) => SerdeNode::Array(a),
        serde_json::Value::Object(m) => SerdeNode::Object(m.into_iter().collect()),
    }
}

/// Nesting depth deeper than the parser produces.
pub const MAX_DEPTH: usize = 130;

/// Converts a parsed tree of at most `depth` nested levels.
fn convert(v: serde_json::Value, depth: usize) -> (r: Option<JsonValue>)
    decreases depth,
{
    match serde_node(v) {
        SerdeNode::Null => Some(JsonValue::Null),
        SerdeNode::Bool(b) => Some(JsonValue::Bool(b)),
        SerdeNode::Number(n) => Some(JsonValue::Number(n)),
        SerdeNode::Text(s) => Some(JsonValue::Text(s)),
        SerdeNode::Array(items) => {
            if depth == 0 {
                return None;
            }
            let mut out: Vec<JsonValue> = Vec::new();
            for item in items
                invariant
                    depth > 0,
            {
                match convert(item, depth - 1) {
                    Some(x) => out.push(x),
                    None => return None,
                }
            }
            Some(JsonValue::Array(out))
        },
        SerdeNode::Object(members) => {
            if depth == 0 {
                return None;
            }
            let mut out: Vec<(String, JsonValue)> = Vec::new();
            for member in members
                invariant
                    depth > 0,
            {
                let (k, x) = member;
                match convert(x, depth - 1) {
                    Some(x) => out.push((k, x)),
                    None => return None,
                }
            }
            Some(JsonValue::Object(out))
        },
    }
}

/// What `serde_json::from_str` makes of `text`, as a value tree; `None`
/// where the text is not JSON.
pub uninterp spec fn json_of(text: Seq<char>) -> Option<JsonValue>;

/// Relies on `serde_json::from_str::<serde_json::Value>`: the tree it
/// parses depends on the text alone. Each parsed tree is converted by
/// `convert`, level by level.
#[verifier::external_body]
fn parse_tree(text: &str) -> (r: Option<JsonValue>)
    ensures
        r == json_of(text@),
{
    serde_json::from_str::<serde_json::Value>(text).ok().and_then(|v| convert(v, MAX_DEPTH))
}

/// Parses JSON text into a value tree; text that is not JSON is a format
/// error.
pub fn parse_json(text: &str) -> (r: Result<JsonValue, ImportError>)
    ensures
        r is Ok <==> json_of(text@) is Some,
        r is Ok ==> r->Ok_0 == json_of(text@).unwrap(),
        r is Err ==> r->Err_0.e_type == ImportErrorType::Format,
{
    match parse_tree(text) {
        Some(j) => Ok(j),
        None => Err(ImportError::format("malformed JSON")),
    }
}

} // verus!
