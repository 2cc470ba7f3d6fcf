//! The text layer of the wire format: wire values travel as JSON text
//! through serde_json. The codec itself is the structured layer in `codec`;
//! this module only carries its documents to and from text, and hands
//! whatever came back to the verified decoder, which is exact for every
//! wire value.

use crate::codec::{decode, encode, spec_decode, DecodeError};
use crate::rpc_transaction::{RPCTransaction, TransactionModel};
use crate::wire::{WireModel, WireValue};
use vstd::prelude::*;

verus! {

/// Relies on serde_json::Value, the document type of serde_json; carried
/// opaquely.
#[verifier::external_type_specification]
#[verifier::external_body]
pub struct ExJsonValue(serde_json::Value);

/// Relies on serde_json::Value::String: wraps text as a JSON string value.
#[verifier::external_body]
fn json_string(s: String) -> serde_json::Value {
    serde_json::Value::String(s)
}

/// Relies on serde_json::Value::from for u64: wraps a number.
#[verifier::external_body]
fn json_u64(n: u64) -> serde_json::Value {
    serde_json::Value::from(n)
}

/// Relies on serde_json::Value::Array: wraps an ordered list.
#[verifier::external_body]
fn json_array(items: Vec<serde_json::Value>) -> serde_json::Value {
    serde_json::Value::Array(items)
}

/// Relies on serde_json::Value::Object and serde_json::Map: wraps named
/// fields as a JSON object.
#[verifier::external_body]
fn json_object(entries: Vec<(String, serde_json::Value)>) -> serde_json::Value {
    serde_json::Value::Object(entries.into_iter().collect())
}

/// Relies on serde_json::to_string: renders a document as JSON text. A
/// document of string-keyed objects always renders.
#[verifier::external_body]
fn json_to_text(v: &serde_json::Value) -> String {
    serde_json::to_string(v).unwrap_or_else(|_| String::new())
}

/// Relies on serde_json::from_str: parses JSON text into a document.
#[verifier::external_body]
fn json_parse(s: &str) -> Option<serde_json::Value> {
    serde_json::from_str(s).ok()
}

/// Relies on serde_json::Value::as_str: the text of a string value.
#[verifier::external_body]
fn json_as_str(v: &serde_json::Value) -> Option<String> {
    match v.as_str() {
        Some(s) => Some(s.to_owned()),
        None => None,
    }
}

/// Relies on serde_json::Value::as_u64: the value of a number that fits an
/// unsigned 64-bit integer.
#[verifier::external_body]
fn json_as_u64(v: &serde_json::Value) -> Option<u64> {
    v.as_u64()
}

/// Relies on serde_json::Value::as_array: the items of an array value.
#[verifier::external_body]
fn json_as_array(v: &serde_json::Value) -> Option<Vec<serde_json::Value>> {
    match v.as_array() {
        Some(items) => Some(items.clone()),
        None => None,
    }
}

/// Relies on serde_json::Value::as_object and serde_json::Map::iter: the
/// named fields of an object value.
#[verifier::external_body]
fn json_as_entries(v: &serde_json::Value) -> Option<Vec<(String, serde_json::Value)>> {
    match v.as_object() {
        Some(m) => Some(m.iter().map(|(k, x)| (k.clone(), x.clone())).collect()),
        None => None,
    }
}

/// Renders a wire value as a serde_json document of the same shape.
#[verifier::loop_isolation(false)]
fn wire_to_json(w: &WireValue) -> serde_json::Value
    decreases *w,
{
    match w {
        WireValue::Str(s) => json_string(s.clone()),
        WireValue::Num(n) => json_u64(*n),
        WireValue::Arr(items) => {
            let mut out: Vec<serde_json::Value> = Vec::new();
            let mut i: usize = 0;
            while i < items.len()
                invariant
                    i <= items.len(),
                    w == &WireValue::Arr(*items),
                decreases items.len() - i,
            {
                out.push(wire_to_json(&items[i]));
                i += 1;
            }
            json_array(out)
        },
        WireValue::Obj(fields) => {
            let mut out: Vec<(String, serde_json::Value)> = Vec::new();
            let mut i: usize = 0;
            while i < fields.len()
                invariant
                    i <= fields.len(),
                    w == &WireValue::Obj(*fields),
                decreases fields.len() - i,
            {
                out.push((fields[i].0.clone(), wire_to_json(&fields[i].1)));
                i += 1;
            }
            json_object(out)
        },
    }
}

/// Reads a serde_json document back as a wire value, to the given nesting
/// depth; anything deeper, and any number outside the unsigned 64-bit
/// range, is rejected.
#[verifier::loop_isolation(false)]
fn json_to_wire(v: &serde_json::Value, depth: u64) -> Option<WireValue>
    decreases depth,
{
    if depth == 0 {
        return None;
    }
    match json_as_str(v) {
        Some(s) => {
            return Some(WireValue::Str(s));
        },
        None => {},
    }
    match json_as_u64(v) {
        Some(n) => {
            return Some(WireValue::Num(n));
        },
        None => {},
    }
    match json_as_array(v) {
        Some(items) => {
            let mut out: Vec<WireValue> = Vec::new();
            let mut i: usize = 0;
            while i < items.len()
                invariant
                    i <= items.len(),
                decreases items.len() - i,
            {
                match json_to_wire(&items[i], depth - 1) {
                    Some(w) => out.push(w),
                    None => {
                        return None;
                    },
                }
                i += 1;
            }
            return Some(WireValue::Arr(out));
        },
        None => {},
    }
    match json_as_entries(v) {
        Some(entries) => {
            let mut out: Vec<(String, WireValue)> = Vec::new();
            let mut i: usize = 0;
            while i < entries.len()
                invariant
                    i <= entries.len(),
                decreases entries.len() - i,
            {
                match json_to_wire(&entries[i].1, depth - 1) {
                    Some(w) => out.push((entries[i].0.clone(), w)),
                    None => {
                        return None;
                    },
                }
                i += 1;
            }
            return Some(WireValue::Obj(out));
        },
        None => {},
    }
    None
}

/// The nesting depth a transaction document can reach, with room to spare.
const WIRE_DEPTH: u64 = 64;

/// Encodes a transaction and renders it as JSON text.
pub fn to_json_text(t: &RPCTransaction) -> (s: String)
    requires
        t@.wf(),
{
    let w = encode(t);
    let v = wire_to_json(&w);
    json_to_text(&v)
}

/// Parses JSON text and decodes the transaction it carries. Text that is
/// not a JSON document the wire format can hold is malformed; whatever
/// wire value the text parsed to is handed to the exact decoder, so any
/// value returned is the decoding of some wire document.
pub fn from_json_text(s: &str) -> (r: Result<RPCTransaction, DecodeError>)
    ensures
        r matches Ok(t) ==> exists|w: WireModel|
            spec_decode(w) == Ok::<TransactionModel, DecodeError>(t@),
        r matches Ok(t) ==> t@.wf(),
{
    let v = match json_parse(s) {
        Some(v) => v,
        None => {
            return Err(DecodeError::MalformedField);
        },
    };
    let w = match json_to_wire(&v, WIRE_DEPTH) {
        Some(w) => w,
        None => {
            return Err(DecodeError::MalformedField);
        },
    };
    let r = decode(&w);
    proof {
        if r is Ok {
            assert(spec_decode(w@) == Ok::<TransactionModel, DecodeError>(r->Ok_0@));
        }
    }
    r
}

} // verus!
