//! The serialization strategies under measurement.
//!
//! Each strategy is one code path of an outside serialization crate.  A
//! strategy's call is wrapped in a trusted function whose contract states,
//! over the canonical JSON form, what the crate's own source shows it
//! produces for a single-entry map of plain string key and value.  All
//! verification of the harness rests on these contracts.

use vstd::prelude::*;

verus! {

use crate::json::{plain_json_text, json_object_chars, json_object_bytes};

/// One serialization code path, in the fixed registration order.
#[derive(Clone, Copy, PartialEq, Eq, Structural, Debug)]
pub enum Strategy {
    SerdeJsonToVec,
    SerdeJsonToWriter,
    SerdeJsonCoreToVec,
    SerdeJsonCoreToSlice,
    NanoserdeSerializeJson,
    NanoserdeSerJson,
    SimdJsonToVec,
    SimdJsonToWriter,
    SimdJsonDeriveJsonVec,
    SimdJsonDeriveJsonWrite,
}

/// The label printed for a strategy's throughput line.
pub open spec fn label_spec(s: Strategy) -> Seq<char> {
    match s {
        Strategy::SerdeJsonToVec => "serde_json to_vec"@,
        Strategy::SerdeJsonToWriter => "serde_json to_writer"@,
        Strategy::SerdeJsonCoreToVec => "serde_json_core to_vec"@,
        Strategy::SerdeJsonCoreToSlice => "serde_json_core to_slice"@,
        Strategy::NanoserdeSerializeJson => "nanoserde serialize_json"@,
        Strategy::NanoserdeSerJson => "nanoserde ser_json"@,
        Strategy::SimdJsonToVec => "simd_json serde::to_vec"@,
        Strategy::SimdJsonToWriter => "simd_json to_writer"@,
        Strategy::SimdJsonDeriveJsonVec => "simd_json_derive json_vec"@,
        Strategy::SimdJsonDeriveJsonWrite => "simd_json_derive to_writer"@,
    }
}

impl Strategy {
    /// The strategy's printed label.
    pub fn label(self) -> (r: &'static str)
        ensures
            r@ == label_spec(self),
    {
        match self {
            Strategy::SerdeJsonToVec => "serde_json to_vec",
            Strategy::SerdeJsonToWriter => "serde_json to_writer",
            Strategy::SerdeJsonCoreToVec => "serde_json_core to_vec",
            Strategy::SerdeJsonCoreToSlice => "serde_json_core to_slice",
            Strategy::NanoserdeSerializeJson => "nanoserde serialize_json",
            Strategy::NanoserdeSerJson => "nanoserde ser_json",
            Strategy::SimdJsonToVec => "simd_json serde::to_vec",
            Strategy::SimdJsonToWriter => "simd_json to_writer",
            Strategy::SimdJsonDeriveJsonVec => "simd_json_derive json_vec",
            Strategy::SimdJsonDeriveJsonWrite => "simd_json_derive to_writer",
        }
    }
}

/// The fixed registration order of the strategies.
pub open spec fn strategy_order() -> Seq<Strategy> {
    seq![
        Strategy::SerdeJsonToVec,
        Strategy::SerdeJsonToWriter,
        Strategy::SerdeJsonCoreToVec,
        Strategy::SerdeJsonCoreToSlice,
        Strategy::NanoserdeSerializeJson,
        Strategy::NanoserdeSerJson,
        Strategy::SimdJsonToVec,
        Strategy::SimdJsonToWriter,
        Strategy::SimdJsonDeriveJsonVec,
        Strategy::SimdJsonDeriveJsonWrite,
    ]
}

/// All strategies, in registration order.
pub fn all_strategies() -> (r: Vec<Strategy>)
    ensures
        r@ == strategy_order(),
{
    let mut v: Vec<Strategy> = Vec::new();
    v.push(Strategy::SerdeJsonToVec);
    v.push(Strategy::SerdeJsonToWriter);
    v.push(Strategy::SerdeJsonCoreToVec);
    v.push(Strategy::SerdeJsonCoreToSlice);
    v.push(Strategy::NanoserdeSerializeJson);
    v.push(Strategy::NanoserdeSerJson);
    v.push(Strategy::SimdJsonToVec);
    v.push(Strategy::SimdJsonToWriter);
    v.push(Strategy::SimdJsonDeriveJsonVec);
    v.push(Strategy::SimdJsonDeriveJsonWrite);
    proof {
        assert(v@ =~= strategy_order());
    }
    v
}

/// Relies on serde_json::to_vec: a single-entry map of plain string key and
/// value serializes to the compact one-field object; with string keys and a
/// growable buffer its serializer cannot fail.
#[verifier::external_body]
pub(crate) fn serde_json_vec(key: &str, value: &str) -> (r: Vec<u8>)
    requires
        plain_json_text(key@),
        plain_json_text(value@),
    ensures
        r@ == json_object_bytes(key@, value@),
{
    let mut map = std::collections::BTreeMap::new();
    map.insert(key, value);
    serde_json::to_vec(&map).unwrap()
}

/// Relies on serde_json::to_writer: the same encoding as serde_json::to_vec,
/// appended to the caller's buffer through the Write impl of Vec, which
/// cannot fail.
#[verifier::external_body]
pub(crate) fn serde_json_writer(key: &str, value: &str, out: &mut Vec<u8>)
    requires
        plain_json_text(key@),
        plain_json_text(value@),
    ensures
        final(out)@ == old(out)@ + json_object_bytes(key@, value@),
{
    let mut map = std::collections::BTreeMap::new();
    map.insert(key, value);
    serde_json::to_writer(&mut *out, &map).unwrap()
}

/// Relies on serde_json_core::to_vec with a 26-byte capacity: it writes the
/// same compact one-field object into a fixed-size buffer, and reports a
/// buffer-full error exactly when the encoding does not fit.
#[verifier::external_body]
pub(crate) fn serde_json_core_vec(key: &str, value: &str) -> (r: Option<Vec<u8>>)
    requires
        plain_json_text(key@),
        plain_json_text(value@),
    ensures
        r is Some <==> key@.len() + value@.len() + 7 <= 26,
        r matches Some(v) ==> v@ == json_object_bytes(key@, value@),
{
    let mut map = std::collections::BTreeMap::new();
    map.insert(key, value);
    serde_json_core::to_vec::<_, 26>(&map).ok().map(|v| v.as_slice().to_vec())
}

/// Relies on serde_json_core::to_slice: it writes the compact one-field
/// object into the front of the caller's buffer and returns the written
/// length, or reports a buffer-full error exactly when the encoding does not
/// fit; the buffer's length never changes.
#[verifier::external_body]
pub(crate) fn serde_json_core_slice(key: &str, value: &str, buf: &mut Vec<u8>) -> (r: Option<
    usize,
>)
    requires
        plain_json_text(key@),
        plain_json_text(value@),
    ensures
        final(buf)@.len() == old(buf)@.len(),
        r is Some <==> key@.len() + value@.len() + 7 <= old(buf)@.len(),
        r matches Some(n) ==> n == key@.len() + value@.len() + 7 && final(buf)@.subrange(
            0,
            n as int,
        ) == json_object_bytes(key@, value@),
{
    let mut map = std::collections::BTreeMap::new();
    map.insert(key, value);
    serde_json_core::to_slice(&map, buf.as_mut_slice()).ok()
}

/// Relies on nanoserde's SerJson impl for BTreeMap and String: a
/// single-entry map of plain text serializes to the compact one-field
/// object, returned as a fresh string.
#[verifier::external_body]
pub(crate) fn nanoserde_string(key: &str, value: &str) -> (r: String)
    requires
        plain_json_text(key@),
        plain_json_text(value@),
    ensures
        r@ == json_object_chars(key@, value@),
{
    let mut map = std::collections::BTreeMap::new();
    map.insert(key.to_string(), value.to_string());
    nanoserde::SerJson::serialize_json(&map)
}

/// Relies on nanoserde's SerJson::ser_json: the same encoding, appended to
/// the caller's reusable string buffer through a SerJsonState.
#[verifier::external_body]
pub(crate) fn nanoserde_state(key: &str, value: &str, out: &mut String)
    requires
        plain_json_text(key@),
        plain_json_text(value@),
    ensures
        final(out)@ == old(out)@ + json_object_chars(key@, value@),
{
    let mut map = std::collections::BTreeMap::new();
    map.insert(key.to_string(), value.to_string());
    let mut state = nanoserde::SerJsonState::new(core::mem::take(out));
    nanoserde::SerJson::ser_json(&map, 0, &mut state);
    *out = state.out;
}

/// Relies on simd_json::serde::to_vec: a single-entry map of plain string
/// key and value serializes to the compact one-field object; with string
/// keys and a growable buffer it cannot fail.
#[verifier::external_body]
pub(crate) fn simd_json_vec(key: &str, value: &str) -> (r: Vec<u8>)
    requires
        plain_json_text(key@),
        plain_json_text(value@),
    ensures
        r@ == json_object_bytes(key@, value@),
{
    let mut map = std::collections::BTreeMap::new();
    map.insert(key, value);
    simd_json::serde::to_vec(&map).unwrap()
}

/// Relies on simd_json::serde::to_writer: the same encoding, appended to the
/// caller's buffer through the Write impl of Vec, which cannot fail.
#[verifier::external_body]
pub(crate) fn simd_json_writer(key: &str, value: &str, out: &mut Vec<u8>)
    requires
        plain_json_text(key@),
        plain_json_text(value@),
    ensures
        final(out)@ == old(out)@ + json_object_bytes(key@, value@),
{
    let mut map = std::collections::BTreeMap::new();
    map.insert(key, value);
    simd_json::serde::to_writer(&mut *out, &map).unwrap()
}

/// Relies on simd_json_derive's Serialize::json_vec for BTreeMap: a
/// single-entry map of plain string key and value serializes to the compact
/// one-field object; writing to a growable buffer cannot fail.
#[verifier::external_body]
pub(crate) fn simd_json_derive_vec(key: &str, value: &str) -> (r: Vec<u8>)
    requires
        plain_json_text(key@),
        plain_json_text(value@),
    ensures
        r@ == json_object_bytes(key@, value@),
{
    let mut map = std::collections::BTreeMap::new();
    map.insert(key.to_string(), value.to_string());
    simd_json_derive::Serialize::json_vec(&map).unwrap()
}

/// Relies on simd_json_derive's Serialize::json_write for BTreeMap: the same
/// encoding, appended to the caller's buffer, which cannot fail.
#[verifier::external_body]
pub(crate) fn simd_json_derive_writer(key: &str, value: &str, out: &mut Vec<u8>)
    requires
        plain_json_text(key@),
        plain_json_text(value@),
    ensures
        final(out)@ == old(out)@ + json_object_bytes(key@, value@),
{
    let mut map = std::collections::BTreeMap::new();
    map.insert(key.to_string(), value.to_string());
    simd_json_derive::Serialize::json_write(&map, &mut *out).unwrap()
}

} // verus!
