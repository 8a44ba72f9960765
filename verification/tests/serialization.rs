//! Every registered strategy must serialize the fixed record to the exact
//! canonical 26-byte sequence, through the real serialization crates.

use faf_json_bench::harness::serialize_record_bytes;
use faf_json_bench::strategies::Strategy;

const EXPECTED: &[u8] = b"{\"message\":\"Hello World!\"}";

fn check_strategy(strategy: Strategy) {
    let out = serialize_record_bytes(strategy).expect("serialization failed");
    assert_eq!(out.as_slice(), EXPECTED);
    assert_eq!(out.len(), 26);
}

#[test]
fn serde_json_to_vec_exact_output() {
    check_strategy(Strategy::SerdeJsonToVec);
}

#[test]
fn serde_json_to_writer_exact_output() {
    check_strategy(Strategy::SerdeJsonToWriter);
}

#[test]
fn serde_json_core_to_vec_exact_output() {
    check_strategy(Strategy::SerdeJsonCoreToVec);
}

#[test]
fn serde_json_core_to_slice_exact_output() {
    check_strategy(Strategy::SerdeJsonCoreToSlice);
}

#[test]
fn nanoserde_serialize_json_exact_output() {
    check_strategy(Strategy::NanoserdeSerializeJson);
}

#[test]
fn nanoserde_ser_json_exact_output() {
    check_strategy(Strategy::NanoserdeSerJson);
}

#[test]
fn simd_json_to_vec_exact_output() {
    check_strategy(Strategy::SimdJsonToVec);
}

#[test]
fn simd_json_to_writer_exact_output() {
    check_strategy(Strategy::SimdJsonToWriter);
}

#[test]
fn simd_json_derive_json_vec_exact_output() {
    check_strategy(Strategy::SimdJsonDeriveJsonVec);
}

#[test]
fn simd_json_derive_to_writer_exact_output() {
    check_strategy(Strategy::SimdJsonDeriveJsonWrite);
}

#[test]
fn repeated_serialization_is_deterministic() {
    for _ in 0..100 {
        check_strategy(Strategy::SerdeJsonToVec);
        check_strategy(Strategy::NanoserdeSerJson);
        check_strategy(Strategy::SimdJsonDeriveJsonVec);
    }
}

#[test]
fn expected_buffers_hold_canonical_encoding() {
    let bufs = faf_json_bench::harness::new_buffers();
    assert_eq!(bufs.expected.as_slice(), EXPECTED);
    assert_eq!(bufs.expected_text, "{\"message\":\"Hello World!\"}");
    assert!(bufs.writer.is_empty());
    assert!(bufs.text.is_empty());
    assert_eq!(bufs.slab.len(), 26);
}
