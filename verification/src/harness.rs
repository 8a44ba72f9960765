//! The benchmark harness: per-iteration serialization with correctness
//! checking, and the wall-clock timing loop.
//!
//! Every iteration builds a fresh record, serializes it through one
//! strategy, validates the produced buffer against the canonical encoding,
//! and reports the produced length.  The timing loop samples the clock
//! before each iteration and stops once the configured budget has elapsed;
//! the check-then-run policy means a run may overshoot the deadline by at
//! most one iteration.

use vstd::prelude::*;

verus! {

use crate::json::bytes_equal;
use crate::record::{
    MessageSerdeJson, MessageNanoserde, MessageSimdJsonDerive, expected_record_bytes,
    expected_record_chars, record_field, record_text, lemma_record_constants,
    hello_world_json_bytes, hello_world_json_string, EXPECTED_RECORD_LEN,
};
use crate::strategies::{
    Strategy, strategy_order, all_strategies, serde_json_vec, serde_json_writer,
    serde_json_core_vec, serde_json_core_slice, nanoserde_string, nanoserde_state, simd_json_vec,
    simd_json_writer, simd_json_derive_vec, simd_json_derive_writer,
};
use crate::clock::{Timespec, get_epoch_nanos};

/// Why a benchmark run stopped without a throughput figure.
#[derive(Clone, Copy, PartialEq, Eq, Structural, Debug)]
pub enum BenchError {
    /// A strategy produced output that differs from the canonical encoding.
    CorrectnessMismatch,
    /// A strategy's serialization call reported its own failure.
    SerializationFailure,
}

/// The per-strategy accumulator handed to the reporter.
#[derive(Clone, Copy, Debug)]
pub struct RunResult {
    /// The strategy that was measured.
    pub strategy: Strategy,
    /// The total number of bytes the strategy produced within the budget.
    pub byte_count: u64,
    /// The clock distance, in nanoseconds, between the first and the last
    /// sample of the strategy's loop.
    pub elapsed_nanos: u64,
}

/// The largest duration whose nanosecond budget fits in a 64-bit counter.
pub const MAX_DURATION_SECONDS: u64 = u64::MAX / 1_000_000_000;

/// The reusable buffers of one strategy loop, together with the canonical
/// expected output that every iteration is checked against.
pub struct BenchBuffers {
    /// The byte buffer reused by the writer-based strategies.
    pub writer: Vec<u8>,
    /// The text buffer reused by the state-based nanoserde strategy.
    pub text: String,
    /// The fixed-size buffer of the slice-based strategy; its length never
    /// changes and its contents are fully overwritten on every fit.
    pub slab: Vec<u8>,
    /// The canonical expected bytes.
    pub expected: Vec<u8>,
    /// The canonical expected text.
    pub expected_text: String,
}

impl BenchBuffers {
    /// The buffers are ready for an iteration: reusable buffers empty, the
    /// slab at the canonical length, and the expected values canonical.
    pub open spec fn ready(self) -> bool {
        &&& self.writer@.len() == 0
        &&& self.text@.len() == 0
        &&& self.slab@.len() == EXPECTED_RECORD_LEN
        &&& self.expected@ == expected_record_bytes()
        &&& self.expected_text@ == expected_record_chars()
    }
}

/// Fresh buffers for one strategy loop.
pub fn new_buffers() -> (r: BenchBuffers)
    ensures
        r.ready(),
{
    proof {
        lemma_record_constants();
    }
    BenchBuffers {
        writer: Vec::with_capacity(26),
        text: String::new(),
        slab: vec![0u8; 26],
        expected: hello_world_json_bytes(),
        expected_text: hello_world_json_string(),
    }
}

/// Relies on String::clear: it empties the string while keeping its
/// allocated capacity, so a reused text buffer does not reallocate.
#[verifier::external_body]
fn string_clear(s: &mut String)
    ensures
        final(s)@ == Seq::<char>::empty(),
{
    s.clear()
}

/// The harness's correctness assertion: produced output must equal the
/// canonical encoding byte for byte, else the run is a correctness failure.
pub fn validate_record_output(produced: &[u8], expected: &[u8]) -> (r: Result<(), BenchError>)
    ensures
        r is Ok <==> produced@ == expected@,
        r matches Err(e) ==> e == BenchError::CorrectnessMismatch,
{
    if bytes_equal(produced, expected) {
        Ok(())
    } else {
        Err(BenchError::CorrectnessMismatch)
    }
}

/// The produced text of a string-based strategy is ASCII, so its byte
/// length equals its character count.
proof fn lemma_expected_text_byte_len(s: Seq<char>)
    requires
        s == expected_record_chars(),
    ensures
        vstd::utf8::encode_utf8(s).len() == EXPECTED_RECORD_LEN,
{
    lemma_record_constants();
    crate::json::lemma_json_object_chars_ascii(record_field(), record_text());
    vstd::utf8::is_ascii_chars_encode_utf8(s);
}

/// Run one iteration of a strategy: build a fresh record, serialize it,
/// validate the output, and return the number of bytes produced.
pub fn bench_iteration(strategy: Strategy, bufs: &mut BenchBuffers) -> (r: Result<u64, BenchError>)
    requires
        old(bufs).ready(),
    ensures
        final(bufs).ready(),
        r is Ok,
        r matches Ok(n) ==> n == EXPECTED_RECORD_LEN,
{
    proof {
        lemma_record_constants();
    }
    match strategy {
        Strategy::SerdeJsonToVec => {
            let rec = MessageSerdeJson::fresh();
            let out = serde_json_vec("message", rec.message);
            if let Err(e) = validate_record_output(out.as_slice(), bufs.expected.as_slice()) {
                return Err(e);
            }
            Ok(out.len() as u64)
        },
        Strategy::SerdeJsonToWriter => {
            let rec = MessageSerdeJson::fresh();
            serde_json_writer("message", rec.message, &mut bufs.writer);
            if let Err(e) = validate_record_output(
                bufs.writer.as_slice(),
                bufs.expected.as_slice(),
            ) {
                return Err(e);
            }
            let n = bufs.writer.len();
            bufs.writer.clear();
            Ok(n as u64)
        },
        Strategy::SerdeJsonCoreToVec => {
            let rec = MessageSerdeJson::fresh();
            match serde_json_core_vec("message", rec.message) {
                None => Err(BenchError::SerializationFailure),
                Some(out) => {
                    if let Err(e) = validate_record_output(
                        out.as_slice(),
                        bufs.expected.as_slice(),
                    ) {
                        return Err(e);
                    }
                    Ok(out.len() as u64)
                },
            }
        },
        Strategy::SerdeJsonCoreToSlice => {
            let rec = MessageSerdeJson::fresh();
            match serde_json_core_slice("message", rec.message, &mut bufs.slab) {
                None => Err(BenchError::SerializationFailure),
                Some(n) => {
                    proof {
                        assert(bufs.slab@ =~= bufs.slab@.subrange(0, 26));
                    }
                    if let Err(e) = validate_record_output(
                        bufs.slab.as_slice(),
                        bufs.expected.as_slice(),
                    ) {
                        return Err(e);
                    }
                    Ok(n as u64)
                },
            }
        },
        Strategy::NanoserdeSerializeJson => {
            let rec = MessageNanoserde::fresh();
            let out = nanoserde_string("message", rec.message);
            if !(out == bufs.expected_text) {
                return Err(BenchError::CorrectnessMismatch);
            }
            let n = out.as_str().len();
            proof {
                lemma_expected_text_byte_len(out@);
            }
            Ok(n as u64)
        },
        Strategy::NanoserdeSerJson => {
            let rec = MessageNanoserde::fresh();
            nanoserde_state("message", rec.message, &mut bufs.text);
            if !(bufs.text == bufs.expected_text) {
                return Err(BenchError::CorrectnessMismatch);
            }
            let n = bufs.text.as_str().len();
            proof {
                lemma_expected_text_byte_len(bufs.text@);
            }
            string_clear(&mut bufs.text);
            Ok(n as u64)
        },
        Strategy::SimdJsonToVec => {
            let rec = MessageSerdeJson::fresh();
            let out = simd_json_vec("message", rec.message);
            if let Err(e) = validate_record_output(out.as_slice(), bufs.expected.as_slice()) {
                return Err(e);
            }
            Ok(out.len() as u64)
        },
        Strategy::SimdJsonToWriter => {
            let rec = MessageSerdeJson::fresh();
            simd_json_writer("message", rec.message, &mut bufs.writer);
            if let Err(e) = validate_record_output(
                bufs.writer.as_slice(),
                bufs.expected.as_slice(),
            ) {
                return Err(e);
            }
            let n = bufs.writer.len();
            bufs.writer.clear();
            Ok(n as u64)
        },
        Strategy::SimdJsonDeriveJsonVec => {
            let rec = MessageSimdJsonDerive::fresh();
            let out = simd_json_derive_vec("message", rec.message);
            if let Err(e) = validate_record_output(out.as_slice(), bufs.expected.as_slice()) {
                return Err(e);
            }
            Ok(out.len() as u64)
        },
        Strategy::SimdJsonDeriveJsonWrite => {
            let rec = MessageSimdJsonDerive::fresh();
            simd_json_derive_writer("message", rec.message, &mut bufs.writer);
            if let Err(e) = validate_record_output(
                bufs.writer.as_slice(),
                bufs.expected.as_slice(),
            ) {
                return Err(e);
            }
            let n = bufs.writer.len();
            bufs.writer.clear();
            Ok(n as u64)
        },
    }
}

/// Serialize the fixed record once through a strategy, with fresh buffers,
/// and hand back the produced bytes.
pub fn serialize_record_bytes(strategy: Strategy) -> (r: Result<Vec<u8>, BenchError>)
    ensures
        r is Ok,
        r matches Ok(v) ==> v@ == expected_record_bytes(),
{
    proof {
        lemma_record_constants();
    }
    match strategy {
        Strategy::SerdeJsonToVec => Ok(serde_json_vec("message", "Hello World!")),
        Strategy::SerdeJsonToWriter => {
            let mut out: Vec<u8> = Vec::new();
            serde_json_writer("message", "Hello World!", &mut out);
            Ok(out)
        },
        Strategy::SerdeJsonCoreToVec => {
            match serde_json_core_vec("message", "Hello World!") {
                None => Err(BenchError::SerializationFailure),
                Some(out) => Ok(out),
            }
        },
        Strategy::SerdeJsonCoreToSlice => {
            let mut slab: Vec<u8> = vec![0u8; 26];
            match serde_json_core_slice("message", "Hello World!", &mut slab) {
                None => Err(BenchError::SerializationFailure),
                Some(_) => {
                    proof {
                        assert(slab@ =~= slab@.subrange(0, 26));
                    }
                    Ok(slab)
                },
            }
        },
        Strategy::NanoserdeSerializeJson => {
            let out = nanoserde_string("message", "Hello World!");
            proof {
                crate::json::lemma_plain_is_ascii(record_field());
                crate::json::lemma_plain_is_ascii(record_text());
                crate::json::lemma_json_object_chars_ascii(record_field(), record_text());
                vstd::utf8::is_ascii_chars_encode_utf8(out@);
            }
            Ok(out.as_str().as_bytes_vec())
        },
        Strategy::NanoserdeSerJson => {
            let mut text = String::new();
            nanoserde_state("message", "Hello World!", &mut text);
            proof {
                crate::json::lemma_json_object_chars_ascii(record_field(), record_text());
                vstd::utf8::is_ascii_chars_encode_utf8(text@);
            }
            Ok(text.as_str().as_bytes_vec())
        },
        Strategy::SimdJsonToVec => Ok(simd_json_vec("message", "Hello World!")),
        Strategy::SimdJsonToWriter => {
            let mut out: Vec<u8> = Vec::new();
            simd_json_writer("message", "Hello World!", &mut out);
            Ok(out)
        },
        Strategy::SimdJsonDeriveJsonVec => Ok(simd_json_derive_vec("message", "Hello World!")),
        Strategy::SimdJsonDeriveJsonWrite => {
            let mut out: Vec<u8> = Vec::new();
            simd_json_derive_writer("message", "Hello World!", &mut out);
            Ok(out)
        },
    }
}

/// Run one strategy's timed loop: sample the clock, serialize and validate
/// until the nanosecond budget has elapsed, and accumulate the bytes
/// produced.  The deadline is checked before each iteration, so the loop
/// never stops early and overshoots by at most one iteration.
pub fn run_strategy(strategy: Strategy, duration_seconds: u64) -> (r: Result<RunResult, BenchError>)
    requires
        duration_seconds <= MAX_DURATION_SECONDS,
    ensures
        r is Ok,
        r matches Ok(res) ==> {
            &&& res.strategy == strategy
            &&& res.byte_count % EXPECTED_RECORD_LEN == 0
            &&& (res.elapsed_nanos > duration_seconds * 1_000_000_000 || res.byte_count
                > u64::MAX - EXPECTED_RECORD_LEN)
        },
{
    let mut ts = Timespec { tv_sec: 0, tv_nsec: 0 };
    let mut bufs = new_buffers();
    let budget: u64 = duration_seconds * 1_000_000_000;
    let start: u64 = get_epoch_nanos(&mut ts);
    let mut byte_count: u64 = 0;
    let mut elapsed: u64 = 0;
    loop
        invariant_except_break
            bufs.ready(),
            byte_count % EXPECTED_RECORD_LEN == 0,
        ensures
            byte_count % EXPECTED_RECORD_LEN == 0,
            elapsed > budget || byte_count > u64::MAX - EXPECTED_RECORD_LEN,
        decreases u64::MAX - byte_count,
    {
        let now = get_epoch_nanos(&mut ts);
        elapsed = now.saturating_sub(start);
        if elapsed > budget {
            break;
        }
        if byte_count > u64::MAX - EXPECTED_RECORD_LEN {
            break;
        }
        match bench_iteration(strategy, &mut bufs) {
            Ok(n) => {
                byte_count = byte_count + n;
            },
            Err(e) => {
                return Err(e);
            },
        }
    }
    Ok(RunResult { strategy, byte_count, elapsed_nanos: elapsed })
}

/// Run every registered strategy once, sequentially and independently, in
/// registration order.  Each strategy's loop ran until its own deadline had
/// elapsed (or, in principle only, until its byte counter neared overflow).
pub fn run_all(duration_seconds: u64) -> (r: Result<Vec<RunResult>, BenchError>)
    requires
        duration_seconds <= MAX_DURATION_SECONDS,
    ensures
        r is Ok,
        r matches Ok(results) ==> {
            &&& results@.len() == strategy_order().len()
            &&& forall|i: int|
                0 <= i < results@.len() ==> (#[trigger] results@[i]).strategy == strategy_order()[i]
                    && results@[i].byte_count % EXPECTED_RECORD_LEN == 0
            &&& forall|i: int|
                0 <= i < results@.len() ==> (#[trigger] results@[i]).elapsed_nanos
                    > duration_seconds * 1_000_000_000 || results@[i].byte_count > u64::MAX
                    - EXPECTED_RECORD_LEN
        },
{
    let list = all_strategies();
    let mut results: Vec<RunResult> = Vec::new();
    let mut i: usize = 0;
    while i < list.len()
        invariant
            list@ == strategy_order(),
            0 <= i <= list@.len(),
            results@.len() == i,
            duration_seconds <= MAX_DURATION_SECONDS,
            forall|j: int|
                0 <= j < i ==> (#[trigger] results@[j]).strategy == strategy_order()[j]
                    && results@[j].byte_count % EXPECTED_RECORD_LEN == 0,
            forall|j: int|
                0 <= j < i ==> (#[trigger] results@[j]).elapsed_nanos > duration_seconds
                    * 1_000_000_000 || results@[j].byte_count > u64::MAX - EXPECTED_RECORD_LEN,
        decreases list@.len() - i,
    {
        let s = list[i];
        match run_strategy(s, duration_seconds) {
            Ok(res) => results.push(res),
            Err(e) => {
                return Err(e);
            },
        }
        i = i + 1;
    }
    Ok(results)
}

} // verus!
