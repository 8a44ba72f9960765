//! The fixed record under measurement and its canonical serialization.
//!
//! Every strategy serializes a fresh single-field record whose only field,
//! `message`, holds the constant text `Hello World!`.  The canonical output
//! is the 26-byte compact encoding `{"message":"Hello World!"}`.

use vstd::prelude::*;

verus! {

use crate::json::{
    plain_json_char, plain_json_text, json_object_chars, json_object_bytes,
    build_json_object_bytes, build_json_object_string,
};

/// The name of the record's one field.
pub open spec fn record_field() -> Seq<char> {
    "message"@
}

/// The constant text the field holds.
pub open spec fn record_text() -> Seq<char> {
    "Hello World!"@
}

/// The canonical serialization of the fixed record, as characters.
pub open spec fn expected_record_chars() -> Seq<char> {
    json_object_chars(record_field(), record_text())
}

/// The canonical serialization of the fixed record, as bytes.
pub open spec fn expected_record_bytes() -> Seq<u8> {
    json_object_bytes(record_field(), record_text())
}

/// The length of the canonical serialization.
pub const EXPECTED_RECORD_LEN: u64 = 26;

/// The field name and text are plain JSON text of known length, so the
/// canonical serialization holds exactly 26 characters, one byte each.
pub proof fn lemma_record_constants()
    ensures
        plain_json_text(record_field()),
        plain_json_text(record_text()),
        record_field().len() == 7,
        record_text().len() == 12,
        expected_record_chars().len() == EXPECTED_RECORD_LEN,
        expected_record_bytes().len() == EXPECTED_RECORD_LEN,
{
    reveal_strlit("message");
    reveal_strlit("Hello World!");
    assert(record_field() =~= seq!['m', 'e', 's', 's', 'a', 'g', 'e']);
    assert(record_text() =~= seq!['H', 'e', 'l', 'l', 'o', ' ', 'W', 'o', 'r', 'l', 'd', '!']);
    assert forall|i: int| 0 <= i < record_field().len() implies plain_json_char(
        #[trigger] record_field()[i],
    ) by {
        assert(record_field() =~= seq!['m', 'e', 's', 's', 'a', 'g', 'e']);
    }
    assert forall|i: int| 0 <= i < record_text().len() implies plain_json_char(
        #[trigger] record_text()[i],
    ) by {
        assert(record_text() =~= seq!['H', 'e', 'l', 'l', 'o', ' ', 'W', 'o', 'r', 'l', 'd', '!']);
    }
}

/// The canonical serialization of the fixed record is exactly the constant
/// 26-byte sequence spelling `{"message":"Hello World!"}`, so every
/// strategy's contract pins its output to that constant.
pub proof fn lemma_expected_record_bytes_value()
    ensures
        expected_record_bytes() =~= seq![
            123u8,
            34,
            109,
            101,
            115,
            115,
            97,
            103,
            101,
            34,
            58,
            34,
            72,
            101,
            108,
            108,
            111,
            32,
            87,
            111,
            114,
            108,
            100,
            33,
            34,
            125,
        ],
{
    lemma_record_constants();
    reveal_strlit("message");
    reveal_strlit("Hello World!");
    assert(record_field() =~= seq!['m', 'e', 's', 's', 'a', 'g', 'e']);
    assert(record_text() =~= seq!['H', 'e', 'l', 'l', 'o', ' ', 'W', 'o', 'r', 'l', 'd', '!']);
}

/// The record handed to the serde_json strategies.
pub struct MessageSerdeJson {
    pub message: &'static str,
}

impl MessageSerdeJson {
    /// A fresh record, rebuilt on every iteration so that no strategy is
    /// handed a pre-warmed structure.
    pub fn fresh() -> (r: Self)
        ensures
            r.message@ == record_text(),
    {
        MessageSerdeJson { message: "Hello World!" }
    }
}

/// The record handed to the nanoserde strategies.
pub struct MessageNanoserde {
    pub message: &'static str,
}

impl MessageNanoserde {
    /// A fresh record for one iteration.
    pub fn fresh() -> (r: Self)
        ensures
            r.message@ == record_text(),
    {
        MessageNanoserde { message: "Hello World!" }
    }
}

/// The record handed to the simd-json strategies.
pub struct MessageSimdJsonDerive {
    pub message: &'static str,
}

impl MessageSimdJsonDerive {
    /// A fresh record for one iteration.
    pub fn fresh() -> (r: Self)
        ensures
            r.message@ == record_text(),
    {
        MessageSimdJsonDerive { message: "Hello World!" }
    }
}

/// The canonical expected bytes, built once per run.
pub fn hello_world_json_bytes() -> (r: Vec<u8>)
    ensures
        r@ == expected_record_bytes(),
        r@.len() == EXPECTED_RECORD_LEN,
{
    proof {
        lemma_record_constants();
    }
    build_json_object_bytes("message", "Hello World!")
}

/// The canonical expected text, built once per run.
pub fn hello_world_json_string() -> (r: String)
    ensures
        r@ == expected_record_chars(),
        r@.len() == EXPECTED_RECORD_LEN,
{
    proof {
        lemma_record_constants();
    }
    build_json_object_string("message", "Hello World!")
}

} // verus!
