//! The canonical JSON form of a single-field object with a string value.
//!
//! All serialization strategies under measurement must produce exactly the
//! compact encoding `{"key":"value"}`.  This module gives that encoding a
//! mathematical definition, for text that needs no JSON escaping, and
//! verified builders for the expected character and byte sequences.

use vstd::prelude::*;

verus! {

use vstd::string::StringExecFns;
use vstd::string::StringSliceAdditionalSpecFns;

/// A character that every JSON serializer copies into a string literal
/// unchanged: printable ASCII other than the quote and the backslash.
pub open spec fn plain_json_char(c: char) -> bool {
    ' ' <= c && c <= '~' && c != '"' && c != '\\'
}

/// Text whose JSON string encoding is the text itself.
pub open spec fn plain_json_text(s: Seq<char>) -> bool {
    forall|i: int| 0 <= i < s.len() ==> plain_json_char(#[trigger] s[i])
}

/// The bytes of an ASCII character sequence, one byte per character.
pub open spec fn ascii_bytes_of(s: Seq<char>) -> Seq<u8> {
    Seq::new(s.len(), |i: int| s[i] as u8)
}

/// The compact JSON serialization, as characters, of an object holding one
/// string field: `{"key":"value"}`.
pub open spec fn json_object_chars(key: Seq<char>, value: Seq<char>) -> Seq<char> {
    seq!['{', '"'] + key + seq!['"', ':', '"'] + value + seq!['"', '}']
}

/// The compact JSON serialization of the same object, as bytes.
pub open spec fn json_object_bytes(key: Seq<char>, value: Seq<char>) -> Seq<u8> {
    ascii_bytes_of(json_object_chars(key, value))
}

/// Plain text is ASCII.
pub proof fn lemma_plain_is_ascii(s: Seq<char>)
    requires
        plain_json_text(s),
    ensures
        vstd::utf8::is_ascii_chars(s),
{
    assert forall|i: int| 0 <= i < s.len() implies '\0' <= #[trigger] s[i] <= '\u{7f}' by {
        assert(plain_json_char(s[i]));
    }
}

/// The one-field object over plain key and value is ASCII text.
pub proof fn lemma_json_object_chars_ascii(key: Seq<char>, value: Seq<char>)
    requires
        plain_json_text(key),
        plain_json_text(value),
    ensures
        vstd::utf8::is_ascii_chars(json_object_chars(key, value)),
{
    let s = json_object_chars(key, value);
    assert forall|i: int| 0 <= i < s.len() implies '\0' <= #[trigger] s[i] <= '\u{7f}' by {
        if 2 <= i < 2 + key.len() {
            assert(plain_json_char(key[i - 2]));
        } else if 5 + key.len() <= i < 5 + key.len() + value.len() {
            assert(plain_json_char(value[i - 5 - key.len()]));
        }
    }
}

/// Build the canonical byte encoding of the one-field object.
pub fn build_json_object_bytes(key: &str, value: &str) -> (r: Vec<u8>)
    requires
        plain_json_text(key@),
        plain_json_text(value@),
    ensures
        r@ == json_object_bytes(key@, value@),
{
    proof {
        lemma_plain_is_ascii(key@);
        lemma_plain_is_ascii(value@);
        vstd::string::is_ascii_spec_bytes(key);
        vstd::string::is_ascii_spec_bytes(value);
        assert(key.spec_bytes() =~= ascii_bytes_of(key@));
        assert(value.spec_bytes() =~= ascii_bytes_of(value@));
    }
    let mut out: Vec<u8> = Vec::new();
    out.push(123);
    out.push(34);
    out.extend_from_slice(key.as_bytes());
    out.push(34);
    out.push(58);
    out.push(34);
    out.extend_from_slice(value.as_bytes());
    out.push(34);
    out.push(125);
    proof {
        assert(out@ =~= json_object_bytes(key@, value@));
    }
    out
}

/// Build the canonical character encoding of the one-field object.
pub fn build_json_object_string(key: &str, value: &str) -> (r: String)
    ensures
        r@ == json_object_chars(key@, value@),
{
    let mut out = String::from_str("{\"");
    out.append(key);
    out.append("\":\"");
    out.append(value);
    out.append("\"}");
    proof {
        reveal_strlit("{\"");
        reveal_strlit("\":\"");
        reveal_strlit("\"}");
        assert(out@ =~= json_object_chars(key@, value@));
    }
    out
}

/// Whether two byte slices hold the same bytes.
pub fn bytes_equal(a: &[u8], b: &[u8]) -> (r: bool)
    ensures
        r == (a@ == b@),
{
    if a.len() != b.len() {
        proof {
            assert(a@.len() != b@.len());
        }
        return false;
    }
    let n: usize = a.len();
    let mut i: usize = 0;
    while i < n
        invariant
            n == a@.len() == b@.len(),
            0 <= i <= n,
            forall|j: int| 0 <= j < i ==> a@[j] == b@[j],
        decreases n - i,
    {
        if a[i] != b[i] {
            return false;
        }
        i = i + 1;
    }
    proof {
        assert(a@ =~= b@);
    }
    true
}

} // verus!
