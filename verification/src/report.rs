//! The reporter: throughput computation and line formatting.
//!
//! The rate is the byte total divided by the configured duration, rounded
//! to the nearest integer with ties to even; a zero duration falls back to
//! the raw total so the reporter can never fail.  The rate is rendered with
//! thousands separators, and each strategy gets one fixed-width line.

use vstd::prelude::*;

verus! {

use vstd::string::StringExecFns;
use vstd::string::StrSliceExecFns;
use crate::harness::RunResult;
use crate::strategies::label_spec;

/// The width of the label column.
pub const LABEL_WIDTH: usize = 26;

/// The width of the rate column.
pub const RATE_WIDTH: usize = 13;

/// The throughput figure: bytes per second, rounded to the nearest integer
/// with ties to even.  A zero duration yields the raw byte total, so that a
/// degenerate configuration still reports without a division error.
pub open spec fn rate_of(total: nat, dur: nat) -> nat {
    if dur == 0 {
        total
    } else {
        let q = total / dur;
        let twice_rem = 2 * (total % dur);
        if twice_rem > dur || (twice_rem == dur && q % 2 == 1) {
            q + 1
        } else {
            q
        }
    }
}

/// The decimal digit character of a value under ten.
pub open spec fn digit_char(d: nat) -> char
    recommends
        d < 10,
{
    ((48 + d) as u8) as char
}

/// The decimal digits of a number, most significant first.
pub open spec fn dec_digits(n: nat) -> Seq<char>
    decreases n,
{
    if n < 10 {
        seq![digit_char(n)]
    } else {
        dec_digits(n / 10).push(digit_char(n % 10))
    }
}

/// Digits with a comma before every group of three, counted from the right.
pub open spec fn grouped(s: Seq<char>) -> Seq<char>
    decreases s.len(),
{
    if s.len() <= 3 {
        s
    } else {
        grouped(s.take(s.len() - 3)) + seq![','] + s.skip(s.len() - 3)
    }
}

/// A run of spaces.
pub open spec fn spaces(n: nat) -> Seq<char> {
    Seq::new(n, |i: int| ' ')
}

/// Text padded with trailing spaces up to a column width.
pub open spec fn pad_right(s: Seq<char>, w: nat) -> Seq<char> {
    if s.len() >= w {
        s
    } else {
        s + spaces((w - s.len()) as nat)
    }
}

/// Text padded with leading spaces up to a column width.
pub open spec fn pad_left(s: Seq<char>, w: nat) -> Seq<char> {
    if s.len() >= w {
        s
    } else {
        spaces((w - s.len()) as nat) + s
    }
}

/// One throughput line: the label left-aligned in its column, the grouped
/// rate right-aligned in its column, and the unit suffix.
pub open spec fn report_line_spec(label: Seq<char>, total: nat, dur: nat) -> Seq<char> {
    pad_right(label, LABEL_WIDTH as nat) + seq![' '] + pad_left(
        grouped(dec_digits(rate_of(total, dur))),
        RATE_WIDTH as nat,
    ) + " bytes/sec"@
}

/// Relies on String::push: it appends exactly the one character.
#[verifier::external_body]
fn string_push(s: &mut String, c: char)
    ensures
        final(s)@ == old(s)@.push(c),
{
    s.push(c)
}

/// The rounded throughput figure, with the zero-duration fallback.
pub fn compute_rate(total_bytes: u64, duration_seconds: u64) -> (r: u64)
    ensures
        r == rate_of(total_bytes as nat, duration_seconds as nat),
{
    if duration_seconds == 0 {
        return total_bytes;
    }
    let q = total_bytes / duration_seconds;
    let rem = total_bytes % duration_seconds;
    if rem >= duration_seconds - rem && (rem > duration_seconds - rem || q % 2 == 1) {
        proof {
            vstd::arithmetic::div_mod::lemma_fundamental_div_mod(
                total_bytes as int,
                duration_seconds as int,
            );
            vstd::arithmetic::mul::lemma_mul_inequality(1, duration_seconds as int, q as int);
        }
        q + 1
    } else {
        q
    }
}

/// The character of one decimal digit.
fn digit_to_char(d: u64) -> (c: char)
    requires
        d < 10,
    ensures
        c == digit_char(d as nat),
{
    (48 + d as u8) as char
}

/// Append the decimal digits of a number, most significant first.
fn push_digits(n: u64, out: &mut String)
    ensures
        final(out)@ == old(out)@ + dec_digits(n as nat),
    decreases n,
{
    if n < 10 {
        string_push(out, digit_to_char(n));
        proof {
            assert(out@ =~= old(out)@ + dec_digits(n as nat));
        }
    } else {
        push_digits(n / 10, out);
        string_push(out, digit_to_char(n % 10));
        proof {
            assert(out@ =~= old(out)@ + dec_digits(n as nat));
        }
    }
}

/// Append a prefix of the digit vector, commas inserted before every group
/// of three counted from the right end of the prefix.
fn push_grouped_prefix(digits: &Vec<char>, len: usize, out: &mut String)
    requires
        len <= digits@.len(),
    ensures
        final(out)@ == old(out)@ + grouped(digits@.take(len as int)),
    decreases len,
{
    if len <= 3 {
        let mut i: usize = 0;
        while i < len
            invariant
                i <= len <= digits@.len(),
                out@ == old(out)@ + digits@.take(i as int),
            decreases len - i,
        {
            string_push(out, digits[i]);
            proof {
                assert(out@ =~= old(out)@ + digits@.take(i + 1));
            }
            i = i + 1;
        }
        proof {
            assert(grouped(digits@.take(len as int)) == digits@.take(len as int));
        }
    } else {
        push_grouped_prefix(digits, len - 3, out);
        string_push(out, ',');
        string_push(out, digits[len - 3]);
        string_push(out, digits[len - 2]);
        string_push(out, digits[len - 1]);
        proof {
            let t = digits@.take(len as int);
            assert(t.take(len - 3) =~= digits@.take(len - 3));
            assert(out@ =~= old(out)@ + (grouped(t.take(len - 3)) + seq![','] + t.skip(
                len - 3,
            )));
        }
    }
}

/// A number rendered with thousands separators.
pub fn format_grouped(n: u64) -> (r: String)
    ensures
        r@ == grouped(dec_digits(n as nat)),
{
    let mut digits: Vec<char> = Vec::new();
    let mut digit_string = String::new();
    push_digits(n, &mut digit_string);
    let mut i: usize = 0;
    let ds = digit_string.as_str();
    let digit_count = ds.unicode_len();
    while i < digit_count
        invariant
            digit_count == ds@.len(),
            ds@ == dec_digits(n as nat),
            i <= digit_count,
            digits@ == ds@.take(i as int),
        decreases digit_count - i,
    {
        digits.push(ds.get_char(i));
        proof {
            assert(digits@ =~= ds@.take(i + 1));
        }
        i = i + 1;
    }
    proof {
        assert(digits@ =~= dec_digits(n as nat));
    }
    let mut out = String::new();
    push_grouped_prefix(&digits, digits.len(), &mut out);
    proof {
        assert(digits@.take(digits@.len() as int) =~= digits@);
    }
    out
}

/// Append a run of spaces.
fn push_spaces(out: &mut String, k: usize)
    ensures
        final(out)@ == old(out)@ + spaces(k as nat),
{
    let mut i: usize = 0;
    while i < k
        invariant
            i <= k,
            out@ == old(out)@ + spaces(i as nat),
        decreases k - i,
    {
        string_push(out, ' ');
        proof {
            assert(out@ =~= old(out)@ + spaces((i + 1) as nat));
        }
        i = i + 1;
    }
}

/// One formatted throughput line for a label and a byte total.
pub fn report_line(label: &str, total_bytes: u64, duration_seconds: u64) -> (r: String)
    ensures
        r@ == report_line_spec(label@, total_bytes as nat, duration_seconds as nat),
{
    let rate = compute_rate(total_bytes, duration_seconds);
    let rate_text = format_grouped(rate);
    let mut out = String::new();
    out.append(label);
    let label_len = label.unicode_len();
    if label_len < LABEL_WIDTH {
        push_spaces(&mut out, LABEL_WIDTH - label_len);
    }
    string_push(&mut out, ' ');
    let rate_len = rate_text.as_str().unicode_len();
    if rate_len < RATE_WIDTH {
        push_spaces(&mut out, RATE_WIDTH - rate_len);
    }
    out.append(rate_text.as_str());
    out.append(" bytes/sec");
    proof {
        assert(out@ =~= report_line_spec(label@, total_bytes as nat, duration_seconds as nat));
    }
    out
}

/// One formatted line per result, in the order the results were produced.
pub fn report_results(results: &Vec<RunResult>, duration_seconds: u64) -> (r: Vec<String>)
    ensures
        r@.len() == results@.len(),
        forall|i: int|
            0 <= i < r@.len() ==> (#[trigger] r@[i])@ == report_line_spec(
                label_spec(results@[i].strategy),
                results@[i].byte_count as nat,
                duration_seconds as nat,
            ),
{
    let mut lines: Vec<String> = Vec::new();
    let mut i: usize = 0;
    while i < results.len()
        invariant
            i <= results@.len(),
            lines@.len() == i,
            forall|j: int|
                0 <= j < i ==> (#[trigger] lines@[j])@ == report_line_spec(
                    label_spec(results@[j].strategy),
                    results@[j].byte_count as nat,
                    duration_seconds as nat,
                ),
        decreases results@.len() - i,
    {
        let res = results[i];
        lines.push(report_line(res.strategy.label(), res.byte_count, duration_seconds));
        i = i + 1;
    }
    lines
}

} // verus!
