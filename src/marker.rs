//! The viewed watermark as it is stored: a decimal number in a small text
//! file. Reading and writing the file is the caller's; this module turns the
//! number into text and text back into the number.
use vstd::prelude::*;

use crate::text::{
    all_digits, decimal, decimal_text, digits_value, is_digit, is_white_space,
    lemma_decimal_reads_back, parse_unsigned, parse_unsigned_str, trim_end, trim_start,
    trim_str, trimmed, unsigned_body,
};

verus! {

/// The watermark that stored text holds: the text without surrounding white
/// space, read as a `u64`; 0 where that fails.
pub open spec fn watermark_value(text: Seq<char>) -> nat {
    match parse_unsigned(trimmed(text), u64::MAX as nat) {
        Some(v) => v,
        None => 0,
    }
}

/// Reads a stored watermark; text that is not a number gives 0.
pub fn watermark_from_text(text: &str) -> (r: u64)
    ensures
        r == watermark_value(text@),
{
    let t = trim_str(text);
    match parse_unsigned_str(t, u64::MAX) {
        Some(v) => v,
        None => 0,
    }
}

/// The text that stores the watermark `id`.
pub fn watermark_text(id: u64) -> (r: String)
    ensures
        r@ == decimal(id as nat),
{
    decimal_text(id)
}

/// Storing a watermark and reading the stored text back gives the same
/// watermark.
pub proof fn lemma_watermark_round_trip(id: u64)
    ensures
        watermark_value(decimal(id as nat)) == id,
{
    let s = decimal(id as nat);
    lemma_decimal_reads_back(id as nat);
    assert(is_digit(s[0]));
    assert(!is_white_space(s[0]));
    assert(trim_start(s) == s);
    assert(is_digit(s.last()));
    assert(trim_end(s) == s);
    assert(trimmed(s) == s);
    assert(unsigned_body(s) == s);
    assert(all_digits(s));
    assert(digits_value(s) <= u64::MAX);
}

} // verus!
