//! Decimal and padded number text.

use vstd::prelude::*;
use vstd::string::StrSliceExecFns;

verus! {

/// The decimal digit character for a value below 10.
pub open spec fn digit_char(d: nat) -> char {
    (d + 48) as char
}

/// Decimal text of a natural number, without leading zeros.
pub open spec fn decimal(n: nat) -> Seq<char>
    decreases n,
{
    if n < 10 {
        seq![digit_char(n)]
    } else {
        decimal(n / 10) + seq![digit_char(n % 10)]
    }
}

/// Decimal text of an integer, with a leading `-` when negative.
pub open spec fn signed_decimal(n: int) -> Seq<char> {
    if n < 0 {
        seq!['-'] + decimal((-n) as nat)
    } else {
        decimal(n as nat)
    }
}

/// `text` right-aligned in a field of three characters.
pub open spec fn right_aligned3(text: Seq<char>) -> Seq<char> {
    if text.len() >= 3 {
        text
    } else if text.len() == 2 {
        seq![' '] + text
    } else {
        seq![' ', ' '] + text
    }
}

pub proof fn lemma_decimal_not_empty(n: nat)
    ensures
        decimal(n).len() >= 1,
    decreases n,
{
    if n >= 10 {
        lemma_decimal_not_empty(n / 10);
    }
}

/// Appends the decimal text of `n`.
pub fn push_decimal(text: &mut String, n: u64)
    ensures
        final(text)@ == old(text)@ + decimal(n as nat),
    decreases n,
{
    if n >= 10 {
        push_decimal(text, n / 10);
    }
    let digit = (n % 10) as u8;
    text.push((digit + 48) as char);
    assert(final(text)@ =~= old(text)@ + decimal(n as nat));
}

/// Appends the decimal text of `n`, with a leading `-` when negative.
pub fn push_signed_decimal(text: &mut String, n: i64)
    ensures
        final(text)@ == old(text)@ + signed_decimal(n as int),
{
    if n < 0 {
        text.push('-');
        let magnitude: u64 = ((-(n + 1)) as u64) + 1;
        push_decimal(text, magnitude);
        assert(final(text)@ =~= old(text)@ + signed_decimal(n as int));
    } else {
        push_decimal(text, n as u64);
    }
}

/// Decimal text of `n`.
pub fn decimal_text(n: u64) -> (text: String)
    ensures
        text@ == decimal(n as nat),
{
    let mut text = String::new();
    push_decimal(&mut text, n);
    assert(text@ =~= decimal(n as nat));
    text
}

/// Decimal text of `n` right-aligned in a field of three characters.
pub fn right_aligned3_decimal(n: u64) -> (text: String)
    ensures
        text@ == right_aligned3(decimal(n as nat)),
{
    let digits = decimal_text(n);
    let ghost d = digits@;
    let width = digits.as_str().unicode_len();
    proof {
        lemma_decimal_not_empty(n as nat);
    }
    if width >= 3 {
        digits
    } else {
        let mut text = String::new();
        if width == 2 {
            text.push(' ');
        } else {
            text.push(' ');
            text.push(' ');
        }
        text.push_str(digits.as_str());
        assert(text@ =~= right_aligned3(d));
        text
    }
}

} // verus!
