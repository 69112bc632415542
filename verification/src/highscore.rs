//! The stored high score: a single decimal integer, written as text.
//!
//! The text that is accepted is an optional `+` followed by one or more ASCII digits whose
//! value fits in 32 bits; nothing else may surround them. Anything that is not read this
//! way counts as a high score of zero.

use vstd::prelude::*;

verus! {

/// The byte of the digit zero.
pub const DIGIT_ZERO: u8 = 48;

/// The byte of the plus sign.
pub const PLUS_SIGN: u8 = 43;

/// Whether `byte` is one of the ASCII digits.
pub open spec fn is_digit(byte: u8) -> bool {
    DIGIT_ZERO <= byte <= DIGIT_ZERO + 9
}

/// The number that a digit stands for; zero for any other byte.
pub open spec fn digit_value(byte: u8) -> nat {
    if is_digit(byte) {
        (byte - DIGIT_ZERO) as nat
    } else {
        0
    }
}

/// Whether every byte of `text` is a digit.
pub open spec fn all_digits(text: Seq<u8>) -> bool {
    forall|i: int| 0 <= i < text.len() ==> is_digit(#[trigger] text[i])
}

/// The number written by a run of digits, most significant digit first.
pub open spec fn digits_value(text: Seq<u8>) -> nat
    decreases text.len(),
{
    if text.len() == 0 {
        0
    } else {
        digits_value(text.drop_last()) * 10 + digit_value(text.last())
    }
}

/// `text` without a plus sign in front.
pub open spec fn without_sign(text: Seq<u8>) -> Seq<u8> {
    if text.len() > 0 && text[0] == PLUS_SIGN {
        text.skip(1)
    } else {
        text
    }
}

/// The number that `text` holds, if it is a decimal integer that fits in 32 bits.
pub open spec fn decimal_value(text: Seq<u8>) -> Option<u32> {
    let digits = without_sign(text);
    if digits.len() > 0 && all_digits(digits) && digits_value(digits) <= u32::MAX {
        Some(digits_value(digits) as u32)
    } else {
        None
    }
}

/// The decimal digits of `n`, without a sign and without leading zeros.
pub open spec fn decimal_digits(n: nat) -> Seq<u8>
    decreases n,
{
    if n < 10 {
        seq![(DIGIT_ZERO + n) as u8]
    } else {
        decimal_digits(n / 10).push((DIGIT_ZERO + n % 10) as u8)
    }
}

/// The high score that a file's contents stand for: the number they hold, and zero where
/// the file is missing or holds anything else.
pub open spec fn stored_high_score(contents: Option<Seq<u8>>) -> u32 {
    match contents {
        Some(text) => match decimal_value(text) {
            Some(score) => score,
            None => 0,
        },
        None => 0,
    }
}

/// A run of digits is worth at least as much as any of its prefixes.
proof fn lemma_prefix_value(text: Seq<u8>, k: int)
    requires
        0 <= k <= text.len(),
    ensures
        digits_value(text.take(k)) <= digits_value(text),
    decreases text.len() - k,
{
    if k == text.len() {
        assert(text.take(k) =~= text);
    } else {
        lemma_prefix_value(text.drop_last(), k);
        assert(text.drop_last().take(k) =~= text.take(k));
    }
}

/// The digits written for `n` are a non-empty run of digits worth `n`.
proof fn lemma_digits_of(n: nat)
    ensures
        decimal_digits(n).len() > 0,
        all_digits(decimal_digits(n)),
        digits_value(decimal_digits(n)) == n,
    decreases n,
{
    let text = decimal_digits(n);
    if n < 10 {
        assert(text.drop_last() =~= Seq::<u8>::empty());
        assert(digits_value(text.drop_last()) == 0);
    } else {
        lemma_digits_of(n / 10);
        assert(text.drop_last() =~= decimal_digits(n / 10));
    }
}

/// A high score that was written is read back unchanged: the digits written for `score`
/// hold the number `score`.
pub proof fn lemma_high_score_round_trip(score: u32)
    ensures
        decimal_value(decimal_digits(score as nat)) == Some(score),
        stored_high_score(Some(decimal_digits(score as nat))) == score,
{
    lemma_digits_of(score as nat);
}

/// Reads a decimal integer.
pub fn parse_decimal(text: &[u8]) -> (value: Option<u32>)
    ensures
        value == decimal_value(text@),
{
    let len: usize = text.len();
    let start: usize = if len > 0 && text[0] == PLUS_SIGN { 1 } else { 0 };
    let ghost digits: Seq<u8> = without_sign(text@);
    assert(digits =~= text@.skip(start as int));
    if start == len {
        return None;
    }
    let mut value: u32 = 0;
    let mut i: usize = start;
    while i < len
        invariant
            start <= i <= len,
            len == text@.len(),
            digits == text@.skip(start as int),
            digits == without_sign(text@),
            all_digits(digits.take(i - start)),
            value == digits_value(digits.take(i - start)),
        decreases len - i,
    {
        let byte: u8 = text[i];
        let ghost seen: Seq<u8> = digits.take(i - start + 1);
        assert(seen.drop_last() =~= digits.take(i - start));
        assert(seen.last() == byte);
        if byte < DIGIT_ZERO || byte > DIGIT_ZERO + 9 {
            assert(!is_digit(digits[i - start]));
            return None;
        }
        let digit: u64 = (byte - DIGIT_ZERO) as u64;
        let wide: u64 = value as u64 * 10 + digit;
        assert(wide == digits_value(seen));
        if wide > u32::MAX as u64 {
            proof {
                lemma_prefix_value(digits, i - start + 1);
            }
            return None;
        }
        value = wide as u32;
        i = i + 1;
    }
    assert(digits.take(i - start) =~= digits);
    Some(value)
}

/// The high score that the contents of the score file stand for; `None` is a file that
/// could not be read.
pub fn read_high_score(contents: Option<&[u8]>) -> (score: u32)
    ensures
        score == stored_high_score(
            match contents {
                Some(text) => Some(text@),
                None => None,
            },
        ),
{
    match contents {
        Some(text) => match parse_decimal(text) {
            Some(score) => score,
            None => 0,
        },
        None => 0,
    }
}

/// Writes `score` as decimal digits.
pub fn format_high_score(score: u32) -> (text: Vec<u8>)
    ensures
        text@ == decimal_digits(score as nat),
{
    let mut reversed: Vec<u8> = Vec::new();
    let mut rest: u32 = score;
    while rest >= 10
        invariant
            decimal_digits(score as nat) == decimal_digits(rest as nat) + reversed@.reverse(),
        decreases rest,
    {
        let digit: u8 = DIGIT_ZERO + (rest % 10) as u8;
        proof {
            let ghost tail = reversed@.reverse();
            assert(reversed@.push(digit).reverse() =~= seq![digit] + tail);
            assert(decimal_digits(rest as nat) =~= decimal_digits(rest as nat / 10).push(digit));
            assert(decimal_digits(rest as nat / 10).push(digit) + tail =~= decimal_digits(
                rest as nat / 10,
            ) + (seq![digit] + tail));
        }
        reversed.push(digit);
        rest = rest / 10;
    }
    let last: u8 = DIGIT_ZERO + rest as u8;
    proof {
        let ghost tail = reversed@.reverse();
        assert(reversed@.push(last).reverse() =~= seq![last] + tail);
        assert(decimal_digits(rest as nat) =~= seq![last]);
    }
    reversed.push(last);
    let count: usize = reversed.len();
    let mut text: Vec<u8> = Vec::new();
    let mut i: usize = 0;
    while i < count
        invariant
            i <= count,
            count == reversed@.len(),
            text@ == reversed@.reverse().take(i as int),
        decreases count - i,
    {
        text.push(reversed[count - 1 - i]);
        assert(text@ =~= reversed@.reverse().take(i + 1));
        i = i + 1;
    }
    assert(text@ =~= reversed@.reverse());
    text
}

} // verus!
