//! Decimal numbers as the engine writes them.
//!
//! A number is an optional sign, `+` or `-`, and then one decimal digit or
//! more. Nothing else is a number: no blank, no separator, no empty text, no
//! sign alone.

use vstd::prelude::*;

verus! {

/// The byte `+`.
pub const PLUS: u8 = 43;

/// The byte `-`.
pub const MINUS: u8 = 45;

/// The byte `0`.
pub const ZERO: u8 = 48;

/// `b` is one of the bytes `0` to `9`.
pub open spec fn is_digit(b: u8) -> bool {
    ZERO <= b <= ZERO + 9
}

/// Every byte of `digits` is a decimal digit.
pub open spec fn all_digits(digits: Seq<u8>) -> bool {
    forall|i: int| 0 <= i < digits.len() ==> is_digit(#[trigger] digits[i])
}

/// The number that `digits` write, the most significant digit first.
pub open spec fn digits_value(digits: Seq<u8>) -> int
    decreases digits.len(),
{
    if digits.len() == 0 {
        0
    } else {
        10 * digits_value(digits.drop_last()) + (digits.last() - ZERO)
    }
}

/// The number that `text` writes, if it writes one.
pub open spec fn decimal_value(text: Seq<u8>) -> Option<int> {
    if text.len() == 0 {
        None
    } else if text[0] == MINUS || text[0] == PLUS {
        let digits = text.skip(1);
        if digits.len() == 0 || !all_digits(digits) {
            None
        } else if text[0] == MINUS {
            Some(-digits_value(digits))
        } else {
            Some(digits_value(digits))
        }
    } else if all_digits(text) {
        Some(digits_value(text))
    } else {
        None
    }
}

/// The `i32` that `text` writes, if it writes a number and the number fits.
pub open spec fn i32_value(text: Seq<u8>) -> Option<i32> {
    match decimal_value(text) {
        Some(value) => if i32::MIN <= value <= i32::MAX {
            Some(value as i32)
        } else {
            None
        },
        None => None,
    }
}

/// The digits of `n`, without a leading zero unless `n` is zero.
pub open spec fn decimal_digits(n: nat) -> Seq<u8>
    decreases n,
{
    if n < 10 {
        seq![(ZERO + n) as u8]
    } else {
        decimal_digits(n / 10).push((ZERO + n % 10) as u8)
    }
}

/// The usual way to write `value`: a `-` if it is negative, then its digits.
pub open spec fn decimal_text(value: int) -> Seq<u8> {
    if value < 0 {
        seq![MINUS] + decimal_digits((-value) as nat)
    } else {
        decimal_digits(value as nat)
    }
}

/// A number written with digits alone is never negative, and never less than
/// what a prefix of its digits writes.
pub proof fn lemma_digits_value_grows(digits: Seq<u8>, k: int)
    requires
        all_digits(digits),
        0 <= k <= digits.len(),
    ensures
        0 <= digits_value(digits.take(k)) <= digits_value(digits),
    decreases digits.len(),
{
    if digits.len() == 0 {
        assert(digits.take(k) == digits);
    } else if k == digits.len() {
        assert(digits.take(k) == digits);
        assert(all_digits(digits.drop_last()));
        lemma_digits_value_grows(digits.drop_last(), 0);
        assert(is_digit(digits.last()));
    } else {
        assert(all_digits(digits.drop_last()));
        lemma_digits_value_grows(digits.drop_last(), k);
        assert(digits.drop_last().take(k) == digits.take(k));
        assert(is_digit(digits.last()));
    }
}

/// The digits of `n` are digits, there is at least one, and they write `n`.
pub proof fn lemma_decimal_digits(n: nat)
    ensures
        decimal_digits(n).len() >= 1,
        all_digits(decimal_digits(n)),
        digits_value(decimal_digits(n)) == n,
    decreases n,
{
    if n < 10 {
        let digits = decimal_digits(n);
        assert(digits.drop_last().len() == 0);
        assert(digits_value(digits.drop_last()) == 0);
    } else {
        lemma_decimal_digits(n / 10);
        let front = decimal_digits(n / 10);
        let digits = decimal_digits(n);
        assert(digits.drop_last() == front);
        assert forall|i: int| 0 <= i < digits.len() implies is_digit(#[trigger] digits[i]) by {
            if i < front.len() {
                assert(digits[i] == front[i]);
            }
        }
    }
}

/// Reading the usual way to write a number gives the number back.
pub proof fn lemma_decimal_text_reads_back(value: int)
    ensures
        decimal_value(decimal_text(value)) == Some(value),
{
    if value < 0 {
        let n = (-value) as nat;
        lemma_decimal_digits(n);
        let text = decimal_text(value);
        assert(text.skip(1) == decimal_digits(n));
    } else {
        let n = value as nat;
        lemma_decimal_digits(n);
        let text = decimal_text(value);
        assert(is_digit(text[0]));
    }
}

/// Reading the usual way to write an `i32` gives that `i32` back.
pub proof fn lemma_i32_reads_back(n: i32)
    ensures
        i32_value(decimal_text(n as int)) == Some(n),
{
    lemma_decimal_text_reads_back(n as int);
}

/// Reads `text` as an `i32`.
#[verifier::loop_isolation(false)]
pub fn parse_i32(text: &[u8]) -> (r: Option<i32>)
    ensures
        r == i32_value(text@),
{
    if text.len() == 0 {
        return None;
    }
    let signed = text[0] == MINUS || text[0] == PLUS;
    let negative = text[0] == MINUS;
    let start: usize = if signed { 1 } else { 0 };
    if start == text.len() {
        return None;
    }
    let limit: i64 = if negative { 2147483648 } else { 2147483647 };
    let ghost digits = text@.skip(start as int);
    let mut value: i64 = 0;
    let mut i: usize = start;
    while i < text.len()
        invariant
            start <= i <= text.len(),
            digits == text@.skip(start as int),
            all_digits(digits.take(i - start)),
            value == digits_value(digits.take(i - start)),
            0 <= value <= limit <= 2147483648,
        decreases text.len() - i,
    {
        let b = text[i];
        let ghost before = digits.take(i - start);
        let ghost after = digits.take(i - start + 1);
        proof {
            assert(after.drop_last() == before);
            assert(after.last() == b);
        }
        if b < ZERO || b > ZERO + 9 {
            proof {
                if !signed {
                    assert(digits == text@);
                }
                assert(digits[i - start] == b);
                assert(!all_digits(digits));
            }
            return None;
        }
        let next: i64 = value * 10 + (b - ZERO) as i64;
        proof {
            assert forall|j: int| 0 <= j < after.len() implies is_digit(#[trigger] after[j]) by {
                if j < before.len() {
                    assert(after[j] == before[j]);
                }
            }
            assert(next == digits_value(after));
        }
        if next > limit {
            proof {
                if !signed {
                    assert(digits == text@);
                }
                if all_digits(digits) {
                    lemma_digits_value_grows(digits, i - start + 1);
                }
            }
            return None;
        }
        value = next;
        i += 1;
    }
    proof {
        assert(digits.take(i - start) == digits);
        if !signed {
            assert(digits == text@);
        }
    }
    if negative {
        Some((-value) as i32)
    } else {
        Some(value as i32)
    }
}

} // verus!
