//! Player counts as decimal text.
//!
//! A count is written as an optional `+` followed by one or more decimal
//! digits and nothing else. Leading zeros are allowed. A value above
//! `i64::MAX` does not count as a player count.

use vstd::prelude::*;

verus! {

/// The byte `+`.
pub const PLUS: u8 = 43;

/// The byte `0`.
pub const DIGIT_ZERO: u8 = 48;

/// The byte `9`.
pub const DIGIT_NINE: u8 = 57;

/// True for the bytes `0` to `9`.
pub open spec fn is_digit(b: u8) -> bool {
    DIGIT_ZERO <= b <= DIGIT_NINE
}

/// The number a digit stands for; zero for any other byte.
pub open spec fn digit_value(b: u8) -> nat {
    if is_digit(b) {
        (b - DIGIT_ZERO) as nat
    } else {
        0
    }
}

/// True if every byte of `text` is a digit.
pub open spec fn all_digits(text: Seq<u8>) -> bool {
    forall|i: int| 0 <= i < text.len() ==> is_digit(#[trigger] text[i])
}

/// The number that the digits of `text` write in base ten.
pub open spec fn decimal_value(text: Seq<u8>) -> nat
    decreases text.len(),
{
    if text.len() == 0 {
        0
    } else {
        decimal_value(text.drop_last()) * 10 + digit_value(text.last())
    }
}

/// `text` without its leading `+`, if it has one.
pub open spec fn unsigned_part(text: Seq<u8>) -> Seq<u8> {
    if text.len() > 0 && text[0] == PLUS {
        text.skip(1)
    } else {
        text
    }
}

/// The player count that `text` writes, if it writes one.
pub open spec fn parse_count(text: Seq<u8>) -> Option<i64> {
    let digits = unsigned_part(text);
    if digits.len() > 0 && all_digits(digits) && decimal_value(digits) <= i64::MAX {
        Some(decimal_value(digits) as i64)
    } else {
        None
    }
}

/// The digits that write `n` in base ten, without leading zeros.
pub open spec fn decimal_digits(n: nat) -> Seq<u8>
    decreases n,
{
    if n < 10 {
        seq![(DIGIT_ZERO + n) as u8]
    } else {
        decimal_digits(n / 10).push((DIGIT_ZERO + n % 10) as u8)
    }
}

/// What is written can be read back: the digits of `n` are digits, write
/// `n`, and are a player count if `n` is small enough to be one.
pub proof fn lemma_written_count_reads_back(n: nat)
    ensures
        decimal_digits(n).len() > 0,
        all_digits(decimal_digits(n)),
        decimal_value(decimal_digits(n)) == n,
        n <= i64::MAX ==> parse_count(decimal_digits(n)) == Some(n as i64),
    decreases n,
{
    let digits = decimal_digits(n);
    if n < 10 {
        assert(digits.drop_last() =~= Seq::<u8>::empty());
        assert(decimal_value(digits.drop_last()) == 0);
    } else {
        lemma_written_count_reads_back(n / 10);
        assert(digits.drop_last() =~= decimal_digits(n / 10));
    }
    assert(is_digit(digits[0])) by {
        assert(all_digits(digits));
    }
    assert(unsigned_part(digits) == digits);
}

/// A prefix of a number's digits writes a number that is no larger.
pub proof fn lemma_decimal_value_grows(text: Seq<u8>, k: int)
    requires
        0 <= k <= text.len(),
    ensures
        decimal_value(text.take(k)) <= decimal_value(text),
    decreases text.len(),
{
    if k == text.len() {
        assert(text.take(k) =~= text);
    } else {
        assert(text.take(k) =~= text.drop_last().take(k));
        lemma_decimal_value_grows(text.drop_last(), k);
    }
}

/// Reads the player count written by the bytes of `text` from `from` up
/// to `to`. Returns `None` exactly when they write none.
pub fn read_count(text: &[u8], from: usize, to: usize) -> (count: Option<i64>)
    requires
        from <= to <= text@.len(),
    ensures
        count == parse_count(text@.subrange(from as int, to as int)),
{
    let ghost whole = text@.subrange(from as int, to as int);
    let mut i: usize = from;
    if i < to && text[i] == PLUS {
        i += 1;
    }
    let start: usize = i;
    let ghost digits = text@.subrange(start as int, to as int);
    assert(digits =~= unsigned_part(whole));
    if start == to {
        return None;
    }
    let mut acc: i64 = 0;
    assert(digits.take(0) =~= Seq::<u8>::empty());
    while i < to
        invariant
            from <= start <= i <= to <= text@.len(),
            digits == text@.subrange(start as int, to as int),
            digits == unsigned_part(text@.subrange(from as int, to as int)),
            all_digits(digits.take(i - start)),
            acc == decimal_value(digits.take(i - start)),
            0 <= acc,
        decreases to - i,
    {
        let b: u8 = text[i];
        let ghost k: int = i - start;
        assert(digits[k] == b);
        if b < DIGIT_ZERO || b > DIGIT_NINE {
            assert(!is_digit(digits[k]));
            return None;
        }
        let digit: i64 = (b - DIGIT_ZERO) as i64;
        assert(digits.take(k + 1).drop_last() =~= digits.take(k));
        assert(digits.take(k + 1).last() == b);
        assert(decimal_value(digits.take(k + 1)) == acc * 10 + digit);
        if acc > (i64::MAX - digit) / 10 {
            proof {
                lemma_decimal_value_grows(digits, k + 1);
            }
            return None;
        }
        acc = acc * 10 + digit;
        i += 1;
    }
    assert(digits.take(digits.len() as int) =~= digits);
    Some(acc)
}

/// Writes `n` in base ten, without leading zeros.
pub fn write_count(n: u64) -> (digits: Vec<u8>)
    ensures
        digits@ == decimal_digits(n as nat),
    decreases n,
{
    if n < 10 {
        let mut digits: Vec<u8> = Vec::new();
        digits.push(DIGIT_ZERO + n as u8);
        assert(digits@ =~= decimal_digits(n as nat));
        digits
    } else {
        let mut digits = write_count(n / 10);
        digits.push(DIGIT_ZERO + (n % 10) as u8);
        digits
    }
}

} // verus!
