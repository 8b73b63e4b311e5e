//! Reading the value of a rate-limit header: a decimal number of seconds.

use vstd::prelude::*;

verus! {

/// A byte that may stand in a header value read as text: visible ASCII, a
/// space or a tab.
pub open spec fn is_visible_ascii(byte: u8) -> bool {
    (32 <= byte && byte < 127) || byte == 9
}

/// Whether a header value can be read as text at all.
pub open spec fn is_header_text(bytes: Seq<u8>) -> bool {
    forall|i: int| 0 <= i < bytes.len() ==> is_visible_ascii(#[trigger] bytes[i])
}

/// An ASCII decimal digit.
pub open spec fn is_digit(byte: u8) -> bool {
    48 <= byte && byte <= 57
}

/// Whether every byte is a decimal digit.
pub open spec fn all_digits(bytes: Seq<u8>) -> bool {
    forall|i: int| 0 <= i < bytes.len() ==> is_digit(#[trigger] bytes[i])
}

/// The number that a run of decimal digits denotes, most significant first.
pub open spec fn digits_value(digits: Seq<u8>) -> nat
    decreases digits.len(),
{
    if digits.len() == 0 {
        0
    } else {
        digits_value(digits.drop_last()) * 10 + (digits.last() - 48) as nat
    }
}

/// Whether a value opens with a sign.
pub open spec fn has_sign(bytes: Seq<u8>) -> bool {
    bytes.len() > 0 && (bytes[0] == 43 || bytes[0] == 45)
}

/// The bytes behind the sign, or all of them where there is none.
pub open spec fn digit_part(bytes: Seq<u8>) -> Seq<u8> {
    if has_sign(bytes) {
        bytes.subrange(1, bytes.len() as int)
    } else {
        bytes
    }
}

/// The integer that a value denotes: an optional `+` or `-`, then one or more
/// decimal digits and nothing else. Leading zeros are allowed.
pub open spec fn decimal_value(bytes: Seq<u8>) -> Option<int> {
    let digits = digit_part(bytes);
    if digits.len() == 0 || !all_digits(digits) {
        None
    } else if bytes[0] == 45 {
        Some(-(digits_value(digits) as int))
    } else {
        Some(digits_value(digits) as int)
    }
}

/// The value as a signed 64-bit number, where it denotes one that fits.
pub open spec fn decimal_i64(bytes: Seq<u8>) -> Option<i64> {
    match decimal_value(bytes) {
        Some(value) => if i64::MIN <= value <= i64::MAX {
            Some(value as i64)
        } else {
            None
        },
        None => None,
    }
}

/// The value of a prefix of a run of digits never exceeds that of the run.
pub proof fn digits_value_grows(digits: Seq<u8>, len: int)
    requires
        0 <= len <= digits.len(),
    ensures
        digits_value(digits.take(len)) <= digits_value(digits),
    decreases digits.len(),
{
    if len == digits.len() {
        assert(digits.take(len) =~= digits);
    } else {
        digits_value_grows(digits.drop_last(), len);
        assert(digits.drop_last().take(len) =~= digits.take(len));
    }
}

/// Tells whether a header value can be read as text.
pub fn is_text(bytes: &[u8]) -> (text: bool)
    ensures
        text == is_header_text(bytes@),
{
    let mut i: usize = 0;
    while i < bytes.len()
        invariant
            i <= bytes.len(),
            forall|j: int| 0 <= j < i ==> is_visible_ascii(#[trigger] bytes@[j]),
        decreases bytes.len() - i,
    {
        let byte: u8 = bytes[i];
        if !((32 <= byte && byte < 127) || byte == 9) {
            return false;
        }
        i += 1;
    }
    true
}

/// Reads a header value as a signed decimal number of 64 bits.
pub fn parse_decimal(bytes: &[u8]) -> (number: Option<i64>)
    ensures
        number == decimal_i64(bytes@),
{
    let len: usize = bytes.len();
    if len == 0 {
        return None;
    }
    let negative: bool = bytes[0] == 45;
    let start: usize = if bytes[0] == 43 || bytes[0] == 45 {
        1
    } else {
        0
    };
    let ghost digits = digit_part(bytes@);
    assert(digits =~= bytes@.subrange(start as int, len as int));
    if start == len {
        return None;
    }
    let mut magnitude: u64 = 0;
    let mut i: usize = start;
    while i < len
        invariant
            start <= i <= len,
            len == bytes@.len(),
            digits == digit_part(bytes@),
            digits == bytes@.subrange(start as int, len as int),
            all_digits(digits.take(i - start)),
            magnitude == digits_value(digits.take(i - start)),
            magnitude <= 0x8000_0000_0000_0000,
        decreases len - i,
    {
        let byte: u8 = bytes[i];
        if byte < 48 || byte > 57 {
            assert(!is_digit(digits[i - start]));
            return None;
        }
        let ghost seen = digits.take(i - start + 1);
        assert(seen.drop_last() =~= digits.take(i - start));
        assert(seen.last() == byte);
        let next: u128 = magnitude as u128 * 10 + (byte - 48) as u128;
        assert(next == digits_value(seen));
        if next > 0x8000_0000_0000_0000 {
            proof {
                digits_value_grows(digits, i - start + 1);
            }
            return None;
        }
        assert forall|j: int| 0 <= j < seen.len() implies is_digit(#[trigger] seen[j]) by {
            if j < i - start {
                assert(seen[j] == digits.take(i - start)[j]);
            }
        }
        magnitude = next as u64;
        i += 1;
    }
    assert(digits.take(len - start) =~= digits);
    if negative {
        if magnitude == 0x8000_0000_0000_0000 {
            Some(i64::MIN)
        } else {
            Some(-(magnitude as i64))
        }
    } else if magnitude == 0x8000_0000_0000_0000 {
        None
    } else {
        Some(magnitude as i64)
    }
}

} // verus!
