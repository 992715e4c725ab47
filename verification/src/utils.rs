//! Small helpers on text: comparing two texts, and reading a decimal number.

use vstd::prelude::*;
use vstd::string::StringSliceAdditionalSpecFns;

verus! {

/// Whether two texts hold the same characters.
pub fn same_text(a: &str, b: &str) -> (same: bool)
    ensures
        same == (a@ == b@),
{
    broadcast use vstd::utf8::encode_utf8_decode_utf8;

    let x = a.as_bytes();
    let y = b.as_bytes();
    if x.len() != y.len() {
        return false;
    }
    let mut i: usize = 0;
    while i < x.len()
        invariant
            i <= x.len(),
            x.len() == y.len(),
            x@ == a.spec_bytes(),
            y@ == b.spec_bytes(),
            forall|k: int| 0 <= k < i ==> x@[k] == y@[k],
        decreases x.len() - i,
    {
        if x[i] != y[i] {
            return false;
        }
        i = i + 1;
    }
    proof {
        assert(x@ =~= y@);
        assert(vstd::utf8::decode_utf8(vstd::utf8::encode_utf8(a@)) == a@);
        assert(vstd::utf8::decode_utf8(vstd::utf8::encode_utf8(b@)) == b@);
    }
    true
}

/// Why a text is no decimal number that fits `u64`.
#[derive(Clone, Copy, Debug, PartialEq, Eq, Structural)]
pub enum NumberError {
    /// The text is empty.
    Empty,
    /// The text is a lone sign, or a byte of it is no decimal digit.
    InvalidDigit,
    /// The number is larger than `u64::MAX`.
    Overflow,
}

/// Whether a byte is one of the ASCII digits `0` to `9`.
pub open spec fn is_digit(byte: u8) -> bool {
    48 <= byte <= 57
}

/// The number that a run of bytes spells when read from the left as decimal
/// digits, or the first failure met on the way: a byte that is no digit, or a
/// digit that takes the number past `u64::MAX`.
pub open spec fn digits_value(digits: Seq<u8>) -> Result<nat, NumberError>
    decreases digits.len(),
{
    if digits.len() == 0 {
        Ok(0)
    } else {
        match digits_value(digits.drop_last()) {
            Err(e) => Err(e),
            Ok(n) => if !is_digit(digits.last()) {
                Err(NumberError::InvalidDigit)
            } else if n * 10 + (digits.last() - 48) > u64::MAX {
                Err(NumberError::Overflow)
            } else {
                Ok((n * 10 + (digits.last() - 48)) as nat)
            },
        }
    }
}

/// The bytes of a text without its leading `+`, if it has one.
pub open spec fn unsigned_part(bytes: Seq<u8>) -> Seq<u8> {
    if bytes.len() > 0 && bytes[0] == 43 {
        bytes.subrange(1, bytes.len() as int)
    } else {
        bytes
    }
}

/// The number that a text spells, given as its UTF-8 bytes: an optional `+`
/// followed by one or more decimal digits whose value fits `u64`.
pub open spec fn decimal_u64(bytes: Seq<u8>) -> Result<u64, NumberError> {
    if bytes.len() == 0 {
        Err(NumberError::Empty)
    } else if bytes.len() == 1 && bytes[0] == 43 {
        Err(NumberError::InvalidDigit)
    } else {
        match digits_value(unsigned_part(bytes)) {
            Ok(n) => Ok(n as u64),
            Err(e) => Err(e),
        }
    }
}

/// A failure met in a prefix of the digits is the failure of the whole run.
proof fn lemma_failure_sticks(digits: Seq<u8>, k: int)
    requires
        0 <= k <= digits.len(),
        digits_value(digits.take(k)) is Err,
    ensures
        digits_value(digits) == digits_value(digits.take(k)),
    decreases digits.len() - k,
{
    if k == digits.len() {
        assert(digits.take(k) =~= digits);
    } else {
        assert(digits.take(k + 1).drop_last() =~= digits.take(k));
        lemma_failure_sticks(digits, k + 1);
    }
}

/// Reads a decimal number from a text, as `str::parse::<u64>` does: an
/// optional `+`, then digits only, and no value past `u64::MAX`.
pub fn str2u64(text: &str) -> (r: Result<u64, NumberError>)
    ensures
        r == decimal_u64(text.spec_bytes()),
{
    let bytes = text.as_bytes();
    let len = bytes.len();
    if len == 0 {
        return Err(NumberError::Empty);
    }
    if len == 1 && bytes[0] == 43 {
        return Err(NumberError::InvalidDigit);
    }
    let start: usize = if bytes[0] == 43 {
        1
    } else {
        0
    };
    let ghost digits = unsigned_part(bytes@);
    let mut value: u64 = 0;
    let mut i: usize = start;
    proof {
        assert(digits =~= bytes@.subrange(start as int, len as int));
        assert(digits.take(0) =~= Seq::<u8>::empty());
    }
    while i < len
        invariant
            start <= i <= len,
            0 < len == bytes@.len(),
            bytes@ == text.spec_bytes(),
            !(len == 1 && bytes@[0] == 43),
            digits == unsigned_part(bytes@),
            digits == bytes@.subrange(start as int, len as int),
            digits_value(digits.take(i - start)) == Ok::<nat, NumberError>(value as nat),
        decreases len - i,
    {
        let byte = bytes[i];
        proof {
            assert(digits.take(i - start + 1).drop_last() =~= digits.take(i - start));
            assert(digits.take(i - start + 1).last() == byte);
        }
        if byte < 48 || byte > 57 {
            proof {
                lemma_failure_sticks(digits, i - start + 1);
            }
            return Err(NumberError::InvalidDigit);
        }
        let digit: u64 = (byte - 48) as u64;
        if value > (u64::MAX - digit) / 10 {
            proof {
                lemma_failure_sticks(digits, i - start + 1);
            }
            return Err(NumberError::Overflow);
        }
        value = value * 10 + digit;
        i = i + 1;
    }
    proof {
        assert(digits.take(len - start) =~= digits);
    }
    Ok(value)
}

} // verus!
