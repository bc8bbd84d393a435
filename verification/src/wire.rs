//! Byte-level vocabulary shared by the encodings: unsigned variable-length
//! integers, length-prefixed buffers and decimal digits.
use vstd::prelude::*;

verus! {

/// The bytes of `n` as an unsigned variable-length integer: seven bits per
/// byte, the least significant group first, and the high bit set on every
/// byte but the last.
pub open spec fn var_uint(n: nat) -> Seq<u8>
    decreases n,
{
    if n < 128 {
        seq![n as u8]
    } else {
        seq![((n % 128) + 128) as u8] + var_uint(n / 128)
    }
}

/// A buffer preceded by its length as a variable-length integer.
pub open spec fn var_buf(bytes: Seq<u8>) -> Seq<u8> {
    var_uint(bytes.len()) + bytes
}

/// The decimal digits of `n`, most significant first, without leading zeros.
pub open spec fn decimal(n: nat) -> Seq<char>
    decreases n,
{
    if n < 10 {
        seq![digit_char(n)]
    } else {
        decimal(n / 10).push(digit_char(n % 10))
    }
}

/// The ASCII digit for a value below ten.
pub open spec fn digit_char(d: nat) -> char {
    if d == 0 {
        '0'
    } else if d == 1 {
        '1'
    } else if d == 2 {
        '2'
    } else if d == 3 {
        '3'
    } else if d == 4 {
        '4'
    } else if d == 5 {
        '5'
    } else if d == 6 {
        '6'
    } else if d == 7 {
        '7'
    } else if d == 8 {
        '8'
    } else {
        '9'
    }
}

/// A value below 128 takes a single byte, equal to the value itself.
pub proof fn lemma_var_uint_small(n: nat)
    requires
        n < 128,
    ensures
        var_uint(n) == seq![n as u8],
        var_uint(n).len() == 1,
{
}

/// Every variable-length integer takes at least one byte.
pub proof fn lemma_var_uint_nonempty(n: nat)
    ensures
        var_uint(n).len() >= 1,
    decreases n,
{
    if n >= 128 {
        lemma_var_uint_nonempty(n / 128);
    }
}

} // verus!
