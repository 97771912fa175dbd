//! Facts about bit fields: what a write changes and what a read gets back.

use crate::bits::{
    as_signed, be_stored, be_unsigned, bit_lsb0, bit_msb0, byte_bit, byte_with_bit, le_stored,
    le_unsigned, two_pow, with_bit_lsb0, with_bit_msb0,
};
use vstd::prelude::*;

verus! {

/// Replacing one bit of a byte changes that bit and no other.
pub proof fn lemma_byte_with_bit(byte: u8, shift: int, bit: int, other: int)
    requires
        0 <= shift < 8,
        0 <= other < 8,
        bit == 0 || bit == 1,
    ensures
        byte_bit(byte_with_bit(byte, shift, bit), other) == if other == shift {
            bit
        } else {
            byte_bit(byte, other)
        },
{
    let s: u8 = shift as u8;
    let o: u8 = other as u8;
    assert(s < 8 && o < 8 ==> ((byte | (1u8 << s)) >> o) & 1 == if o == s {
        1u8
    } else {
        (byte >> o) & 1
    }) by (bit_vector);
    assert(s < 8 && o < 8 ==> ((byte & !(1u8 << s)) >> o) & 1 == if o == s {
        0u8
    } else {
        (byte >> o) & 1
    }) by (bit_vector);
}

/// Replacing one bit of a payload changes that bit and no other, and keeps
/// the payload's length.
pub proof fn lemma_with_bit_msb0(data: Seq<u8>, pos: int, bit: int, other: int)
    requires
        0 <= pos < 8 * data.len(),
        0 <= other < 8 * data.len(),
        bit == 0 || bit == 1,
    ensures
        with_bit_msb0(data, pos, bit).len() == data.len(),
        bit_msb0(with_bit_msb0(data, pos, bit), other) == if other == pos {
            bit
        } else {
            bit_msb0(data, other)
        },
{
    if other / 8 == pos / 8 {
        lemma_byte_with_bit(data[pos / 8], 7 - pos % 8, bit, 7 - other % 8);
    }
}

/// A big-endian write keeps the payload's length, puts the value's binary
/// digits into the run and leaves every bit outside the run as it was.
pub proof fn lemma_be_stored_bits(data: Seq<u8>, start: int, len: nat, value: int, pos: int)
    requires
        0 <= start,
        start + len <= 8 * data.len(),
        0 <= pos < 8 * data.len(),
        0 <= value,
    ensures
        be_stored(data, start, len, value).len() == data.len(),
        bit_msb0(be_stored(data, start, len, value), pos) == if start <= pos < start + len {
            (value / two_pow((start + len - 1 - pos) as nat)) % 2
        } else {
            bit_msb0(data, pos)
        },
    decreases len,
{
    reveal_with_fuel(be_stored, 2);
    if len > 0 {
        let before = be_stored(data, start, (len - 1) as nat, value / 2);
        lemma_be_stored_bits(data, start, (len - 1) as nat, value / 2, pos);
        lemma_be_stored_bits(data, start, (len - 1) as nat, value / 2, start + len - 1);
        lemma_with_bit_msb0(before, start + len - 1, value % 2, pos);
        if start <= pos < start + len - 1 {
            let k = (start + len - 1 - pos) as nat;
            lemma_two_pow_div(value, k);
        } else if pos == start + len - 1 {
            assert(two_pow(0) == 1);
        }
    }
}

/// Dividing by two, then by a power of two, divides by the next power.
pub proof fn lemma_two_pow_div(value: int, k: nat)
    requires
        0 <= value,
        k >= 1,
    ensures
        (value / 2) / two_pow((k - 1) as nat) == value / two_pow(k),
        two_pow(k) > 0,
{
    lemma_two_pow_positive((k - 1) as nat);
    let p = two_pow((k - 1) as nat);
    assert(two_pow(k) == 2 * p);
    vstd::arithmetic::div_mod::lemma_div_denominator(value, 2, p);
}

/// Powers of two are positive.
pub proof fn lemma_two_pow_positive(n: nat)
    ensures
        two_pow(n) > 0,
    decreases n,
{
    if n > 0 {
        lemma_two_pow_positive((n - 1) as nat);
    }
}

/// A big-endian read depends only on the bits of its run.
pub proof fn lemma_be_unsigned_same_bits(a: Seq<u8>, b: Seq<u8>, start: int, len: nat)
    requires
        forall|pos: int| start <= pos < start + len ==> bit_msb0(a, pos) == bit_msb0(b, pos),
    ensures
        be_unsigned(a, start, len) == be_unsigned(b, start, len),
    decreases len,
{
    reveal_with_fuel(be_unsigned, 2);
    if len > 0 {
        lemma_be_unsigned_same_bits(a, b, start, (len - 1) as nat);
    }
}

/// The digits of a number, read back most significant first, give the
/// number modulo two to the count of digits.
proof fn lemma_be_digits(data: Seq<u8>, start: int, len: nat, value: int)
    requires
        0 <= value,
        forall|pos: int|
            start <= pos < start + len ==> bit_msb0(data, pos) == (value / two_pow(
                (start + len - 1 - pos) as nat,
            )) % 2,
    ensures
        be_unsigned(data, start, len) == value % two_pow(len),
    decreases len,
{
    reveal_with_fuel(be_unsigned, 2);
    if len > 0 {
        let shorter = (len - 1) as nat;
        assert forall|pos: int| start <= pos < start + shorter implies bit_msb0(data, pos) == ((
        value / 2) / two_pow((start + shorter - 1 - pos) as nat)) % 2 by {
            lemma_two_pow_div(value, (start + len - 1 - pos) as nat);
        }
        lemma_be_digits(data, start, shorter, value / 2);
        lemma_two_pow_positive(shorter);
        let p = two_pow(shorter);
        assert(two_pow(0) == 1);
        assert(bit_msb0(data, start + len - 1) == value % 2);
        // value % (2 * p) == 2 * ((value / 2) % p) + value % 2
        vstd::arithmetic::div_mod::lemma_breakdown(value, 2, p);
    }
}

/// Round trip: what a big-endian write put into a run, a big-endian read of
/// the same run gets back, reduced to the run's width.
pub proof fn lemma_be_round_trip(data: Seq<u8>, start: int, len: nat, value: int)
    requires
        0 <= start,
        start + len <= 8 * data.len(),
        0 <= value,
    ensures
        be_unsigned(be_stored(data, start, len, value), start, len) == value % two_pow(len),
        be_stored(data, start, len, value).len() == data.len(),
{
    let stored = be_stored(data, start, len, value);
    if data.len() > 0 {
        lemma_be_stored_bits(data, start, len, value, 0);
    } else {
        reveal_with_fuel(be_stored, 1);
    }
    assert forall|pos: int| start <= pos < start + len implies bit_msb0(stored, pos) == (value
        / two_pow((start + len - 1 - pos) as nat)) % 2 by {
        lemma_be_stored_bits(data, start, len, value, pos);
    }
    lemma_be_digits(stored, start, len, value);
}

/// A big-endian write leaves every run that it does not overlap readable
/// as before.
pub proof fn lemma_be_stored_elsewhere(
    data: Seq<u8>,
    start: int,
    len: nat,
    value: int,
    other_start: int,
    other_len: nat,
)
    requires
        0 <= start,
        start + len <= 8 * data.len(),
        0 <= other_start,
        other_start + other_len <= 8 * data.len(),
        other_start + other_len <= start || start + len <= other_start,
        0 <= value,
    ensures
        be_unsigned(be_stored(data, start, len, value), other_start, other_len) == be_unsigned(
            data,
            other_start,
            other_len,
        ),
{
    let stored = be_stored(data, start, len, value);
    assert forall|pos: int| other_start <= pos < other_start + other_len implies bit_msb0(
        stored,
        pos,
    ) == bit_msb0(data, pos) by {
        lemma_be_stored_bits(data, start, len, value, pos);
    }
    lemma_be_unsigned_same_bits(stored, data, other_start, other_len);
}

/// Replacing one bit of a payload, numbered from the least significant end
/// of each byte, changes that bit and no other, and keeps the payload's
/// length.
pub proof fn lemma_with_bit_lsb0(data: Seq<u8>, pos: int, bit: int, other: int)
    requires
        0 <= pos < 8 * data.len(),
        0 <= other < 8 * data.len(),
        bit == 0 || bit == 1,
    ensures
        with_bit_lsb0(data, pos, bit).len() == data.len(),
        bit_lsb0(with_bit_lsb0(data, pos, bit), other) == if other == pos {
            bit
        } else {
            bit_lsb0(data, other)
        },
{
    if other / 8 == pos / 8 {
        lemma_byte_with_bit(data[pos / 8], pos % 8, bit, other % 8);
    }
}

/// A little-endian write keeps the payload's length, puts the value's
/// binary digits into the run and leaves every bit outside the run as it
/// was.
pub proof fn lemma_le_stored_bits(data: Seq<u8>, start: int, len: nat, value: int, pos: int)
    requires
        0 <= start,
        start + len <= 8 * data.len(),
        0 <= pos < 8 * data.len(),
        0 <= value,
    ensures
        le_stored(data, start, len, value).len() == data.len(),
        bit_lsb0(le_stored(data, start, len, value), pos) == if start <= pos < start + len {
            (value / two_pow((pos - start) as nat)) % 2
        } else {
            bit_lsb0(data, pos)
        },
    decreases len,
{
    reveal_with_fuel(le_stored, 2);
    if len > 0 {
        let first = with_bit_lsb0(data, start, value % 2);
        lemma_with_bit_lsb0(data, start, value % 2, pos);
        lemma_le_stored_bits(first, start + 1, (len - 1) as nat, value / 2, pos);
        if start < pos < start + len {
            lemma_two_pow_div(value, (pos - start) as nat);
        } else if pos == start {
            assert(two_pow(0) == 1);
        }
    }
}

/// The digits of a number, read back least significant first, give the
/// number modulo two to the count of digits.
proof fn lemma_le_digits(data: Seq<u8>, start: int, len: nat, value: int)
    requires
        0 <= value,
        forall|pos: int|
            start <= pos < start + len ==> bit_lsb0(data, pos) == (value / two_pow(
                (pos - start) as nat,
            )) % 2,
    ensures
        le_unsigned(data, start, len) == value % two_pow(len),
    decreases len,
{
    reveal_with_fuel(le_unsigned, 2);
    if len > 0 {
        let shorter = (len - 1) as nat;
        assert forall|pos: int| start + 1 <= pos < start + 1 + shorter implies bit_lsb0(data, pos)
            == ((value / 2) / two_pow((pos - (start + 1)) as nat)) % 2 by {
            lemma_two_pow_div(value, (pos - start) as nat);
        }
        lemma_le_digits(data, start + 1, shorter, value / 2);
        lemma_two_pow_positive(shorter);
        assert(two_pow(0) == 1);
        assert(bit_lsb0(data, start) == value % 2);
        vstd::arithmetic::div_mod::lemma_breakdown(value, 2, two_pow(shorter));
    }
}

/// Round trip: what a little-endian write put into a run, a little-endian
/// read of the same run gets back, reduced to the run's width.
pub proof fn lemma_le_round_trip(data: Seq<u8>, start: int, len: nat, value: int)
    requires
        0 <= start,
        start + len <= 8 * data.len(),
        0 <= value,
    ensures
        le_unsigned(le_stored(data, start, len, value), start, len) == value % two_pow(len),
        le_stored(data, start, len, value).len() == data.len(),
{
    let stored = le_stored(data, start, len, value);
    assert forall|pos: int| start <= pos < start + len implies bit_lsb0(stored, pos) == (value
        / two_pow((pos - start) as nat)) % 2 by {
        lemma_le_stored_bits(data, start, len, value, pos);
    }
    lemma_le_digits(stored, start, len, value);
    if data.len() > 0 {
        lemma_le_stored_bits(data, start, len, value, 0);
    } else {
        reveal_with_fuel(le_stored, 1);
    }
}

/// Two to a sum is the product of the powers.
pub proof fn lemma_two_pow_sum(a: nat, b: nat)
    ensures
        two_pow(a + b) == two_pow(a) * two_pow(b),
    decreases b,
{
    if b > 0 {
        lemma_two_pow_sum(a, (b - 1) as nat);
        assert(two_pow(a + b) == 2 * two_pow((a + b - 1) as nat));
        assert(2 * (two_pow(a) * two_pow((b - 1) as nat)) == two_pow(a) * (2 * two_pow(
            (b - 1) as nat,
        ))) by (nonlinear_arith);
    } else {
        assert(two_pow(a) * 1 == two_pow(a)) by (nonlinear_arith);
    }
}

/// Two to the 64.
pub proof fn lemma_two_pow_64()
    ensures
        two_pow(8) == 0x100,
        two_pow(16) == 0x1_0000,
        two_pow(32) == 0x1_0000_0000,
        two_pow(64) == 0x1_0000_0000_0000_0000,
{
    assert(two_pow(8) == 0x100) by {
        reveal_with_fuel(two_pow, 9);
    }
    lemma_two_pow_sum(8, 8);
    assert(two_pow(16) == 0x1_0000) by (nonlinear_arith)
        requires
            two_pow(16) == two_pow(8) * two_pow(8),
            two_pow(8) == 0x100,
    ;
    lemma_two_pow_sum(16, 16);
    assert(two_pow(32) == 0x1_0000_0000) by (nonlinear_arith)
        requires
            two_pow(32) == two_pow(16) * two_pow(16),
            two_pow(16) == 0x1_0000,
    ;
    lemma_two_pow_sum(32, 32);
    assert(two_pow(64) == 0x1_0000_0000_0000_0000) by (nonlinear_arith)
        requires
            two_pow(64) == two_pow(32) * two_pow(32),
            two_pow(32) == 0x1_0000_0000,
    ;
}

/// Reducing a 64-bit pattern of a number to `len` bits gives the number
/// reduced to `len` bits.
pub proof fn lemma_pattern_low_bits(raw: int, len: nat)
    requires
        len <= 64,
    ensures
        (raw % 0x1_0000_0000_0000_0000) % two_pow(len) == raw % two_pow(len),
{
    lemma_two_pow_64();
    lemma_two_pow_sum(len, (64 - len) as nat);
    lemma_two_pow_positive(len);
    lemma_two_pow_positive((64 - len) as nat);
    vstd::arithmetic::div_mod::lemma_mod_mod(raw, two_pow(len), two_pow((64 - len) as nat));
}

/// A number that `len` bits hold in two's complement comes back from its
/// `len`-bit pattern.
pub proof fn lemma_as_signed_of_pattern(raw: int, len: nat)
    requires
        len >= 1,
        -two_pow((len - 1) as nat) <= raw < two_pow((len - 1) as nat),
    ensures
        as_signed(raw % two_pow(len), len) == raw,
{
    let half = two_pow((len - 1) as nat);
    lemma_two_pow_positive((len - 1) as nat);
    assert(two_pow(len) == 2 * half);
    if raw >= 0 {
        vstd::arithmetic::div_mod::lemma_small_mod(raw as nat, (2 * half) as nat);
    } else {
        vstd::arithmetic::div_mod::lemma_small_mod((raw + 2 * half) as nat, (2 * half) as nat);
        vstd::arithmetic::div_mod::lemma_mod_add_multiples_vanish(raw, 2 * half);
    }
}

} // verus!
