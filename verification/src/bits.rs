//! Bit fields inside a frame's payload.
//!
//! Bits are numbered across the whole byte sequence: bit `p` lies in byte
//! `p / 8`. Under most-significant-first numbering it is that byte's bit
//! `7 - p % 8`, under least-significant-first numbering its bit `p % 8`.

use bitvec::field::BitField;
use bitvec::order::{Lsb0, Msb0};
use bitvec::view::BitView;
use vstd::prelude::*;

verus! {

/// Bit `shift` of a byte, counted from the least significant end.
pub open spec fn byte_bit(byte: u8, shift: int) -> int {
    ((byte >> (shift as u8)) & 1) as int
}

/// A byte with its bit `shift` replaced.
pub open spec fn byte_with_bit(byte: u8, shift: int, bit: int) -> u8 {
    if bit == 1 {
        byte | (1u8 << (shift as u8))
    } else {
        byte & !(1u8 << (shift as u8))
    }
}

/// Bit `pos` of `data`, each byte numbered from its most significant bit.
pub open spec fn bit_msb0(data: Seq<u8>, pos: int) -> int {
    byte_bit(data[pos / 8], 7 - pos % 8)
}

/// Bit `pos` of `data`, each byte numbered from its least significant bit.
pub open spec fn bit_lsb0(data: Seq<u8>, pos: int) -> int {
    byte_bit(data[pos / 8], pos % 8)
}

/// `data` with bit `pos` (most-significant-first numbering) replaced.
pub open spec fn with_bit_msb0(data: Seq<u8>, pos: int, bit: int) -> Seq<u8> {
    data.update(pos / 8, byte_with_bit(data[pos / 8], 7 - pos % 8, bit))
}

/// The number whose binary digits, most significant first, are the bits
/// `start .. start + len` of `data` under most-significant-first numbering.
#[verifier::opaque]
pub open spec fn be_unsigned(data: Seq<u8>, start: int, len: nat) -> int
    decreases len,
{
    if len == 0 {
        0
    } else {
        2 * be_unsigned(data, start, (len - 1) as nat) + bit_msb0(data, start + len - 1)
    }
}

/// The number whose binary digits, least significant first, are the bits
/// `start .. start + len` of `data` under least-significant-first numbering.
#[verifier::opaque]
pub open spec fn le_unsigned(data: Seq<u8>, start: int, len: nat) -> int
    decreases len,
{
    if len == 0 {
        0
    } else {
        bit_lsb0(data, start) + 2 * le_unsigned(data, start + 1, (len - 1) as nat)
    }
}

/// Two to the power `n`.
pub open spec fn two_pow(n: nat) -> int
    decreases n,
{
    if n == 0 {
        1
    } else {
        2 * two_pow((n - 1) as nat)
    }
}

/// A `len`-bit pattern read as a two's-complement number.
pub open spec fn as_signed(pattern: int, len: nat) -> int {
    if len > 0 && pattern >= two_pow((len - 1) as nat) {
        pattern - two_pow(len)
    } else {
        pattern
    }
}

/// `data` after the low `len` bits of `value` were written, most significant
/// first, over its bits `start .. start + len` (most-significant-first
/// numbering); every other bit stays.
#[verifier::opaque]
pub open spec fn be_stored(data: Seq<u8>, start: int, len: nat, value: int) -> Seq<u8>
    decreases len,
{
    if len == 0 {
        data
    } else {
        with_bit_msb0(
            be_stored(data, start, (len - 1) as nat, value / 2),
            start + len - 1,
            value % 2,
        )
    }
}

/// `data` with bit `pos` (least-significant-first numbering) replaced.
pub open spec fn with_bit_lsb0(data: Seq<u8>, pos: int, bit: int) -> Seq<u8> {
    data.update(pos / 8, byte_with_bit(data[pos / 8], pos % 8, bit))
}

/// `data` after the low `len` bits of `value` were written, least
/// significant first, over its bits `start .. start + len`
/// (least-significant-first numbering); every other bit stays.
#[verifier::opaque]
pub open spec fn le_stored(data: Seq<u8>, start: int, len: nat, value: int) -> Seq<u8>
    decreases len,
{
    if len == 0 {
        data
    } else {
        le_stored(with_bit_lsb0(data, start, value % 2), start + 1, (len - 1) as nat, value / 2)
    }
}

/// The run `start .. start + len` is between 1 and 64 bits long and lies
/// inside `data`.
pub open spec fn run_in_range(data: Seq<u8>, start: int, len: int) -> bool {
    1 <= len <= 64 && 0 <= start && start + len <= 8 * data.len()
}

/// Calls bitvec's `BitField::load_be` on the bits `start .. end` of `data`
/// viewed with `Msb0` ordering. Trusted: the result is the run's bits read
/// as a binary number, first bit most significant, zero-extended to 64
/// bits.
#[verifier::external_body]
fn load_be_u64(data: &[u8], start: usize, end: usize) -> (raw: u64)
    requires
        data@.len() <= 8,
        run_in_range(data@, start as int, end - start),
    ensures
        raw == be_unsigned(data@, start as int, (end - start) as nat),
{
    data.view_bits::<Msb0>()[start..end].load_be::<u64>()
}

/// Calls bitvec's `BitField::load_be` with a signed target on the bits
/// `start .. end` of `data` viewed with `Msb0` ordering. Trusted: the
/// result is the run's bits read as a binary number, first bit most
/// significant, sign-extended from the run's first bit.
#[verifier::external_body]
fn load_be_i64(data: &[u8], start: usize, end: usize) -> (raw: i64)
    requires
        data@.len() <= 8,
        run_in_range(data@, start as int, end - start),
    ensures
        raw == as_signed(
            be_unsigned(data@, start as int, (end - start) as nat),
            (end - start) as nat,
        ),
{
    data.view_bits::<Msb0>()[start..end].load_be::<i64>()
}

/// Calls bitvec's `BitField::load_le` on the bits `start .. end` of `data`
/// viewed with `Lsb0` ordering. Trusted: the result is the run's bits read
/// as a binary number, first bit least significant, zero-extended to 64
/// bits.
#[verifier::external_body]
fn load_le_u64(data: &[u8], start: usize, end: usize) -> (raw: u64)
    requires
        data@.len() <= 8,
        run_in_range(data@, start as int, end - start),
    ensures
        raw == le_unsigned(data@, start as int, (end - start) as nat),
{
    data.view_bits::<Lsb0>()[start..end].load_le::<u64>()
}

/// Calls bitvec's `BitField::load_le` with a signed target on the bits
/// `start .. end` of `data` viewed with `Lsb0` ordering. Trusted: the
/// result is the run's bits read as a binary number, first bit least
/// significant, sign-extended from the run's last bit.
#[verifier::external_body]
fn load_le_i64(data: &[u8], start: usize, end: usize) -> (raw: i64)
    requires
        data@.len() <= 8,
        run_in_range(data@, start as int, end - start),
    ensures
        raw == as_signed(
            le_unsigned(data@, start as int, (end - start) as nat),
            (end - start) as nat,
        ),
{
    data.view_bits::<Lsb0>()[start..end].load_le::<i64>()
}

/// Calls bitvec's `BitField::store_be` on the bits `start .. end` of `data`
/// viewed with `Msb0` ordering. Trusted: the run receives as many of the low
/// bits of `value` as it is long, most significant first, and no other bit
/// of `data` changes.
#[verifier::external_body]
fn store_be_u64(data: &mut Vec<u8>, start: usize, end: usize, value: u64)
    requires
        old(data)@.len() <= 8,
        run_in_range(old(data)@, start as int, end - start),
    ensures
        final(data)@ == be_stored(old(data)@, start as int, (end - start) as nat, value as int),
{
    data.as_mut_slice().view_bits_mut::<Msb0>()[start..end].store_be::<u64>(value);
}

/// Calls bitvec's `BitField::store_le` on the bits `start .. end` of `data`
/// viewed with `Lsb0` ordering. Trusted: the run receives as many of the low
/// bits of `value` as it is long, least significant first, and no other bit
/// of `data` changes.
#[verifier::external_body]
fn store_le_u64(data: &mut Vec<u8>, start: usize, end: usize, value: u64)
    requires
        old(data)@.len() <= 8,
        run_in_range(old(data)@, start as int, end - start),
    ensures
        final(data)@ == le_stored(old(data)@, start as int, (end - start) as nat, value as int),
{
    data.as_mut_slice().view_bits_mut::<Lsb0>()[start..end].store_le::<u64>(value);
}

/// Bit `index` of the payload under least-significant-first numbering, or
/// nothing when the payload is too short to hold it.
pub fn read_bit(data: &[u8], index: u8) -> (r: Option<u8>)
    ensures
        r is Some <==> (index as int) / 8 < data@.len(),
        r matches Some(bit) ==> bit == bit_lsb0(data@, index as int),
{
    let byte_index: usize = (index / 8) as usize;
    if byte_index >= data.len() {
        return None;
    }
    let shift: u8 = index % 8;
    Some((data[byte_index] >> shift) & 1)
}

/// The unsigned byte at `index`, or nothing when the payload is too short.
pub fn read_uint8(data: &[u8], index: u8) -> (r: Option<u8>)
    ensures
        r is Some <==> (index as int) < data@.len(),
        r matches Some(byte) ==> byte == data@[index as int],
{
    if (index as usize) >= data.len() {
        return None;
    }
    Some(data[index as usize])
}

/// The byte at `index` read as a two's-complement number, or nothing when
/// the payload is too short.
pub fn read_int8(data: &[u8], index: u8) -> (r: Option<i8>)
    ensures
        r is Some <==> (index as int) < data@.len(),
        r matches Some(number) ==> number == as_signed(data@[index as int] as int, 8),
{
    if (index as usize) >= data.len() {
        return None;
    }
    let byte: u8 = data[index as usize];
    assert(two_pow(8) == 256 && two_pow(7) == 128) by {
        reveal_with_fuel(two_pow, 9);
    }
    if byte >= 128 {
        Some((byte as i16 - 256) as i8)
    } else {
        Some(byte as i8)
    }
}

/// Whether a run of `len` bits from bit `start` can be read from a payload:
/// it is 1 to 64 bits long and ends inside the payload, which is itself no
/// longer than a frame's.
pub fn run_readable(data: &[u8], start: u8, len: u8) -> (r: bool)
    ensures
        r == (data@.len() <= 8 && run_in_range(data@, start as int, len as int)),
{
    data.len() <= 8 && 1 <= len && len <= 64 && (start as usize) + (len as usize) <= 8
        * data.len()
}

/// The big-endian unsigned run, or nothing when it cannot be read.
pub fn read_be_unsigned(data: &[u8], start: u8, len: u8) -> (r: Option<u64>)
    ensures
        r is Some <==> data@.len() <= 8 && run_in_range(data@, start as int, len as int),
        r matches Some(raw) ==> raw == be_unsigned(data@, start as int, len as nat),
{
    if !run_readable(data, start, len) {
        return None;
    }
    Some(load_be_u64(data, start as usize, start as usize + len as usize))
}

/// The big-endian two's-complement run, or nothing when it cannot be read.
pub fn read_be_signed(data: &[u8], start: u8, len: u8) -> (r: Option<i64>)
    ensures
        r is Some <==> data@.len() <= 8 && run_in_range(data@, start as int, len as int),
        r matches Some(raw) ==> raw == as_signed(
            be_unsigned(data@, start as int, len as nat),
            len as nat,
        ),
{
    if !run_readable(data, start, len) {
        return None;
    }
    Some(load_be_i64(data, start as usize, start as usize + len as usize))
}

/// The little-endian unsigned run, or nothing when it cannot be read.
pub fn read_le_unsigned(data: &[u8], start: u8, len: u8) -> (r: Option<u64>)
    ensures
        r is Some <==> data@.len() <= 8 && run_in_range(data@, start as int, len as int),
        r matches Some(raw) ==> raw == le_unsigned(data@, start as int, len as nat),
{
    if !run_readable(data, start, len) {
        return None;
    }
    Some(load_le_u64(data, start as usize, start as usize + len as usize))
}

/// The little-endian two's-complement run, or nothing when it cannot be read.
pub fn read_le_signed(data: &[u8], start: u8, len: u8) -> (r: Option<i64>)
    ensures
        r is Some <==> data@.len() <= 8 && run_in_range(data@, start as int, len as int),
        r matches Some(raw) ==> raw == as_signed(
            le_unsigned(data@, start as int, len as nat),
            len as nat,
        ),
{
    if !run_readable(data, start, len) {
        return None;
    }
    Some(load_le_i64(data, start as usize, start as usize + len as usize))
}

/// Writes the low `len` bits of `value` over the run that starts at bit
/// `start`, most significant bit first. Returns false, and leaves the
/// payload as it was, when the run cannot be read back: it is not 1 to 64
/// bits long inside a payload of at most eight bytes.
pub fn write_be_unsigned(data: &mut Vec<u8>, start: u8, len: u8, value: u64) -> (done: bool)
    ensures
        done == (old(data)@.len() <= 8 && run_in_range(old(data)@, start as int, len as int)),
        done ==> final(data)@ == be_stored(old(data)@, start as int, len as nat, value as int),
        !done ==> final(data)@ == old(data)@,
{
    if !run_readable(data.as_slice(), start, len) {
        return false;
    }
    store_be_u64(data, start as usize, start as usize + len as usize, value);
    true
}

/// Writes the low `len` bits of `value` over the run that starts at bit
/// `start`, least significant bit first. Returns false, and leaves the
/// payload as it was, when the run cannot be read back.
pub fn write_le_unsigned(data: &mut Vec<u8>, start: u8, len: u8, value: u64) -> (done: bool)
    ensures
        done == (old(data)@.len() <= 8 && run_in_range(old(data)@, start as int, len as int)),
        done ==> final(data)@ == le_stored(old(data)@, start as int, len as nat, value as int),
        !done ==> final(data)@ == old(data)@,
{
    if !run_readable(data.as_slice(), start, len) {
        return false;
    }
    store_le_u64(data, start as usize, start as usize + len as usize, value);
    true
}

} // verus!
