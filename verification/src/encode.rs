//! Writing raw values into a payload, the reverse of decoding, and the
//! round trip of the two.

use crate::bit_laws::{
    lemma_as_signed_of_pattern, lemma_be_round_trip, lemma_le_round_trip, lemma_pattern_low_bits,
    lemma_two_pow_64, lemma_with_bit_lsb0,
};
use crate::bits::{
    be_stored, le_stored, run_in_range, two_pow, with_bit_lsb0, write_be_unsigned,
    write_le_unsigned,
};
use crate::frame::FrameView;
use crate::parameter::{CanBitSelection, CanMap, Parameter};
use crate::value::{fits_i64, scaled, Value};
use vstd::prelude::*;

verus! {

/// The 64-bit two's-complement pattern of a number.
pub open spec fn pattern_of(raw: int) -> u64 {
    (raw % 0x1_0000_0000_0000_0000) as u64
}

impl CanBitSelection {
    /// Whether the selection names a field inside the payload that can be
    /// written: custom rules cannot.
    pub open spec fn writable(self, data: Seq<u8>) -> bool {
        match self {
            CanBitSelection::Bit(index) => (index as int) / 8 < data.len(),
            CanBitSelection::BeUnsigned(start, len)
            | CanBitSelection::LeUnsigned(start, len)
            | CanBitSelection::BeSigned(start, len)
            | CanBitSelection::LeSigned(start, len) => data.len() <= 8 && run_in_range(
                data,
                start as int,
                len as int,
            ),
            CanBitSelection::Uint8(index) | CanBitSelection::Int8(index) => index < data.len(),
            CanBitSelection::Function(_) => false,
        }
    }

    /// Whether the selection's field can hold a raw value.
    pub open spec fn holds(self, raw: int) -> bool {
        match self {
            CanBitSelection::Bit(_) => 0 <= raw <= 1,
            CanBitSelection::BeUnsigned(_, len) | CanBitSelection::LeUnsigned(_, len) => 0 <= raw
                < two_pow(len as nat),
            CanBitSelection::BeSigned(_, len) | CanBitSelection::LeSigned(_, len) => len >= 1
                && -two_pow((len - 1) as nat) <= raw < two_pow((len - 1) as nat),
            CanBitSelection::Uint8(_) => 0 <= raw <= 255,
            CanBitSelection::Int8(_) => -128 <= raw <= 127,
            CanBitSelection::Function(_) => false,
        }
    }

    /// The payload with the low bits of `pattern` written into the
    /// selection's field.
    pub open spec fn encoded(self, data: Seq<u8>, pattern: u64) -> Seq<u8> {
        match self {
            CanBitSelection::Bit(index) => with_bit_lsb0(data, index as int, pattern as int % 2),
            CanBitSelection::BeUnsigned(start, len) | CanBitSelection::BeSigned(start, len) => {
                be_stored(data, start as int, len as nat, pattern as int)
            },
            CanBitSelection::LeUnsigned(start, len) | CanBitSelection::LeSigned(start, len) => {
                le_stored(data, start as int, len as nat, pattern as int)
            },
            CanBitSelection::Uint8(index) | CanBitSelection::Int8(index) => data.update(
                index as int,
                (pattern % 256) as u8,
            ),
            CanBitSelection::Function(_) => data,
        }
    }

    /// Writes the low bits of `pattern` into the selection's field. Returns
    /// false, and leaves the payload as it was, where the field cannot be
    /// written.
    pub fn encode(&self, data: &mut Vec<u8>, pattern: u64) -> (done: bool)
        ensures
            done == self.writable(old(data)@),
            done ==> final(data)@ == self.encoded(old(data)@, pattern),
            !done ==> final(data)@ == old(data)@,
    {
        match self {
            CanBitSelection::Bit(index) => {
                let byte_index: usize = (*index / 8) as usize;
                if byte_index >= data.len() {
                    return false;
                }
                let shift: u8 = *index % 8;
                let byte: u8 = data[byte_index];
                data[byte_index] = if pattern % 2 == 1 {
                    byte | (1u8 << shift)
                } else {
                    byte & !(1u8 << shift)
                };
                true
            },
            CanBitSelection::BeUnsigned(start, len) | CanBitSelection::BeSigned(start, len) => {
                write_be_unsigned(data, *start, *len, pattern)
            },
            CanBitSelection::LeUnsigned(start, len) | CanBitSelection::LeSigned(start, len) => {
                write_le_unsigned(data, *start, *len, pattern)
            },
            CanBitSelection::Uint8(index) | CanBitSelection::Int8(index) => {
                if (*index as usize) >= data.len() {
                    return false;
                }
                data[*index as usize] = (pattern % 256) as u8;
                true
            },
            CanBitSelection::Function(_) => false,
        }
    }
}

/// Round trip of a field: a raw value that the selection's field can hold,
/// written into a payload as its two's-complement pattern, is the raw value
/// that the selection reads from the payload afterwards.
pub proof fn lemma_field_round_trip(bits: CanBitSelection, data: Seq<u8>, raw: int)
    requires
        bits.writable(data),
        bits.holds(raw),
    ensures
        bits.raw_of(bits.encoded(data, pattern_of(raw))) == Some(raw),
        bits.encoded(data, pattern_of(raw)).len() == data.len(),
{
    let pattern = pattern_of(raw);
    lemma_two_pow_64();
    match bits {
        CanBitSelection::Bit(index) => {
            lemma_with_bit_lsb0(data, index as int, pattern as int % 2, index as int);
        },
        CanBitSelection::BeUnsigned(start, len) => {
            lemma_be_round_trip(data, start as int, len as nat, pattern as int);
            lemma_pattern_low_bits(raw, len as nat);
            vstd::arithmetic::div_mod::lemma_small_mod(raw as nat, two_pow(len as nat) as nat);
        },
        CanBitSelection::LeUnsigned(start, len) => {
            lemma_le_round_trip(data, start as int, len as nat, pattern as int);
            lemma_pattern_low_bits(raw, len as nat);
            vstd::arithmetic::div_mod::lemma_small_mod(raw as nat, two_pow(len as nat) as nat);
        },
        CanBitSelection::BeSigned(start, len) => {
            lemma_be_round_trip(data, start as int, len as nat, pattern as int);
            lemma_pattern_low_bits(raw, len as nat);
            lemma_as_signed_of_pattern(raw, len as nat);
        },
        CanBitSelection::LeSigned(start, len) => {
            lemma_le_round_trip(data, start as int, len as nat, pattern as int);
            lemma_pattern_low_bits(raw, len as nat);
            lemma_as_signed_of_pattern(raw, len as nat);
        },
        CanBitSelection::Uint8(index) => {
            lemma_pattern_low_bits(raw, 8);
        },
        CanBitSelection::Int8(index) => {
            lemma_pattern_low_bits(raw, 8);
            assert(two_pow(7) == 128) by {
                reveal_with_fuel(two_pow, 8);
            }
            lemma_as_signed_of_pattern(raw, 8);
        },
        CanBitSelection::Function(_) => {},
    }
}

/// Round trip of a value: a frame into whose payload a raw value was
/// written by a rule's selection decodes, by that rule, to the raw value
/// times the rule's scale.
pub proof fn lemma_encode_decode(map: CanMap, frame: FrameView, raw: int)
    requires
        map.id == frame.id,
        map.bits.writable(frame.data),
        map.bits.holds(raw),
    ensures
        map.decoded(
            FrameView { id: frame.id, data: map.bits.encoded(frame.data, pattern_of(raw)) },
        ) == Some(scaled(raw, map.scale as int)),
{
    lemma_field_round_trip(map.bits, frame.data, raw);
}

/// Round trip through a parameter: where the raw value times the rule's
/// scale lies in the range of measurements, a parameter with that rule
/// holds, after a frame into whose payload the raw value was written
/// arrived at time `millis`, exactly the raw value times the scale, and
/// `millis` as its stamp.
pub proof fn lemma_parameter_round_trip(
    p: Parameter,
    map: CanMap,
    frame: FrameView,
    raw: int,
    millis: u64,
)
    requires
        p.can_map == Some(map),
        map.id == frame.id,
        map.bits.writable(frame.data),
        map.bits.holds(raw),
        fits_i64(raw * map.scale),
    ensures
        p.after_frame(
            FrameView { id: frame.id, data: map.bits.encoded(frame.data, pattern_of(raw)) },
            millis,
        ).value == Value::Known((raw * map.scale) as i64),
        p.after_frame(
            FrameView { id: frame.id, data: map.bits.encoded(frame.data, pattern_of(raw)) },
            millis,
        ).update_timestamp == millis,
{
    lemma_encode_decode(map, frame, raw);
}

/// A raw value of fewer than 24 bits times a scale of fewer than 39 bits
/// always lies in the range of measurements.
pub proof fn lemma_small_raw_in_range(raw: int, scale: i64)
    requires
        -0x100_0000 < raw < 0x100_0000,
        -0x80_0000_0000 < scale < 0x80_0000_0000,
    ensures
        fits_i64(raw * scale),
{
    assert(-0x8000_0000_0000_0000 < raw * scale < 0x8000_0000_0000_0000) by (nonlinear_arith)
        requires
            -0x100_0000 < raw < 0x100_0000,
            -0x80_0000_0000 < scale < 0x80_0000_0000,
    ;
}

} // verus!
