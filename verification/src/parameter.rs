//! Parameters: named measurements, and the rules that decode them from
//! frames.

use crate::bits::{
    as_signed, be_unsigned, bit_lsb0, le_unsigned, read_be_signed, read_be_unsigned, read_bit,
    read_int8, read_le_signed, read_le_unsigned, read_uint8, run_in_range,
};
use crate::frame::{Frame, FrameId, FrameView};
use crate::value::{scaled, Value};
use vstd::prelude::*;

verus! {

/// Decode rules that no plain bit run expresses.
#[derive(Clone, Copy, Debug, PartialEq, Eq, Structural)]
pub enum Extractor {
    /// The larger of two bytes read as two's-complement numbers, lowered by
    /// `offset`.
    Warmer { first: u8, second: u8, offset: u8 },
    /// `set` where the byte is not zero, zero where it is.
    NonZero { byte: u8, set: u8 },
    /// Applies only to frames whose byte `guard_byte` equals `guard_value`:
    /// one where byte `byte` equals `expected`, else zero.
    Guarded { guard_byte: u8, guard_value: u8, byte: u8, expected: u8 },
}

/// Which bits of a frame's payload make up a raw value.
#[derive(Clone, Copy, Debug, PartialEq, Eq, Structural)]
pub enum CanBitSelection {
    /// One bit, least-significant-first numbering.
    Bit(u8),
    /// Unsigned run (first bit, length), most significant bit first.
    BeUnsigned(u8, u8),
    /// Unsigned run (first bit, length), least significant bit first.
    LeUnsigned(u8, u8),
    /// Two's-complement run (first bit, length), most significant bit first.
    BeSigned(u8, u8),
    /// Two's-complement run (first bit, length), least significant bit first.
    LeSigned(u8, u8),
    /// One unsigned byte.
    Uint8(u8),
    /// One two's-complement byte.
    Int8(u8),
    /// A custom rule.
    Function(Extractor),
}

/// How a parameter is decoded: from which frame, which bits, and how many
/// millionths of the unit one raw count is worth.
#[derive(Clone, Copy, Debug, PartialEq, Eq, Structural)]
pub struct CanMap {
    pub id: FrameId,
    pub bits: CanBitSelection,
    pub scale: i64,
}

/// How a parameter is named and scaled in telemetry reports.
#[derive(Clone, Copy, Debug, PartialEq, Eq)]
pub struct ReportMap {
    pub name: &'static str,
    pub decimals: u8,
    pub scale: i64,
}

/// One named measurement with its metadata, current value and the time of
/// its last update in milliseconds.
#[derive(Clone, Copy, Debug, PartialEq, Eq)]
pub struct Parameter {
    pub id: usize,
    pub display_name: &'static str,
    pub value: Value,
    pub decimals: u8,
    pub unit: &'static str,
    pub can_map: Option<CanMap>,
    pub report_map: Option<ReportMap>,
    pub update_timestamp: u64,
    pub log_threshold: Option<u64>,
}

pub open spec fn larger(a: int, b: int) -> int {
    if a > b {
        a
    } else {
        b
    }
}

impl Extractor {
    /// The raw value that the rule reads from a payload; nothing where the
    /// payload is too short for it or the rule does not apply.
    pub open spec fn raw_of(self, data: Seq<u8>) -> Option<int> {
        match self {
            Extractor::Warmer { first, second, offset } => {
                if first < data.len() && second < data.len() {
                    Some(
                        larger(as_signed(data[first as int] as int, 8), as_signed(
                            data[second as int] as int,
                            8,
                        )) - offset,
                    )
                } else {
                    None
                }
            },
            Extractor::NonZero { byte, set } => {
                if byte < data.len() {
                    Some(
                        if data[byte as int] > 0 {
                            set as int
                        } else {
                            0
                        },
                    )
                } else {
                    None
                }
            },
            Extractor::Guarded { guard_byte, guard_value, byte, expected } => {
                if guard_byte < data.len() && data[guard_byte as int] == guard_value && byte
                    < data.len() {
                    Some(
                        if data[byte as int] == expected {
                            1
                        } else {
                            0
                        },
                    )
                } else {
                    None
                }
            },
        }
    }

    pub fn extract(&self, data: &[u8]) -> (r: Option<i128>)
        ensures
            r is Some <==> self.raw_of(data@) is Some,
            r matches Some(raw) ==> self.raw_of(data@) == Some(raw as int) && -383 <= raw <= 255,
    {
        match self {
            Extractor::Warmer { first, second, offset } => {
                match (read_int8(data, *first), read_int8(data, *second)) {
                    (Some(a), Some(b)) => {
                        let warmer: i8 = if a > b {
                            a
                        } else {
                            b
                        };
                        Some(warmer as i128 - *offset as i128)
                    },
                    _ => None,
                }
            },
            Extractor::NonZero { byte, set } => {
                match read_uint8(data, *byte) {
                    Some(b) => Some(
                        if b > 0 {
                            *set as i128
                        } else {
                            0
                        },
                    ),
                    None => None,
                }
            },
            Extractor::Guarded { guard_byte, guard_value, byte, expected } => {
                match read_uint8(data, *guard_byte) {
                    Some(g) => {
                        if g == *guard_value {
                            match read_uint8(data, *byte) {
                                Some(b) => Some(
                                    if b == *expected {
                                        1
                                    } else {
                                        0
                                    },
                                ),
                                None => None,
                            }
                        } else {
                            None
                        }
                    },
                    None => None,
                }
            },
        }
    }
}

impl CanBitSelection {
    /// The raw value that the selection reads from a payload; nothing where
    /// the payload is too short for it, the run is not 1 to 64 bits long, or
    /// a custom rule does not apply.
    pub open spec fn raw_of(self, data: Seq<u8>) -> Option<int> {
        match self {
            CanBitSelection::Bit(index) => {
                if (index as int) / 8 < data.len() {
                    Some(bit_lsb0(data, index as int))
                } else {
                    None
                }
            },
            CanBitSelection::BeUnsigned(start, len) => {
                if data.len() <= 8 && run_in_range(data, start as int, len as int) {
                    Some(be_unsigned(data, start as int, len as nat))
                } else {
                    None
                }
            },
            CanBitSelection::LeUnsigned(start, len) => {
                if data.len() <= 8 && run_in_range(data, start as int, len as int) {
                    Some(le_unsigned(data, start as int, len as nat))
                } else {
                    None
                }
            },
            CanBitSelection::BeSigned(start, len) => {
                if data.len() <= 8 && run_in_range(data, start as int, len as int) {
                    Some(as_signed(be_unsigned(data, start as int, len as nat), len as nat))
                } else {
                    None
                }
            },
            CanBitSelection::LeSigned(start, len) => {
                if data.len() <= 8 && run_in_range(data, start as int, len as int) {
                    Some(as_signed(le_unsigned(data, start as int, len as nat), len as nat))
                } else {
                    None
                }
            },
            CanBitSelection::Uint8(index) => {
                if index < data.len() {
                    Some(data[index as int] as int)
                } else {
                    None
                }
            },
            CanBitSelection::Int8(index) => {
                if index < data.len() {
                    Some(as_signed(data[index as int] as int, 8))
                } else {
                    None
                }
            },
            CanBitSelection::Function(rule) => rule.raw_of(data),
        }
    }

    /// Reads the raw value from a payload.
    pub fn extract(&self, data: &[u8]) -> (r: Option<i128>)
        ensures
            r is Some <==> self.raw_of(data@) is Some,
            r matches Some(raw) ==> self.raw_of(data@) == Some(raw as int) && -0x8000_0000_0000_0000
                <= raw <= 0xffff_ffff_ffff_ffff,
    {
        match self {
            CanBitSelection::Bit(index) => match read_bit(data, *index) {
                Some(bit) => Some(bit as i128),
                None => None,
            },
            CanBitSelection::BeUnsigned(start, len) => match read_be_unsigned(data, *start, *len) {
                Some(raw) => Some(raw as i128),
                None => None,
            },
            CanBitSelection::LeUnsigned(start, len) => match read_le_unsigned(data, *start, *len) {
                Some(raw) => Some(raw as i128),
                None => None,
            },
            CanBitSelection::BeSigned(start, len) => match read_be_signed(data, *start, *len) {
                Some(raw) => Some(raw as i128),
                None => None,
            },
            CanBitSelection::LeSigned(start, len) => match read_le_signed(data, *start, *len) {
                Some(raw) => Some(raw as i128),
                None => None,
            },
            CanBitSelection::Uint8(index) => match read_uint8(data, *index) {
                Some(raw) => Some(raw as i128),
                None => None,
            },
            CanBitSelection::Int8(index) => match read_int8(data, *index) {
                Some(raw) => Some(raw as i128),
                None => None,
            },
            CanBitSelection::Function(rule) => rule.extract(data),
        }
    }
}

impl CanMap {
    /// The value that the frame carries for this rule; nothing where the
    /// frame has another identifier or its payload yields no raw value.
    pub open spec fn decoded(self, frame: FrameView) -> Option<Value> {
        if self.id == frame.id {
            match self.bits.raw_of(frame.data) {
                Some(raw) => Some(scaled(raw, self.scale as int)),
                None => None,
            }
        } else {
            None
        }
    }

    /// Decodes the frame by this rule.
    pub fn decode(&self, frame: &Frame) -> (r: Option<Value>)
        ensures
            r == self.decoded(frame@),
    {
        if self.id == frame.id {
            match self.bits.extract(frame.data.as_slice()) {
                Some(raw) => Some(Value::from_raw(raw, self.scale)),
                None => None,
            }
        } else {
            None
        }
    }
}

impl Parameter {
    /// A parameter that was never updated.
    pub fn new(
        id: usize,
        display_name: &'static str,
        value: Value,
        decimals: u8,
        unit: &'static str,
        can_map: Option<CanMap>,
        report_map: Option<ReportMap>,
    ) -> (p: Parameter)
        ensures
            p == (Parameter {
                id,
                display_name,
                value,
                decimals,
                unit,
                can_map,
                report_map,
                update_timestamp: 0,
                log_threshold: None,
            }),
    {
        Parameter {
            id,
            display_name,
            value,
            decimals,
            unit,
            can_map,
            report_map,
            update_timestamp: 0,
            log_threshold: None,
        }
    }

    /// This parameter with a new value and the time of the update.
    pub open spec fn updated(self, value: Value, millis: u64) -> Parameter {
        Parameter { value, update_timestamp: millis, ..self }
    }

    /// Stores a value together with the time of the update.
    pub fn set_value(&mut self, value: Value, millis: u64)
        ensures
            *final(self) == old(self).updated(value, millis),
    {
        self.value = value;
        self.update_timestamp = millis;
    }

    /// This parameter after a frame arrived at time `millis`: updated where
    /// its rule decodes a value from the frame, untouched otherwise.
    pub open spec fn after_frame(self, frame: FrameView, millis: u64) -> Parameter {
        match self.can_map {
            Some(map) => match map.decoded(frame) {
                Some(value) => self.updated(value, millis),
                None => self,
            },
            None => self,
        }
    }

    /// Applies a frame that arrived at time `millis`.
    pub fn on_frame(&mut self, frame: &Frame, millis: u64)
        ensures
            *final(self) == old(self).after_frame(frame@, millis),
    {
        match &self.can_map {
            Some(map) => match map.decode(frame) {
                Some(value) => {
                    self.set_value(value, millis);
                },
                None => {},
            },
            None => {},
        }
    }
}

} // verus!
