//! Typed values as they arrive from the wire, and the accessors that read
//! them as one fixed numeric type.

use vstd::prelude::*;

verus! {

/// Bit pattern of the 32-bit IEEE-754 number 180.0.
pub const HALF_TURN_BITS: u32 = 0x4334_0000;

/// Bit pattern of the 32-bit IEEE-754 number -0.0.
pub const NEGATIVE_ZERO_BITS: u32 = 0x8000_0000;

/// A 32-bit IEEE-754 number, held by its bit pattern.
///
/// Two values are the same exactly when their bits are the same, so a
/// decoded position is carried through without any rounding.
#[derive(Clone, Copy, Debug, PartialEq, Eq)]
pub struct F32Bits {
    pub bits: u32,
}

impl F32Bits {
    /// The number 0.0.
    pub open spec fn zero() -> F32Bits {
        F32Bits { bits: 0 }
    }

    /// Whether the number compares equal to 0.0: it is 0.0 or -0.0.
    pub open spec fn is_zero(self) -> bool {
        self.bits == 0 || self.bits == NEGATIVE_ZERO_BITS
    }

    /// Whether the number compares equal to 180.0.
    pub open spec fn is_half_turn(self) -> bool {
        self.bits == HALF_TURN_BITS
    }

    /// The number with the bit pattern `bits`.
    pub fn from_bits(bits: u32) -> (r: F32Bits)
        ensures
            r.bits == bits,
    {
        F32Bits { bits }
    }

    /// The bit pattern of the number.
    pub fn to_bits(&self) -> (r: u32)
        ensures
            r == self.bits,
    {
        self.bits
    }

    /// Tests whether the number compares equal to 0.0.
    pub fn equals_zero(&self) -> (r: bool)
        ensures
            r == self.is_zero(),
    {
        self.bits == 0 || self.bits == NEGATIVE_ZERO_BITS
    }

    /// Tests whether the number compares equal to 180.0.
    pub fn equals_half_turn(&self) -> (r: bool)
        ensures
            r == self.is_half_turn(),
    {
        self.bits == HALF_TURN_BITS
    }
}

/// One field's value: a tag and what is stored under it.
#[derive(Clone, Debug, PartialEq, Eq)]
pub enum RawValue {
    U8(u8),
    I8(i8),
    U16(u16),
    I16(i16),
    U32(u32),
    I32(i32),
    /// Seconds since the epoch; reads as an unsigned 32-bit integer.
    Time(u32),
    F32(F32Bits),
    /// An enumerant, by its name.
    Enum(String),
    /// Any encoding that no accessor reads.
    Other,
}

/// The byte `x` read as a two's-complement signed byte.
pub open spec fn reinterpret_signed(x: u8) -> i8 {
    if x < 128 {
        x as i8
    } else {
        (x - 256) as i8
    }
}

/// What `value` is as a `u8`: the stored number under the tag `U8`, else 0.
pub open spec fn as_u8(value: RawValue) -> u8 {
    match value {
        RawValue::U8(x) => x,
        _ => 0,
    }
}

/// What `value` is as an `i8`: the stored number under the tag `I8`, the
/// byte read as signed under the tag `U8`, else 0.
pub open spec fn as_i8(value: RawValue) -> i8 {
    match value {
        RawValue::I8(x) => x,
        RawValue::U8(x) => reinterpret_signed(x),
        _ => 0,
    }
}

/// What `value` is as a `u16`: the stored number under the tag `U16`, else 0.
pub open spec fn as_u16(value: RawValue) -> u16 {
    match value {
        RawValue::U16(x) => x,
        _ => 0,
    }
}

/// What `value` is as a `u32`: the stored number under the tags `U32` and
/// `Time`, else 0.
pub open spec fn as_u32(value: RawValue) -> u32 {
    match value {
        RawValue::U32(x) => x,
        RawValue::Time(x) => x,
        _ => 0,
    }
}

/// What `value` is as a 32-bit float: the stored number under the tag
/// `F32`, else 0.0.
pub open spec fn as_f32(value: RawValue) -> F32Bits {
    match value {
        RawValue::F32(x) => x,
        _ => F32Bits::zero(),
    }
}

/// Reads `value` as a `u8`; a value of any other tag reads as 0.
pub fn extract_u8(value: &RawValue) -> (r: u8)
    ensures
        r == as_u8(*value),
        *value matches RawValue::U8(x) ==> r == x,
{
    match value {
        RawValue::U8(x) => *x,
        _ => 0,
    }
}

/// Reads `value` as an `i8`. An unsigned byte is read by its bit pattern;
/// a value of any other tag reads as 0.
pub fn extract_i8(value: &RawValue) -> (r: i8)
    ensures
        r == as_i8(*value),
        *value matches RawValue::I8(x) ==> r == x,
        *value matches RawValue::U8(x) ==> r == reinterpret_signed(x),
{
    match value {
        RawValue::I8(x) => *x,
        RawValue::U8(x) => {
            if *x < 128 {
                *x as i8
            } else {
                (*x as i16 - 256) as i8
            }
        },
        _ => 0,
    }
}

/// Reads `value` as a `u16`; a value of any other tag reads as 0.
pub fn extract_u16(value: &RawValue) -> (r: u16)
    ensures
        r == as_u16(*value),
        *value matches RawValue::U16(x) ==> r == x,
{
    match value {
        RawValue::U16(x) => *x,
        _ => 0,
    }
}

/// Reads `value` as a `u32`; a time stamp reads as its seconds, a value of
/// any other tag as 0.
pub fn extract_u32(value: &RawValue) -> (r: u32)
    ensures
        r == as_u32(*value),
        *value matches RawValue::U32(x) ==> r == x,
        *value matches RawValue::Time(x) ==> r == x,
{
    match value {
        RawValue::U32(x) => *x,
        RawValue::Time(x) => *x,
        _ => 0,
    }
}

/// Reads `value` as a 32-bit float; a value of any other tag reads as 0.0.
pub fn extract_f32(value: &RawValue) -> (r: F32Bits)
    ensures
        r == as_f32(*value),
        *value matches RawValue::F32(x) ==> r == x,
{
    match value {
        RawValue::F32(x) => *x,
        _ => F32Bits { bits: 0 },
    }
}

/// A value read at the type of its own tag comes back as it was stored.
pub proof fn lemma_matching_tag_round_trips(value: RawValue)
    ensures
        value matches RawValue::U8(x) ==> as_u8(value) == x,
        value matches RawValue::I8(x) ==> as_i8(value) == x,
        value matches RawValue::U16(x) ==> as_u16(value) == x,
        value matches RawValue::U32(x) ==> as_u32(value) == x,
        value matches RawValue::F32(x) ==> as_f32(value) == x,
{
}

/// A value read at a type that its tag does not convert to is zero.
pub proof fn lemma_other_tag_reads_zero(value: RawValue)
    ensures
        !(value is U8) ==> as_u8(value) == 0,
        !(value is I8 || value is U8) ==> as_i8(value) == 0,
        !(value is U16) ==> as_u16(value) == 0,
        !(value is U32 || value is Time) ==> as_u32(value) == 0,
        !(value is F32) ==> as_f32(value) == F32Bits::zero(),
{
}

} // verus!
