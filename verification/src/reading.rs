//! What a list of fields says of one attribute: the last field that carries
//! the attribute's number is read at the attribute's type, and where no
//! field carries it the attribute keeps the value it had.

use vstd::prelude::*;
use crate::message::{last_value, FieldRecord};
use crate::sentinel::{sanitized_i8, sanitized_u16, sanitized_u32, sanitized_u8};
use crate::value::{as_f32, as_i8, as_u16, as_u32, as_u8, F32Bits};

verus! {

/// Milliseconds in a second.
pub const MILLIS_PER_SECOND: u32 = 1000;

/// Centimeters in a meter.
pub const CENTIMETERS_PER_METER: u32 = 100;

/// Centimeters in a meter, for 16-bit lengths.
pub const CENTIMETERS_PER_METER_U16: u16 = 100;

/// An attribute that is stored as the `u8` it was read as.
pub open spec fn u8_at(fields: Seq<FieldRecord>, number: u8, otherwise: u8) -> u8 {
    match last_value(fields, number) {
        Some(value) => as_u8(value),
        None => otherwise,
    }
}

/// An attribute that is stored as the `u32` it was read as.
pub open spec fn u32_at(fields: Seq<FieldRecord>, number: u8, otherwise: u32) -> u32 {
    match last_value(fields, number) {
        Some(value) => as_u32(value),
        None => otherwise,
    }
}

/// An attribute that is read as a `u32` and stored in units `per` times as
/// large, rounded towards zero.
pub open spec fn u32_scaled_at(
    fields: Seq<FieldRecord>,
    number: u8,
    per: u32,
    otherwise: u32,
) -> u32 {
    match last_value(fields, number) {
        Some(value) => (as_u32(value) / per) as u32,
        None => otherwise,
    }
}

/// An attribute that is stored as the 32-bit float it was read as.
pub open spec fn f32_at(fields: Seq<FieldRecord>, number: u8, otherwise: F32Bits) -> F32Bits {
    match last_value(fields, number) {
        Some(value) => as_f32(value),
        None => otherwise,
    }
}

/// An optional attribute read as a `u8`: the reserved maximum is absent.
pub open spec fn optional_u8_at(
    fields: Seq<FieldRecord>,
    number: u8,
    otherwise: Option<u8>,
) -> Option<u8> {
    match last_value(fields, number) {
        Some(value) => sanitized_u8(as_u8(value)),
        None => otherwise,
    }
}

/// An optional attribute read as a `u16`: the reserved maximum is absent.
pub open spec fn optional_u16_at(
    fields: Seq<FieldRecord>,
    number: u8,
    otherwise: Option<u16>,
) -> Option<u16> {
    match last_value(fields, number) {
        Some(value) => sanitized_u16(as_u16(value)),
        None => otherwise,
    }
}

/// An optional attribute read as a `u32`: the reserved maximum is absent.
pub open spec fn optional_u32_at(
    fields: Seq<FieldRecord>,
    number: u8,
    otherwise: Option<u32>,
) -> Option<u32> {
    match last_value(fields, number) {
        Some(value) => sanitized_u32(as_u32(value)),
        None => otherwise,
    }
}

/// An optional attribute read as an `i8`: the reserved maximum is absent.
pub open spec fn optional_i8_at(
    fields: Seq<FieldRecord>,
    number: u8,
    otherwise: Option<i8>,
) -> Option<i8> {
    match last_value(fields, number) {
        Some(value) => sanitized_i8(as_i8(value)),
        None => otherwise,
    }
}

/// A length in centimeters as whole meters; an absent length stays absent.
pub open spec fn whole_meters(centimeters: Option<u16>) -> Option<u16> {
    match centimeters {
        Some(length) => Some((length / CENTIMETERS_PER_METER_U16) as u16),
        None => None,
    }
}

/// An optional length read as a `u16` of centimeters and stored in meters.
pub open spec fn optional_meters_at(
    fields: Seq<FieldRecord>,
    number: u8,
    otherwise: Option<u16>,
) -> Option<u16> {
    match last_value(fields, number) {
        Some(value) => whole_meters(sanitized_u16(as_u16(value))),
        None => otherwise,
    }
}

/// Turns a length in centimeters into whole meters, rounding towards zero.
pub fn to_whole_meters(centimeters: Option<u16>) -> (meters: Option<u16>)
    ensures
        meters == whole_meters(centimeters),
{
    match centimeters {
        Some(length) => Some(length / CENTIMETERS_PER_METER_U16),
        None => None,
    }
}

} // verus!
