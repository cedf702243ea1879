//! Decoding of one record message into a sample point.

use vstd::prelude::*;
use crate::message::{
    last_value, lemma_last_value_step, lemma_last_value_without, FieldRecord,
};
use crate::reading::{
    f32_at, optional_i8_at, optional_u16_at, u32_at, u32_scaled_at, u8_at, CENTIMETERS_PER_METER,
};
use crate::sentinel::{sanitize_i8, sanitize_u16};
use crate::types::Point;
use crate::value::{
    as_f32, extract_f32, extract_i8, extract_u16, extract_u32, extract_u8, F32Bits,
};

verus! {

/// Latitude, decimal degrees.
pub const RECORD_POSITION_LAT: u8 = 0;

/// Longitude, decimal degrees.
pub const RECORD_POSITION_LONG: u8 = 1;

/// Heart rate.
pub const RECORD_HEART_RATE: u8 = 3;

/// Cadence.
pub const RECORD_CADENCE: u8 = 4;

/// Distance so far, centimeters.
pub const RECORD_DISTANCE: u8 = 5;

/// Power; optional.
pub const RECORD_POWER: u8 = 7;

/// Temperature; optional.
pub const RECORD_TEMPERATURE: u8 = 13;

/// Speed.
pub const RECORD_SPEED: u8 = 73;

/// Altitude.
pub const RECORD_ALTITUDE: u8 = 78;

/// Time of the sample, seconds since the epoch.
pub const RECORD_TIMESTAMP: u8 = 253;

/// A latitude as it is stored: some devices write 180.0 where they have no
/// fix, and that is stored as 0.0.
pub open spec fn stored_latitude(decoded: F32Bits) -> F32Bits {
    if decoded.is_half_turn() {
        F32Bits::zero()
    } else {
        decoded
    }
}

/// The latitude that the fields give: the last latitude field as it is
/// stored, 0.0 where there is none.
pub open spec fn latitude_of(fields: Seq<FieldRecord>) -> F32Bits {
    match last_value(fields, RECORD_POSITION_LAT) {
        Some(value) => stored_latitude(as_f32(value)),
        None => F32Bits::zero(),
    }
}

/// The sample that a record message with the fields `fields` describes.
pub open spec fn point_of(fields: Seq<FieldRecord>) -> Point {
    Point {
        lat: latitude_of(fields),
        lon: f32_at(fields, RECORD_POSITION_LONG, F32Bits::zero()),
        timestamp: u32_at(fields, RECORD_TIMESTAMP, 0),
        distance: u32_scaled_at(fields, RECORD_DISTANCE, CENTIMETERS_PER_METER, 0),
        heart_rate: u8_at(fields, RECORD_HEART_RATE, 0),
        speed: u32_at(fields, RECORD_SPEED, 0),
        power: optional_u16_at(fields, RECORD_POWER, None),
        altitude: u32_at(fields, RECORD_ALTITUDE, 0),
        temperature: optional_i8_at(fields, RECORD_TEMPERATURE, None),
        cadence: u8_at(fields, RECORD_CADENCE, 0),
    }
}

/// Maps the latitude 180.0 to 0.0 and leaves every other latitude as it is.
pub fn store_latitude(decoded: F32Bits) -> (stored: F32Bits)
    ensures
        stored == stored_latitude(decoded),
        !stored.is_half_turn(),
{
    if decoded.equals_half_turn() {
        F32Bits { bits: 0 }
    } else {
        decoded
    }
}

/// Decodes the fields of one record message into a sample. Whether the
/// sample has a position is for the caller to test.
pub fn decode_point(fields: &Vec<FieldRecord>) -> (point: Point)
    ensures
        point == point_of(fields@),
        !point.lat.is_half_turn(),
{
    let mut point = Point::new();
    let mut i: usize = 0;
    while i < fields.len()
        invariant
            i <= fields.len(),
            point == point_of(fields@.take(i as int)),
            !point.lat.is_half_turn(),
        decreases fields.len() - i,
    {
        proof {
            lemma_last_value_step(fields@, i as int);
        }
        let field = &fields[i];
        let number: u8 = field.field_number;
        if number == RECORD_POSITION_LAT {
            point.lat = store_latitude(extract_f32(&field.value));
        } else if number == RECORD_POSITION_LONG {
            point.lon = extract_f32(&field.value);
        } else if number == RECORD_HEART_RATE {
            point.heart_rate = extract_u8(&field.value);
        } else if number == RECORD_CADENCE {
            point.cadence = extract_u8(&field.value);
        } else if number == RECORD_DISTANCE {
            point.distance = extract_u32(&field.value) / CENTIMETERS_PER_METER;
        } else if number == RECORD_POWER {
            point.power = sanitize_u16(extract_u16(&field.value));
        } else if number == RECORD_TEMPERATURE {
            point.temperature = sanitize_i8(extract_i8(&field.value));
        } else if number == RECORD_SPEED {
            point.speed = extract_u32(&field.value);
        } else if number == RECORD_ALTITUDE {
            point.altitude = extract_u32(&field.value);
        } else if number == RECORD_TIMESTAMP {
            point.timestamp = extract_u32(&field.value);
        }
        i += 1;
    }
    proof {
        assert(fields@.take(fields.len() as int) == fields@);
    }
    point
}

/// Whether a field with this number is read from a record message.
pub open spec fn record_reads(number: u8) -> bool {
    ||| number == RECORD_POSITION_LAT
    ||| number == RECORD_POSITION_LONG
    ||| number == RECORD_HEART_RATE
    ||| number == RECORD_CADENCE
    ||| number == RECORD_DISTANCE
    ||| number == RECORD_POWER
    ||| number == RECORD_TEMPERATURE
    ||| number == RECORD_SPEED
    ||| number == RECORD_ALTITUDE
    ||| number == RECORD_TIMESTAMP
}

/// A field that is not read from a record message is ignored: the sample
/// is the same without it, wherever in the message it stands and whatever
/// it holds.
pub proof fn lemma_record_ignores_other_fields(fields: Seq<FieldRecord>, at: int)
    requires
        0 <= at < fields.len(),
        !record_reads(fields[at].field_number),
    ensures
        point_of(fields.remove(at)) == point_of(fields),
{
    assert forall|number: u8| record_reads(number) implies #[trigger] last_value(
        fields.remove(at),
        number,
    ) == last_value(fields, number) by {
        lemma_last_value_without(fields, at, number);
    }
}

} // verus!
