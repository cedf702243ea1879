//! Decoding of one lap message.

use vstd::prelude::*;
use crate::message::{last_value, lemma_last_value_step, lemma_last_value_without, FieldRecord};
use crate::reading::{u32_at, u32_scaled_at, u8_at, CENTIMETERS_PER_METER, MILLIS_PER_SECOND};
use crate::types::Lap;
use crate::value::{extract_u32, extract_u8};

verus! {

/// Start of the lap, seconds since the epoch.
pub const LAP_START_TIME: u8 = 2;

/// Elapsed time of the lap, milliseconds.
pub const LAP_TOTAL_ELAPSED_TIME: u8 = 7;

/// Timer time of the lap, milliseconds.
pub const LAP_TOTAL_TIMER_TIME: u8 = 8;

/// Distance of the lap, centimeters.
pub const LAP_TOTAL_DISTANCE: u8 = 9;

/// Average heart rate over the lap.
pub const LAP_AVG_HEART_RATE: u8 = 15;

/// Highest heart rate of the lap.
pub const LAP_MAX_HEART_RATE: u8 = 16;

/// The lap that a lap message with the fields `fields` describes, given
/// that `index` laps came before it. The index comes from the position
/// alone; no field sets it.
pub open spec fn lap_of(index: usize, fields: Seq<FieldRecord>) -> Lap {
    Lap {
        index,
        start_time: u32_at(fields, LAP_START_TIME, 0),
        total_elapsed_time: u32_scaled_at(fields, LAP_TOTAL_ELAPSED_TIME, MILLIS_PER_SECOND, 0),
        total_timer_time: u32_scaled_at(fields, LAP_TOTAL_TIMER_TIME, MILLIS_PER_SECOND, 0),
        total_distance: u32_scaled_at(fields, LAP_TOTAL_DISTANCE, CENTIMETERS_PER_METER, 0),
        avg_heart_rate: u8_at(fields, LAP_AVG_HEART_RATE, 0),
        max_heart_rate: u8_at(fields, LAP_MAX_HEART_RATE, 0),
    }
}

/// Decodes the fields of one lap message into the lap at `index`.
pub fn decode_lap(index: usize, fields: &Vec<FieldRecord>) -> (lap: Lap)
    ensures
        lap == lap_of(index, fields@),
        lap.index == index,
{
    let mut lap = Lap::new(index);
    let mut i: usize = 0;
    while i < fields.len()
        invariant
            i <= fields.len(),
            lap == lap_of(index, fields@.take(i as int)),
        decreases fields.len() - i,
    {
        proof {
            lemma_last_value_step(fields@, i as int);
        }
        let field = &fields[i];
        let number: u8 = field.field_number;
        if number == LAP_START_TIME {
            lap.start_time = extract_u32(&field.value);
        } else if number == LAP_TOTAL_ELAPSED_TIME {
            lap.total_elapsed_time = extract_u32(&field.value) / MILLIS_PER_SECOND;
        } else if number == LAP_TOTAL_TIMER_TIME {
            lap.total_timer_time = extract_u32(&field.value) / MILLIS_PER_SECOND;
        } else if number == LAP_TOTAL_DISTANCE {
            lap.total_distance = extract_u32(&field.value) / CENTIMETERS_PER_METER;
        } else if number == LAP_AVG_HEART_RATE {
            lap.avg_heart_rate = extract_u8(&field.value);
        } else if number == LAP_MAX_HEART_RATE {
            lap.max_heart_rate = extract_u8(&field.value);
        }
        i += 1;
    }
    proof {
        assert(fields@.take(fields.len() as int) == fields@);
    }
    lap
}

/// Whether a field with this number is read from a lap message.
pub open spec fn lap_reads(number: u8) -> bool {
    ||| number == LAP_START_TIME
    ||| number == LAP_TOTAL_ELAPSED_TIME
    ||| number == LAP_TOTAL_TIMER_TIME
    ||| number == LAP_TOTAL_DISTANCE
    ||| number == LAP_AVG_HEART_RATE
    ||| number == LAP_MAX_HEART_RATE
}

/// A field that is not read from a lap message is ignored: the lap is the
/// same without it, wherever in the message it stands and whatever it holds.
pub proof fn lemma_lap_ignores_other_fields(index: usize, fields: Seq<FieldRecord>, at: int)
    requires
        0 <= at < fields.len(),
        !lap_reads(fields[at].field_number),
    ensures
        lap_of(index, fields.remove(at)) == lap_of(index, fields),
{
    assert forall|number: u8| lap_reads(number) implies #[trigger] last_value(
        fields.remove(at),
        number,
    ) == last_value(fields, number) by {
        lemma_last_value_without(fields, at, number);
    }
}

} // verus!
