//! Decoding of session and device-info messages into the session summary.

use vstd::prelude::*;
use crate::device::Device;
use crate::message::{
    first_value, last_value, lemma_first_value_concat, lemma_first_value_prefix,
    lemma_first_value_without, lemma_last_value_concat, lemma_last_value_step,
    lemma_last_value_without, FieldRecord,
};
use crate::reading::{
    optional_i8_at, optional_meters_at, optional_u16_at, optional_u32_at, optional_u8_at,
    to_whole_meters, u32_at, u32_scaled_at, u8_at, CENTIMETERS_PER_METER, MILLIS_PER_SECOND,
};
use crate::sentinel::{sanitize_i8, sanitize_u16, sanitize_u32, sanitize_u8};
use crate::types::{Activity, Sport};
use crate::value::{as_u16, extract_i8, extract_u16, extract_u32, extract_u8, RawValue};

verus! {

/// Identifier of the device, in a device-info message.
pub const DEVICE_INFO_PRODUCT: u8 = 4;

/// Start of the session, seconds since the epoch.
pub const SESSION_START_TIME: u8 = 2;

/// The sport, as an enumerant.
pub const SESSION_SPORT: u8 = 5;

/// Elapsed time, milliseconds.
pub const SESSION_TOTAL_ELAPSED_TIME: u8 = 7;

/// Timer time, milliseconds.
pub const SESSION_TOTAL_TIMER_TIME: u8 = 8;

/// Distance, centimeters.
pub const SESSION_TOTAL_DISTANCE: u8 = 9;

/// Calories; optional.
pub const SESSION_TOTAL_CALORIES: u8 = 11;

/// Average heart rate.
pub const SESSION_AVG_HEART_RATE: u8 = 16;

/// Highest heart rate.
pub const SESSION_MAX_HEART_RATE: u8 = 17;

/// Average cadence; optional.
pub const SESSION_AVG_CADENCE: u8 = 18;

/// Highest cadence; optional.
pub const SESSION_MAX_CADENCE: u8 = 19;

/// Average power; optional.
pub const SESSION_AVG_POWER: u8 = 20;

/// Highest power; optional.
pub const SESSION_MAX_POWER: u8 = 21;

/// Ascent, meters; optional.
pub const SESSION_TOTAL_ASCENT: u8 = 22;

/// Training effect; optional.
pub const SESSION_TOTAL_TRAINING_EFFECT: u8 = 24;

/// Number of pool lengths; optional.
pub const SESSION_NUM_LENGTHS: u8 = 33;

/// Normalized power; optional.
pub const SESSION_NORMALIZED_POWER: u8 = 34;

/// Training stress score; optional.
pub const SESSION_TRAINING_STRESS_SCORE: u8 = 35;

/// Intensity factor; optional.
pub const SESSION_INTENSITY_FACTOR: u8 = 36;

/// Length of the pool, centimeters; optional.
pub const SESSION_POOL_LENGTH: u8 = 44;

/// Average temperature; optional.
pub const SESSION_AVG_TEMPERATURE: u8 = 57;

/// Highest temperature; optional.
pub const SESSION_MAX_TEMPERATURE: u8 = 58;

/// Average speed; optional.
pub const SESSION_AVG_SPEED: u8 = 124;

/// Lowest temperature; optional.
pub const SESSION_MIN_TEMPERATURE: u8 = 150;

/// Time of the summary, seconds since the epoch.
pub const SESSION_TIMESTAMP: u8 = 253;

/// The sport that a value names, if it is an enumerant that names one.
pub open spec fn sport_of_value(value: RawValue) -> Option<Sport> {
    match value {
        RawValue::Enum(name) => Sport::named(name@),
        _ => None,
    }
}

/// The sport after the fields `fields`: that of the last sport field that
/// names a sport, and `otherwise` where no field does. A sport field that
/// names no sport changes nothing.
pub open spec fn sport_at(fields: Seq<FieldRecord>, otherwise: Sport) -> Sport
    decreases fields.len(),
{
    if fields.len() == 0 {
        otherwise
    } else if fields.last().field_number == SESSION_SPORT {
        match sport_of_value(fields.last().value) {
            Some(sport) => sport,
            None => sport_at(fields.drop_last(), otherwise),
        }
    } else {
        sport_at(fields.drop_last(), otherwise)
    }
}

/// The summary `before` after a session message with the fields `fields`:
/// each attribute takes the last write that the fields hold for it, and
/// keeps its value where they hold none. The device is not touched.
pub open spec fn session_update(before: Activity, fields: Seq<FieldRecord>) -> Activity {
    Activity {
        sport: sport_at(fields, before.sport),
        device: before.device,
        start_time: u32_at(fields, SESSION_START_TIME, before.start_time),
        timestamp: u32_at(fields, SESSION_TIMESTAMP, before.timestamp),
        total_timer_time: u32_scaled_at(
            fields,
            SESSION_TOTAL_TIMER_TIME,
            MILLIS_PER_SECOND,
            before.total_timer_time,
        ),
        total_elapsed_time: u32_scaled_at(
            fields,
            SESSION_TOTAL_ELAPSED_TIME,
            MILLIS_PER_SECOND,
            before.total_elapsed_time,
        ),
        total_distance: u32_scaled_at(
            fields,
            SESSION_TOTAL_DISTANCE,
            CENTIMETERS_PER_METER,
            before.total_distance,
        ),
        total_ascent: optional_u16_at(fields, SESSION_TOTAL_ASCENT, before.total_ascent),
        avg_speed: optional_u32_at(fields, SESSION_AVG_SPEED, before.avg_speed),
        avg_heart_rate: u8_at(fields, SESSION_AVG_HEART_RATE, before.avg_heart_rate),
        max_heart_rate: u8_at(fields, SESSION_MAX_HEART_RATE, before.max_heart_rate),
        avg_cadence: optional_u8_at(fields, SESSION_AVG_CADENCE, before.avg_cadence),
        max_cadence: optional_u8_at(fields, SESSION_MAX_CADENCE, before.max_cadence),
        avg_power: optional_u16_at(fields, SESSION_AVG_POWER, before.avg_power),
        max_power: optional_u16_at(fields, SESSION_MAX_POWER, before.max_power),
        normalized_power: optional_u16_at(
            fields,
            SESSION_NORMALIZED_POWER,
            before.normalized_power,
        ),
        total_calories: optional_u16_at(fields, SESSION_TOTAL_CALORIES, before.total_calories),
        total_training_effect: optional_u8_at(
            fields,
            SESSION_TOTAL_TRAINING_EFFECT,
            before.total_training_effect,
        ),
        training_stress_score: optional_u16_at(
            fields,
            SESSION_TRAINING_STRESS_SCORE,
            before.training_stress_score,
        ),
        intensity_factor: optional_u16_at(
            fields,
            SESSION_INTENSITY_FACTOR,
            before.intensity_factor,
        ),
        avg_temperature: optional_i8_at(fields, SESSION_AVG_TEMPERATURE, before.avg_temperature),
        max_temperature: optional_i8_at(fields, SESSION_MAX_TEMPERATURE, before.max_temperature),
        min_temperature: optional_i8_at(fields, SESSION_MIN_TEMPERATURE, before.min_temperature),
        pool_length: optional_meters_at(fields, SESSION_POOL_LENGTH, before.pool_length),
        num_lengths: optional_u16_at(fields, SESSION_NUM_LENGTHS, before.num_lengths),
    }
}

/// The device after a device-info message with the fields `fields`: the
/// one that was set before, if any; else the one that the first product
/// field names; else still none.
pub open spec fn device_after(before: Option<Device>, fields: Seq<FieldRecord>) -> Option<
    Device,
> {
    match before {
        Some(device) => Some(device),
        None => match first_value(fields, DEVICE_INFO_PRODUCT) {
            Some(value) => Some(Device::of_id(as_u16(value))),
            None => None,
        },
    }
}

/// The summary `before` after a device-info message with the fields
/// `fields`: only the device can change, and only where none was set.
pub open spec fn device_update(before: Activity, fields: Seq<FieldRecord>) -> Activity {
    Activity { device: device_after(before.device, fields), ..before }
}

/// Reads the sport that a value names, if it is an enumerant that names one.
pub fn sport_from_value(value: &RawValue) -> (sport: Option<Sport>)
    ensures
        sport == sport_of_value(*value),
{
    match value {
        RawValue::Enum(name) => Sport::from_name(name),
        _ => None,
    }
}

/// Applies the fields of one session message to the summary.
pub fn update_session(activity: &mut Activity, fields: &Vec<FieldRecord>)
    ensures
        *final(activity) == session_update(*old(activity), fields@),
        final(activity).device == old(activity).device,
{
    let ghost before = *activity;
    let mut current = *activity;
    let mut i: usize = 0;
    while i < fields.len()
        invariant
            i <= fields.len(),
            current == session_update(before, fields@.take(i as int)),
        decreases fields.len() - i,
    {
        proof {
            lemma_last_value_step(fields@, i as int);
            assert(fields@.take(i + 1).drop_last() == fields@.take(i as int));
            assert(fields@.take(i + 1).last() == fields@[i as int]);
        }
        let field = &fields[i];
        let number: u8 = field.field_number;
        if number == SESSION_START_TIME {
            current.start_time = extract_u32(&field.value);
        } else if number == SESSION_SPORT {
            match sport_from_value(&field.value) {
                Some(sport) => {
                    current.sport = sport;
                },
                None => {},
            }
        } else if number == SESSION_TOTAL_ELAPSED_TIME {
            current.total_elapsed_time = extract_u32(&field.value) / MILLIS_PER_SECOND;
        } else if number == SESSION_TOTAL_TIMER_TIME {
            current.total_timer_time = extract_u32(&field.value) / MILLIS_PER_SECOND;
        } else if number == SESSION_TOTAL_DISTANCE {
            current.total_distance = extract_u32(&field.value) / CENTIMETERS_PER_METER;
        } else if number == SESSION_TOTAL_CALORIES {
            current.total_calories = sanitize_u16(extract_u16(&field.value));
        } else if number == SESSION_AVG_HEART_RATE {
            current.avg_heart_rate = extract_u8(&field.value);
        } else if number == SESSION_MAX_HEART_RATE {
            current.max_heart_rate = extract_u8(&field.value);
        } else if number == SESSION_AVG_CADENCE {
            current.avg_cadence = sanitize_u8(extract_u8(&field.value));
        } else if number == SESSION_MAX_CADENCE {
            current.max_cadence = sanitize_u8(extract_u8(&field.value));
        } else if number == SESSION_AVG_POWER {
            current.avg_power = sanitize_u16(extract_u16(&field.value));
        } else if number == SESSION_MAX_POWER {
            current.max_power = sanitize_u16(extract_u16(&field.value));
        } else if number == SESSION_TOTAL_ASCENT {
            current.total_ascent = sanitize_u16(extract_u16(&field.value));
        } else if number == SESSION_TOTAL_TRAINING_EFFECT {
            current.total_training_effect = sanitize_u8(extract_u8(&field.value));
        } else if number == SESSION_NUM_LENGTHS {
            current.num_lengths = sanitize_u16(extract_u16(&field.value));
        } else if number == SESSION_NORMALIZED_POWER {
            current.normalized_power = sanitize_u16(extract_u16(&field.value));
        } else if number == SESSION_TRAINING_STRESS_SCORE {
            current.training_stress_score = sanitize_u16(extract_u16(&field.value));
        } else if number == SESSION_INTENSITY_FACTOR {
            current.intensity_factor = sanitize_u16(extract_u16(&field.value));
        } else if number == SESSION_POOL_LENGTH {
            current.pool_length = to_whole_meters(sanitize_u16(extract_u16(&field.value)));
        } else if number == SESSION_AVG_TEMPERATURE {
            current.avg_temperature = sanitize_i8(extract_i8(&field.value));
        } else if number == SESSION_MAX_TEMPERATURE {
            current.max_temperature = sanitize_i8(extract_i8(&field.value));
        } else if number == SESSION_MIN_TEMPERATURE {
            current.min_temperature = sanitize_i8(extract_i8(&field.value));
        } else if number == SESSION_AVG_SPEED {
            current.avg_speed = sanitize_u32(extract_u32(&field.value));
        } else if number == SESSION_TIMESTAMP {
            current.timestamp = extract_u32(&field.value);
        }
        i += 1;
    }
    proof {
        assert(fields@.take(fields.len() as int) == fields@);
    }
    *activity = current;
}

/// Applies the fields of one device-info message to the summary: where no
/// device is set yet, the first product field sets it.
pub fn resolve_device(activity: &mut Activity, fields: &Vec<FieldRecord>)
    ensures
        *final(activity) == device_update(*old(activity), fields@),
        old(activity).device is Some ==> *final(activity) == *old(activity),
{
    if activity.device.is_some() {
        return ;
    }
    let mut i: usize = 0;
    while i < fields.len()
        invariant
            i <= fields.len(),
            first_value(fields@.take(i as int), DEVICE_INFO_PRODUCT) is None,
            *activity == *old(activity),
            activity.device is None,
        decreases fields.len() - i,
    {
        let field = &fields[i];
        proof {
            assert(fields@.take(i + 1).drop_last() == fields@.take(i as int));
            assert(fields@.take(i + 1).last() == fields@[i as int]);
        }
        if field.field_number == DEVICE_INFO_PRODUCT {
            activity.device = Some(Device::from_id(extract_u16(&field.value)));
            proof {
                lemma_first_value_prefix(fields@, i + 1, DEVICE_INFO_PRODUCT);
            }
            return ;
        }
        i += 1;
    }
    proof {
        assert(fields@.take(fields.len() as int) == fields@);
    }
}

/// The sport after two lists of fields, one after the other, is the sport
/// after the second list, starting from the sport after the first.
pub proof fn lemma_sport_at_concat(first: Seq<FieldRecord>, second: Seq<FieldRecord>, start: Sport)
    ensures
        sport_at(first + second, start) == sport_at(second, sport_at(first, start)),
    decreases second.len(),
{
    if second.len() == 0 {
        assert(first + second == first);
    } else {
        assert((first + second).drop_last() == first + second.drop_last());
        lemma_sport_at_concat(first, second.drop_last(), start);
    }
}

/// Two session messages in a row update the summary as one message does
/// that holds the fields of both, those of the first in front.
pub proof fn lemma_session_update_concat(
    before: Activity,
    first: Seq<FieldRecord>,
    second: Seq<FieldRecord>,
)
    ensures
        session_update(session_update(before, first), second) == session_update(
            before,
            first + second,
        ),
{
    lemma_sport_at_concat(first, second, before.sport);
    assert forall|number: u8|
        #[trigger] last_value(first + second, number) == (match last_value(second, number) {
            Some(value) => Some(value),
            None => last_value(first, number),
        }) by {
        lemma_last_value_concat(first, second, number);
    }
}

/// Two device-info messages in a row update the summary as one message
/// does that holds the fields of both, those of the first in front.
pub proof fn lemma_device_update_concat(
    before: Activity,
    first: Seq<FieldRecord>,
    second: Seq<FieldRecord>,
)
    ensures
        device_update(device_update(before, first), second) == device_update(
            before,
            first + second,
        ),
{
    lemma_first_value_concat(first, second, DEVICE_INFO_PRODUCT);
}

/// Whether a field with this number is read from a session message.
pub open spec fn session_reads(number: u8) -> bool {
    ||| number == SESSION_START_TIME
    ||| number == SESSION_SPORT
    ||| number == SESSION_TOTAL_ELAPSED_TIME
    ||| number == SESSION_TOTAL_TIMER_TIME
    ||| number == SESSION_TOTAL_DISTANCE
    ||| number == SESSION_TOTAL_CALORIES
    ||| number == SESSION_AVG_HEART_RATE
    ||| number == SESSION_MAX_HEART_RATE
    ||| number == SESSION_AVG_CADENCE
    ||| number == SESSION_MAX_CADENCE
    ||| number == SESSION_AVG_POWER
    ||| number == SESSION_MAX_POWER
    ||| number == SESSION_TOTAL_ASCENT
    ||| number == SESSION_TOTAL_TRAINING_EFFECT
    ||| number == SESSION_NUM_LENGTHS
    ||| number == SESSION_NORMALIZED_POWER
    ||| number == SESSION_TRAINING_STRESS_SCORE
    ||| number == SESSION_INTENSITY_FACTOR
    ||| number == SESSION_POOL_LENGTH
    ||| number == SESSION_AVG_TEMPERATURE
    ||| number == SESSION_MAX_TEMPERATURE
    ||| number == SESSION_AVG_SPEED
    ||| number == SESSION_MIN_TEMPERATURE
    ||| number == SESSION_TIMESTAMP
}

/// A field that is no sport field, or that names no sport, has no part in
/// the sport: without it the sport is the same.
pub proof fn lemma_sport_at_without(fields: Seq<FieldRecord>, at: int, start: Sport)
    requires
        0 <= at < fields.len(),
        fields[at].field_number != SESSION_SPORT || sport_of_value(fields[at].value) is None,
    ensures
        sport_at(fields.remove(at), start) == sport_at(fields, start),
    decreases fields.len(),
{
    if at == fields.len() - 1 {
        assert(fields.remove(at) == fields.drop_last());
    } else {
        assert(fields.remove(at).last() == fields.last());
        assert(fields.remove(at).drop_last() == fields.drop_last().remove(at));
        lemma_sport_at_without(fields.drop_last(), at, start);
    }
}

/// A field that is not read from a session message is ignored: the
/// summary is the same without it, wherever in the message it stands and
/// whatever it holds.
pub proof fn lemma_session_ignores_other_fields(
    before: Activity,
    fields: Seq<FieldRecord>,
    at: int,
)
    requires
        0 <= at < fields.len(),
        !session_reads(fields[at].field_number),
    ensures
        session_update(before, fields.remove(at)) == session_update(before, fields),
{
    lemma_sport_at_without(fields, at, before.sport);
    assert forall|number: u8| session_reads(number) implies #[trigger] last_value(
        fields.remove(at),
        number,
    ) == last_value(fields, number) by {
        lemma_last_value_without(fields, at, number);
    }
}

/// In a device-info message every field but the product field is ignored.
pub proof fn lemma_device_info_ignores_other_fields(
    before: Activity,
    fields: Seq<FieldRecord>,
    at: int,
)
    requires
        0 <= at < fields.len(),
        fields[at].field_number != DEVICE_INFO_PRODUCT,
    ensures
        device_update(before, fields.remove(at)) == device_update(before, fields),
{
    lemma_first_value_without(fields, at, DEVICE_INFO_PRODUCT);
}

} // verus!
