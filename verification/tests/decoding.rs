use fit_activity::decode::decode;
use fit_activity::device::Device;
use fit_activity::lap::decode_lap;
use fit_activity::message::{FieldRecord, Message, MessageType};
use fit_activity::record::{decode_point, store_latitude};
use fit_activity::reading::to_whole_meters;
use fit_activity::session::{resolve_device, sport_from_value, update_session};
use fit_activity::types::{Activity, FitStruct, Lap, Point, Sport};
use fit_activity::value::{F32Bits, RawValue};

fn field(number: u8, value: RawValue) -> FieldRecord {
    FieldRecord::new(number, value)
}

fn float(x: f32) -> RawValue {
    RawValue::F32(F32Bits::from_bits(x.to_bits()))
}

fn name(s: &str) -> RawValue {
    RawValue::Enum(s.to_string())
}

fn message(kind: MessageType, fields: Vec<FieldRecord>) -> Message {
    Message::new(kind, fields)
}

fn record_at(lat: f32) -> Message {
    message(MessageType::Record, vec![field(0, float(lat)), field(1, float(11.5))])
}

#[test]
fn empty_stream_decodes_to_blank() {
    let fit = decode(&Vec::new());
    assert_eq!(fit, FitStruct::new());
    assert_eq!(fit.activity, Activity::new());
    assert_eq!(fit.activity.sport, Sport::Unknown);
    assert_eq!(fit.activity.device, None);
    assert_eq!(fit.activity.device_name(), "");
    assert_eq!(fit.activity.total_ascent, None);
    assert_eq!(fit.activity.avg_heart_rate, 0);
    assert!(fit.laps.is_empty());
    assert!(fit.samples.is_empty());
}

#[test]
fn record_with_latitude_180_is_discarded() {
    let fit = decode(&vec![record_at(180.0)]);
    assert!(fit.samples.is_empty());
    let point = decode_point(&vec![field(0, float(180.0))]);
    assert_eq!(point.lat.to_bits(), 0);
}

#[test]
fn record_with_latitude_zero_is_discarded() {
    assert!(decode(&vec![record_at(0.0)]).samples.is_empty());
    assert!(decode(&vec![record_at(-0.0)]).samples.is_empty());
}

#[test]
fn record_without_latitude_is_discarded() {
    let stream = vec![
        message(MessageType::Record, vec![field(1, float(11.5)), field(3, RawValue::U8(120))]),
        message(MessageType::Record, vec![]),
        message(MessageType::Record, vec![field(0, RawValue::I32(577_000_000))]),
    ];
    assert!(decode(&stream).samples.is_empty());
}

#[test]
fn records_with_a_position_are_kept_in_order() {
    let stream = vec![
        record_at(48.1),
        record_at(180.0),
        record_at(48.2),
        record_at(0.0),
        record_at(-33.9),
        record_at(-180.0),
    ];
    let fit = decode(&stream);
    let lats: Vec<f32> = fit.samples.iter().map(|p| f32::from_bits(p.lat.to_bits())).collect();
    assert_eq!(lats, vec![48.1f32, 48.2, -33.9, -180.0]);
    for p in &fit.samples {
        assert!(!p.lat.equals_zero());
        assert!(!p.lat.equals_half_turn());
    }
}

#[test]
fn last_latitude_decides() {
    let kept = message(MessageType::Record, vec![field(0, float(180.0)), field(0, float(12.0))]);
    let dropped = message(MessageType::Record, vec![field(0, float(12.0)), field(0, float(180.0))]);
    assert_eq!(decode(&vec![kept]).samples.len(), 1);
    assert_eq!(decode(&vec![dropped]).samples.len(), 0);
}

#[test]
fn store_latitude_maps_only_half_turn() {
    assert_eq!(store_latitude(F32Bits::from_bits(180.0f32.to_bits())).to_bits(), 0);
    for x in [0.0f32, -0.0, 90.0, -180.0, 179.9, 1.0] {
        assert_eq!(store_latitude(F32Bits::from_bits(x.to_bits())).to_bits(), x.to_bits());
    }
}

#[test]
fn record_fields() {
    let fields = vec![
        field(253, RawValue::Time(1_000_000_123)),
        field(0, float(48.137154)),
        field(1, float(11.576124)),
        field(3, RawValue::U8(142)),
        field(4, RawValue::U8(88)),
        field(5, RawValue::U32(123_456)),
        field(7, RawValue::U16(250)),
        field(13, RawValue::I8(-4)),
        field(73, RawValue::U32(3_210)),
        field(78, RawValue::U32(2_600)),
        field(2, RawValue::U16(999)),
    ];
    let expected = Point {
        lat: F32Bits::from_bits(48.137154f32.to_bits()),
        lon: F32Bits::from_bits(11.576124f32.to_bits()),
        timestamp: 1_000_000_123,
        distance: 1_234,
        heart_rate: 142,
        speed: 3_210,
        power: Some(250),
        altitude: 2_600,
        temperature: Some(-4),
        cadence: 88,
    };
    assert_eq!(decode_point(&fields), expected);
    let fit = decode(&vec![message(MessageType::Record, fields)]);
    assert_eq!(fit.samples, vec![expected]);
}

#[test]
fn record_power_65535_is_absent() {
    let fields = vec![field(0, float(48.0)), field(7, RawValue::U16(65535))];
    let point = decode_point(&fields);
    assert_eq!(point.power, None);
    let fit = decode(&vec![message(MessageType::Record, fields)]);
    assert_eq!(fit.samples.len(), 1);
    assert_eq!(fit.samples[0].power, None);
}

#[test]
fn record_temperature_sentinel_and_unsigned_tag() {
    let absent = decode_point(&vec![field(13, RawValue::I8(127))]);
    assert_eq!(absent.temperature, None);
    let also_absent = decode_point(&vec![field(13, RawValue::U8(127))]);
    assert_eq!(also_absent.temperature, None);
    let negative = decode_point(&vec![field(13, RawValue::U8(251))]);
    assert_eq!(negative.temperature, Some(-5));
    let untouched = decode_point(&vec![field(3, RawValue::U8(60))]);
    assert_eq!(untouched.temperature, None);
    assert_eq!(untouched.power, None);
}

#[test]
fn record_fields_without_sentinel_keep_the_maximum() {
    let point = decode_point(&vec![
        field(3, RawValue::U8(255)),
        field(4, RawValue::U8(255)),
        field(73, RawValue::U32(u32::MAX)),
        field(78, RawValue::U32(u32::MAX)),
        field(5, RawValue::U32(u32::MAX)),
        field(253, RawValue::U32(u32::MAX)),
    ]);
    assert_eq!(point.heart_rate, 255);
    assert_eq!(point.cadence, 255);
    assert_eq!(point.speed, u32::MAX);
    assert_eq!(point.altitude, u32::MAX);
    assert_eq!(point.distance, 42_949_672);
    assert_eq!(point.timestamp, u32::MAX);
}

#[test]
fn lap_indices_are_sequential() {
    let stream = vec![
        message(MessageType::Lap, vec![field(2, RawValue::Time(10))]),
        message(MessageType::Record, vec![field(0, float(1.0))]),
        message(MessageType::Lap, vec![]),
        message(MessageType::Other, vec![field(2, RawValue::Time(11))]),
        message(MessageType::Session, vec![]),
        message(MessageType::Lap, vec![field(0, RawValue::U16(9)), field(254, RawValue::U16(40))]),
        message(MessageType::Lap, vec![field(2, RawValue::Time(10))]),
    ];
    let fit = decode(&stream);
    assert_eq!(fit.laps.len(), 4);
    for (i, lap) in fit.laps.iter().enumerate() {
        assert_eq!(lap.index, i);
    }
    assert_eq!(fit.laps[0].start_time, 10);
    assert_eq!(fit.laps[1], Lap::new(1));
    assert_eq!(fit.laps[2], Lap::new(2));
    assert_eq!(fit.laps[3].start_time, 10);
}

#[test]
fn lap_fields() {
    let fields = vec![
        field(2, RawValue::Time(987_654_321)),
        field(7, RawValue::U32(65_999)),
        field(8, RawValue::U32(64_000)),
        field(9, RawValue::U32(100_099)),
        field(15, RawValue::U8(150)),
        field(16, RawValue::U8(181)),
        field(17, RawValue::U8(3)),
    ];
    let expected = Lap {
        index: 5,
        start_time: 987_654_321,
        total_elapsed_time: 65,
        total_timer_time: 64,
        total_distance: 1_000,
        avg_heart_rate: 150,
        max_heart_rate: 181,
    };
    assert_eq!(decode_lap(5, &fields), expected);
}

#[test]
fn lap_with_wrong_tags_reads_zero() {
    let fields = vec![
        field(2, RawValue::U16(7)),
        field(7, RawValue::U16(7000)),
        field(15, RawValue::U16(150)),
        field(16, name("high")),
    ];
    assert_eq!(decode_lap(0, &fields), Lap::new(0));
}

#[test]
fn first_device_wins() {
    let stream = vec![
        message(MessageType::DeviceInfo, vec![field(4, RawValue::U16(2431))]),
        message(MessageType::DeviceInfo, vec![field(4, RawValue::U16(3121))]),
    ];
    let fit = decode(&stream);
    assert_eq!(fit.activity.device, Some(Device::FR235));
    assert_eq!(fit.activity.device_name(), "FR 235");
}

#[test]
fn first_product_field_of_a_message_wins() {
    let stream = vec![
        message(MessageType::DeviceInfo, vec![field(3, RawValue::U16(4315))]),
        message(MessageType::Session, vec![field(4, RawValue::U16(4315))]),
        message(
            MessageType::DeviceInfo,
            vec![field(2, RawValue::U16(1)), field(4, RawValue::U16(3589)), field(4, RawValue::U16(1124))],
        ),
    ];
    let fit = decode(&stream);
    assert_eq!(fit.activity.device_name(), "FR 745");
}

#[test]
fn unknown_device_is_a_first_writer_too() {
    let stream = vec![
        message(MessageType::DeviceInfo, vec![field(4, RawValue::U16(9))]),
        message(MessageType::DeviceInfo, vec![field(4, RawValue::U16(2431))]),
    ];
    assert_eq!(decode(&stream).activity.device_name(), "Unknown");
    let wrong_tag = vec![
        message(MessageType::DeviceInfo, vec![field(4, RawValue::U32(2431))]),
        message(MessageType::DeviceInfo, vec![field(4, RawValue::U16(2431))]),
    ];
    assert_eq!(decode(&wrong_tag).activity.device_name(), "Unknown");
}

#[test]
fn resolve_device_keeps_a_set_device() {
    let mut activity = Activity::new();
    resolve_device(&mut activity, &vec![field(1, RawValue::U16(4062))]);
    assert_eq!(activity, Activity::new());
    resolve_device(&mut activity, &vec![field(4, RawValue::U16(4062))]);
    assert_eq!(activity.device, Some(Device::Edge840));
    resolve_device(&mut activity, &vec![field(4, RawValue::U16(1482))]);
    assert_eq!(activity.device, Some(Device::Edge840));
    assert_eq!(activity.device_name(), "Edge 840");
}

#[test]
fn session_times_are_seconds() {
    let stream = vec![message(
        MessageType::Session,
        vec![field(7, RawValue::U32(65_000)), field(8, RawValue::U32(64_000))],
    )];
    let fit = decode(&stream);
    assert_eq!(fit.activity.total_elapsed_time, 65);
    assert_eq!(fit.activity.total_timer_time, 64);
}

#[test]
fn session_distance_is_whole_meters() {
    let stream = vec![message(MessageType::Session, vec![field(9, RawValue::U32(123_456))])];
    assert_eq!(decode(&stream).activity.total_distance, 1_234);
}

#[test]
fn session_fields() {
    let fields = vec![
        field(2, RawValue::Time(1_700_000_000)),
        field(253, RawValue::Time(1_700_003_600)),
        field(5, name("cycling")),
        field(7, RawValue::U32(3_600_999)),
        field(8, RawValue::U32(3_500_001)),
        field(9, RawValue::U32(4_200_050)),
        field(11, RawValue::U16(800)),
        field(16, RawValue::U8(140)),
        field(17, RawValue::U8(255)),
        field(18, RawValue::U8(85)),
        field(19, RawValue::U8(110)),
        field(20, RawValue::U16(210)),
        field(21, RawValue::U16(640)),
        field(22, RawValue::U16(512)),
        field(24, RawValue::U8(34)),
        field(33, RawValue::U16(40)),
        field(34, RawValue::U16(225)),
        field(35, RawValue::U16(1_005)),
        field(36, RawValue::U16(812)),
        field(44, RawValue::U16(2_550)),
        field(57, RawValue::I8(18)),
        field(58, RawValue::I8(25)),
        field(150, RawValue::I8(-3)),
        field(124, RawValue::U32(7_250)),
    ];
    let mut activity = Activity::new();
    update_session(&mut activity, &fields);
    let expected = Activity {
        sport: Sport::Cycling,
        device: None,
        start_time: 1_700_000_000,
        timestamp: 1_700_003_600,
        total_timer_time: 3_500,
        total_elapsed_time: 3_600,
        total_distance: 42_000,
        total_ascent: Some(512),
        avg_speed: Some(7_250),
        avg_heart_rate: 140,
        max_heart_rate: 255,
        avg_cadence: Some(85),
        max_cadence: Some(110),
        avg_power: Some(210),
        max_power: Some(640),
        normalized_power: Some(225),
        total_calories: Some(800),
        total_training_effect: Some(34),
        training_stress_score: Some(1_005),
        intensity_factor: Some(812),
        avg_temperature: Some(18),
        max_temperature: Some(25),
        min_temperature: Some(-3),
        pool_length: Some(25),
        num_lengths: Some(40),
    };
    assert_eq!(activity, expected);
    let fit = decode(&vec![message(MessageType::Session, fields)]);
    assert_eq!(fit.activity, expected);
}

#[test]
fn session_sentinels_are_absent() {
    let fields = vec![
        field(11, RawValue::U16(0xFFFF)),
        field(18, RawValue::U8(0xFF)),
        field(19, RawValue::U8(0xFF)),
        field(20, RawValue::U16(0xFFFF)),
        field(21, RawValue::U16(0xFFFF)),
        field(22, RawValue::U16(0xFFFF)),
        field(24, RawValue::U8(0xFF)),
        field(33, RawValue::U16(0xFFFF)),
        field(34, RawValue::U16(0xFFFF)),
        field(35, RawValue::U16(0xFFFF)),
        field(36, RawValue::U16(0xFFFF)),
        field(44, RawValue::U16(0xFFFF)),
        field(57, RawValue::I8(0x7F)),
        field(58, RawValue::I8(0x7F)),
        field(150, RawValue::I8(0x7F)),
        field(124, RawValue::U32(0xFFFF_FFFF)),
    ];
    let mut activity = Activity::new();
    update_session(&mut activity, &fields);
    assert_eq!(activity, Activity::new());
}

#[test]
fn a_later_sentinel_overwrites_a_value() {
    let stream = vec![
        message(MessageType::Session, vec![field(20, RawValue::U16(200))]),
        message(MessageType::Session, vec![field(20, RawValue::U16(0xFFFF))]),
    ];
    assert_eq!(decode(&stream).activity.avg_power, None);
}

#[test]
fn session_heart_rate_keeps_the_maximum() {
    let stream = vec![message(
        MessageType::Session,
        vec![field(16, RawValue::U8(255)), field(17, RawValue::U8(255))],
    )];
    let fit = decode(&stream);
    assert_eq!(fit.activity.avg_heart_rate, 255);
    assert_eq!(fit.activity.max_heart_rate, 255);
}

#[test]
fn unknown_sport_leaves_the_sport() {
    let stream = vec![
        message(MessageType::Session, vec![field(5, name("running"))]),
        message(MessageType::Session, vec![field(5, name("rowing"))]),
        message(MessageType::Session, vec![field(5, RawValue::U8(2))]),
    ];
    assert_eq!(decode(&stream).activity.sport, Sport::Running);
    let none = vec![message(MessageType::Session, vec![field(5, name("generic"))])];
    assert_eq!(decode(&none).activity.sport, Sport::Unknown);
    let swim = vec![message(
        MessageType::Session,
        vec![field(5, name("cycling")), field(5, name("swimming")), field(5, name("hiking"))],
    )];
    assert_eq!(decode(&swim).activity.sport, Sport::Swimming);
}

#[test]
fn sport_from_value_reads_enumerants_only() {
    assert_eq!(sport_from_value(&name("running")), Some(Sport::Running));
    assert_eq!(sport_from_value(&name("cycling")), Some(Sport::Cycling));
    assert_eq!(sport_from_value(&name("swimming")), Some(Sport::Swimming));
    assert_eq!(sport_from_value(&name("walking")), None);
    assert_eq!(sport_from_value(&RawValue::U8(1)), None);
    assert_eq!(sport_from_value(&RawValue::Other), None);
}

#[test]
fn pool_length_is_whole_meters() {
    assert_eq!(to_whole_meters(Some(2_500)), Some(25));
    assert_eq!(to_whole_meters(Some(2_599)), Some(25));
    assert_eq!(to_whole_meters(Some(99)), Some(0));
    assert_eq!(to_whole_meters(None), None);
    let stream = vec![message(MessageType::Session, vec![field(44, RawValue::U16(5_000))])];
    assert_eq!(decode(&stream).activity.pool_length, Some(50));
}

#[test]
fn last_write_wins_across_sessions() {
    let stream = vec![
        message(
            MessageType::Session,
            vec![field(9, RawValue::U32(500)), field(16, RawValue::U8(100)), field(9, RawValue::U32(700))],
        ),
        message(MessageType::Session, vec![field(16, RawValue::U8(120))]),
    ];
    let fit = decode(&stream);
    assert_eq!(fit.activity.total_distance, 7);
    assert_eq!(fit.activity.avg_heart_rate, 120);
}

#[test]
fn a_field_of_the_wrong_tag_writes_zero() {
    let stream = vec![
        message(MessageType::Session, vec![field(9, RawValue::U32(500))]),
        message(MessageType::Session, vec![field(9, RawValue::U16(700))]),
    ];
    assert_eq!(decode(&stream).activity.total_distance, 0);
}

#[test]
fn session_does_not_touch_the_device() {
    let stream = vec![
        message(MessageType::DeviceInfo, vec![field(4, RawValue::U16(4315))]),
        message(MessageType::Session, vec![field(4, RawValue::U16(1124)), field(2, RawValue::Time(5))]),
    ];
    let fit = decode(&stream);
    assert_eq!(fit.activity.device_name(), "FR 965");
    assert_eq!(fit.activity.start_time, 5);
}

#[test]
fn other_messages_and_fields_are_ignored() {
    let stream = vec![
        message(MessageType::Other, vec![field(0, float(48.0)), field(4, RawValue::U16(2431))]),
        message(MessageType::Session, vec![field(1, RawValue::U32(9)), field(200, RawValue::U8(1))]),
        message(MessageType::DeviceInfo, vec![field(5, RawValue::U16(2431))]),
    ];
    assert_eq!(decode(&stream), FitStruct::new());
}

#[test]
fn apply_matches_decode() {
    let stream = vec![
        message(MessageType::DeviceInfo, vec![field(4, RawValue::U16(1482))]),
        message(MessageType::Lap, vec![field(9, RawValue::U32(100_000))]),
        record_at(47.0),
        record_at(180.0),
        message(MessageType::Session, vec![field(5, name("running"))]),
    ];
    let mut stepwise = FitStruct::new();
    for m in &stream {
        stepwise.apply(m);
    }
    assert_eq!(stepwise, decode(&stream));
    assert_eq!(stepwise.laps.len(), 1);
    assert_eq!(stepwise.laps[0].total_distance, 1_000);
    assert_eq!(stepwise.samples.len(), 1);
    assert_eq!(stepwise.activity.sport, Sport::Running);
    assert_eq!(stepwise.activity.device_name(), "FR 10");
}

#[test]
fn decoding_twice_gives_the_same() {
    let stream = vec![
        message(MessageType::DeviceInfo, vec![field(4, RawValue::U16(2431))]),
        message(MessageType::Lap, vec![field(2, RawValue::Time(77))]),
        record_at(47.5),
        message(MessageType::Lap, vec![]),
        message(MessageType::Session, vec![field(7, RawValue::U32(65_000)), field(5, name("swimming"))]),
    ];
    let first = decode(&stream);
    let second = decode(&stream);
    assert_eq!(first, second);
    assert_eq!(first.laps[0].index, 0);
    assert_eq!(second.laps[0].index, 0);
    assert_eq!(second.laps[1].index, 1);
    assert_eq!(first.samples[0].lat.to_bits(), second.samples[0].lat.to_bits());
}
