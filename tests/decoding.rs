use pm5::identifier::Identifier;
use pm5::parse::{decode_enum, Cursor, Discriminant, Parse, ParseError};
use pm5::services::{
    read_fields, Field, Pm5, Pm5Data, Rowing, RowingData, Service, ServiceData, ServiceDataError,
    StatusKind,
};
use pm5::types::{
    Distance, ErgMachineType, Force, ForceCurveData, IntervalType, OperationalState, RowingState,
    SampleRate, StrokeState, Time, WorkoutDurationType, WorkoutState, WorkoutType, U24,
};

const GENERAL_STATUS: [u8; 19] = [186, 5, 0, 237, 1, 0, 1, 1, 1, 1, 4, 0, 0, 0, 0, 0, 0, 128, 79];

#[test]
fn test_data() {
    let samples = vec![
        [186u8, 5, 0, 237, 1, 0, 1, 1, 1, 1, 4, 0, 0, 0, 0, 0, 0, 128, 79],
        [30, 6, 0, 19, 2, 0, 1, 1, 1, 1, 4, 0, 0, 0, 0, 0, 0, 128, 79],
        [131, 6, 0, 58, 2, 0, 1, 1, 1, 1, 4, 0, 0, 0, 0, 0, 0, 128, 79],
        [231, 6, 0, 95, 2, 0, 1, 1, 1, 1, 3, 0, 0, 0, 0, 0, 0, 128, 79],
        [77, 7, 0, 134, 2, 0, 1, 1, 1, 1, 2, 0, 0, 0, 0, 0, 0, 128, 79],
        [179, 7, 0, 174, 2, 0, 1, 1, 1, 1, 2, 0, 0, 0, 0, 0, 0, 128, 79],
        [24, 8, 0, 213, 2, 0, 1, 1, 1, 1, 2, 0, 0, 0, 0, 0, 0, 128, 79],
        [125, 8, 0, 252, 2, 0, 1, 1, 1, 1, 2, 0, 0, 0, 0, 0, 0, 128, 79],
        [226, 8, 0, 35, 3, 0, 1, 1, 1, 1, 4, 0, 0, 0, 0, 0, 0, 128, 78],
        [70, 9, 0, 73, 3, 0, 1, 1, 1, 1, 4, 0, 0, 0, 0, 0, 0, 128, 79],
        [169, 9, 0, 108, 3, 0, 1, 1, 1, 1, 4, 0, 0, 0, 0, 0, 0, 128, 79],
        [13, 10, 0, 141, 3, 0, 1, 1, 1, 1, 4, 0, 0, 0, 0, 0, 0, 128, 79],
        [115, 10, 0, 172, 3, 0, 1, 1, 1, 1, 4, 0, 0, 0, 0, 0, 0, 128, 79],
        [215, 10, 0, 199, 3, 0, 1, 1, 1, 1, 4, 0, 0, 0, 0, 0, 0, 128, 79],
        [60, 11, 0, 225, 3, 0, 1, 1, 1, 1, 4, 0, 0, 0, 0, 0, 0, 128, 79],
        [102, 11, 0, 236, 3, 0, 1, 1, 1, 0, 1, 0, 0, 0, 0, 0, 0, 128, 79],
        [4, 12, 0, 252, 3, 0, 1, 1, 1, 1, 4, 0, 0, 0, 0, 0, 0, 128, 80],
        [106, 12, 0, 18, 4, 0, 1, 1, 1, 1, 4, 0, 0, 0, 0, 0, 0, 128, 80],
        [205, 12, 0, 38, 4, 0, 1, 1, 1, 1, 4, 0, 0, 0, 0, 0, 0, 128, 80],
        [50, 13, 0, 57, 4, 0, 1, 1, 1, 1, 4, 0, 0, 0, 0, 0, 0, 128, 80],
        [153, 13, 0, 76, 4, 0, 1, 1, 1, 1, 4, 0, 0, 0, 0, 0, 0, 128, 80],
        [254, 13, 0, 93, 4, 0, 1, 1, 1, 1, 4, 0, 0, 0, 0, 0, 0, 128, 80],
        [95, 14, 0, 104, 4, 0, 1, 1, 1, 1, 4, 0, 0, 0, 0, 0, 0, 128, 87],
        [194, 14, 0, 119, 4, 0, 1, 1, 1, 1, 4, 0, 0, 0, 0, 0, 0, 128, 87],
        [42, 15, 0, 135, 4, 0, 1, 1, 1, 1, 4, 0, 0, 0, 0, 0, 0, 128, 87],
        [142, 15, 0, 150, 4, 0, 1, 1, 1, 1, 4, 0, 0, 0, 0, 0, 0, 128, 87],
        [241, 15, 0, 164, 4, 0, 1, 1, 1, 1, 4, 0, 0, 0, 0, 0, 0, 128, 87],
    ];

    for sample in samples {
        let parsed = Rowing::GeneralStatus.decode(sample.to_vec()).unwrap();
        match parsed {
            RowingData::GeneralStatus { elapsed_time, distance, drag_factor, .. } => {
                let t = sample[0] as u32 + 256 * sample[1] as u32 + 65536 * sample[2] as u32;
                let d = sample[3] as u32 + 256 * sample[4] as u32 + 65536 * sample[5] as u32;
                assert_eq!(elapsed_time.0.get(), t);
                assert_eq!(distance.0.get(), d);
                assert_eq!(drag_factor.0, sample[18]);
            }
            other => panic!("unexpected record {:?}", other),
        }
    }
}

#[test]
fn general_status_literal_sample() {
    let id = Rowing::GeneralStatus.id();
    let parsed = Pm5::parse(id, GENERAL_STATUS.to_vec()).unwrap();
    match parsed {
        Pm5Data::Rowing(RowingData::GeneralStatus {
            elapsed_time,
            distance,
            workout_type,
            interval_type,
            workout_state,
            rowing_state,
            stroke_state,
            total_work_distance,
            workout_duration,
            workout_duration_type,
            drag_factor,
        }) => {
            assert_eq!(elapsed_time.0.get(), 1466);
            assert_eq!(distance.0.get(), 493);
            assert_eq!(workout_type, WorkoutType::JustrowSplits);
            assert_eq!(interval_type, IntervalType::Dist);
            assert_eq!(workout_state, WorkoutState::WorkoutRow);
            assert_eq!(rowing_state, RowingState::Active);
            assert_eq!(workout_type.code(), 1);
            assert_eq!(interval_type.code(), 1);
            assert_eq!(workout_state.code(), 1);
            assert_eq!(rowing_state.code(), 1);
            assert_eq!(stroke_state, StrokeState::RecoveryState);
            assert_eq!(stroke_state.code(), 4);
            assert_eq!(total_work_distance.0.get(), 0);
            assert_eq!(workout_duration.0.get(), 0);
            assert_eq!(workout_duration_type, WorkoutDurationType::Distance);
            assert_eq!(drag_factor.0, 79);
        }
        other => panic!("unexpected record {:?}", other),
    }
}

#[test]
fn u24_reader_is_little_endian() {
    let mut c = Cursor::new(vec![0x12, 0x34, 0x56, 0x78]);
    assert_eq!(c.read_u24(), Ok(0x563412));
    assert_eq!(c.remaining_len(), 1);
    assert_eq!(c.read_u24(), Err(ParseError::InsufficientData));
    assert_eq!(c.remaining_len(), 1);
    let mut c = Cursor::new(vec![255, 255, 255]);
    assert_eq!(c.read_u24(), Ok(0xFF_FFFF));
    let mut c = Cursor::new(vec![7, 0, 1]);
    assert_eq!(c.read_u24(), Ok(7 + 65536));
}

#[test]
fn fixed_width_readers() {
    let mut c = Cursor::new(vec![1, 2, 3, 4, 5, 6, 7]);
    assert_eq!(c.read_u8(), Ok(1));
    assert_eq!(c.read_u16(), Ok(2 + 3 * 256));
    assert_eq!(c.read_u32(), Ok(4 + 5 * 256 + 6 * 65536 + 7 * 16777216));
    assert_eq!(c.read_u8(), Err(ParseError::InsufficientData));
    let mut c = Cursor::new(vec![9]);
    assert_eq!(c.read_u16(), Err(ParseError::InsufficientData));
    assert_eq!(c.read_u8(), Ok(9));
}

#[test]
fn scalar_types_parse_at_their_width() {
    let mut c = Cursor::new(vec![0xBA, 0x05, 0x00, 0xED, 0x01, 0x00]);
    assert_eq!(Time::parse(&mut c).unwrap().0.get(), 1466);
    assert_eq!(Distance::parse(&mut c).unwrap().0.get(), 493);
    assert_eq!(U24::parse(&mut c), Err(ParseError::InsufficientData));
    assert_eq!(U24::new(0xFF_FFFF).map(|u| u.get()), Some(0xFF_FFFF));
    assert_eq!(U24::new(0x100_0000), None);
}

#[test]
fn enum_table_with_gap() {
    assert_eq!(OperationalState::from_code(100), Some(OperationalState::Dfcalibration));
    assert_eq!(OperationalState::from_code(13), Some(OperationalState::Dragfactor));
    assert_eq!(OperationalState::from_code(14), None);
    let mut c = Cursor::new(vec![100, 14]);
    assert_eq!(decode_enum::<OperationalState>(&mut c), Ok(OperationalState::Dfcalibration));
    assert_eq!(decode_enum::<OperationalState>(&mut c), Err(ParseError::Variant));
    assert_eq!(decode_enum::<OperationalState>(&mut c), Err(ParseError::InsufficientData));
}

#[test]
fn enum_tables_out_of_order_codes() {
    assert_eq!(ErgMachineType::from_code(16), Some(ErgMachineType::SlidesA));
    assert_eq!(ErgMachineType::from_code(143), Some(ErgMachineType::StaticSkiSimulator));
    assert_eq!(ErgMachineType::from_code(4), None);
    assert_eq!(ErgMachineType::MultiergBike.code(), 226);
    assert_eq!(IntervalType::from_code(255), Some(IntervalType::NoInterval));
    assert_eq!(IntervalType::from_code(10), None);
    assert_eq!(WorkoutDurationType::from_code(0xC0), Some(WorkoutDurationType::WattMin));
    assert_eq!(WorkoutDurationType::from_code(1), None);
    let mut c = Cursor::new(vec![0x40]);
    assert_eq!(WorkoutDurationType::parse(&mut c), Ok(WorkoutDurationType::Calories));
}

#[test]
fn force_curve_even_length() {
    let mut c = Cursor::new(vec![1, 0, 2, 1, 0xFF, 0xFF]);
    let curve = ForceCurveData::parse(&mut c).unwrap();
    assert_eq!(curve, ForceCurveData(vec![Force(1), Force(258), Force(0xFFFF)]));
    assert_eq!(c.remaining_len(), 0);
    let mut c = Cursor::new(vec![]);
    assert_eq!(ForceCurveData::parse(&mut c), Ok(ForceCurveData(vec![])));
}

#[test]
fn force_curve_trailing_byte() {
    let mut c = Cursor::new(vec![1, 0, 2]);
    assert_eq!(ForceCurveData::parse(&mut c), Err(ParseError::UnexpectedNumberOfBytes));
    let r = Rowing::ForceCurveData.decode(vec![5]);
    assert_eq!(r, Err(ServiceDataError::Data(ParseError::UnexpectedNumberOfBytes)));
}

#[test]
fn force_curve_record() {
    let id = Rowing::ForceCurveData.id();
    let r = Rowing::parse(id, vec![10, 0, 20, 0]).unwrap();
    assert_eq!(r, RowingData::ForceCurveData { data: ForceCurveData(vec![Force(10), Force(20)]) });
}

#[test]
fn unknown_service() {
    let id = Identifier::from_u128(0xCE060050_43E5_11E4_916C_0800200C9A66);
    assert_eq!(Pm5::parse(id, GENERAL_STATUS.to_vec()), Err(ServiceDataError::UnkownService));
    let id = Identifier::from_u128(0x1234);
    assert_eq!(Pm5::parse(id, vec![]), Err(ServiceDataError::UnkownService));
}

#[test]
fn rowing_namespace_without_characteristic() {
    let id = Identifier::from_u128(0xCE060030_43E5_11E4_916C_0800200C9A66);
    assert_eq!(Pm5::parse(id, GENERAL_STATUS.to_vec()), Err(ServiceDataError::Id));
    assert_eq!(Rowing::parse(id, GENERAL_STATUS.to_vec()), Err(ServiceDataError::Id));
}

#[test]
fn other_service_characteristic_is_not_decoded() {
    let id = pm5::services::Information::SerialNumber.id();
    assert_eq!(Pm5::parse(id, vec![1, 2, 3]), Err(ServiceDataError::UnkownService));
    assert_eq!(Rowing::parse(id, vec![1, 2, 3]), Err(ServiceDataError::Id));
}

#[test]
fn short_payload() {
    let r = Rowing::GeneralStatus.decode(GENERAL_STATUS[..18].to_vec());
    assert_eq!(r, Err(ServiceDataError::Data(ParseError::InsufficientData)));
    let r = Rowing::GeneralStatus.decode(vec![]);
    assert_eq!(r, Err(ServiceDataError::Data(ParseError::InsufficientData)));
}

#[test]
fn invalid_status_byte() {
    let mut bytes = GENERAL_STATUS.to_vec();
    bytes[6] = 14;
    let r = Rowing::GeneralStatus.decode(bytes);
    assert_eq!(r, Err(ServiceDataError::Data(ParseError::Variant)));
}

#[test]
fn first_error_wins() {
    // an invalid workout type comes before the missing bytes
    let r = Rowing::GeneralStatus.decode(vec![0, 0, 0, 0, 0, 0, 200]);
    assert_eq!(r, Err(ServiceDataError::Data(ParseError::Variant)));
}

#[test]
fn trailing_bytes_are_ignored() {
    let mut bytes = GENERAL_STATUS.to_vec();
    bytes.extend_from_slice(&[1, 2, 3]);
    let a = Rowing::GeneralStatus.decode(bytes).unwrap();
    let b = Rowing::GeneralStatus.decode(GENERAL_STATUS.to_vec()).unwrap();
    assert_eq!(a, b);
}

#[test]
fn undecoded_characteristics() {
    assert_eq!(
        Rowing::AdditionalStatusThree.decode(vec![0; 20]),
        Err(ServiceDataError::NotImplemented)
    );
    assert_eq!(
        Rowing::parse(Rowing::MultiplexedInformation.id(), vec![0; 20]),
        Err(ServiceDataError::NotImplemented)
    );
}

#[test]
fn stroke_data_record() {
    let bytes = vec![1, 0, 0, 2, 0, 0, 140, 80, 0x10, 0x01, 0x20, 0x02, 0x50, 0x03, 0x60, 0x04, 0x70, 0x05, 9, 0];
    let r = Rowing::StrokeData.decode(bytes).unwrap();
    match r {
        RowingData::StrokeData {
            elapsed_time,
            distance,
            drive_length,
            drive_time,
            stroke_recovery,
            stroke_distance,
            peak_drive_force,
            avg_drive_force,
            work_per_stroke,
            stroke_count,
        } => {
            assert_eq!(elapsed_time.0.get(), 1);
            assert_eq!(distance.0.get(), 2);
            assert_eq!(drive_length.0, 140);
            assert_eq!(drive_time.0, 80);
            assert_eq!(stroke_recovery.0, 0x0110);
            assert_eq!(stroke_distance.0, 0x0220);
            assert_eq!(peak_drive_force.0, 0x0350);
            assert_eq!(avg_drive_force.0, 0x0460);
            assert_eq!(work_per_stroke.0, 0x0570);
            assert_eq!(stroke_count.0, 9);
        }
        other => panic!("unexpected record {:?}", other),
    }
}

#[test]
fn heart_rate_belt_record() {
    let r = Rowing::HeartRateBeltInformation.decode(vec![7, 3, 0x78, 0x56, 0x34, 0x12]).unwrap();
    assert_eq!(
        r,
        RowingData::HeartRateBeltInformation { manufacturer_id: 7, device_type: 3, belt_id: 0x12345678 }
    );
}

#[test]
fn additional_status_one_record() {
    let bytes = vec![10, 0, 0, 0xE8, 0x03, 24, 150, 0x10, 0x27, 0x20, 0x4E, 5, 0, 6, 0, 0, 224];
    let r = Rowing::AdditionalStatusOne.decode(bytes).unwrap();
    match r {
        RowingData::AdditionalStatusOne {
            elapsed_time,
            speed,
            stroke_rate,
            heart_rate,
            current_pace,
            average_pace,
            rest_distance,
            rest_time,
            machine_type,
        } => {
            assert_eq!(elapsed_time.0.get(), 10);
            assert_eq!(speed.0, 1000);
            assert_eq!(stroke_rate.0, 24);
            assert_eq!(heart_rate.0, 150);
            assert_eq!(current_pace.0, 10000);
            assert_eq!(average_pace.0, 20000);
            assert_eq!(rest_distance.0, 5);
            assert_eq!(rest_time.0.get(), 6);
            assert_eq!(machine_type, ErgMachineType::MultiergRow);
        }
        other => panic!("unexpected record {:?}", other),
    }
}

#[test]
fn general_status_rate_record() {
    let r = Rowing::GeneralStatusRate.decode(vec![3]).unwrap();
    assert_eq!(r, RowingData::GeneralStatusRate { interval: SampleRate::Fastest });
    let r = Rowing::GeneralStatusRate.decode(vec![4]);
    assert_eq!(r, Err(ServiceDataError::Data(ParseError::Variant)));
}

#[test]
fn decoding_is_repeatable() {
    let id = Rowing::GeneralStatus.id();
    assert_eq!(Pm5::parse(id, GENERAL_STATUS.to_vec()), Pm5::parse(id, GENERAL_STATUS.to_vec()));
}

#[test]
fn layout_reader() {
    let layout = vec![Field::U8, Field::U16, Field::U24, Field::U32, Field::Status(StatusKind::RowingState)];
    let bytes = vec![1, 2, 0, 3, 0, 0, 4, 0, 0, 0, 1, 99];
    let mut c = Cursor::new(bytes.clone());
    assert_eq!(read_fields(&layout, &mut c), Ok(vec![1, 2, 3, 4, 1]));
    let mut c = Cursor::new(bytes[..9].to_vec());
    assert_eq!(read_fields(&layout, &mut c), Err(ParseError::InsufficientData));
    let mut bad = bytes.clone();
    bad[10] = 2;
    let mut c = Cursor::new(bad);
    assert_eq!(read_fields(&layout, &mut c), Err(ParseError::Variant));
    assert_eq!(Rowing::GeneralStatus.field_layout().map(|l| l.len()), Some(11));
    assert_eq!(Rowing::ForceCurveData.field_layout(), None);
}

#[test]
fn status_kinds_accept_their_codes() {
    assert!(StatusKind::WorkoutDurationType.accepts_code(0x80));
    assert!(!StatusKind::WorkoutDurationType.accepts_code(0x81));
    assert!(StatusKind::ErgMachineType.accepts_code(224));
    assert!(!StatusKind::SampleRate.accepts_code(4));
    assert!(StatusKind::IntervalType.accepts_code(255));
}
