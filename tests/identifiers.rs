use std::str::FromStr;

use pm5::identifier::{belongs_to, identifier_of, recognize, selector_of, Identifier, ServiceKind};
use pm5::services::{Control, Heartrate, Information, Pm5, Rowing, Service};
use uuid::Uuid;

const SERVICES: [ServiceKind; 4] = [
    ServiceKind::Information,
    ServiceKind::Control,
    ServiceKind::Rowing,
    ServiceKind::HeartRate,
];

#[test]
fn test_name22() {
    let uuid = Uuid::from_str("ce060031-43e5-11e4-916c-0800200c9a66").unwrap();
    let cleared = Uuid::from_u128(uuid.as_u128() & !(0x000F << 96));
    println!("{}", cleared);
    assert_eq!(cleared, Uuid::from_u128(0xCE060030_43E5_11E4_916C_0800200C9A66));
    let id = Identifier::from_u128(uuid.as_u128());
    assert!(belongs_to(ServiceKind::Rowing, id));
    assert_eq!(selector_of(id), 1);
    assert_eq!(Rowing::from_identifier(id), Some(Rowing::GeneralStatus));
}

#[test]
fn test_characteristic() {
    let id = Rowing::MultiplexedInformation.id();
    assert_eq!(id, Identifier::from_u128(0xCE06003F_43E5_11E4_916C_0800200C9A66));
}

#[test]
fn multiplexed_information_identifier_text() {
    let id = Rowing::MultiplexedInformation.id();
    let text = Uuid::from_u128(id.as_u128()).to_string();
    assert_eq!(text, "ce06003f-43e5-11e4-916c-0800200c9a66");
}

#[test]
fn identifiers_belong_to_their_service_only() {
    for s in SERVICES {
        for i in 1u8..=15 {
            let id = identifier_of(s, i);
            for other in SERVICES {
                assert_eq!(belongs_to(other, id), other == s);
            }
            assert_eq!(recognize(id), Some(s));
            assert_eq!(selector_of(id), i);
        }
    }
}

#[test]
fn identifiers_are_distinct_within_a_service() {
    for s in SERVICES {
        for i in 1u8..=15 {
            for j in 1u8..=15 {
                assert_eq!(identifier_of(s, i) == identifier_of(s, j), i == j);
            }
        }
    }
}

#[test]
fn service_prefixes() {
    assert_eq!(ServiceKind::Information.prefix().as_u128(), 0xCE060010_43E5_11E4_916C_0800200C9A66);
    assert_eq!(ServiceKind::Control.prefix().as_u128(), 0xCE060020_43E5_11E4_916C_0800200C9A66);
    assert_eq!(ServiceKind::Rowing.prefix().as_u128(), 0xCE060030_43E5_11E4_916C_0800200C9A66);
    assert_eq!(ServiceKind::HeartRate.prefix().as_u128(), 0xCE060040_43E5_11E4_916C_0800200C9A66);
}

#[test]
fn characteristic_identifiers_of_each_service() {
    assert_eq!(Information::MachineType.id().as_u128(), 0xCE060016_43E5_11E4_916C_0800200C9A66);
    assert_eq!(Control::Transmit.id().as_u128(), 0xCE060022_43E5_11E4_916C_0800200C9A66);
    assert_eq!(Heartrate::Receive.id().as_u128(), 0xCE060041_43E5_11E4_916C_0800200C9A66);
    assert_eq!(Rowing::GeneralStatus.id().as_u128(), 0xCE060031_43E5_11E4_916C_0800200C9A66);
    assert_eq!(Rowing::ForceCurveData.id().as_u128(), 0xCE06003D_43E5_11E4_916C_0800200C9A66);
}

#[test]
fn rowing_identifiers_round_trip() {
    for i in 1u8..=15 {
        let c = Rowing::from_index(i).unwrap();
        assert_eq!(c.index(), i);
        assert_eq!(Rowing::from_identifier(c.id()), Some(c));
    }
    assert_eq!(Rowing::from_index(0), None);
    assert_eq!(Rowing::from_index(16), None);
}

#[test]
fn part_of_service() {
    let id = Rowing::StrokeData.id();
    assert!(Rowing::characteristic_is_part_of_service(id));
    assert!(!Information::characteristic_is_part_of_service(id));
    assert!(Control::characteristic_is_part_of_service(Control::Receive.id()));
}

#[test]
fn unknown_namespace_is_recognized_as_nothing() {
    let id = Identifier::from_u128(0xCE060050_43E5_11E4_916C_0800200C9A66);
    assert_eq!(recognize(id), None);
    let id = Identifier::from_u128(0x0000_2A37_0000_1000_8000_0080_5F9B_34FB);
    assert_eq!(recognize(id), None);
}

#[test]
fn subscribed_rowing_characteristics() {
    assert_eq!(Pm5::rowing(), vec![Rowing::GeneralStatus, Rowing::StrokeData]);
}
