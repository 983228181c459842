//! Container framing tests: the 12-byte header, unknown kinds, and the
//! exact GetDeviceInfo command bytes.

use rcamera::codes::PtpContainerType;
use rcamera::container::{encode_container, PtpContainerInfo};
use rcamera::error::Error;

#[test]
fn get_device_info_command_is_exactly_twelve_bytes() {
    // GetDeviceInfo (0x1001), no parameters, transaction id 0
    let bytes = encode_container(PtpContainerType::Command, 0x1001, 0, &[]);
    assert_eq!(
        bytes,
        vec![0x0C, 0x00, 0x00, 0x00, 0x01, 0x00, 0x01, 0x10, 0x00, 0x00, 0x00, 0x00]
    );
}

#[test]
fn container_round_trips_through_parse() {
    let bytes = encode_container(PtpContainerType::Data, 0x1009, 7, &[1, 2, 3]);
    let info = PtpContainerInfo::parse(&bytes).unwrap();
    assert_eq!(info.kind, PtpContainerType::Data);
    assert_eq!(info.code, 0x1009);
    assert_eq!(info.tid, 7);
    assert_eq!(info.payload_len, 3);
}

#[test]
fn unrecognized_kind_fails_with_malformed() {
    // kind tag 5 names no container kind
    let bytes = vec![0x0C, 0x00, 0x00, 0x00, 0x05, 0x00, 0x01, 0x10, 0x00, 0x00, 0x00, 0x00];
    assert!(matches!(PtpContainerInfo::parse(&bytes), Err(Error::Malformed(_))));
}

#[test]
fn short_header_fails_with_malformed() {
    let bytes = vec![0x0C, 0x00, 0x00];
    assert!(matches!(PtpContainerInfo::parse(&bytes), Err(Error::Malformed(_))));
}

#[test]
fn length_below_header_size_fails_with_malformed() {
    // length field 11 < 12
    let bytes = vec![0x0B, 0x00, 0x00, 0x00, 0x01, 0x00, 0x01, 0x10, 0x00, 0x00, 0x00, 0x00];
    assert!(matches!(PtpContainerInfo::parse(&bytes), Err(Error::Malformed(_))));
}

#[test]
fn kind_tags_map_both_ways() {
    assert_eq!(PtpContainerType::from_u16(1), Some(PtpContainerType::Command));
    assert_eq!(PtpContainerType::from_u16(2), Some(PtpContainerType::Data));
    assert_eq!(PtpContainerType::from_u16(3), Some(PtpContainerType::Response));
    assert_eq!(PtpContainerType::from_u16(4), Some(PtpContainerType::Event));
    assert_eq!(PtpContainerType::from_u16(0), None);
    assert_eq!(PtpContainerType::from_u16(5), None);
    assert_eq!(PtpContainerType::Response.as_u16(), 3);
}

#[test]
fn belongs_to_compares_transaction_ids() {
    let bytes = encode_container(PtpContainerType::Response, 0x2001, 42, &[]);
    let info = PtpContainerInfo::parse(&bytes).unwrap();
    assert!(info.belongs_to(42));
    assert!(!info.belongs_to(41));
}
