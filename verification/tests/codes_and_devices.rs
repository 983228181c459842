//! Tests for the code tables, camera-vendor recognition, and endpoint
//! selection.

use rcamera::camera_connection::{
    is_camera_device, select_endpoints, EndpointDesc, TransferKind, PTP_CLASS, PTP_PROTOCOL,
    PTP_SUBCLASS,
};
use rcamera::codes::{StandardCommandCode, StandardResponseCode, RESPONSE_OK};
use rcamera::error::Error;

#[test]
fn response_code_names() {
    assert_eq!(StandardResponseCode::name(0x2001), Some("Ok"));
    assert_eq!(StandardResponseCode::name(0x2002), Some("GeneralError"));
    assert_eq!(StandardResponseCode::name(0x2003), Some("SessionNotOpen"));
    assert_eq!(StandardResponseCode::name(0x2004), Some("InvalidTransactionId"));
    assert_eq!(StandardResponseCode::name(0x2020), Some("SpecificationOfDestinationUnsupported"));
    assert_eq!(StandardResponseCode::name(0x2021), None);
    assert_eq!(StandardResponseCode::name(0x1001), None);
    assert_eq!(RESPONSE_OK, 0x2001);
}

#[test]
fn command_code_names() {
    assert_eq!(StandardCommandCode::name(0x1001), Some("GetDeviceInfo"));
    assert_eq!(StandardCommandCode::name(0x1002), Some("OpenSession"));
    assert_eq!(StandardCommandCode::name(0x1003), Some("CloseSession"));
    assert_eq!(StandardCommandCode::name(0x1004), Some("GetStorageIDs"));
    assert_eq!(StandardCommandCode::name(0x1007), Some("GetObjectHandles"));
    assert_eq!(StandardCommandCode::name(0x1008), Some("GetObjectInfo"));
    assert_eq!(StandardCommandCode::name(0x1009), Some("GetObject"));
    assert_eq!(StandardCommandCode::name(0x101C), Some("InitiateOpenCapture"));
    assert_eq!(StandardCommandCode::name(0x101D), None);
    assert_eq!(StandardCommandCode::name(0x2001), None);
}

#[test]
fn known_camera_vendors_are_recognized() {
    assert!(is_camera_device(0x054C, 0x0001)); // Sony
    assert!(is_camera_device(0x04A9, 0x326F)); // Canon
    assert!(is_camera_device(0x04B0, 0x0001)); // Nikon
    assert!(!is_camera_device(0x1234, 0x0001));
}

#[test]
fn ptp_interface_class_codes() {
    assert_eq!(PTP_CLASS, 6);
    assert_eq!(PTP_SUBCLASS, 1);
    assert_eq!(PTP_PROTOCOL, 1);
}

#[test]
fn string_converts_to_transport_error() {
    let e = Error::from(String::from("pipe stall"));
    assert!(matches!(e, Error::USB(_)));
}

fn ep(address: u8, transfer: TransferKind, dir_in: bool) -> EndpointDesc {
    EndpointDesc { address, transfer, dir_in }
}

#[test]
fn endpoint_selection_picks_bulk_pair_and_interrupt() {
    let eps = vec![
        ep(0x81, TransferKind::Bulk, true),
        ep(0x02, TransferKind::Bulk, false),
        ep(0x83, TransferKind::Interrupt, true),
    ];
    let set = select_endpoints(&eps).unwrap();
    assert_eq!(set.bulk_in, 0x81);
    assert_eq!(set.bulk_out, 0x02);
    assert_eq!(set.interrupt_in, Some(0x83));
}

#[test]
fn endpoint_selection_later_descriptor_wins() {
    let eps = vec![
        ep(0x81, TransferKind::Bulk, true),
        ep(0x82, TransferKind::Bulk, true),
        ep(0x02, TransferKind::Bulk, false),
    ];
    let set = select_endpoints(&eps).unwrap();
    assert_eq!(set.bulk_in, 0x82);
    assert_eq!(set.interrupt_in, None);
}

#[test]
fn endpoint_selection_requires_both_bulk_directions() {
    let only_in = vec![ep(0x81, TransferKind::Bulk, true)];
    assert!(matches!(select_endpoints(&only_in), Err(Error::NotFound(_))));

    let only_out = vec![ep(0x02, TransferKind::Bulk, false)];
    assert!(matches!(select_endpoints(&only_out), Err(Error::NotFound(_))));

    let none: Vec<EndpointDesc> = Vec::new();
    assert!(matches!(select_endpoints(&none), Err(Error::NotFound(_))));
}
