//! Structured reply decoder tests: device, object, storage and property
//! descriptions, the exact-consumption rule, and the object tree walk.

use rcamera::data_types::PtpDataType;
use rcamera::device_info::{
    decode_storage_info_payload, decode_u32_array_payload, decode_u32_payload, PtpDeviceInfo,
    PtpFormData, PtpObjectInfo, PtpObjectTree, PtpPropInfo, PtpStorageInfo,
};
use rcamera::error::Error;
use rcamera::reader::Reader;

fn push_str(out: &mut Vec<u8>, s: &str) {
    let units: Vec<u16> = s.encode_utf16().collect();
    if units.is_empty() {
        out.push(0);
    } else {
        out.push((units.len() + 1) as u8);
        for u in units {
            out.extend_from_slice(&u.to_le_bytes());
        }
        out.extend_from_slice(&[0, 0]);
    }
}

fn push_u16_array(out: &mut Vec<u8>, vals: &[u16]) {
    out.extend_from_slice(&(vals.len() as u32).to_le_bytes());
    for v in vals {
        out.extend_from_slice(&v.to_le_bytes());
    }
}

fn device_info_buffer() -> Vec<u8> {
    let mut b = Vec::new();
    b.extend_from_slice(&100u16.to_le_bytes()); // Version
    b.extend_from_slice(&6u32.to_le_bytes()); // VendorExID
    b.extend_from_slice(&1u16.to_le_bytes()); // VendorExVersion
    push_str(&mut b, "ext"); // VendorExtensionDesc
    b.extend_from_slice(&0u16.to_le_bytes()); // FunctionalMode
    push_u16_array(&mut b, &[0x1001, 0x1002, 0x1009]); // OperationsSupported
    push_u16_array(&mut b, &[0x4002]); // EventsSupported
    push_u16_array(&mut b, &[]); // DevicePropertiesSupported
    push_u16_array(&mut b, &[]); // CaptureFormats
    push_u16_array(&mut b, &[0x3801]); // ImageFormats
    push_str(&mut b, "Maker"); // Manufacturer
    push_str(&mut b, "Model X"); // Model
    push_str(&mut b, "1.0"); // DeviceVersion
    push_str(&mut b, "SN0001"); // SerialNumber
    b
}

#[test]
fn device_info_decodes_field_by_field() {
    let info = PtpDeviceInfo::decode(&device_info_buffer()).unwrap();
    assert_eq!(info.Version, 100);
    assert_eq!(info.VendorExID, 6);
    assert_eq!(info.VendorExVersion, 1);
    assert_eq!(info.VendorExtensionDesc, "ext");
    assert_eq!(info.FunctionalMode, 0);
    assert_eq!(info.OperationsSupported, vec![0x1001, 0x1002, 0x1009]);
    assert_eq!(info.EventsSupported, vec![0x4002]);
    assert_eq!(info.DevicePropertiesSupported, Vec::<u16>::new());
    assert_eq!(info.CaptureFormats, Vec::<u16>::new());
    assert_eq!(info.ImageFormats, vec![0x3801]);
    assert_eq!(info.Manufacturer, "Maker");
    assert_eq!(info.Model, "Model X");
    assert_eq!(info.DeviceVersion, "1.0");
    assert_eq!(info.SerialNumber, "SN0001");
}

#[test]
fn device_info_with_trailing_byte_is_malformed() {
    let mut b = device_info_buffer();
    b.push(0);
    assert!(matches!(PtpDeviceInfo::decode(&b), Err(Error::Malformed(_))));
}

#[test]
fn device_info_truncated_is_malformed() {
    let b = device_info_buffer();
    assert!(matches!(
        PtpDeviceInfo::decode(&b[..b.len() - 1]),
        Err(Error::Malformed(_))
    ));
}

fn object_info_buffer() -> Vec<u8> {
    let mut b = Vec::new();
    b.extend_from_slice(&0x10001u32.to_le_bytes()); // StorageID
    b.extend_from_slice(&0x3801u16.to_le_bytes()); // ObjectFormat
    b.extend_from_slice(&0u16.to_le_bytes()); // ProtectionStatus
    b.extend_from_slice(&123456u32.to_le_bytes()); // ObjectCompressedSize
    b.extend_from_slice(&0x3808u16.to_le_bytes()); // ThumbFormat
    b.extend_from_slice(&2048u32.to_le_bytes()); // ThumbCompressedSize
    b.extend_from_slice(&160u32.to_le_bytes()); // ThumbPixWidth
    b.extend_from_slice(&120u32.to_le_bytes()); // ThumbPixHeight
    b.extend_from_slice(&6000u32.to_le_bytes()); // ImagePixWidth
    b.extend_from_slice(&4000u32.to_le_bytes()); // ImagePixHeight
    b.extend_from_slice(&24u32.to_le_bytes()); // ImageBitDepth
    b.extend_from_slice(&0u32.to_le_bytes()); // ParentObject
    b.extend_from_slice(&1u16.to_le_bytes()); // AssociationType
    b.extend_from_slice(&0u32.to_le_bytes()); // AssociationDesc
    b.extend_from_slice(&1u32.to_le_bytes()); // SequenceNumber
    push_str(&mut b, "IMG_0001.JPG"); // Filename
    push_str(&mut b, "20240101T120000"); // CaptureDate
    push_str(&mut b, "20240101T120005"); // ModificationDate
    push_str(&mut b, ""); // Keywords
    b
}

#[test]
fn object_info_decodes_field_by_field() {
    let info = PtpObjectInfo::decode(&object_info_buffer()).unwrap();
    assert_eq!(info.StorageID, 0x10001);
    assert_eq!(info.ObjectFormat, 0x3801);
    assert_eq!(info.ObjectCompressedSize, 123456);
    assert_eq!(info.ImagePixWidth, 6000);
    assert_eq!(info.Filename, "IMG_0001.JPG");
    assert_eq!(info.CaptureDate, "20240101T120000");
    assert_eq!(info.Keywords, "");
}

#[test]
fn object_info_with_trailing_byte_is_malformed() {
    let mut b = object_info_buffer();
    b.push(7);
    assert!(matches!(PtpObjectInfo::decode(&b), Err(Error::Malformed(_))));
}

fn storage_info_buffer() -> Vec<u8> {
    let mut b = Vec::new();
    b.extend_from_slice(&4u16.to_le_bytes()); // StorageType
    b.extend_from_slice(&3u16.to_le_bytes()); // FilesystemType
    b.extend_from_slice(&0u16.to_le_bytes()); // AccessCapability
    b.extend_from_slice(&64_000_000_000u64.to_le_bytes()); // MaxCapacity
    b.extend_from_slice(&32_000_000_000u64.to_le_bytes()); // FreeSpaceInBytes
    b.extend_from_slice(&5000u32.to_le_bytes()); // FreeSpaceInImages
    push_str(&mut b, "SD Card"); // StorageDescription
    push_str(&mut b, "CAM"); // VolumeLabel
    b
}

#[test]
fn storage_info_decodes_field_by_field() {
    let info = decode_storage_info_payload(&storage_info_buffer()).unwrap();
    assert_eq!(info.StorageType, 4);
    assert_eq!(info.FilesystemType, 3);
    assert_eq!(info.MaxCapacity, 64_000_000_000);
    assert_eq!(info.FreeSpaceInBytes, 32_000_000_000);
    assert_eq!(info.FreeSpaceInImages, 5000);
    assert_eq!(info.StorageDescription, "SD Card");
    assert_eq!(info.VolumeLabel, "CAM");
}

#[test]
fn storage_info_with_trailing_byte_is_malformed() {
    // the expect_end invariant: one unconsumed byte fails the decode
    let mut b = storage_info_buffer();
    b.push(0xEE);
    assert!(matches!(decode_storage_info_payload(&b), Err(Error::Malformed(_))));
}

#[test]
fn storage_info_reader_decode_leaves_rest() {
    let mut b = storage_info_buffer();
    b.push(0xEE);
    let mut cur = Reader::new(b);
    let info = PtpStorageInfo::decode(&mut cur).unwrap();
    assert_eq!(info.VolumeLabel, "CAM");
    // the reader form leaves trailing bytes to the caller's expect_end
    assert!(matches!(cur.expect_end(), Err(Error::Malformed(_))));
}

#[test]
fn u32_array_payload_decodes() {
    let mut b = Vec::new();
    b.extend_from_slice(&2u32.to_le_bytes());
    b.extend_from_slice(&0xA1u32.to_le_bytes());
    b.extend_from_slice(&0xA2u32.to_le_bytes());
    assert_eq!(decode_u32_array_payload(&b).unwrap(), vec![0xA1, 0xA2]);
    b.push(0);
    assert!(matches!(decode_u32_array_payload(&b), Err(Error::Malformed(_))));
}

#[test]
fn u32_payload_decodes() {
    assert_eq!(decode_u32_payload(&7u32.to_le_bytes()).unwrap(), 7);
    assert!(matches!(decode_u32_payload(&[1, 2, 3]), Err(Error::Malformed(_))));
    assert!(matches!(decode_u32_payload(&[1, 2, 3, 4, 5]), Err(Error::Malformed(_))));
}

fn prop_info_header(form_tag: u8) -> Vec<u8> {
    let mut b = Vec::new();
    b.extend_from_slice(&0x5001u16.to_le_bytes()); // PropertyCode
    b.extend_from_slice(&0x0004u16.to_le_bytes()); // DataType: UINT16
    b.push(1); // GetSet
    b.push(1); // IsEnable
    b.extend_from_slice(&5u16.to_le_bytes()); // FactoryDefault
    b.extend_from_slice(&7u16.to_le_bytes()); // Current
    b.push(form_tag);
    b
}

#[test]
fn prop_info_with_range_form() {
    let mut b = prop_info_header(1);
    b.extend_from_slice(&0u16.to_le_bytes()); // min
    b.extend_from_slice(&100u16.to_le_bytes()); // max
    b.extend_from_slice(&5u16.to_le_bytes()); // step
    let mut cur = Reader::new(b);
    let p = PtpPropInfo::decode(&mut cur).unwrap();
    assert_eq!(p.PropertyCode, 0x5001);
    assert_eq!(p.DataType, 0x0004);
    assert_eq!(p.FactoryDefault, PtpDataType::UINT16(5));
    assert_eq!(p.Current, PtpDataType::UINT16(7));
    match p.Form {
        PtpFormData::Range { minValue, maxValue, step } => {
            assert_eq!(minValue, PtpDataType::UINT16(0));
            assert_eq!(maxValue, PtpDataType::UINT16(100));
            assert_eq!(step, PtpDataType::UINT16(5));
        }
        other => panic!("expected a range form, got {:?}", other),
    }
    assert!(cur.expect_end().is_ok());
}

#[test]
fn prop_info_with_enumeration_form() {
    let mut b = prop_info_header(2);
    b.extend_from_slice(&3u16.to_le_bytes()); // count
    b.extend_from_slice(&10u16.to_le_bytes());
    b.extend_from_slice(&20u16.to_le_bytes());
    b.extend_from_slice(&30u16.to_le_bytes());
    let mut cur = Reader::new(b);
    let p = PtpPropInfo::decode(&mut cur).unwrap();
    match p.Form {
        PtpFormData::Enumeration { array } => {
            assert_eq!(
                array,
                vec![
                    PtpDataType::UINT16(10),
                    PtpDataType::UINT16(20),
                    PtpDataType::UINT16(30)
                ]
            );
        }
        other => panic!("expected an enumeration form, got {:?}", other),
    }
    assert!(cur.expect_end().is_ok());
}

#[test]
fn prop_info_with_no_form() {
    let b = prop_info_header(0);
    let mut cur = Reader::new(b);
    let p = PtpPropInfo::decode(&mut cur).unwrap();
    assert!(matches!(p.Form, PtpFormData::NoForm));
    assert!(cur.expect_end().is_ok());
}

#[test]
fn prop_info_truncated_value_is_malformed() {
    // DataType promises a u16 default but the buffer ends
    let mut b = Vec::new();
    b.extend_from_slice(&0x5001u16.to_le_bytes());
    b.extend_from_slice(&0x0004u16.to_le_bytes());
    b.push(1);
    b.push(1);
    b.push(5); // only one byte of the u16 default
    let mut cur = Reader::new(b);
    assert!(matches!(PtpPropInfo::decode(&mut cur), Err(Error::Malformed(_))));
}

fn leaf(handle: u32, name: &str) -> PtpObjectTree {
    let mut b = object_info_buffer();
    let mut info = PtpObjectInfo::decode(&b).unwrap();
    info.Filename = String::from(name);
    b.clear();
    PtpObjectTree { handle, info, children: None }
}

#[test]
fn walk_flattens_the_tree_with_paths() {
    let mut root = leaf(1, "DCIM");
    let child_a = leaf(2, "img1.jpg");
    let mut child_b = leaf(3, "sub");
    child_b.children = Some(vec![leaf(4, "img2.jpg")]);
    root.children = Some(vec![child_a, child_b]);

    let out = root.walk();
    assert_eq!(out.len(), 4);
    assert_eq!(out[0].0, "DCIM");
    assert_eq!(out[1].0, "DCIM/img1.jpg");
    assert_eq!(out[2].0, "DCIM/sub");
    assert_eq!(out[3].0, "DCIM/sub/img2.jpg");
    assert_eq!(out[3].1.handle, 4);
}
