//! Round-trip and exact-encoding tests for the typed value codec.

use rcamera::data_types::PtpDataType;
use rcamera::reader::Reader;

fn roundtrip(kind: u16, v: PtpDataType) {
    let bytes = v.encode();
    let mut r = Reader::new(bytes);
    let back = PtpDataType::read_type(kind, &mut r).expect("decode failed");
    assert_eq!(back, v);
    assert!(r.expect_end().is_ok());
}

#[test]
fn roundtrip_scalars() {
    roundtrip(0x0001, PtpDataType::INT8(-5));
    roundtrip(0x0002, PtpDataType::UINT8(0xAB));
    roundtrip(0x0003, PtpDataType::INT16(-1234));
    roundtrip(0x0004, PtpDataType::UINT16(0xBEEF));
    roundtrip(0x0005, PtpDataType::INT32(-123456789));
    roundtrip(0x0006, PtpDataType::UINT32(0xDEADBEEF));
    roundtrip(0x0007, PtpDataType::INT64(-1234567890123456789));
    roundtrip(0x0008, PtpDataType::UINT64(0xFEDCBA9876543210));
    roundtrip(0x0009, PtpDataType::INT128((0x0102030405060708, 0x1112131415161718)));
    roundtrip(0x000A, PtpDataType::UINT128((0xAABBCCDDEEFF0011, 0x2233445566778899)));
}

#[test]
fn roundtrip_arrays() {
    roundtrip(0x4001, PtpDataType::AINT8(vec![1, -2, 127, -128]));
    roundtrip(0x4002, PtpDataType::AUINT8(vec![0, 255, 7]));
    roundtrip(0x4003, PtpDataType::AINT16(vec![-1, 0, 32767]));
    roundtrip(0x4004, PtpDataType::AUINT16(vec![0x1001, 0x1002]));
    roundtrip(0x4005, PtpDataType::AINT32(vec![-7, 7]));
    roundtrip(0x4006, PtpDataType::AUINT32(vec![0x10001, 0xFFFFFFFF]));
    roundtrip(0x4007, PtpDataType::AINT64(vec![i64::MIN, i64::MAX]));
    roundtrip(0x4008, PtpDataType::AUINT64(vec![u64::MAX, 0]));
    roundtrip(0x4009, PtpDataType::AINT128(vec![(1, 2), (3, 4)]));
    roundtrip(0x400A, PtpDataType::AUINT128(vec![(u64::MAX, 0)]));
}

#[test]
fn roundtrip_empty_array() {
    // count = 0, no elements
    let v = PtpDataType::AUINT16(vec![]);
    let bytes = v.encode();
    assert_eq!(bytes, vec![0, 0, 0, 0]);
    roundtrip(0x4004, PtpDataType::AUINT16(vec![]));
}

#[test]
fn roundtrip_strings() {
    roundtrip(0xFFFF, PtpDataType::STR(String::from("hello")));
    roundtrip(0xFFFF, PtpDataType::STR(String::from("Sony A7")));
    // one character outside the basic plane: a surrogate pair on the wire
    roundtrip(0xFFFF, PtpDataType::STR(String::from("a\u{1D11E}b")));
}

#[test]
fn empty_string_is_one_zero_byte() {
    let v = PtpDataType::STR(String::new());
    assert_eq!(v.encode(), vec![0x00]);
    roundtrip(0xFFFF, PtpDataType::STR(String::new()));
}

#[test]
fn exact_scalar_encodings() {
    assert_eq!(PtpDataType::UINT16(0x1234).encode(), vec![0x34, 0x12]);
    assert_eq!(PtpDataType::UINT32(0x01020304).encode(), vec![0x04, 0x03, 0x02, 0x01]);
    assert_eq!(PtpDataType::INT8(-1).encode(), vec![0xFF]);
    // 128-bit value (high, low): the low word comes first on the wire
    assert_eq!(
        PtpDataType::UINT128((1, 2)).encode(),
        vec![2, 0, 0, 0, 0, 0, 0, 0, 1, 0, 0, 0, 0, 0, 0, 0]
    );
}

#[test]
fn exact_string_encoding() {
    // unit count including the terminator, UTF-16LE units, null terminator
    assert_eq!(
        PtpDataType::STR(String::from("AB")).encode(),
        vec![0x03, 0x41, 0x00, 0x42, 0x00, 0x00, 0x00]
    );
}

#[test]
fn exact_array_encoding() {
    assert_eq!(
        PtpDataType::AUINT16(vec![0x1001, 0x1002]).encode(),
        vec![0x02, 0x00, 0x00, 0x00, 0x01, 0x10, 0x02, 0x10]
    );
}

#[test]
fn unknown_type_code_decodes_to_undef() {
    // an unknown code consumes nothing and yields the explicit undefined value
    let mut r = Reader::new(vec![0x12, 0x34]);
    let v = PtpDataType::read_type(0x0042, &mut r).expect("undef decode");
    assert_eq!(v, PtpDataType::UNDEF);
    // nothing consumed: both bytes still there
    assert_eq!(r.read_ptp_u16().expect("u16"), 0x3412);
    assert!(r.expect_end().is_ok());
}

#[test]
fn undef_encodes_to_nothing() {
    assert_eq!(PtpDataType::UNDEF.encode(), Vec::<u8>::new());
}

#[test]
fn truncated_value_is_malformed() {
    let mut r = Reader::new(vec![0x01]);
    let e = PtpDataType::read_type(0x0004, &mut r).expect_err("should fail");
    assert!(matches!(e, rcamera::error::Error::Malformed(_)));
}

#[test]
fn invalid_utf16_is_malformed() {
    // one unpaired high surrogate unit, then the terminator
    let buf = vec![0x02, 0x00, 0xD8, 0x00, 0x00];
    let mut r = Reader::new(buf);
    let e = PtpDataType::read_type(0xFFFF, &mut r).expect_err("should fail");
    assert!(matches!(e, rcamera::error::Error::Malformed(_)));
}
