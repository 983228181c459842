//! Tests for the primitive little-endian reads and the end-of-buffer guard.

use rcamera::error::Error;
use rcamera::reader::Reader;

#[test]
fn scalar_reads() {
    let mut r = Reader::new(vec![0x34, 0x12, 0xFF, 0x78, 0x56, 0x34, 0x12]);
    assert_eq!(r.read_ptp_u16().unwrap(), 0x1234);
    assert_eq!(r.read_ptp_i8().unwrap(), -1);
    assert_eq!(r.read_ptp_u32().unwrap(), 0x12345678);
    assert!(r.expect_end().is_ok());
}

#[test]
fn u64_and_u128_reads() {
    let mut b = 2u64.to_le_bytes().to_vec();
    b.extend_from_slice(&1u64.to_le_bytes());
    let mut r = Reader::new(b);
    // low word first on the wire; the pair holds (high, low)
    assert_eq!(r.read_ptp_u128().unwrap(), (1, 2));
    assert!(r.expect_end().is_ok());
}

#[test]
fn signed_reads() {
    let mut r = Reader::new(vec![0x2E, 0xFB]);
    assert_eq!(r.read_ptp_i16().unwrap(), -1234);
}

#[test]
fn counted_vec_reads() {
    let mut r = Reader::new(vec![2, 0, 0, 0, 1, 0, 0, 0, 2, 0, 0, 0]);
    assert_eq!(r.read_ptp_u32_vec().unwrap(), vec![1, 2]);
    assert!(r.expect_end().is_ok());
}

#[test]
fn empty_counted_vec() {
    let mut r = Reader::new(vec![0, 0, 0, 0]);
    assert_eq!(r.read_ptp_u16_vec().unwrap(), Vec::<u16>::new());
    assert!(r.expect_end().is_ok());
}

#[test]
fn string_reads() {
    let mut r = Reader::new(vec![0x03, 0x41, 0x00, 0x42, 0x00, 0x00, 0x00]);
    assert_eq!(r.read_ptp_str().unwrap(), "AB");
    assert!(r.expect_end().is_ok());
}

#[test]
fn empty_string_read() {
    let mut r = Reader::new(vec![0x00]);
    assert_eq!(r.read_ptp_str().unwrap(), "");
    assert!(r.expect_end().is_ok());
}

#[test]
fn truncated_string_is_malformed() {
    // unit count says two units but only one byte follows
    let mut r = Reader::new(vec![0x03, 0x41]);
    assert!(matches!(r.read_ptp_str(), Err(Error::Malformed(_))));
}

#[test]
fn short_buffer_is_malformed() {
    let mut r = Reader::new(vec![1, 2]);
    assert!(matches!(r.read_ptp_u32(), Err(Error::Malformed(_))));
}

#[test]
fn truncated_vec_is_malformed() {
    // count says three u16 elements, only one present
    let mut r = Reader::new(vec![3, 0, 0, 0, 1, 0]);
    assert!(matches!(r.read_ptp_u16_vec(), Err(Error::Malformed(_))));
}

#[test]
fn expect_end_rejects_leftover_bytes() {
    let mut r = Reader::new(vec![1, 0, 7]);
    assert_eq!(r.read_ptp_u16().unwrap(), 1);
    assert!(matches!(r.expect_end(), Err(Error::Malformed(_))));
}
