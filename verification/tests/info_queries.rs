//! The metadata queries' outcomes: native fields carried over one to one on
//! success, translated status on failure, and the identifier's field order
//! preserved exactly — checked against the uuid crate's own byte layout.

use vhd::{identifier_outcome, size_outcome, DiskInfo, Error, VhdIdentifier};

#[test]
fn size_success_carries_fields() {
    let info = size_outcome(0, 0x4000_0000, 0x4010_0000, 0x0020_0000, 512).unwrap();
    assert_eq!(
        info,
        DiskInfo {
            virtual_size: 0x4000_0000,
            physical_size: 0x4010_0000,
            block_size: 0x0020_0000,
            sector_size: 512,
        }
    );
}

#[test]
fn size_failure_is_access_class_error() {
    // "Access is denied.": what a handle opened without the metadata-query
    // right gets back from the host.
    assert_eq!(size_outcome(5, 0, 0, 0, 0).unwrap_err(), Error::AccessDenied);
}

#[test]
fn identifier_success_preserves_fields() {
    let tail = [0x90u8, 0x1F, 0x71, 0x41, 0x5A, 0x66, 0x34, 0x5B];
    let id = identifier_outcome(0, 0xEC98_4AEC, 0xA0F9, 0x47E9, &tail).unwrap();
    assert_eq!(id.data1, 0xEC98_4AEC);
    assert_eq!(id.data2, 0xA0F9);
    assert_eq!(id.data3, 0x47E9);
    assert_eq!(id.data4, tail);
}

#[test]
fn identifier_failure_is_translated() {
    let tail = [0u8; 8];
    assert_eq!(
        identifier_outcome(6, 0, 0, 0, &tail).unwrap_err(),
        Error::InvalidHandle
    );
}

#[test]
fn identifier_bytes_match_uuid_field_order() {
    // The same four fields handed to the uuid crate must yield the same 16
    // bytes: field order and byte order preserved exactly.
    let tail = [0x90u8, 0x1F, 0x71, 0x41, 0x5A, 0x66, 0x34, 0x5B];
    let id = VhdIdentifier::from_fields(0xEC98_4AEC, 0xA0F9, 0x47E9, &tail);
    let reference = uuid::Uuid::from_fields(0xEC98_4AEC, 0xA0F9, 0x47E9, &tail);
    assert_eq!(id.to_bytes(), *reference.as_bytes());
    assert_eq!(
        reference.to_string(),
        "ec984aec-a0f9-47e9-901f-71415a66345b"
    );
}

#[test]
fn identifier_bytes_are_big_endian_per_field() {
    let tail = [8u8, 9, 10, 11, 12, 13, 14, 15];
    let id = VhdIdentifier::from_fields(0x0001_0203, 0x0405, 0x0607, &tail);
    assert_eq!(
        id.to_bytes(),
        [0, 1, 2, 3, 4, 5, 6, 7, 8, 9, 10, 11, 12, 13, 14, 15]
    );
}
