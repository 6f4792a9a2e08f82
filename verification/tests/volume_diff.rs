//! Snapshot diffing: the attach outcome is the first newly visible volume
//! letter, the detection failure when none is, and a translated host status
//! when the native call failed; and the drive-strings parser yields one
//! letter per NUL-terminated string.

use vhd::{attach_outcome, get_new_drive_letter, parse_drive_strings, Error};

#[test]
fn new_letter_is_found() {
    let before = ['C', 'D'];
    let after = ['C', 'D', 'E'];
    assert_eq!(get_new_drive_letter(&before, &after), Some('E'));
}

#[test]
fn first_new_letter_wins() {
    let before = ['C'];
    let after = ['C', 'X', 'Y'];
    assert_eq!(get_new_drive_letter(&before, &after), Some('X'));
}

#[test]
fn equal_snapshots_yield_nothing() {
    let before = ['C', 'D'];
    let after = ['C', 'D'];
    assert_eq!(get_new_drive_letter(&before, &after), None);
}

#[test]
fn removed_letter_is_not_new() {
    let before = ['C', 'D', 'E'];
    let after = ['C', 'E'];
    assert_eq!(get_new_drive_letter(&before, &after), None);
}

#[test]
fn empty_snapshots() {
    assert_eq!(get_new_drive_letter(&[], &[]), None);
    assert_eq!(get_new_drive_letter(&['C'], &[]), None);
    assert_eq!(get_new_drive_letter(&[], &['C']), Some('C'));
}

#[test]
fn successful_attach_returns_new_letter() {
    let before = ['C', 'D'];
    let after = ['C', 'D', 'E'];
    assert_eq!(attach_outcome(0, &before, &after), Ok('E'));
}

#[test]
fn successful_attach_without_new_letter_is_detection_failure() {
    let before = ['C', 'D'];
    let after = ['C', 'D'];
    assert_eq!(
        attach_outcome(0, &before, &after),
        Err(Error::MountDriveDetection)
    );
}

#[test]
fn failed_attach_is_host_error_not_detection() {
    // Access denied: the snapshots play no part in a failed attach.
    let before = ['C'];
    let after = ['C', 'E'];
    assert_eq!(attach_outcome(5, &before, &after), Err(Error::AccessDenied));
}

#[test]
fn parse_two_drive_strings() {
    // "C:\" NUL "D:\" NUL NUL — the shape the host's enumeration fills.
    let buffer: Vec<u16> = "C:\\\0D:\\\0\0".encode_utf16().collect();
    assert_eq!(parse_drive_strings(&buffer), vec!['C', 'D']);
}

#[test]
fn parse_empty_buffer() {
    assert_eq!(parse_drive_strings(&[]), Vec::<char>::new());
    assert_eq!(parse_drive_strings(&[0]), Vec::<char>::new());
}

#[test]
fn parse_drops_tail_without_nul() {
    // An unterminated tail is not a finished string and yields no letter.
    let buffer: Vec<u16> = "C:\\\0D:".encode_utf16().collect();
    assert_eq!(parse_drive_strings(&buffer), vec!['C']);
}

#[test]
fn parse_skips_surrogate_first_unit() {
    // A lone surrogate stands for no character and yields no letter.
    let buffer: [u16; 5] = [0xD800, 0x003A, 0, 0x0045, 0];
    assert_eq!(parse_drive_strings(&buffer), vec!['E']);
}
