//! The handle lifecycle: opening wraps a valid raw handle exactly when the
//! host reported success, releasing is terminal and idempotent, and every
//! flag set carries exactly the rights and flags its inputs ask for.

use vhd::{
    attach_open_request, attach_outcome, detach_open_request, detach_outcome, open_outcome, Error,
    OpenMode, VhdType, ACCESS_ATTACH_READ_ONLY, ACCESS_ATTACH_READ_WRITE, ACCESS_DETACH,
    ACCESS_GET_INFO, ATTACH_PERMANENT_LIFETIME, ATTACH_READ_ONLY,
};

#[test]
fn open_success_wraps_handle() {
    let vhd = open_outcome(0, 0x1234, OpenMode::ReadOnly, VhdType::Vhd).unwrap();
    assert!(!vhd.is_released());
    assert_eq!(vhd.mode(), OpenMode::ReadOnly);
    assert_eq!(vhd.kind(), VhdType::Vhd);
    assert_eq!(vhd.native_handle(), Ok(0x1234));
}

#[test]
fn open_failure_is_translated() {
    // "The system cannot find the file specified."
    let r = open_outcome(2, 0, OpenMode::ReadWrite, VhdType::Vhdx);
    assert_eq!(r.unwrap_err(), Error::FileNotFound);
}

#[test]
fn open_success_with_null_handle_is_rejected() {
    assert_eq!(
        open_outcome(0, 0, OpenMode::ReadOnly, VhdType::Vhd).unwrap_err(),
        Error::InvalidHandle
    );
    assert_eq!(
        open_outcome(0, usize::MAX, OpenMode::ReadOnly, VhdType::Vhd).unwrap_err(),
        Error::InvalidHandle
    );
}

#[test]
fn close_is_terminal_and_idempotent() {
    let mut vhd = open_outcome(0, 0x77, OpenMode::ReadWrite, VhdType::Vhd).unwrap();
    assert_eq!(vhd.close(), Some(0x77));
    assert!(vhd.is_released());
    // The second close hands back nothing: no native call is made twice.
    assert_eq!(vhd.close(), None);
    assert!(vhd.is_released());
}

#[test]
fn released_handle_rejects_native_calls() {
    let mut vhd = open_outcome(0, 0x77, OpenMode::ReadOnly, VhdType::Vhd).unwrap();
    vhd.close();
    assert_eq!(vhd.native_handle(), Err(Error::InvalidHandle));
}

#[test]
fn access_flags_by_mode() {
    assert_eq!(
        OpenMode::ReadOnly.access_flags(),
        ACCESS_ATTACH_READ_ONLY | ACCESS_GET_INFO
    );
    assert_eq!(
        OpenMode::ReadWrite.access_flags(),
        ACCESS_ATTACH_READ_WRITE | ACCESS_GET_INFO
    );
    // A read-only open asks no write-enabling right.
    assert_eq!(OpenMode::ReadOnly.access_flags() & ACCESS_ATTACH_READ_WRITE, 0);
}

#[test]
fn attach_flags_by_mode_and_persistence() {
    let ro = open_outcome(0, 0x10, OpenMode::ReadOnly, VhdType::Vhd).unwrap();
    let rw = open_outcome(0, 0x11, OpenMode::ReadWrite, VhdType::Vhd).unwrap();
    assert_eq!(ro.attach_flags(false), ATTACH_READ_ONLY);
    assert_eq!(ro.attach_flags(true), ATTACH_READ_ONLY | ATTACH_PERMANENT_LIFETIME);
    assert_eq!(rw.attach_flags(false), 0);
    assert_eq!(rw.attach_flags(true), ATTACH_PERMANENT_LIFETIME);
}

#[test]
fn attach_open_request_resolves_kind_and_rights() {
    let q = attach_open_request("disk.vhdx", OpenMode::ReadWrite, None).unwrap();
    assert_eq!(q.kind, VhdType::Vhdx);
    assert_eq!(q.mode, OpenMode::ReadWrite);
    assert_eq!(q.access_flags, ACCESS_ATTACH_READ_WRITE | ACCESS_GET_INFO);
    assert_eq!(
        attach_open_request("disk.raw", OpenMode::ReadOnly, None).unwrap_err(),
        Error::UnknownFileExtension
    );
}

#[test]
fn detach_open_request_asks_detach_right_only() {
    let q = detach_open_request("disk.vhd").unwrap();
    assert_eq!(q.kind, VhdType::Vhd);
    assert_eq!(q.mode, OpenMode::ReadOnly);
    assert_eq!(q.access_flags, ACCESS_DETACH);
    assert_eq!(q.access_flags & ACCESS_ATTACH_READ_WRITE, 0);
}

#[test]
fn detach_of_never_attached_path_surfaces_not_ready() {
    // The host answers a detach of an unattached disk with its "not ready"
    // status; the outcome surfaces it rather than swallowing it.
    assert_eq!(detach_outcome(21), Err(Error::NotReady));
    assert_eq!(Error::from_code(21).message(), "The device is not ready.");
}

#[test]
fn detach_success() {
    assert_eq!(detach_outcome(0), Ok(()));
}

#[test]
fn round_trip_releases_once() {
    // Open, attach persistently, detach, release: every native status is a
    // success here, the diff finds the new volume, and the release stays
    // idempotent — the second close asks for no native call.
    let request = attach_open_request("file.vhd", OpenMode::ReadWrite, None).unwrap();
    let mut vhd = open_outcome(0, 0x2000, request.mode, request.kind).unwrap();
    assert_ne!(vhd.attach_flags(true) & ATTACH_PERMANENT_LIFETIME, 0);
    assert_eq!(attach_outcome(0, &['C'], &['C', 'E']), Ok('E'));
    assert_eq!(detach_open_request("file.vhd").unwrap().access_flags, ACCESS_DETACH);
    assert_eq!(detach_outcome(0), Ok(()));
    assert_eq!(vhd.close(), Some(0x2000));
    assert_eq!(vhd.close(), None);
}

#[test]
fn device_ids() {
    assert_eq!(VhdType::Vhd.device_id(), 2);
    assert_eq!(VhdType::Vhdx.device_id(), 3);
}
