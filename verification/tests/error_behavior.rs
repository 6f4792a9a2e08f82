//! The translator's edges: unmapped codes are carried raw, never silently
//! renamed, and the fixed descriptions are the ones documented for the host.

use vhd::Error;

#[test]
fn unmapped_code_is_carried_raw() {
    assert_eq!(Error::from_code(499), Error::UnknownWindowsError(499));
    assert_eq!(Error::from_code(0xDEAD), Error::UnknownWindowsError(0xDEAD));
    // Success is no error the translator knows: it is carried raw too.
    assert_eq!(Error::from_code(0), Error::UnknownWindowsError(0));
}

#[test]
fn common_failure_paths_are_distinguishable() {
    assert_ne!(Error::from_code(2), Error::from_code(5));
    assert_ne!(Error::from_code(5), Error::from_code(32));
    assert_ne!(Error::from_code(32), Error::from_code(21));
    assert_ne!(Error::from_code(21), Error::from_code(112));
    assert_ne!(Error::from_code(112), Error::from_code(183));
}

#[test]
fn messages_of_common_failures() {
    assert_eq!(
        Error::from_code(2).message(),
        "The system cannot find the file specified."
    );
    assert_eq!(Error::from_code(5).message(), "Access is denied.");
    assert_eq!(
        Error::from_code(32).message(),
        "The process cannot access the file because it is being used by another process."
    );
    assert_eq!(
        Error::from_code(112).message(),
        "There is not enough space on the disk."
    );
    assert_eq!(
        Error::from_code(183).message(),
        "Cannot create a file when that file already exists."
    );
}

#[test]
fn domain_errors_have_their_own_messages() {
    assert_eq!(
        Error::MountDriveDetection.message(),
        "Failed to detect the mount drive."
    );
    assert_eq!(
        Error::UnknownFileExtension.message(),
        "Failed to detect file extension."
    );
}
