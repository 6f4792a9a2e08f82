//! Lifecycle management for virtual-disk-image handles on a Windows host.
//!
//! The host's virtual-disk subsystem is an outside collaborator reached only
//! through raw system calls, so the calls themselves live in the surrounding
//! application. This crate holds everything that can be stated and proved:
//! translating host status codes, resolving a disk format from a file
//! extension, computing open and attach flag sets, diffing volume snapshots to
//! discover the newly attached volume, and the open/close state machine of a
//! disk handle.

mod error;
mod format;
mod info;
mod vhd;
mod volumes;

pub use error::Error;
pub use error::status_error;
pub use format::VhdType;
pub use format::lemma_extension_matching_case_insensitive;
pub use format::resolve_vhd_type;
pub use info::DiskInfo;
pub use info::VhdIdentifier;
pub use info::identifier_outcome;
pub use info::size_outcome;
pub use vhd::ACCESS_ATTACH_READ_ONLY;
pub use vhd::ACCESS_ATTACH_READ_WRITE;
pub use vhd::ACCESS_DETACH;
pub use vhd::ACCESS_GET_INFO;
pub use vhd::ATTACH_PERMANENT_LIFETIME;
pub use vhd::ATTACH_READ_ONLY;
pub use vhd::INVALID_RAW_HANDLE;
pub use vhd::OpenMode;
pub use vhd::OpenRequest;
pub use vhd::STATUS_SUCCESS;
pub use vhd::STORAGE_DEVICE_VHD;
pub use vhd::STORAGE_DEVICE_VHDX;
pub use vhd::Vhd;
pub use vhd::attach_open_request;
pub use vhd::attach_outcome;
pub use vhd::detach_open_request;
pub use vhd::detach_outcome;
pub use vhd::lemma_access_includes_metadata_query;
pub use vhd::lemma_persistence_flag;
pub use vhd::lemma_read_only_never_enables_write;
pub use vhd::open_outcome;
pub use volumes::get_new_drive_letter;
pub use volumes::lemma_first_new_letter;
pub use volumes::parse_drive_strings;

