//! The disk handle and its lifecycle, and the outcome of each native
//! operation.
//!
//! The host's open, attach, detach and query primitives are reached only by
//! the surrounding application; everything decidable from their numeric
//! results is decided here. A [`Vhd`] owns the raw handle value the host
//! returned; releasing it is terminal, and the raw value is handed out for a
//! native call only while the handle is unreleased.

use vstd::prelude::*;
use crate::error::Error;
use crate::error::status_error;
use crate::format::VhdType;
use crate::format::resolved_kind;
use crate::format::resolve_vhd_type;
use crate::volumes::first_new_letter;
use crate::volumes::get_new_drive_letter;

verus! {

/// The host's status code for success.
pub const STATUS_SUCCESS: u32 = 0;

/// Access right: attach the disk for reading only.
pub const ACCESS_ATTACH_READ_ONLY: u32 = 0x0001_0000;

/// Access right: attach the disk for reading and writing.
pub const ACCESS_ATTACH_READ_WRITE: u32 = 0x0002_0000;

/// Access right: detach the disk.
pub const ACCESS_DETACH: u32 = 0x0004_0000;

/// Access right: query the disk's metadata.
pub const ACCESS_GET_INFO: u32 = 0x0008_0000;

/// Attach flag: expose the attached disk read-only.
pub const ATTACH_READ_ONLY: u32 = 0x1;

/// Attach flag: let the mount outlive the handle, until explicitly detached.
pub const ATTACH_PERMANENT_LIFETIME: u32 = 0x4;

/// The host's storage-type device identifier of each format.
pub const STORAGE_DEVICE_VHD: u32 = 2;

/// See [`STORAGE_DEVICE_VHD`].
pub const STORAGE_DEVICE_VHDX: u32 = 3;

/// The raw value the host uses as its invalid-handle sentinel.
pub const INVALID_RAW_HANDLE: usize = usize::MAX;

/// Whether a raw handle value can stand for an open host resource.
pub open spec fn valid_raw_handle(h: usize) -> bool {
    h != 0 && h != INVALID_RAW_HANDLE
}

/// The mode a disk image is opened in.
#[derive(Debug, Clone, Copy, PartialEq, Eq, Structural)]
pub enum OpenMode {
    ReadOnly,
    ReadWrite,
}

/// The access rights an open in `mode` asks of the host: the matching attach
/// right, and always the right to query metadata.
pub open spec fn spec_access_flags(mode: OpenMode) -> u32 {
    match mode {
        OpenMode::ReadOnly => ACCESS_ATTACH_READ_ONLY | ACCESS_GET_INFO,
        OpenMode::ReadWrite => ACCESS_ATTACH_READ_WRITE | ACCESS_GET_INFO,
    }
}

/// The flag set an attach passes to the host: read-only exposure for a
/// read-only handle, permanent lifetime for a persistent mount.
pub open spec fn spec_attach_flags(mode: OpenMode, persistent: bool) -> u32 {
    (match mode {
        OpenMode::ReadOnly => ATTACH_READ_ONLY,
        OpenMode::ReadWrite => 0u32,
    }) | (if persistent {
        ATTACH_PERMANENT_LIFETIME
    } else {
        0u32
    })
}

/// A read-only handle never enables writing: the access rights of a
/// read-only open carry no write-enabling right, and its attach flag set
/// always carries the read-only flag.
pub proof fn lemma_read_only_never_enables_write(persistent: bool)
    ensures
        spec_access_flags(OpenMode::ReadOnly) & ACCESS_ATTACH_READ_WRITE == 0,
        spec_attach_flags(OpenMode::ReadOnly, persistent) & ATTACH_READ_ONLY != 0,
{
    assert((0x0001_0000u32 | 0x0008_0000u32) & 0x0002_0000u32 == 0) by (bit_vector);
    assert((0x1u32 | 0x4u32) & 0x1u32 != 0) by (bit_vector);
    assert((0x1u32 | 0x0u32) & 0x1u32 != 0) by (bit_vector);
}

/// The permanent-lifetime flag is carried exactly when a persistent mount
/// is asked, whatever the handle's mode.
pub proof fn lemma_persistence_flag(mode: OpenMode, persistent: bool)
    ensures
        (spec_attach_flags(mode, persistent) & ATTACH_PERMANENT_LIFETIME != 0) <==> persistent,
{
    assert((0x1u32 | 0x4u32) & 0x4u32 != 0) by (bit_vector);
    assert((0x0u32 | 0x4u32) & 0x4u32 != 0) by (bit_vector);
    assert((0x1u32 | 0x0u32) & 0x4u32 == 0) by (bit_vector);
    assert((0x0u32 | 0x0u32) & 0x4u32 == 0) by (bit_vector);
}

/// Every open for a later attach asks the metadata-query right, whatever
/// the mode.
pub proof fn lemma_access_includes_metadata_query(mode: OpenMode)
    ensures
        spec_access_flags(mode) & ACCESS_GET_INFO != 0,
{
    assert((0x0001_0000u32 | 0x0008_0000u32) & 0x0008_0000u32 != 0) by (bit_vector);
    assert((0x0002_0000u32 | 0x0008_0000u32) & 0x0008_0000u32 != 0) by (bit_vector);
}

impl OpenMode {
    /// The access rights to open a disk image with in this mode.
    pub fn access_flags(&self) -> (r: u32)
        ensures
            r == spec_access_flags(*self),
    {
        let base = match *self {
            OpenMode::ReadOnly => ACCESS_ATTACH_READ_ONLY,
            OpenMode::ReadWrite => ACCESS_ATTACH_READ_WRITE,
        };
        base | ACCESS_GET_INFO
    }
}

impl VhdType {
    /// The host's storage-type device identifier of this format.
    pub fn device_id(&self) -> (r: u32)
        ensures
            r == self.spec_device_id(),
    {
        match *self {
            VhdType::Vhd => STORAGE_DEVICE_VHD,
            VhdType::Vhdx => STORAGE_DEVICE_VHDX,
        }
    }

    /// See [`Self::device_id`].
    pub open spec fn spec_device_id(&self) -> u32 {
        match *self {
            VhdType::Vhd => STORAGE_DEVICE_VHD,
            VhdType::Vhdx => STORAGE_DEVICE_VHDX,
        }
    }
}

/// Everything the native open primitive needs, computed before the call:
/// the resolved format (naming the storage-type descriptor) and the access
/// rights, with the mode they were computed from.
#[derive(Debug, Clone, Copy, PartialEq, Eq, Structural)]
pub struct OpenRequest {
    pub kind: VhdType,
    pub mode: OpenMode,
    pub access_flags: u32,
}

/// The open request for a later attach: format from the forced kind or the
/// path's extension, access rights from the mode plus the metadata-query
/// right.
pub fn attach_open_request(path: &str, mode: OpenMode, force_type: Option<VhdType>) -> (r: Result<
    OpenRequest,
    Error,
>)
    ensures
        match resolved_kind(path@, force_type) {
            Some(k) => match r {
                Ok(q) => q.kind == k && q.mode == mode && q.access_flags == spec_access_flags(mode),
                Err(_) => false,
            },
            None => r == Err::<OpenRequest, Error>(Error::UnknownFileExtension),
        },
{
    let kind = resolve_vhd_type(path, force_type)?;
    Ok(OpenRequest { kind, mode, access_flags: mode.access_flags() })
}

/// The open request for a detach by path: the fresh handle is opened
/// read-only, with the detach right alone, the format taken from the
/// extension.
pub fn detach_open_request(path: &str) -> (r: Result<OpenRequest, Error>)
    ensures
        match resolved_kind(path@, None) {
            Some(k) => match r {
                Ok(q) => q.kind == k && q.mode == OpenMode::ReadOnly && q.access_flags
                    == ACCESS_DETACH,
                Err(_) => false,
            },
            None => r == Err::<OpenRequest, Error>(Error::UnknownFileExtension),
        },
{
    let kind = resolve_vhd_type(path, None)?;
    Ok(OpenRequest { kind, mode: OpenMode::ReadOnly, access_flags: ACCESS_DETACH })
}

/// An opened virtual-disk image: the raw handle the host returned, the mode
/// and format it was opened with, and whether the handle was released.
#[derive(Debug)]
pub struct Vhd {
    handle: usize,
    mode: OpenMode,
    kind: VhdType,
    released: bool,
}

impl Vhd {
    /// The raw handle value the host returned at open.
    pub closed spec fn spec_handle(&self) -> usize {
        self.handle
    }

    /// The mode the image was opened in.
    pub closed spec fn spec_mode(&self) -> OpenMode {
        self.mode
    }

    /// The format the image was opened as.
    pub closed spec fn spec_kind(&self) -> VhdType {
        self.kind
    }

    /// Whether the handle was released; once true it stays true, and no raw
    /// handle is handed out any more.
    pub closed spec fn spec_released(&self) -> bool {
        self.released
    }

    /// An unreleased handle always wraps a raw value the host could have
    /// returned: never the null or invalid sentinel.
    pub open spec fn wf(&self) -> bool {
        !self.spec_released() ==> valid_raw_handle(self.spec_handle())
    }

    /// The mode the image was opened in.
    pub fn mode(&self) -> (r: OpenMode)
        ensures
            r == self.spec_mode(),
    {
        self.mode
    }

    /// The format the image was opened as.
    pub fn kind(&self) -> (r: VhdType)
        ensures
            r == self.spec_kind(),
    {
        self.kind
    }

    /// Whether the handle was released.
    pub fn is_released(&self) -> (r: bool)
        ensures
            r == self.spec_released(),
    {
        self.released
    }

    /// The raw handle, for one native call; a released handle hands out
    /// nothing and rejects the call with the invalid-handle error instead.
    pub fn native_handle(&self) -> (r: Result<usize, Error>)
        ensures
            !self.spec_released() ==> r == Ok::<usize, Error>(self.spec_handle()),
            self.spec_released() ==> r == Err::<usize, Error>(Error::InvalidHandle),
    {
        if self.released {
            Err(Error::InvalidHandle)
        } else {
            Ok(self.handle)
        }
    }

    /// The attach flag set for this handle: read-only exposure when the
    /// handle is read-only, permanent lifetime when `persistent` is asked.
    pub fn attach_flags(&self, persistent: bool) -> (r: u32)
        ensures
            r == spec_attach_flags(self.spec_mode(), persistent),
    {
        let mut flags: u32 = match self.mode {
            OpenMode::ReadOnly => ATTACH_READ_ONLY,
            OpenMode::ReadWrite => 0,
        };
        flags = flags | (if persistent {
            ATTACH_PERMANENT_LIFETIME
        } else {
            0
        });
        flags
    }

    /// Release the handle: terminal and idempotent. The first close hands
    /// the raw handle back, to be released by the one native close call;
    /// any later close hands back nothing, so no native call is made twice.
    pub fn close(&mut self) -> (r: Option<usize>)
        ensures
            final(self).spec_released(),
            final(self).spec_handle() == old(self).spec_handle(),
            final(self).spec_mode() == old(self).spec_mode(),
            final(self).spec_kind() == old(self).spec_kind(),
            r == if old(self).spec_released() {
                Option::<usize>::None
            } else {
                Option::<usize>::Some(old(self).spec_handle())
            },
    {
        if self.released {
            None
        } else {
            self.released = true;
            Some(self.handle)
        }
    }
}

/// The outcome of the native open call: on success the host's raw handle is
/// wrapped, after rejecting a raw value no open resource can have; on
/// failure the status code is translated and no handle exists.
pub fn open_outcome(status: u32, raw_handle: usize, mode: OpenMode, kind: VhdType) -> (r: Result<
    Vhd,
    Error,
>)
    ensures
        status != STATUS_SUCCESS ==> r == Err::<Vhd, Error>(status_error(status)),
        status == STATUS_SUCCESS && valid_raw_handle(raw_handle) ==> match r {
            Ok(v) => v.spec_handle() == raw_handle && v.spec_mode() == mode && v.spec_kind() == kind
                && !v.spec_released() && v.wf(),
            Err(_) => false,
        },
        status == STATUS_SUCCESS && !valid_raw_handle(raw_handle) ==> r == Err::<Vhd, Error>(
            Error::InvalidHandle,
        ),
{
    if status != STATUS_SUCCESS {
        return Err(Error::from_code(status));
    }
    if raw_handle == 0 || raw_handle == INVALID_RAW_HANDLE {
        return Err(Error::InvalidHandle);
    }
    Ok(Vhd { handle: raw_handle, mode, kind, released: false })
}

/// The outcome of the native attach call, given the volume snapshots taken
/// around it: a failure status is translated; on success the first newly
/// visible volume letter is the result, and when none is visible the
/// detection failure is reported — never a host status.
pub fn attach_outcome(status: u32, before: &[char], after: &[char]) -> (r: Result<char, Error>)
    ensures
        status != STATUS_SUCCESS ==> r == Err::<char, Error>(status_error(status)),
        status == STATUS_SUCCESS ==> r == match first_new_letter(before@, after@) {
            Some(c) => Ok::<char, Error>(c),
            None => Err::<char, Error>(Error::MountDriveDetection),
        },
{
    if status != STATUS_SUCCESS {
        return Err(Error::from_code(status));
    }
    match get_new_drive_letter(before, after) {
        Some(c) => Ok(c),
        None => Err(Error::MountDriveDetection),
    }
}

/// The outcome of the native detach call: success, or the translated status.
/// A detach of a path that was never attached surfaces the host's status
/// (its "not ready" code translates to [`Error::NotReady`]), never a silent
/// success.
pub fn detach_outcome(status: u32) -> (r: Result<(), Error>)
    ensures
        status == STATUS_SUCCESS ==> r == Ok::<(), Error>(()),
        status != STATUS_SUCCESS ==> r == Err::<(), Error>(status_error(status)),
{
    if status == STATUS_SUCCESS {
        Ok(())
    } else {
        Err(Error::from_code(status))
    }
}

} // verus!
