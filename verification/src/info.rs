//! Results of the native metadata queries: the disk's geometry record and
//! its 128-bit identifier, with the outcome of each query call.

use vstd::prelude::*;
use crate::error::Error;
use crate::error::status_error;
use crate::vhd::STATUS_SUCCESS;

verus! {

/// The size record of a disk image, one field per native field.
#[derive(Debug, Clone, Copy, PartialEq, Eq, Structural)]
pub struct DiskInfo {
    pub virtual_size: u64,
    pub physical_size: u64,
    pub block_size: u32,
    pub sector_size: u32,
}

/// The 128-bit identifier of a disk image, held field by field exactly as
/// the host hands it out: a 32-bit field, two 16-bit fields, then 8 bytes.
#[derive(Debug, Clone, Copy, PartialEq, Eq)]
pub struct VhdIdentifier {
    pub data1: u32,
    pub data2: u16,
    pub data3: u16,
    pub data4: [u8; 8],
}

/// The identifier's canonical byte order: each of the first three fields
/// big-endian, then the 8 tail bytes as they stand.
pub open spec fn spec_identifier_bytes(d1: u32, d2: u16, d3: u16, d4: Seq<u8>) -> Seq<u8> {
    seq![
        (d1 >> 24) as u8,
        (d1 >> 16) as u8,
        (d1 >> 8) as u8,
        d1 as u8,
        (d2 >> 8) as u8,
        d2 as u8,
        (d3 >> 8) as u8,
        d3 as u8,
    ] + d4
}

impl VhdIdentifier {
    /// Build an identifier from its four fields, in the host's field order.
    pub fn from_fields(data1: u32, data2: u16, data3: u16, data4: &[u8; 8]) -> (r: VhdIdentifier)
        ensures
            r.data1 == data1,
            r.data2 == data2,
            r.data3 == data3,
            r.data4@ == data4@,
    {
        VhdIdentifier { data1, data2, data3, data4: *data4 }
    }

    /// The identifier's 16 bytes, field order preserved: the three leading
    /// fields big-endian, the 8 tail bytes unchanged.
    pub fn to_bytes(&self) -> (r: [u8; 16])
        ensures
            r@ == spec_identifier_bytes(self.data1, self.data2, self.data3, self.data4@),
    {
        let r: [u8; 16] = [
            (self.data1 >> 24) as u8,
            (self.data1 >> 16) as u8,
            (self.data1 >> 8) as u8,
            self.data1 as u8,
            (self.data2 >> 8) as u8,
            self.data2 as u8,
            (self.data3 >> 8) as u8,
            self.data3 as u8,
            self.data4[0],
            self.data4[1],
            self.data4[2],
            self.data4[3],
            self.data4[4],
            self.data4[5],
            self.data4[6],
            self.data4[7],
        ];
        assert(r@ =~= spec_identifier_bytes(self.data1, self.data2, self.data3, self.data4@));
        r
    }
}

/// The outcome of the native size query: on success the four native fields
/// carried over one to one, on failure the translated status.
pub fn size_outcome(
    status: u32,
    virtual_size: u64,
    physical_size: u64,
    block_size: u32,
    sector_size: u32,
) -> (r: Result<DiskInfo, Error>)
    ensures
        status == STATUS_SUCCESS ==> r == Ok::<DiskInfo, Error>(
            DiskInfo { virtual_size, physical_size, block_size, sector_size },
        ),
        status != STATUS_SUCCESS ==> r == Err::<DiskInfo, Error>(status_error(status)),
{
    if status != STATUS_SUCCESS {
        return Err(Error::from_code(status));
    }
    Ok(DiskInfo { virtual_size, physical_size, block_size, sector_size })
}

/// The outcome of the native identifier query: on success the native
/// 128-bit identifier carried over with its field order preserved, on
/// failure the translated status.
pub fn identifier_outcome(status: u32, data1: u32, data2: u16, data3: u16, data4: &[u8; 8]) -> (r:
    Result<VhdIdentifier, Error>)
    ensures
        status == STATUS_SUCCESS ==> match r {
            Ok(id) => id.data1 == data1 && id.data2 == data2 && id.data3 == data3 && id.data4@
                == data4@,
            Err(_) => false,
        },
        status != STATUS_SUCCESS ==> r == Err::<VhdIdentifier, Error>(status_error(status)),
{
    if status != STATUS_SUCCESS {
        return Err(Error::from_code(status));
    }
    Ok(VhdIdentifier::from_fields(data1, data2, data3, data4))
}

} // verus!
