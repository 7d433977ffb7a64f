use vstd::prelude::*;

use crate::backend::File;
use crate::call::Outcome;
use crate::error::Error;
use crate::error::Op;
use crate::page_rounded;
use crate::round_to_page;

verus! {

/// Memory of a hardware device, allocated by name through the device's
/// control protocol.
#[derive(Clone, Copy, Debug)]
pub struct Ivshmem {
    /// Descriptor of the opened device node.
    pub device: i32,
}

/// The device node opened when no other path is given.
pub const DEVICE_PATH: &'static str = "/dev/cxl_ivpci0";

/// Driver identifier in every control word (the byte `f`).
pub const IOCTL_MAGIC: u8 = 102;

/// Function number of the find-or-allocate request.
pub const FIND_ALLOC: u8 = 8;

/// Function number of the free request.
pub const FREE: u8 = 7;

/// Payload size of the find-or-allocate request: offset, length, a 12-byte
/// name and the "existing" flag, padded to 8-byte alignment.
pub const FIND_ALLOC_SIZE: u16 = 40;

/// Payload size of the free request: offset, length and a 12-byte name,
/// padded to 8-byte alignment.
pub const FREE_SIZE: u16 = 32;

/// Length of the name field.
pub const NAME_FIELD_LEN: usize = 12;

/// Longest allocation name, leaving room for the terminator.
pub const MAX_ID_LEN: usize = 11;

/// Direction of data transfer of a control request.
#[derive(Clone, Copy, Debug, PartialEq, Eq, Structural)]
pub enum Dir {
    NoData,
    Write,
    Read,
    ReadWrite,
}

/// Two-bit code of a direction.
pub open spec fn dir_bits(dir: Dir) -> u32 {
    match dir {
        Dir::NoData => 0,
        Dir::Write => 1,
        Dir::Read => 2,
        Dir::ReadWrite => 3,
    }
}

/// The control word: function in bits 0..8, driver in 8..16, payload size in
/// 16..30, direction in 30..32.
pub open spec fn spec_ioctl(function: u8, driver: u8, size: u16, dir: Dir) -> u32 {
    (function as u32) | ((driver as u32) << 8u32) | ((size as u32) << 16u32) | (dir_bits(dir)
        << 30u32)
}

/// Packs a control word.
pub fn ioctl_request(function: u8, driver: u8, size: u16, dir: Dir) -> (r: u32)
    requires
        size < 16384,
    ensures
        r == spec_ioctl(function, driver, size, dir),
        r & 0xff == function,
        (r >> 8u32) & 0xff == driver,
        (r >> 16u32) & 0x3fff == size,
        r >> 30u32 == dir_bits(dir),
{
    let d: u32 = match dir {
        Dir::NoData => 0,
        Dir::Write => 1,
        Dir::Read => 2,
        Dir::ReadWrite => 3,
    };
    let f = function as u32;
    let m = driver as u32;
    let s = size as u32;
    let r = f | (m << 8u32) | (s << 16u32) | (d << 30u32);
    assert(r & 0xff == f && (r >> 8u32) & 0xff == m && (r >> 16u32) & 0x3fff == s && r >> 30u32 == d)
        by (bit_vector)
        requires
            r == f | (m << 8u32) | (s << 16u32) | (d << 30u32),
            f < 256,
            m < 256,
            s < 16384,
            d < 4,
    ;
    r
}

/// The name field for `id`: its bytes, then zeros up to the field's length.
pub open spec fn name_field(id: Seq<u8>) -> Seq<u8> {
    id + Seq::new((12 - id.len()) as nat, |i: int| 0u8)
}

/// Fills the fixed-size name field with `id`.
pub fn to_name_field(id: &[u8]) -> (r: Vec<u8>)
    requires
        id@.len() <= 11,
    ensures
        r@ == name_field(id@),
        r@.len() == 12,
{
    let mut r: Vec<u8> = Vec::with_capacity(NAME_FIELD_LEN);
    let mut i: usize = 0;
    while i < NAME_FIELD_LEN
        invariant
            i <= 12,
            r@.len() == i,
            forall|k: int| 0 <= k < i ==> #[trigger] r@[k] == name_field(id@)[k],
        decreases 12 - i,
    {
        if i < id.len() {
            r.push(id[i]);
        } else {
            r.push(0u8);
        }
        i = i + 1;
    }
    assert(r@ =~= name_field(id@));
    r
}

/// A find-or-allocate request: control word and payload fields to send.
#[derive(Debug)]
pub struct FindAlloc {
    pub request: u32,
    /// Offset field, sent as zero and filled in by the device.
    pub offset: u64,
    pub length: u64,
    pub name: Vec<u8>,
    /// "Existing" flag, sent as zero and filled in by the device.
    pub existing: i32,
}

/// A free request: control word and payload fields to send.
#[derive(Debug)]
pub struct Free {
    pub request: u32,
    pub offset: u64,
    pub length: u64,
    pub name: Vec<u8>,
}

/// What the device reports back for a find-or-allocate request.
#[derive(Clone, Copy, Debug, PartialEq, Eq, Structural)]
pub struct AllocReply {
    /// Byte offset of the region in the device's address space.
    pub offset: u64,
    /// Non-zero when a region of that name already existed.
    pub existing: i32,
}

/// The request that finds or allocates `length` bytes under `id`.
pub fn find_alloc_request(id: &[u8], length: u64) -> (r: crate::Result<FindAlloc>)
    ensures
        id@.len() <= 11 <==> r is Ok,
        r matches Err(e) ==> e is DeviceName,
        r matches Ok(f) ==> f.request == spec_ioctl(8, 102, 40, Dir::ReadWrite) && f.offset == 0 && f.existing == 0
            && f.length == length
            && f.name@ == name_field(id@),
{
    if id.len() > MAX_ID_LEN {
        return Err(Error::DeviceName);
    }
    let request = ioctl_request(FIND_ALLOC, IOCTL_MAGIC, FIND_ALLOC_SIZE, Dir::ReadWrite);
    Ok(FindAlloc { request, offset: 0, length, name: to_name_field(id), existing: 0 })
}

/// The request that frees the region of `length` bytes at `offset` under `id`.
pub fn free_request(id: &[u8], offset: u64, length: u64) -> (r: crate::Result<Free>)
    ensures
        id@.len() <= 11 <==> r is Ok,
        r matches Err(e) ==> e is DeviceName,
        r matches Ok(f) ==> f.request == spec_ioctl(7, 102, 32, Dir::Write) && f.offset == offset
            && f.length == length && f.name@ == name_field(id@),
{
    if id.len() > MAX_ID_LEN {
        return Err(Error::DeviceName);
    }
    let request = ioctl_request(FREE, IOCTL_MAGIC, FREE_SIZE, Dir::Write);
    Ok(Free { request, offset, length, name: to_name_field(id) })
}

impl Free {
    /// The result of the free request, from the outcome of its call.
    pub fn finish(&self, outcome: Outcome) -> (r: crate::Result<()>)
        ensures
            match outcome {
                Ok(_) => r is Ok,
                Err(e) => r matches Err(Error::Libc { op, errno }) && op == Op::Ioctl && errno == e,
            },
    {
        match outcome {
            Ok(_) => Ok(()),
            Err(e) => Err(Error::Libc { op: Op::Ioctl, errno: e }),
        }
    }
}

/// An allocation on the device, waiting for the device's reply.
#[derive(Debug)]
pub struct DeviceOpen {
    pub device: i32,
    pub size: usize,
    pub request: FindAlloc,
}

impl DeviceOpen {
    /// The backing store that the reply describes.
    pub fn finish(self, reply: core::result::Result<AllocReply, i32>) -> (r: crate::Result<File>)
        ensures
            match reply {
                Ok(a) => r == crate::Result::<File>::Ok(
                    File {
                        fd: Some(self.device),
                        size: self.size,
                        offset: a.offset as i64,
                        create: a.existing == 0,
                    },
                ),
                Err(e) => r matches Err(Error::Libc { op, errno }) && op == Op::Ioctl && errno == e,
            },
    {
        match reply {
            Ok(a) => Ok(
                File {
                    fd: Some(self.device),
                    size: self.size,
                    offset: a.offset as i64,
                    create: a.existing == 0,
                },
            ),
            Err(e) => Err(Error::Libc { op: Op::Ioctl, errno: e }),
        }
    }
}

impl Ivshmem {
    /// Human-readable name of the backend.
    pub fn name(&self) -> (r: &'static str)
        ensures
            r@ == "ivshmem"@,
    {
        "ivshmem"
    }

    /// Starts finding or allocating `size` bytes, rounded up to the page
    /// size, under `id`.
    pub fn open(&self, id: &[u8], size: usize) -> (r: crate::Result<DeviceOpen>)
        requires
            0 < size,
            size + 4095 <= usize::MAX,
        ensures
            id@.len() <= 11 <==> r is Ok,
            r matches Err(e) ==> e is DeviceName,
            r matches Ok(d) ==> d.device == self.device && d.size == page_rounded(size as int)
                && d.request.request == spec_ioctl(8, 102, 40, Dir::ReadWrite) && d.request.offset == 0
                && d.request.existing == 0 && d.request.length
                == d.size && d.request.name@ == name_field(id@),
    {
        let size = round_to_page(size);
        let request = find_alloc_request(id, size as u64)?;
        Ok(DeviceOpen { device: self.device, size, request })
    }

    /// Removing an allocation is not wired to the device's free request:
    /// nothing is done.
    pub fn unlink(&self, id: &[u8]) -> (r: crate::Result<()>)
        ensures
            r is Ok,
    {
        Ok(())
    }
}

} // verus!
