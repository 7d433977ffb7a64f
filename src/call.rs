use vstd::prelude::*;

use crate::error::Error;
use crate::numa::Policy;

verus! {

/// What a call returned: its non-failing return value (a descriptor, an
/// address, or zero), or the error code it failed with.
pub type Outcome = core::result::Result<usize, i32>;

/// Access rights of a mapping.
#[derive(Clone, Copy, Debug, PartialEq, Eq, Structural)]
pub enum Protection {
    /// Readable and writable.
    ReadWrite,
    /// No access: an address-space placeholder.
    Reserved,
}

/// Mapping attributes.
#[derive(Clone, Copy, Debug, PartialEq, Eq, Structural)]
pub struct MapFlags {
    /// Shared and validated when true; private and anonymous when false.
    pub shared: bool,
    /// Placed exactly at the requested address.
    pub fixed: bool,
    /// Page-table entries prefaulted at map time.
    pub populate: bool,
}

/// An operating-system call to perform.
#[derive(Debug)]
pub enum Call {
    /// Opens the shared-memory object at `path` (NUL-terminated) for reading
    /// and writing; with `exclusive`, creates it and fails if it exists.
    ShmOpen { path: Vec<u8>, exclusive: bool },
    /// Removes the shared-memory object at `path` (NUL-terminated).
    ShmUnlink { path: Vec<u8> },
    /// Sets the size of the object behind `fd`.
    Ftruncate { fd: i32, length: usize },
    /// Maps `length` bytes of `fd` (anonymous when absent) from `offset`.
    Mmap {
        address: Option<usize>,
        length: usize,
        protection: Protection,
        flags: MapFlags,
        fd: Option<i32>,
        offset: i64,
    },
    /// Applies a placement policy to a mapped range.
    Mbind { address: usize, length: usize, policy: Policy, max_node: u64, flags: u32 },
    /// Makes a placement policy the calling thread's default.
    SetMempolicy { policy: Policy, max_node: u64 },
    /// Forces physical backing of the writable pages of a range.
    Madvise { address: usize, length: usize },
    /// Releases a mapping.
    Munmap { address: usize, length: usize },
    /// Initializes the barrier attributes.
    BarrierAttrInit,
    /// Makes the barrier attributes process-shared.
    BarrierAttrSetShared,
    /// Initializes the barrier at `address` for `count` participants.
    BarrierInit { address: usize, count: u32 },
    /// Destroys the barrier attributes.
    BarrierAttrDestroy,
    /// Waits at the barrier at `address`.
    BarrierWait { address: usize },
    /// Destroys the barrier at `address`.
    BarrierDestroy { address: usize },
}

/// Whether `c` is one of the calls that open, size, map, bind or populate a
/// named region.
pub open spec fn is_region_call(c: Call) -> bool {
    ||| c is ShmUnlink
    ||| c is ShmOpen
    ||| c is Ftruncate
    ||| c is Mmap
    ||| c is Mbind
    ||| c is Madvise
}

/// One step of a multi-call operation.
#[derive(Debug)]
pub enum Step<T> {
    /// Perform this call and hand back its outcome.
    Call(Call),
    /// The operation finished with this value.
    Done(T),
    /// The operation failed; nothing more is to be called.
    Failed(Error),
    /// A fixed-address mapping landed elsewhere: the address space is no
    /// longer what its bookkeeping says, and the process must not go on.
    Misplaced { expected: usize, actual: usize },
}

} // verus!
