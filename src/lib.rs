//! Typed multi-process shared-memory regions.
//!
//! Every operating-system call is described by a [`Call`] value that the
//! caller performs, handing back its [`Outcome`]. The decisions between calls
//! (create or attach, what to map and how, when to bind and populate) are
//! made here, by step machines whose contracts say which call comes next.
use vstd::prelude::*;

pub mod backend;
pub mod barrier;
pub mod call;
pub mod error;
pub mod numa;
pub mod raw;
pub mod region;
pub mod reservation;

pub use backend::Backend;
pub use barrier::Barrier;
pub use call::Call;
pub use call::Outcome;
pub use call::Step;
pub use error::Error;
pub use numa::Numa;
pub use raw::Raw;
pub use region::Shm;
pub use reservation::Reservation;

verus! {

pub type Result<T> = core::result::Result<T, Error>;

/// Size in bytes of one page, the rounding granularity of every size and
/// address in this crate.
pub const PAGE_SIZE: usize = 4096;

/// One page of memory.
pub struct Page {
    pub bytes: [u8; 4096],
}

impl Page {
    pub const SIZE: usize = 4096;
}

/// Whether and how pages are populated when a region is mapped.
#[derive(Clone, Copy, Debug, PartialEq, Eq, Structural)]
pub enum Populate {
    /// Prefault page-table entries at map time.
    PageTable,
    /// Force physical backing of writable pages after mapping.
    Physical,
}

/// `n` rounded up to the next multiple of the page size.
pub open spec fn page_rounded(n: int) -> int {
    if n % 4096 == 0 {
        n
    } else {
        n - n % 4096 + 4096
    }
}

/// Rounds `size` up to a multiple of the page size.
pub fn round_to_page(size: usize) -> (r: usize)
    requires
        size + 4095 <= usize::MAX,
    ensures
        r == page_rounded(size as int),
        r % 4096 == 0,
        size <= r < size + 4096,
{
    let rem = size % PAGE_SIZE;
    if rem == 0 {
        size
    } else {
        size - rem + PAGE_SIZE
    }
}

/// A copy of `bytes`.
pub(crate) fn copy_bytes(bytes: &[u8]) -> (r: Vec<u8>)
    ensures
        r@ == bytes@,
{
    let mut r: Vec<u8> = Vec::with_capacity(bytes.len());
    let mut i: usize = 0;
    while i < bytes.len()
        invariant
            i <= bytes@.len(),
            r@ == bytes@.subrange(0, i as int),
        decreases bytes@.len() - i,
    {
        r.push(bytes[i]);
        i = i + 1;
        assert(r@ =~= bytes@.subrange(0, i as int));
    }
    assert(r@ =~= bytes@);
    r
}

} // verus!
