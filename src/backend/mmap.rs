use vstd::prelude::*;

use crate::backend::File;
use crate::page_rounded;
use crate::round_to_page;

verus! {

/// Anonymous private memory: no name, nothing to remove.
#[derive(Clone, Copy, Debug, Default)]
pub struct Mmap;

impl Mmap {
    /// Human-readable name of the backend.
    pub fn name(&self) -> (r: &'static str)
        ensures
            r@ == "mmap"@,
    {
        "mmap"
    }

    /// An anonymous backing store of `size` rounded up to the page size,
    /// always freshly created; `id` is ignored.
    pub fn open(&self, id: &[u8], size: usize) -> (r: File)
        requires
            0 < size,
            size + 4095 <= usize::MAX,
        ensures
            r == (File { fd: None, size: page_rounded(size as int) as usize, offset: 0, create: true }),
            r.wf(),
    {
        File { fd: None, size: round_to_page(size), offset: 0, create: true }
    }
}

} // verus!
