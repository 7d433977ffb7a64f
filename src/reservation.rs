use vstd::prelude::*;

use crate::call::Call;
use crate::call::MapFlags;
use crate::call::Outcome;
use crate::call::Protection;
use crate::error::Error;
use crate::error::Op;

verus! {

/// An unbacked, no-access range of `SIZE` bytes of address space, held for a
/// later fixed-address mapping. Released only by an explicit unmap.
#[derive(Debug)]
pub struct Reservation<const SIZE: usize> {
    address: usize,
}

impl<const SIZE: usize> Reservation<SIZE> {
    #[verifier::type_invariant]
    spec fn inv(&self) -> bool {
        self.address + SIZE <= usize::MAX
    }

    /// First address of the range.
    pub closed spec fn spec_start(&self) -> int {
        self.address as int
    }

    /// The call that claims `count` adjacent ranges at once, as one
    /// private, anonymous, no-access mapping at an address the kernel chooses.
    pub fn reserve_call(count: usize) -> (r: Call)
        requires
            SIZE * count <= usize::MAX,
        ensures
            r == (Call::Mmap {
                address: None,
                length: (SIZE * count) as usize,
                protection: Protection::Reserved,
                flags: MapFlags { shared: false, fixed: false, populate: false },
                fd: None,
                offset: 0,
            }),
    {
        Call::Mmap {
            address: None,
            length: SIZE * count,
            protection: Protection::Reserved,
            flags: MapFlags { shared: false, fixed: false, populate: false },
            fd: None,
            offset: 0,
        }
    }

    /// One reservation, from the outcome of `reserve_call(1)`.
    pub fn new(outcome: Outcome) -> (r: crate::Result<Self>)
        requires
            outcome matches Ok(a) ==> a + SIZE <= usize::MAX,
        ensures
            match outcome {
                Ok(a) => r matches Ok(s) && s.spec_start() == a,
                Err(e) => r matches Err(Error::Libc { op, errno }) && op == Op::Mmap && errno == e,
            },
    {
        match outcome {
            Ok(address) => Ok(Reservation { address }),
            Err(e) => Err(Error::Libc { op: Op::Mmap, errno: e }),
        }
    }

    /// `count` reservations in ascending address order, partitioning the one
    /// range of `count * SIZE` bytes that the outcome of `reserve_call(count)`
    /// gives.
    pub fn new_contiguous(count: usize, outcome: Outcome) -> (r: crate::Result<Vec<Self>>)
        requires
            outcome matches Ok(a) ==> a + SIZE * count <= usize::MAX,
        ensures
            match outcome {
                Ok(a) => r matches Ok(v) && v@.len() == count && forall|i: int|
                    0 <= i < count ==> #[trigger] v@[i].spec_start() == a + i * SIZE,
                Err(e) => r matches Err(Error::Libc { op, errno }) && op == Op::Mmap && errno == e,
            },
    {
        match outcome {
            Ok(base) => {
                let mut v: Vec<Self> = Vec::with_capacity(count);
                let mut address: usize = base;
                let mut i: usize = 0;
                while i < count
                    invariant
                        i <= count,
                        base + SIZE * count <= usize::MAX,
                        address == base + i * SIZE,
                        v@.len() == i,
                        forall|j: int| 0 <= j < i ==> #[trigger] v@[j].spec_start() == base + j * SIZE,
                    decreases count - i,
                {
                    assert((i + 1) * SIZE <= count * SIZE) by (nonlinear_arith)
                        requires
                            i < count,
                    ;
                    assert((i + 1) * SIZE == i * SIZE + SIZE) by (nonlinear_arith);
                    v.push(Reservation { address });
                    address = address + SIZE;
                    i = i + 1;
                }
                Ok(v)
            },
            Err(e) => Err(Error::Libc { op: Op::Mmap, errno: e }),
        }
    }

    /// First address of the range.
    pub fn start(&self) -> (r: usize)
        ensures
            r == self.spec_start(),
    {
        self.address
    }

    /// One past the last address of the range.
    pub fn end(&self) -> (r: usize)
        ensures
            r == self.spec_start() + SIZE,
    {
        proof {
            use_type_invariant(self);
        }
        self.address + SIZE
    }

    /// The call that releases the range.
    pub fn unmap_call(&self) -> (r: Call)
        ensures
            r == (Call::Munmap { address: self.spec_start() as usize, length: SIZE }),
    {
        Call::Munmap { address: self.address, length: SIZE }
    }

    /// The result of the release, from the outcome of its call.
    pub fn unmap(&self, outcome: Outcome) -> (r: crate::Result<()>)
        ensures
            match outcome {
                Ok(_) => r is Ok,
                Err(e) => r matches Err(Error::Libc { op, errno }) && op == Op::Munmap && errno == e,
            },
    {
        match outcome {
            Ok(_) => Ok(()),
            Err(e) => Err(Error::Libc { op: Op::Munmap, errno: e }),
        }
    }
}

/// Reservations made together are adjacent and ordered: each one ends where
/// the next begins, and each spans exactly `SIZE` bytes.
pub proof fn lemma_contiguous<const SIZE: usize>(base: int, rs: Seq<Reservation<SIZE>>, i: int)
    requires
        0 <= i,
        i + 1 < rs.len(),
        forall|j: int| 0 <= j < rs.len() ==> #[trigger] rs[j].spec_start() == base + j * SIZE,
    ensures
        rs[i].spec_start() + SIZE == rs[i + 1].spec_start(),
{
    assert(rs[i + 1].spec_start() == base + (i + 1) * SIZE);
    assert((i + 1) * SIZE == i * SIZE + SIZE) by (nonlinear_arith);
}

} // verus!
