use vstd::prelude::*;

use core::marker::PhantomData;

use crate::backend::shm::ShmUnlink;
use crate::numa::Numa;
use crate::page_rounded;
use crate::raw::Raw;
use crate::raw::RawOpen;
use crate::raw::RawPhase;
use crate::backend::shm::ShmPhase;
use crate::round_to_page;
use crate::Populate;

verus! {

/// A shared region sized to hold one `T`, rounded up to the page size.
///
/// `T` must hold no process-local addresses and mean the same to every
/// process that maps the region.
#[derive(Debug)]
pub struct Shm<T> {
    inner: Raw,
    shape: PhantomData<T>,
}

/// Size in bytes of the region that holds a `T`.
pub open spec fn region_size<T>() -> int {
    page_rounded(size_of::<T>() as int)
}

impl<T> Shm<T> {
    #[verifier::type_invariant]
    spec fn inv(&self) -> bool {
        self.inner.size == region_size::<T>()
    }

    /// The underlying mapping.
    pub closed spec fn raw(&self) -> Raw {
        self.inner
    }

    /// Size in bytes of the region that holds a `T`.
    pub fn size_for() -> (r: usize)
        requires
            size_of::<T>() + 4095 <= usize::MAX,
        ensures
            r == region_size::<T>(),
    {
        round_to_page(core::mem::size_of::<T>())
    }

    /// Starts opening the region `name`: see [`Raw::new`]; the size is the
    /// one that holds a `T`.
    pub fn new(name: &[u8], create: bool, numa: Option<Numa>, populate: Option<Populate>) -> (r:
        crate::Result<RawOpen>)
        requires
            0 < size_of::<T>(),
            size_of::<T>() + 4095 <= usize::MAX,
            numa matches Some(n) ==> n.wf(),
        ensures
            name@.len() <= 62 <==> r is Ok,
            r matches Err(e) ==> e is ShmName,
            r matches Ok(m) ==> m.name@ == name@ && m.path@ == crate::backend::shm::shm_path(name@)
                && m.size == region_size::<T>() && m.numa == numa
                && m.populate == populate && m.wf() && (create <==> m.phase is Unlinking) && (!create
                ==> (m.phase matches RawPhase::Opening(o) && o.phase == ShmPhase::Attach)),
    {
        let size = core::mem::size_of::<T>();
        Raw::new(name, size, create, numa, populate)
    }

    /// The region over a mapping of the size that holds a `T`.
    pub fn from_raw(inner: Raw) -> (r: Self)
        requires
            inner.size == region_size::<T>(),
        ensures
            r.raw() == inner,
    {
        Shm { inner, shape: PhantomData }
    }

    /// Base address of the `T`.
    pub fn address(&self) -> (r: usize)
        ensures
            r == self.raw().address,
    {
        self.inner.address()
    }

    /// Size of the mapping in bytes.
    pub fn size(&self) -> (r: usize)
        ensures
            r == self.raw().size,
            r == region_size::<T>(),
    {
        proof {
            use_type_invariant(self);
        }
        self.inner.size()
    }

    /// The underlying mapping.
    pub fn as_raw(&self) -> (r: &Raw)
        ensures
            *r == self.raw(),
    {
        &self.inner
    }

    /// Starts removing the region's name.
    pub fn unlink(&self) -> (r: ShmUnlink)
        requires
            self.raw().wf(),
        ensures
            r.path@ == crate::backend::shm::shm_path(self.raw().name@),
    {
        self.inner.unlink()
    }
}

} // verus!
