use vstd::prelude::*;

pub mod ivshmem;
pub mod mmap;
pub mod shm;


pub use ivshmem::Ivshmem;
pub use mmap::Mmap;
pub use shm::Shm;

use crate::call::Call;
use crate::call::MapFlags;
use crate::call::Outcome;
use crate::call::Protection;
use crate::call::Step;
use crate::error::Error;
use crate::error::Op;
use crate::numa::Numa;
use crate::numa::MAX_NODE;
use crate::page_rounded;
use crate::Populate;
use ivshmem::name_field;
use ivshmem::spec_ioctl;
use ivshmem::DeviceOpen;
use ivshmem::Dir;
use shm::shm_path;
use shm::ShmOpen;
use shm::ShmPhase;
use shm::ShmUnlink;

verus! {

/// Where a region's pages come from.
///
/// The set of strategies is closed: anonymous memory, named shared memory,
/// and hardware device memory.
#[derive(Debug)]
pub enum Backend {
    Mmap(Mmap),
    Shm(Shm),
    Ivshmem(Ivshmem),
}

/// The open of a backing store: finished at once, or waiting on calls.
#[derive(Debug)]
pub enum Opening {
    /// The store is ready.
    Ready(File),
    /// A named shared-memory object is being opened.
    Shm(ShmOpen),
    /// A device allocation is waiting for the device's reply.
    Device(DeviceOpen),
}

impl Backend {
    /// Starts opening the backing store named `id`, of `size` bytes rounded
    /// up to the page size.
    pub fn open(&self, id: &[u8], size: usize) -> (r: crate::Result<Opening>)
        requires
            0 < size,
            size + 4095 <= usize::MAX,
        ensures
            match self {
                Backend::Mmap(_) => r matches Ok(Opening::Ready(f)) && f == (File {
                    fd: None,
                    size: page_rounded(size as int) as usize,
                    offset: 0,
                    create: true,
                }),
                Backend::Shm(_) => {
                    &&& (id@.len() <= 62 <==> r is Ok)
                    &&& (r matches Err(e) ==> e is ShmName)
                    &&& (r matches Ok(o) ==> (o matches Opening::Shm(m) && m.path@ == shm_path(id@)
                        && m.size == page_rounded(size as int) && m.phase == ShmPhase::Exclusive))
                },
                Backend::Ivshmem(d) => {
                    &&& (id@.len() <= 11 <==> r is Ok)
                    &&& (r matches Err(e) ==> e is DeviceName)
                    &&& (r matches Ok(o) ==> (o matches Opening::Device(x) && x.device == d.device
                        && x.size == page_rounded(size as int) && x.request.request == spec_ioctl(
                        8,
                        102,
                        40,
                        Dir::ReadWrite,
                    ) && x.request.length == x.size && x.request.name@ == name_field(id@)))
                },
            },
    {
        match self {
            Backend::Mmap(m) => Ok(Opening::Ready(m.open(id, size))),
            Backend::Shm(s) => {
                let o = s.open(id, size)?;
                Ok(Opening::Shm(o))
            },
            Backend::Ivshmem(d) => {
                let o = d.open(id, size)?;
                Ok(Opening::Device(o))
            },
        }
    }

    /// Human-readable name of the backend, for diagnostics.
    pub fn name(&self) -> (r: &'static str)
        ensures
            r@ == match self {
                Backend::Mmap(_) => "mmap"@,
                Backend::Shm(_) => "shm"@,
                Backend::Ivshmem(_) => "ivshmem"@,
            },
    {
        match self {
            Backend::Mmap(m) => m.name(),
            Backend::Shm(s) => s.name(),
            Backend::Ivshmem(d) => d.name(),
        }
    }

    /// Starts removing the name `id`; `None` when the backend keeps no
    /// name to remove.
    pub fn unlink(&self, id: &[u8]) -> (r: crate::Result<Option<ShmUnlink>>)
        ensures
            match self {
                Backend::Shm(_) => {
                    &&& (id@.len() <= 62 <==> r is Ok)
                    &&& (r matches Err(e) ==> e is ShmName)
                    &&& (r matches Ok(u) ==> (u matches Some(x) && x.path@ == shm_path(id@)))
                },
                _ => r matches Ok(None),
            },
    {
        match self {
            Backend::Shm(s) => {
                let u = s.unlink(id)?;
                Ok(Some(u))
            },
            Backend::Ivshmem(d) => {
                d.unlink(id)?;
                Ok(None)
            },
            Backend::Mmap(_) => Ok(None),
        }
    }
}

impl Default for Backend {
    fn default() -> (r: Self)
        ensures
            r is Mmap,
    {
        Backend::Mmap(Mmap)
    }
}

/// An open backing store, to be mapped.
///
/// Without a descriptor the mapping is private and anonymous; with one it is
/// shared and validated.
#[derive(Clone, Copy, Debug, PartialEq, Eq, Structural)]
pub struct File {
    pub fd: Option<i32>,
    pub size: usize,
    pub offset: i64,
    pub create: bool,
}

impl File {
    /// The size is a positive number of pages.
    pub open spec fn wf(&self) -> bool {
        self.size > 0 && self.size % 4096 == 0
    }

    /// Whether this store is newly created or already existed.
    pub fn is_create(&self) -> (r: bool)
        ensures
            r == self.create,
    {
        self.create
    }

    /// The mapping attributes that the store calls for.
    pub fn flags(&self) -> (r: MapFlags)
        ensures
            r == (MapFlags { shared: self.fd is Some, fixed: false, populate: false }),
    {
        MapFlags { shared: self.fd.is_some(), fixed: false, populate: false }
    }

    /// Starts mapping the store: at `address` when given (which the caller
    /// guarantees overlaps no existing mapping), else where the kernel
    /// chooses; then bound by `numa` and populated as `populate` asks.
    pub fn map(self, address: Option<usize>, numa: Option<Numa>, populate: Option<Populate>) -> (r:
        Mapping)
        requires
            numa matches Some(n) ==> n.wf(),
        ensures
            r.file == self,
            r.address == address,
            r.numa == numa,
            r.populate == populate,
            r.phase == MapPhase::Mapping,
            r.wf(),
    {
        Mapping { file: self, address, numa, populate, phase: MapPhase::Mapping }
    }
}

/// Where a mapping stands.
#[derive(Clone, Copy, Debug, PartialEq, Eq, Structural)]
pub enum MapPhase {
    /// Waiting for the mapping call.
    Mapping,
    /// Waiting for the placement policy to be applied to the range at `base`.
    Binding { base: usize },
    /// Waiting for the pages at `base` to be populated.
    Populating { base: usize },
    /// Nothing more to do.
    Finished,
}

/// The mapping of a backing store, one call at a time: map, then bind to the
/// placement policy (so that population honours it), then populate.
#[derive(Debug)]
pub struct Mapping {
    pub file: File,
    pub address: Option<usize>,
    pub numa: Option<Numa>,
    pub populate: Option<Populate>,
    pub phase: MapPhase,
}

impl Mapping {
    pub open spec fn wf(&self) -> bool {
        self.numa matches Some(n) ==> n.wf()
    }

    /// The mapping call.
    pub open spec fn mmap_call(&self) -> Call {
        Call::Mmap {
            address: self.address,
            length: self.file.size,
            protection: Protection::ReadWrite,
            flags: MapFlags {
                shared: self.file.fd is Some,
                fixed: self.address is Some,
                populate: self.populate == Some(Populate::PageTable),
            },
            fd: self.file.fd,
            offset: self.file.offset,
        }
    }

    /// Phase and step once the range at `base` is mapped and bound.
    pub open spec fn after_binding(&self, base: usize) -> (MapPhase, Step<usize>) {
        if self.populate == Some(Populate::Physical) {
            (
                MapPhase::Populating { base },
                Step::Call(Call::Madvise { address: base, length: self.file.size }),
            )
        } else {
            (MapPhase::Finished, Step::Done(base))
        }
    }

    /// Phase and step once the range at `base` is mapped.
    pub open spec fn after_mapping(&self, base: usize) -> (MapPhase, Step<usize>) {
        match self.numa {
            Some(n) => (
                MapPhase::Binding { base },
                Step::Call(
                    Call::Mbind {
                        address: base,
                        length: self.file.size,
                        policy: n.policy(),
                        max_node: MAX_NODE,
                        flags: 0,
                    },
                ),
            ),
            None => self.after_binding(base),
        }
    }

    /// Phase and step that follow `outcome`.
    pub open spec fn next(&self, outcome: Outcome) -> (MapPhase, Step<usize>) {
        match (self.phase, outcome) {
            (MapPhase::Mapping, Err(e)) => (
                MapPhase::Finished,
                Step::Failed(Error::Libc { op: Op::Mmap, errno: e }),
            ),
            (MapPhase::Mapping, Ok(actual)) => match self.address {
                Some(expected) if expected != actual => (
                    MapPhase::Finished,
                    Step::Misplaced { expected, actual },
                ),
                _ => self.after_mapping(actual),
            },
            (MapPhase::Binding { .. }, Err(e)) => (
                MapPhase::Finished,
                Step::Failed(Error::Libc { op: Op::Mbind, errno: e }),
            ),
            (MapPhase::Binding { base }, Ok(_)) => self.after_binding(base),
            (MapPhase::Populating { .. }, Err(e)) => (
                MapPhase::Finished,
                Step::Failed(Error::Libc { op: Op::Madvise, errno: e }),
            ),
            (MapPhase::Populating { base }, Ok(_)) => (MapPhase::Finished, Step::Done(base)),
            (MapPhase::Finished, _) => (
                MapPhase::Finished,
                Step::Failed(Error::Libc { op: Op::Mmap, errno: 0 }),
            ),
        }
    }

    /// The first call: the mapping itself.
    pub fn start(&self) -> (r: Call)
        ensures
            r == self.mmap_call(),
    {
        let mut flags = self.file.flags();
        flags.fixed = self.address.is_some();
        flags.populate = matches!(self.populate, Some(Populate::PageTable));
        Call::Mmap {
            address: self.address,
            length: self.file.size,
            protection: Protection::ReadWrite,
            flags,
            fd: self.file.fd,
            offset: self.file.offset,
        }
    }

    fn bound(&mut self, base: usize) -> (r: Step<usize>)
        ensures
            final(self).file == old(self).file,
            final(self).address == old(self).address,
            final(self).numa == old(self).numa,
            final(self).populate == old(self).populate,
            (final(self).phase, r) == old(self).after_binding(base),
    {
        if matches!(self.populate, Some(Populate::Physical)) {
            self.phase = MapPhase::Populating { base };
            Step::Call(Call::Madvise { address: base, length: self.file.size })
        } else {
            self.phase = MapPhase::Finished;
            Step::Done(base)
        }
    }

    /// Takes the outcome of the last call and says what comes next.
    pub fn advance(&mut self, outcome: Outcome) -> (r: Step<usize>)
        requires
            old(self).wf(),
            !(old(self).phase is Finished),
        ensures
            final(self).file == old(self).file,
            final(self).address == old(self).address,
            final(self).numa == old(self).numa,
            final(self).populate == old(self).populate,
            (final(self).phase, r) == old(self).next(outcome),
            final(self).wf(),
    {
        match self.phase {
            MapPhase::Mapping => match outcome {
                Err(e) => {
                    self.phase = MapPhase::Finished;
                    Step::Failed(Error::Libc { op: Op::Mmap, errno: e })
                },
                Ok(actual) => {
                    if let Some(expected) = self.address {
                        if expected != actual {
                            self.phase = MapPhase::Finished;
                            return Step::Misplaced { expected, actual };
                        }
                    }
                    match &self.numa {
                        Some(numa) => {
                            let call = numa.mbind(actual, self.file.size);
                            self.phase = MapPhase::Binding { base: actual };
                            Step::Call(call)
                        },
                        None => self.bound(actual),
                    }
                },
            },
            MapPhase::Binding { base } => match outcome {
                Err(e) => {
                    self.phase = MapPhase::Finished;
                    Step::Failed(Error::Libc { op: Op::Mbind, errno: e })
                },
                Ok(_) => self.bound(base),
            },
            MapPhase::Populating { base } => {
                self.phase = MapPhase::Finished;
                match outcome {
                    Err(e) => Step::Failed(Error::Libc { op: Op::Madvise, errno: e }),
                    Ok(_) => Step::Done(base),
                }
            },
            MapPhase::Finished => Step::Failed(Error::Libc { op: Op::Mmap, errno: 0 }),
        }
    }
}

} // verus!
