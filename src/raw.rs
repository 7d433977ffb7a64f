use vstd::prelude::*;

use crate::backend::shm::shm_path;
use crate::backend::shm::shows;
use crate::backend::shm::ShmEvent;
use crate::backend::shm::ShmOpen;
use crate::backend::shm::ShmPhase;
use crate::backend::shm::ShmUnlink;
use crate::backend::File;
use crate::backend::MapPhase;
use crate::backend::Mapping;
use crate::backend::Shm as ShmBackend;
use crate::call::is_region_call;
use crate::call::Call;
use crate::call::Outcome;
use crate::call::Step;
use crate::error::already_exists_code;
use crate::error::not_found_code;
use crate::error::Error;
use crate::error::Op;
use crate::numa::Numa;
use crate::copy_bytes;
use crate::page_rounded;
use crate::round_to_page;
use crate::Populate;

verus! {

/// A mapped, named shared-memory object.
///
/// The mapping is owned exclusively and released once, by the [`Call::Munmap`]
/// of [`Raw::unmap_call`]; removing the name is a separate step.
#[derive(Debug)]
pub struct Raw {
    pub name: Vec<u8>,
    pub size: usize,
    pub address: usize,
}

impl Raw {
    /// The name fits the backend and the size is a positive number of pages.
    pub open spec fn wf(&self) -> bool {
        self.name@.len() <= 62 && self.size > 0 && self.size % 4096 == 0
    }

    /// Starts opening the object `name` and mapping `size` bytes of it,
    /// rounded up to the page size, at an address the kernel chooses.
    ///
    /// With `create`, a stale object left under `name` is first removed, then
    /// the object is created or, if another process won the race, attached.
    /// Without it, an existing object is attached and nothing is created.
    pub fn new(name: &[u8], size: usize, create: bool, numa: Option<Numa>, populate: Option<
        Populate,
    >) -> (r: crate::Result<RawOpen>)
        requires
            0 < size,
            size + 4095 <= usize::MAX,
            numa matches Some(n) ==> n.wf(),
        ensures
            name@.len() <= 62 <==> r is Ok,
            r matches Err(e) ==> e is ShmName,
            r matches Ok(m) ==> {
                &&& m.name@ == name@
                &&& m.path@ == shm_path(name@)
                &&& m.size == page_rounded(size as int)
                &&& m.numa == numa
                &&& m.populate == populate
                &&& !m.stale_unlinked
                &&& m.wf()
                &&& if create {
                    m.phase is Unlinking
                } else {
                    m.phase matches RawPhase::Opening(o) && o.path@ == m.path@ && o.size == m.size
                        && o.phase == ShmPhase::Attach
                }
            },
    {
        let path = ShmBackend::with_path(name)?;
        let size = round_to_page(size);
        let phase = if create {
            RawPhase::Unlinking
        } else {
            RawPhase::Opening(ShmOpen { path: path.clone(), size, phase: ShmPhase::Attach })
        };
        Ok(RawOpen { name: copy_bytes(name), path, size, numa, populate, phase, stale_unlinked: false })
    }

    /// Base address of the mapping.
    pub fn address(&self) -> (r: usize)
        ensures
            r == self.address,
    {
        self.address
    }

    /// Size of the mapping in bytes.
    pub fn size(&self) -> (r: usize)
        ensures
            r == self.size,
    {
        self.size
    }

    /// Starts removing the name; see [`ShmUnlink::finish_idempotent`] for a
    /// removal that succeeds when the name is already gone.
    pub fn unlink(&self) -> (r: ShmUnlink)
        requires
            self.wf(),
        ensures
            r.path@ == shm_path(self.name@),
    {
        match ShmBackend::with_path(self.name.as_slice()) {
            Ok(path) => ShmUnlink { path },
            Err(_) => ShmUnlink { path: Vec::new() },
        }
    }

    /// The call that releases the mapping.
    pub fn unmap_call(&self) -> (r: Call)
        ensures
            r == (Call::Munmap { address: self.address, length: self.size }),
    {
        Call::Munmap { address: self.address, length: self.size }
    }
}

/// Where an open of a [`Raw`] stands.
#[derive(Debug)]
pub enum RawPhase {
    /// Waiting for the removal of a stale object.
    Unlinking,
    /// Opening the object.
    Opening(ShmOpen),
    /// Mapping the object.
    Mapping(Mapping),
    /// Nothing more to do.
    Finished,
}

/// The open of a [`Raw`], one call at a time.
#[derive(Debug)]
pub struct RawOpen {
    pub name: Vec<u8>,
    pub path: Vec<u8>,
    pub size: usize,
    pub numa: Option<Numa>,
    pub populate: Option<Populate>,
    pub phase: RawPhase,
    /// Whether a stale object was found and removed.
    pub stale_unlinked: bool,
}

impl RawOpen {
    pub open spec fn wf(&self) -> bool {
        &&& self.name@.len() <= 62
        &&& self.size > 0
        &&& self.size % 4096 == 0
        &&& (self.numa matches Some(n) ==> n.wf())
        &&& match self.phase {
            RawPhase::Opening(o) => o.path@ == self.path@ && o.size == self.size,
            RawPhase::Mapping(m) => m.wf() && m.file.size == self.size && m.address is None,
            _ => true,
        }
    }

    /// What one step does: `after` and `r` are the machine and the step that
    /// follow `before` on `outcome`.
    pub open spec fn advanced(before: RawOpen, outcome: Outcome, after: RawOpen, r: Step<Raw>) -> bool {
        &&& after.name@ == before.name@
        &&& after.path@ == before.path@
        &&& after.size == before.size
        &&& after.populate == before.populate
        &&& after.wf()
        &&& after.phase matches RawPhase::Opening(o) ==> !(o.phase is Finished)
        &&& after.phase matches RawPhase::Mapping(m) ==> !(m.phase is Finished)
        &&& r matches Step::Call(c) ==> is_region_call(c)
        &&& match before.phase {
                RawPhase::Unlinking => match outcome {
                    Err(e) if e != not_found_code() => after.phase is Finished && shows(
                        r,
                        before.path@,
                        ShmEvent::PathFailed { op: Op::ShmUnlink, errno: e },
                        |f: File| arbitrary(),
                    ),
                    _ => {
                        &&& after.stale_unlinked == (outcome is Ok)
                        &&& after.numa == before.numa
                        &&& after.phase matches RawPhase::Opening(o) && o.phase
                            == ShmPhase::Exclusive
                        &&& shows(
                            r,
                            before.path@,
                            ShmEvent::Open { exclusive: true },
                            |f: File| arbitrary(),
                        )
                    },
                },
                RawPhase::Opening(o) => match o.next_event(outcome) {
                    ShmEvent::Opened(file) => after.phase matches RawPhase::Mapping(m) && m.file
                        == file && m.address is None && m.numa == before.numa && m.populate
                        == before.populate && m.phase == MapPhase::Mapping && r == Step::<
                        Raw,
                    >::Call(m.mmap_call()),
                    event => {
                        &&& after.numa == before.numa
                        &&& shows(r, o.path@, event, |f: File| arbitrary())
                        &&& if o.next_phase(outcome) is Finished {
                            after.phase is Finished
                        } else {
                            after.phase matches RawPhase::Opening(o2) && o2.phase
                                == o.next_phase(outcome)
                        }
                    },
                },
                RawPhase::Mapping(m) => match m.next(outcome) {
                    (_, Step::Done(address)) => after.phase is Finished && (r matches Step::Done(
                        raw,
                    ) && raw.name@ == before.name@ && raw.size == m.file.size && raw.address
                        == address && raw.wf()),
                    (MapPhase::Finished, step) => after.phase is Finished && match step {
                        Step::Failed(e) => r == Step::<Raw>::Failed(e),
                        _ => r is Misplaced,
                    },
                    (phase, step) => (after.phase matches RawPhase::Mapping(m2) && m2.phase
                        == phase && m2.file == m.file && m2.numa == m.numa && m2.populate
                        == m.populate) && (step matches Step::Call(c) && r == Step::<Raw>::Call(c)),
                },
                RawPhase::Finished => true
            }
    }

    /// The first call: the removal of a stale object, or the open.
    pub fn start(&self) -> (r: Call)
        requires
            self.phase is Unlinking || (self.phase matches RawPhase::Opening(o) && (o.phase is Exclusive
                || o.phase is Attach)),
        ensures
            self.phase is Unlinking ==> (r matches Call::ShmUnlink { path } && path@ == self.path@),
            self.phase matches RawPhase::Opening(o) ==> (r matches Call::ShmOpen { path, exclusive }
                && path@ == o.path@ && exclusive == (o.phase is Exclusive)),
    {
        match &self.phase {
            RawPhase::Opening(o) => o.start(),
            _ => Call::ShmUnlink { path: self.path.clone() },
        }
    }

    /// Takes the outcome of the last call and says what comes next.
    pub fn advance(&mut self, outcome: Outcome) -> (r: Step<Raw>)
        requires
            old(self).wf(),
            !(old(self).phase is Finished),
            old(self).phase matches RawPhase::Opening(o) ==> !(o.phase is Finished),
            old(self).phase matches RawPhase::Mapping(m) ==> !(m.phase is Finished),
        ensures
            RawOpen::advanced(*old(self), outcome, *final(self), r),
    {
        let mut phase = RawPhase::Finished;
        core::mem::swap(&mut phase, &mut self.phase);
        match phase {
            RawPhase::Unlinking => {
                let gone = match outcome {
                    Ok(_) => true,
                    Err(e) => Error::Libc { op: Op::ShmUnlink, errno: e }.is_not_found(),
                };
                match outcome {
                    Err(e) if !gone => {
                        Step::Failed(
                            Error::Libc { op: Op::ShmUnlink, errno: e }.with_path(self.path.clone()),
                        )
                    },
                    _ => {
                        self.stale_unlinked = outcome.is_ok();
                        let opening = ShmOpen {
                            path: self.path.clone(),
                            size: self.size,
                            phase: ShmPhase::Exclusive,
                        };
                        let call = opening.start();
                        self.phase = RawPhase::Opening(opening);
                        Step::Call(call)
                    },
                }
            },
            RawPhase::Opening(mut opening) => {
                let step = opening.advance(outcome);
                match step {
                    Step::Call(call) => {
                        self.phase = RawPhase::Opening(opening);
                        Step::Call(call)
                    },
                    Step::Done(file) => {
                        let numa = self.numa.take();
                        let mapping = file.map(None, numa, self.populate);
                        let call = mapping.start();
                        self.phase = RawPhase::Mapping(mapping);
                        Step::Call(call)
                    },
                    Step::Failed(e) => Step::Failed(e),
                    Step::Misplaced { expected, actual } => Step::Misplaced { expected, actual },
                }
            },
            RawPhase::Mapping(mut mapping) => {
                let step = mapping.advance(outcome);
                match step {
                    Step::Call(call) => {
                        self.phase = RawPhase::Mapping(mapping);
                        Step::Call(call)
                    },
                    Step::Done(address) => Step::Done(
                        Raw { name: self.name.clone(), size: mapping.file.size, address },
                    ),
                    Step::Failed(e) => Step::Failed(e),
                    Step::Misplaced { expected, actual } => Step::Misplaced { expected, actual },
                }
            },
            RawPhase::Finished => Step::Failed(Error::Libc { op: Op::ShmOpen, errno: 0 }),
        }
    }
}

/// Of processes racing to create the same region, the one whose exclusive
/// create succeeds sizes the object to the page-rounded size and maps it as
/// created; one that finds the name taken opens the existing object without
/// resizing it and maps it as attached. Both map the same size.
pub proof fn lemma_racing_creators(
    m: RawOpen,
    first: Outcome,
    after: RawOpen,
    r: Step<Raw>,
    second: Outcome,
    last: RawOpen,
    r2: Step<Raw>,
)
    requires
        m.wf(),
        m.phase matches RawPhase::Opening(o) && o.phase == ShmPhase::Exclusive,
        RawOpen::advanced(m, first, after, r),
        RawOpen::advanced(after, second, last, r2),
        second is Ok,
    ensures
        first matches Ok(fd) ==> r == Step::<Raw>::Call(
            Call::Ftruncate { fd: fd as i32, length: m.size },
        ) && (last.phase matches RawPhase::Mapping(p) && p.file.create && p.file.size == m.size
            && p.file.fd == Some(fd as i32)),
        first == Outcome::Err(already_exists_code()) ==> (r matches Step::Call(
            Call::ShmOpen { exclusive, .. },
        ) && !exclusive) && !(r2 matches Step::Call(Call::Ftruncate { .. })) && (
        last.phase matches RawPhase::Mapping(p) && !p.file.create && p.file.size == m.size),
{
}

} // verus!
