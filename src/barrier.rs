use vstd::prelude::*;

use crate::backend::shm::ShmUnlink;
use crate::call::is_region_call;
use crate::call::Call;
use crate::call::Outcome;
use crate::call::Step;
use crate::error::Error;
use crate::error::Op;
use crate::backend::shm::shm_path;
use crate::backend::shm::ShmPhase;
use crate::raw::Raw;
use crate::raw::RawOpen;
use crate::raw::RawPhase;
use crate::region::region_size;
use crate::region::Shm;

verus! {

/// Declares libc::pthread_barrier_t, the process-shared barrier object that
/// a [`Barrier`]'s region holds; nothing inside it is read here.
#[verifier::external_type_specification]
#[verifier::external_body]
pub struct ExPthreadBarrier(libc::pthread_barrier_t);

/// Relies on libc::PTHREAD_BARRIER_SERIAL_THREAD: the value, -1 on Linux,
/// that `pthread_barrier_wait` returns to exactly one of the waiters.
#[verifier::external_body]
fn serial_thread() -> (r: i32)
    ensures
        r == -1,
{
    libc::PTHREAD_BARRIER_SERIAL_THREAD
}

/// A process-shared rendezvous placed in a shared region.
#[derive(Debug)]
pub struct Barrier(pub Shm<libc::pthread_barrier_t>);

/// Where the creation or attachment of a [`Barrier`] stands.
#[derive(Debug)]
pub enum BarrierPhase {
    /// Opening the region.
    Opening(RawOpen),
    /// Waiting for the attributes to be initialized.
    AttrInit(Raw),
    /// Waiting for the attributes to be made process-shared.
    SetShared(Raw),
    /// Waiting for the barrier to be initialized.
    Init(Raw),
    /// Waiting for the attributes to be destroyed.
    AttrDestroy(Raw),
    /// Nothing more to do.
    Finished,
}

/// The creation or attachment of a [`Barrier`], one call at a time.
///
/// Only the creator initializes the barrier; an attaching process never
/// re-initializes a barrier that others may be waiting on.
#[derive(Debug)]
pub struct BarrierOpen {
    pub create: bool,
    pub thread_count: u32,
    pub phase: BarrierPhase,
}

/// Whether `phase` and `r` are what a barrier's open makes of the step that
/// its region's open `m` takes on `outcome`: the region's calls, failures and
/// misplacements pass through unchanged; once the region is mapped, a creator
/// goes on to initialize the barrier, and an attacher is done.
pub open spec fn follows_region(
    create: bool,
    m: RawOpen,
    outcome: Outcome,
    phase: BarrierPhase,
    r: Step<Barrier>,
) -> bool {
    exists|after: RawOpen, s: Step<Raw>|
        #![trigger RawOpen::advanced(m, outcome, after, s)]
        RawOpen::advanced(m, outcome, after, s) && match s {
            Step::Call(c) => r == Step::<Barrier>::Call(c) && phase == BarrierPhase::Opening(after),
            Step::Failed(e) => r == Step::<Barrier>::Failed(e) && phase is Finished,
            Step::Misplaced { expected, actual } => r == Step::<Barrier>::Misplaced { expected, actual }
                && phase is Finished,
            Step::Done(raw) => if create {
                phase == BarrierPhase::AttrInit(raw) && r == Step::<Barrier>::Call(Call::BarrierAttrInit)
            } else {
                phase is Finished && (r matches Step::Done(b) && b.0.raw() == raw)
            },
        }
}

impl BarrierOpen {
    pub open spec fn wf(&self) -> bool {
        match self.phase {
            BarrierPhase::Opening(m) => {
                &&& m.wf()
                &&& m.size == region_size::<libc::pthread_barrier_t>()
                &&& (m.phase matches RawPhase::Opening(o) ==> !(o.phase is Finished))
                &&& (m.phase matches RawPhase::Mapping(p) ==> !(p.phase is Finished))
            },
            BarrierPhase::AttrInit(r) => r.size == region_size::<libc::pthread_barrier_t>(),
            BarrierPhase::SetShared(r) => r.size == region_size::<libc::pthread_barrier_t>(),
            BarrierPhase::Init(r) => r.size == region_size::<libc::pthread_barrier_t>(),
            BarrierPhase::AttrDestroy(r) => r.size == region_size::<libc::pthread_barrier_t>(),
            BarrierPhase::Finished => true,
        }
    }

    /// The first call: that of the region's open.
    pub fn start(&self) -> (r: Call)
        requires
            self.phase matches BarrierPhase::Opening(m) && (m.phase is Unlinking || (
            m.phase matches RawPhase::Opening(o) && (o.phase is Exclusive || o.phase is Attach))),
        ensures
            self.phase matches BarrierPhase::Opening(m) && (m.phase is Unlinking ==> (
            r matches Call::ShmUnlink { path } && path@ == m.path@)),
            self.phase matches BarrierPhase::Opening(m) && (m.phase matches RawPhase::Opening(o) ==> (
            r matches Call::ShmOpen { path, exclusive } && path@ == o.path@ && exclusive == (
            o.phase is Exclusive))),
    {
        match &self.phase {
            BarrierPhase::Opening(m) => m.start(),
            _ => Call::BarrierAttrInit,
        }
    }

    /// Takes the outcome of the last call and says what comes next.
    pub fn advance(&mut self, outcome: Outcome) -> (r: Step<Barrier>)
        requires
            old(self).wf(),
            !(old(self).phase is Finished),
            old(self).phase matches BarrierPhase::Opening(m) ==> !(m.phase is Finished),
        ensures
            final(self).create == old(self).create,
            final(self).thread_count == old(self).thread_count,
            final(self).wf(),
            final(self).phase matches BarrierPhase::Opening(m) ==> !(m.phase is Finished),
            match (old(self).phase, outcome) {
                (BarrierPhase::AttrInit(raw), Ok(_)) => final(self).phase == BarrierPhase::SetShared(
                    raw,
                ) && r == Step::<Barrier>::Call(Call::BarrierAttrSetShared),
                (BarrierPhase::SetShared(raw), Ok(_)) => final(self).phase == BarrierPhase::Init(raw)
                    && r == Step::<Barrier>::Call(
                    Call::BarrierInit { address: raw.address, count: old(self).thread_count },
                ),
                (BarrierPhase::Init(raw), Ok(_)) => final(self).phase == BarrierPhase::AttrDestroy(
                    raw,
                ) && r == Step::<Barrier>::Call(Call::BarrierAttrDestroy),
                (BarrierPhase::AttrDestroy(raw), Ok(_)) => final(self).phase is Finished && (
                r matches Step::Done(b) && b.0.raw() == raw),
                (BarrierPhase::AttrInit(_), Err(e)) => final(self).phase is Finished && r
                    == Step::<Barrier>::Failed(Error::Libc { op: Op::PthreadBarrierattrInit, errno: e }),
                (BarrierPhase::SetShared(_), Err(e)) => final(self).phase is Finished && r
                    == Step::<Barrier>::Failed(
                    Error::Libc { op: Op::PthreadBarrierattrSetpshared, errno: e },
                ),
                (BarrierPhase::Init(_), Err(e)) => final(self).phase is Finished && r
                    == Step::<Barrier>::Failed(Error::Libc { op: Op::PthreadBarrierInit, errno: e }),
                (BarrierPhase::AttrDestroy(_), Err(e)) => final(self).phase is Finished && r
                    == Step::<Barrier>::Failed(
                    Error::Libc { op: Op::PthreadBarrierattrDestroy, errno: e },
                ),
                (BarrierPhase::Opening(m), _) => {
                    &&& follows_region(old(self).create, m, outcome, final(self).phase, r)
                    &&& (r matches Step::Call(c) ==> is_region_call(c) || (old(self).create
                        && c is BarrierAttrInit))
                },
                _ => true,
            },
    {
        let mut phase = BarrierPhase::Finished;
        core::mem::swap(&mut phase, &mut self.phase);
        match phase {
            BarrierPhase::Opening(mut m) => {
                let ghost before = m;
                let step = m.advance(outcome);
                let ghost after = m;
                let ghost s = step;
                assert(RawOpen::advanced(before, outcome, after, s));
                match step {
                    Step::Done(raw) => {
                        if self.create {
                            self.phase = BarrierPhase::AttrInit(raw);
                            Step::Call(Call::BarrierAttrInit)
                        } else {
                            Step::Done(Barrier(Shm::from_raw(raw)))
                        }
                    },
                    Step::Call(call) => {
                        self.phase = BarrierPhase::Opening(m);
                        Step::Call(call)
                    },
                    Step::Failed(e) => Step::Failed(e),
                    Step::Misplaced { expected, actual } => Step::Misplaced { expected, actual },
                }
            },
            BarrierPhase::AttrInit(raw) => match outcome {
                Ok(_) => {
                    self.phase = BarrierPhase::SetShared(raw);
                    Step::Call(Call::BarrierAttrSetShared)
                },
                Err(e) => Step::Failed(Error::Libc { op: Op::PthreadBarrierattrInit, errno: e }),
            },
            BarrierPhase::SetShared(raw) => match outcome {
                Ok(_) => {
                    let address = raw.address;
                    self.phase = BarrierPhase::Init(raw);
                    Step::Call(Call::BarrierInit { address, count: self.thread_count })
                },
                Err(e) => Step::Failed(
                    Error::Libc { op: Op::PthreadBarrierattrSetpshared, errno: e },
                ),
            },
            BarrierPhase::Init(raw) => match outcome {
                Ok(_) => {
                    self.phase = BarrierPhase::AttrDestroy(raw);
                    Step::Call(Call::BarrierAttrDestroy)
                },
                Err(e) => Step::Failed(Error::Libc { op: Op::PthreadBarrierInit, errno: e }),
            },
            BarrierPhase::AttrDestroy(raw) => match outcome {
                Ok(_) => Step::Done(Barrier(Shm::from_raw(raw))),
                Err(e) => Step::Failed(Error::Libc { op: Op::PthreadBarrierattrDestroy, errno: e }),
            },
            BarrierPhase::Finished => Step::Failed(Error::Libc { op: Op::PthreadBarrierInit, errno: 0 }),
        }
    }
}

impl Barrier {
    /// Starts creating (with `create`) or attaching to the barrier `name`
    /// for `thread_count` participants.
    pub fn new(name: &[u8], create: bool, thread_count: u32) -> (r: crate::Result<BarrierOpen>)
        requires
            0 < size_of::<libc::pthread_barrier_t>(),
            size_of::<libc::pthread_barrier_t>() + 4095 <= usize::MAX,
        ensures
            name@.len() <= 62 <==> r is Ok,
            r matches Err(e) ==> e is ShmName,
            r matches Ok(b) ==> b.create == create && b.thread_count == thread_count && b.wf() && (
            b.phase matches BarrierPhase::Opening(m) && m.name@ == name@ && m.path@ == shm_path(
                name@,
            ) && m.numa is None && m.populate is None && (create
                <==> m.phase is Unlinking) && (!create ==> (m.phase matches RawPhase::Opening(o)
                && o.phase == ShmPhase::Attach))),
    {
        let m = Shm::<libc::pthread_barrier_t>::new(name, create, None, None)?;
        Ok(BarrierOpen { create, thread_count, phase: BarrierPhase::Opening(m) })
    }

    /// The call that waits at the barrier.
    pub fn wait_call(&self) -> (r: Call)
        ensures
            r == (Call::BarrierWait { address: self.0.raw().address }),
    {
        Call::BarrierWait { address: self.0.address() }
    }

    /// The result of a wait at this barrier, from what its call returned: `true` for the one serial participant, `false`
    /// for the others.
    pub fn wait(&self, ret: i32) -> (r: crate::Result<bool>)
        ensures
            ret == -1 ==> r matches Ok(true),
            ret == 0 ==> r matches Ok(false),
            ret != -1 && ret != 0 ==> (r matches Err(Error::Libc { op, errno }) && op
                == Op::PthreadBarrierWait && errno == ret),
    {
        if ret == serial_thread() {
            Ok(true)
        } else if ret == 0 {
            Ok(false)
        } else {
            Err(Error::Libc { op: Op::PthreadBarrierWait, errno: ret })
        }
    }

    /// The call that destroys the barrier; legal only once every participant
    /// has made its last wait.
    pub fn destroy_call(&self) -> (r: Call)
        ensures
            r == (Call::BarrierDestroy { address: self.0.raw().address }),
    {
        Call::BarrierDestroy { address: self.0.address() }
    }

    /// After the barrier's destruction, the removal of its region's name.
    pub fn unlink(&self, outcome: Outcome) -> (r: crate::Result<ShmUnlink>)
        requires
            self.0.raw().wf(),
        ensures
            match outcome {
                Ok(_) => r matches Ok(u) && u.path@ == crate::backend::shm::shm_path(
                    self.0.raw().name@,
                ),
                Err(e) => r matches Err(Error::Libc { op, errno }) && op == Op::PthreadBarrierDestroy
                    && errno == e,
            },
    {
        match outcome {
            Ok(_) => Ok(self.0.unlink()),
            Err(e) => Err(Error::Libc { op: Op::PthreadBarrierDestroy, errno: e }),
        }
    }
}

} // verus!
