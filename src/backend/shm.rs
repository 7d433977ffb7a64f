use vstd::prelude::*;

use crate::backend::File;
use crate::call::Call;
use crate::call::Outcome;
use crate::call::Step;
use crate::error::already_exists_code;
use crate::error::not_found_code;
use crate::error::Error;
use crate::error::Op;
use crate::page_rounded;
use crate::round_to_page;

verus! {

/// Named POSIX shared memory.
#[derive(Clone, Copy, Debug)]
pub struct Shm;

/// The object path for `id`: a slash, the name, and a NUL terminator.
pub open spec fn shm_path(id: Seq<u8>) -> Seq<u8> {
    seq![47u8] + id + seq![0u8]
}

/// Where an open of a shared-memory object stands.
#[derive(Clone, Copy, Debug, PartialEq, Eq, Structural)]
pub enum ShmPhase {
    /// Waiting for the exclusive create.
    Exclusive,
    /// Waiting for the plain open of an existing object.
    Attach,
    /// Waiting for the freshly created object behind `fd` to be sized.
    Truncate { fd: i32 },
    /// Nothing more to do.
    Finished,
}

/// What a step of an open does, with the object path left implicit.
#[derive(Clone, Copy, Debug, PartialEq, Eq, Structural)]
pub enum ShmEvent {
    /// Open the object, exclusively creating it or not.
    Open { exclusive: bool },
    /// Size the object behind `fd`.
    Truncate { fd: i32, length: usize },
    /// The object is open.
    Opened(File),
    /// A call on the object path failed.
    PathFailed { op: Op, errno: i32 },
    /// A call failed.
    Failed { op: Op, errno: i32 },
}

/// Whether `step` is what `event` describes for the object at `path`.
pub open spec fn shows<T>(step: Step<T>, path: Seq<u8>, event: ShmEvent, done: spec_fn(File) -> T) -> bool {
    match event {
        ShmEvent::Open { exclusive } => step matches Step::Call(Call::ShmOpen { path: p, exclusive: x })
            && p@ == path && x == exclusive,
        ShmEvent::Truncate { fd, length } => step == Step::<T>::Call(Call::Ftruncate { fd, length }),
        ShmEvent::Opened(file) => step == Step::<T>::Done(done(file)),
        ShmEvent::PathFailed { op, errno } => step matches Step::Failed(Error::Shm { path: p, op: o, errno: e })
            && p@ == path && o == op && e == errno,
        ShmEvent::Failed { op, errno } => step == Step::<T>::Failed(Error::Libc { op, errno }),
    }
}

/// An open of a shared-memory object, one call at a time.
///
/// Creation is attempted exclusively; when the name already exists the
/// existing object is opened as it is. Only the process whose exclusive
/// create succeeded sizes the object, so an object that another process may
/// already be using is never resized.
#[derive(Debug)]
pub struct ShmOpen {
    pub path: Vec<u8>,
    pub size: usize,
    pub phase: ShmPhase,
}

impl ShmOpen {
    /// The phase that follows `outcome`.
    pub open spec fn next_phase(&self, outcome: Outcome) -> ShmPhase {
        match (self.phase, outcome) {
            (ShmPhase::Exclusive, Ok(v)) => ShmPhase::Truncate { fd: v as i32 },
            (ShmPhase::Exclusive, Err(e)) => if e == already_exists_code() {
                ShmPhase::Attach
            } else {
                ShmPhase::Finished
            },
            _ => ShmPhase::Finished,
        }
    }

    /// What follows `outcome`.
    pub open spec fn next_event(&self, outcome: Outcome) -> ShmEvent {
        match (self.phase, outcome) {
            (ShmPhase::Exclusive, Ok(v)) => ShmEvent::Truncate { fd: v as i32, length: self.size },
            (ShmPhase::Exclusive, Err(e)) => if e == already_exists_code() {
                ShmEvent::Open { exclusive: false }
            } else {
                ShmEvent::PathFailed { op: Op::ShmOpen, errno: e }
            },
            (ShmPhase::Attach, Ok(v)) => ShmEvent::Opened(
                File { fd: Some(v as i32), size: self.size, offset: 0, create: false },
            ),
            (ShmPhase::Attach, Err(e)) => ShmEvent::PathFailed { op: Op::ShmOpen, errno: e },
            (ShmPhase::Truncate { fd }, Ok(_)) => ShmEvent::Opened(
                File { fd: Some(fd), size: self.size, offset: 0, create: true },
            ),
            (ShmPhase::Truncate { .. }, Err(e)) => ShmEvent::Failed { op: Op::Ftruncate, errno: e },
            (ShmPhase::Finished, _) => ShmEvent::Failed { op: Op::ShmOpen, errno: 0 },
        }
    }

    /// The first call: an exclusive create, or, when attaching only, a plain open.
    pub fn start(&self) -> (r: Call)
        requires
            self.phase is Exclusive || self.phase is Attach,
        ensures
            r matches Call::ShmOpen { path, exclusive } && path@ == self.path@ && exclusive == (
            self.phase is Exclusive),
    {
        Call::ShmOpen { path: self.path.clone(), exclusive: matches!(self.phase, ShmPhase::Exclusive) }
    }

    /// Takes the outcome of the last call and says what comes next.
    pub fn advance(&mut self, outcome: Outcome) -> (r: Step<File>)
        requires
            !(old(self).phase is Finished),
        ensures
            final(self).path@ == old(self).path@,
            final(self).size == old(self).size,
            final(self).phase == old(self).next_phase(outcome),
            shows(r, old(self).path@, old(self).next_event(outcome), |f: File| f),
    {
        match self.phase {
            ShmPhase::Exclusive => match outcome {
                Ok(v) => {
                    let fd = v as i32;
                    self.phase = ShmPhase::Truncate { fd };
                    Step::Call(Call::Ftruncate { fd, length: self.size })
                },
                Err(e) => {
                    let failure = Error::Libc { op: Op::ShmOpen, errno: e };
                    if failure.is_already_exists() {
                        self.phase = ShmPhase::Attach;
                        Step::Call(Call::ShmOpen { path: self.path.clone(), exclusive: false })
                    } else {
                        self.phase = ShmPhase::Finished;
                        Step::Failed(failure.with_path(self.path.clone()))
                    }
                },
            },
            ShmPhase::Attach => {
                self.phase = ShmPhase::Finished;
                match outcome {
                    Ok(v) => Step::Done(
                        File { fd: Some(v as i32), size: self.size, offset: 0, create: false },
                    ),
                    Err(e) => Step::Failed(
                        Error::Libc { op: Op::ShmOpen, errno: e }.with_path(self.path.clone()),
                    ),
                }
            },
            ShmPhase::Truncate { fd } => {
                self.phase = ShmPhase::Finished;
                match outcome {
                    Ok(_) => Step::Done(File { fd: Some(fd), size: self.size, offset: 0, create: true }),
                    Err(e) => Step::Failed(Error::Libc { op: Op::Ftruncate, errno: e }),
                }
            },
            ShmPhase::Finished => Step::Failed(Error::Libc { op: Op::ShmOpen, errno: 0 }),
        }
    }
}

/// Of processes racing to create the same object, only the one whose
/// exclusive create succeeded sizes it, and it sizes it to the page-rounded
/// size it asked for; one that finds the name taken opens the object as it
/// is, never resizes it, and reports it as not created.
pub proof fn lemma_only_creator_resizes(m: ShmOpen, first: Outcome, second: Outcome)
    requires
        m.phase == ShmPhase::Exclusive,
    ensures
        m.next_event(first) is Truncate ==> first is Ok,
        first matches Ok(fd) ==> m.next_event(first) == (ShmEvent::Truncate {
            fd: fd as i32,
            length: m.size,
        }),
        first matches Ok(fd) ==> ({
            let winner = ShmOpen { path: m.path, size: m.size, phase: m.next_phase(first) };
            second is Ok ==> winner.next_event(second) == ShmEvent::Opened(
                File { fd: Some(fd as i32), size: m.size, offset: 0, create: true },
            )
        }),
        first == Outcome::Err(already_exists_code()) ==> ({
            let loser = ShmOpen { path: m.path, size: m.size, phase: m.next_phase(first) };
            &&& m.next_event(first) == ShmEvent::Open { exclusive: false }
            &&& !(loser.next_event(second) is Truncate)
            &&& second matches Ok(fd) ==> loser.next_event(second) == ShmEvent::Opened(
                File { fd: Some(fd as i32), size: m.size, offset: 0, create: false },
            )
            &&& loser.next_phase(second) is Finished
        }),
{
}

/// A removal of a shared-memory object's name.
#[derive(Debug)]
pub struct ShmUnlink {
    pub path: Vec<u8>,
}

impl ShmUnlink {
    /// The call that removes the name.
    pub fn call(&self) -> (r: Call)
        ensures
            r matches Call::ShmUnlink { path } && path@ == self.path@,
    {
        Call::ShmUnlink { path: self.path.clone() }
    }

    /// The result of the removal, from the outcome of its call.
    pub fn finish(&self, outcome: Outcome) -> (r: crate::Result<()>)
        ensures
            match outcome {
                Ok(_) => r is Ok,
                Err(e) => r matches Err(Error::Shm { path, op, errno }) && path@ == self.path@
                    && op == Op::ShmUnlink && errno == e,
            },
    {
        match outcome {
            Ok(_) => Ok(()),
            Err(e) => Err(Error::Libc { op: Op::ShmUnlink, errno: e }.with_path(self.path.clone())),
        }
    }
}

impl ShmUnlink {
    /// The result of a removal for which a name that is already gone is no
    /// failure.
    pub fn finish_idempotent(&self, outcome: Outcome) -> (r: crate::Result<()>)
        ensures
            match outcome {
                Ok(_) => r is Ok,
                Err(e) => if e == not_found_code() {
                    r is Ok
                } else {
                    r matches Err(Error::Shm { path, op, errno }) && path@ == self.path@ && op
                        == Op::ShmUnlink && errno == e
                },
            },
    {
        let r = self.finish(outcome);
        match r {
            Err(e) => if e.is_not_found() {
                Ok(())
            } else {
                Err(e)
            },
            Ok(()) => Ok(()),
        }
    }
}

impl Shm {
    /// Longest name, in bytes, that the backend takes.
    pub const MAX_LEN: usize = 62;

    /// Human-readable name of the backend.
    pub fn name(&self) -> (r: &'static str)
        ensures
            r@ == "shm"@,
    {
        "shm"
    }

    /// The object path for `id`, or `ShmName` when `id` is too long.
    pub fn with_path(id: &[u8]) -> (r: crate::Result<Vec<u8>>)
        ensures
            id@.len() <= 62 <==> r is Ok,
            r matches Ok(path) ==> path@ == shm_path(id@),
            r matches Err(e) ==> e is ShmName,
    {
        if id.len() > Self::MAX_LEN {
            return Err(Error::ShmName);
        }
        let mut path: Vec<u8> = Vec::with_capacity(id.len() + 2);
        path.push(47u8);
        let mut i: usize = 0;
        while i < id.len()
            invariant
                i <= id@.len(),
                path@ == seq![47u8] + id@.subrange(0, i as int),
            decreases id@.len() - i,
        {
            path.push(id[i]);
            i = i + 1;
            assert(path@ =~= seq![47u8] + id@.subrange(0, i as int));
        }
        path.push(0u8);
        assert(path@ =~= shm_path(id@));
        Ok(path)
    }

    /// Starts opening the object named `id`, created with `size` rounded up
    /// to the page size if it does not exist yet.
    pub fn open(&self, id: &[u8], size: usize) -> (r: crate::Result<ShmOpen>)
        requires
            0 < size,
            size + 4095 <= usize::MAX,
        ensures
            id@.len() <= 62 <==> r is Ok,
            r matches Err(e) ==> e is ShmName,
            r matches Ok(m) ==> m.path@ == shm_path(id@) && m.size == page_rounded(size as int)
                && m.phase == ShmPhase::Exclusive,
    {
        let path = Self::with_path(id)?;
        let size = round_to_page(size);
        Ok(ShmOpen { path, size, phase: ShmPhase::Exclusive })
    }

    /// Starts removing the name `id`.
    pub fn unlink(&self, id: &[u8]) -> (r: crate::Result<ShmUnlink>)
        ensures
            id@.len() <= 62 <==> r is Ok,
            r matches Err(e) ==> e is ShmName,
            r matches Ok(u) ==> u.path@ == shm_path(id@),
    {
        let path = Self::with_path(id)?;
        Ok(ShmUnlink { path })
    }
}

} // verus!
