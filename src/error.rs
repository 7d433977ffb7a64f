use vstd::prelude::*;

verus! {

/// Relies on libc::ENOENT: the Linux error code for a name that does not exist.
#[verifier::external_body]
fn enoent() -> (r: i32)
    ensures
        r == 2,
{
    libc::ENOENT
}

/// Relies on libc::EEXIST: the Linux error code for a name that already exists.
#[verifier::external_body]
fn eexist() -> (r: i32)
    ensures
        r == 17,
{
    libc::EEXIST
}

/// Error code of "no such file or directory".
pub open spec fn not_found_code() -> i32 {
    2
}

/// Error code of "file exists".
pub open spec fn already_exists_code() -> i32 {
    17
}

/// The operating-system operation that failed.
#[derive(Clone, Copy, Debug, PartialEq, Eq, Structural)]
pub enum Op {
    ShmOpen,
    ShmUnlink,
    Ftruncate,
    Mmap,
    Munmap,
    Madvise,
    Mbind,
    SetMempolicy,
    Ioctl,
    PthreadBarrierattrInit,
    PthreadBarrierattrSetpshared,
    PthreadBarrierattrDestroy,
    PthreadBarrierInit,
    PthreadBarrierWait,
    PthreadBarrierDestroy,
}

impl Op {
    /// The name of the system or library call.
    pub open spec fn spec_name(self) -> Seq<char> {
        match self {
            Op::ShmOpen => "shm_open"@,
            Op::ShmUnlink => "shm_unlink"@,
            Op::Ftruncate => "ftruncate64"@,
            Op::Mmap => "mmap64"@,
            Op::Munmap => "munmap"@,
            Op::Madvise => "madvise"@,
            Op::Mbind => "mbind"@,
            Op::SetMempolicy => "set_mempolicy"@,
            Op::Ioctl => "ioctl"@,
            Op::PthreadBarrierattrInit => "pthread_barrierattr_init"@,
            Op::PthreadBarrierattrSetpshared => "pthread_barrierattr_setpshared"@,
            Op::PthreadBarrierattrDestroy => "pthread_barrierattr_destroy"@,
            Op::PthreadBarrierInit => "pthread_barrier_init"@,
            Op::PthreadBarrierWait => "pthread_barrier_wait"@,
            Op::PthreadBarrierDestroy => "pthread_barrier_destroy"@,
        }
    }

    /// The name of the system or library call.
    pub fn name(&self) -> (r: &'static str)
        ensures
            r@ == self.spec_name(),
    {
        match self {
            Op::ShmOpen => "shm_open",
            Op::ShmUnlink => "shm_unlink",
            Op::Ftruncate => "ftruncate64",
            Op::Mmap => "mmap64",
            Op::Munmap => "munmap",
            Op::Madvise => "madvise",
            Op::Mbind => "mbind",
            Op::SetMempolicy => "set_mempolicy",
            Op::Ioctl => "ioctl",
            Op::PthreadBarrierattrInit => "pthread_barrierattr_init",
            Op::PthreadBarrierattrSetpshared => "pthread_barrierattr_setpshared",
            Op::PthreadBarrierattrDestroy => "pthread_barrierattr_destroy",
            Op::PthreadBarrierInit => "pthread_barrier_init",
            Op::PthreadBarrierWait => "pthread_barrier_wait",
            Op::PthreadBarrierDestroy => "pthread_barrier_destroy",
        }
    }
}

/// What can go wrong.
#[derive(Debug)]
pub enum Error {
    /// A shared-memory name longer than the backend's limit.
    ShmName,
    /// A device allocation name longer than the device's limit.
    DeviceName,
    /// A call on a named shared-memory object failed.
    Shm { path: Vec<u8>, op: Op, errno: i32 },
    /// A system or library call failed with the given error code.
    Libc { op: Op, errno: i32 },
}

impl Error {
    /// The error code carried, if any.
    pub open spec fn code(self) -> Option<i32> {
        match self {
            Error::Shm { errno, .. } => Some(errno),
            Error::Libc { errno, .. } => Some(errno),
            _ => None,
        }
    }

    pub open spec fn spec_is_not_found(self) -> bool {
        self.code() == Some(not_found_code())
    }

    pub open spec fn spec_is_already_exists(self) -> bool {
        self matches Error::Libc { errno, .. } && errno == already_exists_code()
    }

    /// Attaches the path of the shared-memory object to a failed call.
    pub fn with_path(self, path: Vec<u8>) -> (r: Error)
        requires
            self is Libc,
        ensures
            match (self, r) {
                (Error::Libc { op, errno }, Error::Shm { path: p, op: o, errno: e }) => p@ == path@
                    && o == op && e == errno,
                _ => false,
            },
    {
        match self {
            Error::Libc { op, errno } => Error::Shm { path, op, errno },
            _ => self,
        }
    }

    /// Whether the failure means that the name does not exist.
    pub fn is_not_found(&self) -> (r: bool)
        ensures
            r == self.spec_is_not_found(),
    {
        match self {
            Error::Shm { errno, .. } | Error::Libc { errno, .. } => *errno == enoent(),
            _ => false,
        }
    }

    /// Whether the failure of a call means that the name already exists.
    pub fn is_already_exists(&self) -> (r: bool)
        ensures
            r == self.spec_is_already_exists(),
    {
        match self {
            Error::Libc { errno, .. } => *errno == eexist(),
            _ => false,
        }
    }
}

} // verus!
