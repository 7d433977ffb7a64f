use shmem::error::Op;
use shmem::Error;

#[test]
fn with_path_keeps_call_and_code() {
    let e = Error::Libc { op: Op::ShmOpen, errno: 2 }.with_path(b"/x\0".to_vec());
    match &e {
        Error::Shm { path, op, errno } => {
            assert_eq!(path, &b"/x\0".to_vec());
            assert_eq!(*op, Op::ShmOpen);
            assert_eq!(*errno, 2);
        }
        other => panic!("unexpected {other:?}"),
    }
    assert!(e.is_not_found());
    assert!(!e.is_already_exists());
}

#[test]
fn classifications() {
    assert!(Error::Libc { op: Op::ShmOpen, errno: 17 }.is_already_exists());
    assert!(!Error::Libc { op: Op::ShmOpen, errno: 2 }.is_already_exists());
    assert!(Error::Libc { op: Op::ShmUnlink, errno: 2 }.is_not_found());
    assert!(!Error::Libc { op: Op::ShmUnlink, errno: 13 }.is_not_found());
    assert!(!Error::ShmName.is_not_found());
    assert!(!Error::ShmName.is_already_exists());
    assert!(!Error::Shm { path: vec![], op: Op::ShmOpen, errno: 17 }.is_already_exists());
}

#[test]
fn op_names() {
    assert_eq!(Op::Mmap.name(), "mmap64");
    assert_eq!(Op::ShmOpen.name(), "shm_open");
    assert_eq!(Op::PthreadBarrierWait.name(), "pthread_barrier_wait");
}
