use shmem::backend::shm::ShmPhase;
use shmem::backend::Ivshmem;
use shmem::backend::Mmap;
use shmem::backend::Opening;
use shmem::backend::Shm;
use shmem::error::Op;
use shmem::Backend;
use shmem::Call;
use shmem::Error;
use shmem::Step;

fn expect_call<T: std::fmt::Debug>(step: Step<T>) -> Call {
    match step {
        Step::Call(call) => call,
        other => panic!("expected a call, got {other:?}"),
    }
}

#[test]
fn size_one_rounds_to_one_page() {
    let file = Mmap.open(b"ignored", 1);
    assert_eq!(file.size, 4096);
    assert!(file.is_create());
    assert_eq!(file.fd, None);
    assert_eq!(shmem::round_to_page(1), 4096);
}

#[test]
fn size_one_page_and_a_byte_rounds_to_two_pages() {
    assert_eq!(shmem::round_to_page(4097), 8192);
    assert_eq!(shmem::round_to_page(4096), 4096);
    match Backend::Shm(Shm).open(b"region", 4097).unwrap() {
        Opening::Shm(m) => assert_eq!(m.size, 8192),
        other => panic!("unexpected {other:?}"),
    }
}

#[test]
fn name_of_63_bytes_is_too_long() {
    let name = [b'a'; 63];
    assert!(matches!(Shm.open(&name, 4096), Err(Error::ShmName)));
    assert!(matches!(Shm::with_path(&name), Err(Error::ShmName)));
    assert!(matches!(Shm.unlink(&name), Err(Error::ShmName)));
}

#[test]
fn name_of_62_bytes_fits() {
    let name = [b'a'; 62];
    let path = Shm::with_path(&name).unwrap();
    assert_eq!(path.len(), 64);
    assert_eq!(path[0], b'/');
    assert_eq!(path[63], 0);
}

#[test]
fn path_is_slash_name_nul() {
    assert_eq!(Shm::with_path(b"cache").unwrap(), b"/cache\0".to_vec());
}

#[test]
fn exclusive_create_then_truncate() {
    let mut m = Shm.open(b"cache", 100).unwrap();
    match m.start() {
        Call::ShmOpen { path, exclusive } => {
            assert_eq!(path, b"/cache\0".to_vec());
            assert!(exclusive);
        }
        other => panic!("unexpected {other:?}"),
    }
    match expect_call(m.advance(Ok(7))) {
        Call::Ftruncate { fd, length } => {
            assert_eq!(fd, 7);
            assert_eq!(length, 4096);
        }
        other => panic!("unexpected {other:?}"),
    }
    match m.advance(Ok(0)) {
        Step::Done(file) => {
            assert_eq!(file.fd, Some(7));
            assert_eq!(file.size, 4096);
            assert!(file.create);
            assert_eq!(file.offset, 0);
        }
        other => panic!("unexpected {other:?}"),
    }
}

#[test]
fn existing_name_attaches_without_resizing() {
    let mut m = Shm.open(b"cache", 100).unwrap();
    match expect_call(m.advance(Err(17))) {
        Call::ShmOpen { exclusive, .. } => assert!(!exclusive),
        other => panic!("unexpected {other:?}"),
    }
    assert_eq!(m.phase, ShmPhase::Attach);
    match m.advance(Ok(9)) {
        Step::Done(file) => {
            assert_eq!(file.fd, Some(9));
            assert!(!file.create);
        }
        other => panic!("unexpected {other:?}"),
    }
    assert_eq!(m.phase, ShmPhase::Finished);
}

#[test]
fn other_open_failure_names_the_path() {
    let mut m = Shm.open(b"cache", 100).unwrap();
    match m.advance(Err(13)) {
        Step::Failed(Error::Shm { path, op, errno }) => {
            assert_eq!(path, b"/cache\0".to_vec());
            assert_eq!(op, Op::ShmOpen);
            assert_eq!(errno, 13);
        }
        other => panic!("unexpected {other:?}"),
    }
}

#[test]
fn truncate_failure_is_reported() {
    let mut m = Shm.open(b"cache", 100).unwrap();
    expect_call(m.advance(Ok(3)));
    match m.advance(Err(28)) {
        Step::Failed(Error::Libc { op, errno }) => {
            assert_eq!(op, Op::Ftruncate);
            assert_eq!(errno, 28);
        }
        other => panic!("unexpected {other:?}"),
    }
}

#[test]
fn unlinking_a_missing_name_succeeds() {
    let u = Shm.unlink(b"gone").unwrap();
    assert!(u.finish_idempotent(Err(2)).is_ok());
    assert!(u.finish_idempotent(Ok(0)).is_ok());
    let strict = u.finish(Err(2)).unwrap_err();
    assert!(strict.is_not_found());
}

#[test]
fn unlink_failure_other_than_missing_is_reported() {
    let u = Shm.unlink(b"busy").unwrap();
    match u.finish_idempotent(Err(13)) {
        Err(Error::Shm { op, errno, .. }) => {
            assert_eq!(op, Op::ShmUnlink);
            assert_eq!(errno, 13);
        }
        other => panic!("unexpected {other:?}"),
    }
}

#[test]
fn backend_names_and_default() {
    assert_eq!(Backend::default().name(), "mmap");
    assert_eq!(Backend::Shm(Shm).name(), "shm");
    assert_eq!(Backend::Ivshmem(Ivshmem { device: 3 }).name(), "ivshmem");
}

#[test]
fn anonymous_and_device_unlink_do_nothing() {
    assert!(matches!(Backend::Mmap(Mmap).unlink(b"x"), Ok(None)));
    assert!(matches!(Backend::Ivshmem(Ivshmem { device: 3 }).unlink(b"x"), Ok(None)));
    assert!(matches!(Backend::Shm(Shm).unlink(b"x"), Ok(Some(_))));
}

#[test]
fn file_flags_follow_the_descriptor() {
    let anon = Mmap.open(b"", 10);
    assert!(!anon.flags().shared);
    let mut m = Shm.open(b"f", 10).unwrap();
    m.advance(Ok(4));
    match m.advance(Ok(0)) {
        Step::Done(file) => assert!(file.flags().shared),
        other => panic!("unexpected {other:?}"),
    }
}

#[test]
fn concurrent_create_race_resizes_once() {
    let mut winner = Shm.open(b"race", 4097).unwrap();
    let mut loser = Shm.open(b"race", 4097).unwrap();
    let mut truncations = 0;
    let mut sizes = Vec::new();
    for (machine, first, second) in [(&mut winner, Ok(3), Ok(0)), (&mut loser, Err(17), Ok(4))] {
        if let Step::Call(Call::Ftruncate { length, .. }) = machine.advance(first) {
            truncations += 1;
            assert_eq!(length, 8192);
        }
        match machine.advance(second) {
            Step::Call(Call::Ftruncate { .. }) => truncations += 1,
            Step::Done(file) => sizes.push(file.size),
            other => panic!("unexpected {other:?}"),
        }
    }
    assert_eq!(truncations, 1);
    assert_eq!(sizes, vec![8192, 8192]);
}
