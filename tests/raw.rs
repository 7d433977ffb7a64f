use shmem::error::Op;
use shmem::raw::RawPhase;
use shmem::Call;
use shmem::Error;
use shmem::Numa;
use shmem::Populate;
use shmem::Raw;
use shmem::Shm;
use shmem::Step;

#[test]
fn create_removes_stale_object_then_creates_and_maps() {
    let mut m = Raw::new(b"ring", 1, true, Some(Numa::Bind { node: 0 }), None).unwrap();
    assert_eq!(m.size, 4096);
    match m.start() {
        Call::ShmUnlink { path } => assert_eq!(path, b"/ring\0".to_vec()),
        other => panic!("unexpected {other:?}"),
    }
    match m.advance(Err(2)) {
        Step::Call(Call::ShmOpen { exclusive, .. }) => assert!(exclusive),
        other => panic!("unexpected {other:?}"),
    }
    assert!(!m.stale_unlinked);
    assert!(matches!(m.advance(Ok(5)), Step::Call(Call::Ftruncate { fd: 5, length: 4096 })));
    match m.advance(Ok(0)) {
        Step::Call(Call::Mmap { address, length, flags, fd, .. }) => {
            assert_eq!(address, None);
            assert_eq!(length, 4096);
            assert!(flags.shared && !flags.fixed);
            assert_eq!(fd, Some(5));
        }
        other => panic!("unexpected {other:?}"),
    }
    assert!(matches!(m.advance(Ok(0x9000_0000)), Step::Call(Call::Mbind { .. })));
    match m.advance(Ok(0)) {
        Step::Done(raw) => {
            assert_eq!(raw.address(), 0x9000_0000);
            assert_eq!(raw.size(), 4096);
            assert_eq!(raw.name, b"ring".to_vec());
            assert!(matches!(raw.unmap_call(), Call::Munmap { address: 0x9000_0000, length: 4096 }));
            assert_eq!(raw.unlink().path, b"/ring\0".to_vec());
        }
        other => panic!("unexpected {other:?}"),
    }
    assert!(matches!(m.phase, RawPhase::Finished));
}

#[test]
fn stale_object_removal_is_recorded() {
    let mut m = Raw::new(b"ring", 4096, true, None, None).unwrap();
    m.advance(Ok(0));
    assert!(m.stale_unlinked);
}

#[test]
fn stale_removal_failure_other_than_missing_stops() {
    let mut m = Raw::new(b"ring", 4096, true, None, None).unwrap();
    match m.advance(Err(13)) {
        Step::Failed(Error::Shm { op, errno, .. }) => {
            assert_eq!(op, Op::ShmUnlink);
            assert_eq!(errno, 13);
        }
        other => panic!("unexpected {other:?}"),
    }
}

#[test]
fn attach_to_missing_name_reports_not_found() {
    let mut m = Raw::new(b"absent", 4096, false, None, Some(Populate::PageTable)).unwrap();
    match m.start() {
        Call::ShmOpen { exclusive, .. } => assert!(!exclusive),
        other => panic!("unexpected {other:?}"),
    }
    match m.advance(Err(2)) {
        Step::Failed(e) => assert!(e.is_not_found()),
        other => panic!("unexpected {other:?}"),
    }
}

#[test]
fn attach_maps_existing_object() {
    let mut m = Raw::new(b"shared", 5000, false, None, None).unwrap();
    match m.advance(Ok(11)) {
        Step::Call(Call::Mmap { length, fd, .. }) => {
            assert_eq!(length, 8192);
            assert_eq!(fd, Some(11));
        }
        other => panic!("unexpected {other:?}"),
    }
    assert!(matches!(m.advance(Ok(0x1000_0000)), Step::Done(_)));
}

#[test]
fn raw_name_too_long() {
    assert!(matches!(Raw::new(&[b'x'; 63], 1, true, None, None), Err(Error::ShmName)));
}

#[test]
fn typed_region_size_fits_its_type() {
    assert_eq!(Shm::<[u8; 1]>::size_for(), 4096);
    assert_eq!(Shm::<[u64; 513]>::size_for(), 8192);
    let mut m = Shm::<[u64; 513]>::new(b"typed", true, None, None).unwrap();
    assert_eq!(m.size, 8192);
    m.advance(Ok(0));
    m.advance(Ok(4));
    m.advance(Ok(0));
    match m.advance(Ok(0x2000_0000)) {
        Step::Done(raw) => {
            let region = Shm::<[u64; 513]>::from_raw(raw);
            assert_eq!(region.size(), 8192);
            assert_eq!(region.address(), 0x2000_0000);
            assert_eq!(region.unlink().path, b"/typed\0".to_vec());
        }
        other => panic!("unexpected {other:?}"),
    }
}
