use shmem::backend::Mapping;
use shmem::backend::Mmap;
use shmem::call::Protection;
use shmem::error::Op;
use shmem::Call;
use shmem::Error;
use shmem::Numa;
use shmem::Populate;
use shmem::Step;

fn mapping(address: Option<usize>, numa: Option<Numa>, populate: Option<Populate>) -> Mapping {
    Mmap.open(b"", 8192).map(address, numa, populate)
}

#[test]
fn plain_mapping_is_one_call() {
    let mut m = mapping(None, None, None);
    match m.start() {
        Call::Mmap { address, length, protection, flags, fd, offset } => {
            assert_eq!(address, None);
            assert_eq!(length, 8192);
            assert_eq!(protection, Protection::ReadWrite);
            assert!(!flags.shared && !flags.fixed && !flags.populate);
            assert_eq!(fd, None);
            assert_eq!(offset, 0);
        }
        other => panic!("unexpected {other:?}"),
    }
    assert!(matches!(m.advance(Ok(0x4000_0000)), Step::Done(0x4000_0000)));
}

#[test]
fn page_table_populate_is_a_map_flag() {
    let m = mapping(Some(0x5000_0000), None, Some(Populate::PageTable));
    match m.start() {
        Call::Mmap { address, flags, .. } => {
            assert_eq!(address, Some(0x5000_0000));
            assert!(flags.fixed);
            assert!(flags.populate);
        }
        other => panic!("unexpected {other:?}"),
    }
}

#[test]
fn bind_comes_before_populate() {
    let mut m = mapping(None, Some(Numa::Bind { node: 2 }), Some(Populate::Physical));
    match m.advance(Ok(0x6000_0000)) {
        Step::Call(Call::Mbind { address, length, policy, .. }) => {
            assert_eq!(address, 0x6000_0000);
            assert_eq!(length, 8192);
            assert_eq!(policy.mask, 4);
        }
        other => panic!("unexpected {other:?}"),
    }
    match m.advance(Ok(0)) {
        Step::Call(Call::Madvise { address, length }) => {
            assert_eq!(address, 0x6000_0000);
            assert_eq!(length, 8192);
        }
        other => panic!("unexpected {other:?}"),
    }
    assert!(matches!(m.advance(Ok(0)), Step::Done(0x6000_0000)));
}

#[test]
fn fixed_mapping_elsewhere_is_fatal() {
    let mut m = mapping(Some(0x7000_0000), None, None);
    assert!(matches!(
        m.advance(Ok(0x7100_0000)),
        Step::Misplaced { expected: 0x7000_0000, actual: 0x7100_0000 }
    ));
}

#[test]
fn fixed_mapping_in_place_succeeds() {
    let mut m = mapping(Some(0x7000_0000), None, None);
    assert!(matches!(m.advance(Ok(0x7000_0000)), Step::Done(0x7000_0000)));
}

#[test]
fn each_failure_names_its_call() {
    let mut m = mapping(None, None, None);
    assert!(matches!(m.advance(Err(12)), Step::Failed(Error::Libc { op: Op::Mmap, errno: 12 })));
    let mut m = mapping(None, Some(Numa::Bind { node: 0 }), None);
    m.advance(Ok(0x1000));
    assert!(matches!(m.advance(Err(22)), Step::Failed(Error::Libc { op: Op::Mbind, errno: 22 })));
    let mut m = mapping(None, None, Some(Populate::Physical));
    m.advance(Ok(0x1000));
    assert!(matches!(m.advance(Err(22)), Step::Failed(Error::Libc { op: Op::Madvise, errno: 22 })));
}
