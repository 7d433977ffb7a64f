use shmem::call::Protection;
use shmem::error::Op;
use shmem::Call;
use shmem::Error;
use shmem::Reservation;

#[test]
fn contiguous_reservations_are_adjacent() {
    let rs = Reservation::<4096>::new_contiguous(3, Ok(0x10_0000)).unwrap();
    assert_eq!(rs.len(), 3);
    assert_eq!(rs[0].end(), rs[1].start());
    assert_eq!(rs[1].end(), rs[2].start());
    for r in &rs {
        assert_eq!(r.end() - r.start(), 4096);
    }
    assert_eq!(rs[0].start(), 0x10_0000);
}

#[test]
fn reservation_claims_one_no_access_range() {
    match Reservation::<4096>::reserve_call(3) {
        Call::Mmap { address, length, protection, flags, fd, offset } => {
            assert_eq!(address, None);
            assert_eq!(length, 3 * 4096);
            assert_eq!(protection, Protection::Reserved);
            assert!(!flags.shared && !flags.fixed && !flags.populate);
            assert_eq!(fd, None);
            assert_eq!(offset, 0);
        }
        other => panic!("unexpected {other:?}"),
    }
}

#[test]
fn single_reservation_bounds() {
    let r = Reservation::<8192>::new(Ok(0x20_0000)).unwrap();
    assert_eq!(r.start(), 0x20_0000);
    assert_eq!(r.end(), 0x20_2000);
    assert!(matches!(r.unmap_call(), Call::Munmap { address: 0x20_0000, length: 8192 }));
    assert!(r.unmap(Ok(0)).is_ok());
    assert!(matches!(r.unmap(Err(22)), Err(Error::Libc { op: Op::Munmap, errno: 22 })));
}

#[test]
fn failed_reservation_is_an_error() {
    assert!(matches!(
        Reservation::<4096>::new(Err(12)),
        Err(Error::Libc { op: Op::Mmap, errno: 12 })
    ));
    assert!(Reservation::<4096>::new_contiguous(2, Err(12)).is_err());
}
