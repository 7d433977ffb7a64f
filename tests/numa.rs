use shmem::error::Op;
use shmem::Error;
use shmem::numa::Mode;
use shmem::numa::Policy;
use shmem::Call;
use shmem::Numa;

#[test]
fn bind_sets_one_bit_with_static_nodes() {
    let policy = Numa::Bind { node: 3 }.to_mode_mask();
    assert_eq!(policy, Policy { mode: Mode::Bind, static_nodes: true, mask: 1 << 3 });
    assert_eq!(policy.mask.count_ones(), 1);
}

#[test]
fn interleave_sets_each_node_bit() {
    let policy = Numa::Interleave { nodes: vec![0, 2] }.to_mode_mask();
    assert_eq!(policy.mode, Mode::Interleave);
    assert!(policy.static_nodes);
    assert_eq!(policy.mask, 0b101);
}

#[test]
fn interleave_highest_node_and_repeats() {
    let policy = Numa::Interleave { nodes: vec![63, 1, 63] }.to_mode_mask();
    assert_eq!(policy.mask, (1u64 << 63) | 2);
}

#[test]
fn interleave_empty_has_empty_mask() {
    assert_eq!(Numa::Interleave { nodes: vec![] }.to_mode_mask().mask, 0);
}

#[test]
fn nodes_beyond_mask_are_invalid() {
    assert!(Numa::Bind { node: 63 }.is_valid());
    assert!(!Numa::Bind { node: 64 }.is_valid());
    assert!(Numa::Interleave { nodes: vec![0, 5, 63] }.is_valid());
    assert!(!Numa::Interleave { nodes: vec![0, 64] }.is_valid());
}

#[test]
fn mbind_call_carries_range_and_policy() {
    let call = Numa::Bind { node: 1 }.mbind(0x7000_0000, 8192);
    match call {
        Call::Mbind { address, length, policy, max_node, flags } => {
            assert_eq!(address, 0x7000_0000);
            assert_eq!(length, 8192);
            assert_eq!(policy.mask, 2);
            assert_eq!(max_node, 64);
            assert_eq!(flags, 0);
        }
        other => panic!("unexpected {other:?}"),
    }
}

#[test]
fn set_mempolicy_call_carries_policy() {
    match (Numa::Interleave { nodes: vec![1, 2] }).set_mempolicy() {
        Call::SetMempolicy { policy, max_node } => {
            assert_eq!(policy.mask, 6);
            assert_eq!(policy.mode, Mode::Interleave);
            assert_eq!(max_node, 64);
        }
        other => panic!("unexpected {other:?}"),
    }
}

#[test]
fn bind_and_default_policy_outcomes() {
    assert!(Numa::finish_mbind(Ok(0)).is_ok());
    assert!(matches!(Numa::finish_mbind(Err(22)), Err(Error::Libc { op: Op::Mbind, errno: 22 })));
    assert!(Numa::finish_set_mempolicy(Ok(0)).is_ok());
    assert!(matches!(
        Numa::finish_set_mempolicy(Err(1)),
        Err(Error::Libc { op: Op::SetMempolicy, errno: 1 })
    ));
}
