use vstd::prelude::*;

use crate::call::Call;
use crate::call::Outcome;
use crate::error::Error;
use crate::error::Op;

verus! {

/// A memory placement policy.
#[derive(Clone, Debug)]
pub enum Numa {
    /// Place pages on one node.
    Bind { node: usize },
    /// Spread pages round-robin over a set of nodes.
    Interleave { nodes: Vec<usize> },
}

/// The kernel's placement mode.
#[derive(Clone, Copy, Debug, PartialEq, Eq, Structural)]
pub enum Mode {
    Bind,
    Interleave,
}

/// A policy in the form the kernel takes it: a mode, the static-nodes
/// modifier, and a 64-bit node mask.
#[derive(Clone, Copy, Debug, PartialEq, Eq, Structural)]
pub struct Policy {
    pub mode: Mode,
    pub static_nodes: bool,
    pub mask: u64,
}

/// Highest node count the mask can describe, handed to the kernel as `maxnode`.
pub const MAX_NODE: u64 = 64;

/// Whether bit `i` of `mask` is set.
pub open spec fn bit_set(mask: u64, i: u64) -> bool {
    (mask >> i) & 1u64 == 1u64
}

/// The mask with one bit set for each node of `nodes`.
pub open spec fn mask_of(nodes: Seq<usize>) -> u64
    decreases nodes.len(),
{
    if nodes.len() == 0 {
        0u64
    } else {
        mask_of(nodes.drop_last()) | (1u64 << (nodes.last() as u64))
    }
}

proof fn lemma_bit_of_or(m: u64, a: u64, j: u64)
    requires
        a < 64,
        j < 64,
    ensures
        bit_set(m | (1u64 << a), j) == (bit_set(m, j) || a == j),
{
    assert(((m | (1u64 << a)) >> j) & 1u64 == 1u64 <==> (((m >> j) & 1u64 == 1u64) || a == j))
        by (bit_vector)
        requires
            a < 64,
            j < 64,
    ;
}

proof fn lemma_bit_of_zero(j: u64)
    requires
        j < 64,
    ensures
        !bit_set(0u64, j),
{
    assert((0u64 >> j) & 1u64 != 1u64) by (bit_vector);
}

/// Bit `j` of the mask of `nodes` is set exactly when `j` is one of `nodes`.
proof fn lemma_mask_of_bits(nodes: Seq<usize>, j: u64)
    requires
        j < 64,
        forall|k: int| 0 <= k < nodes.len() ==> nodes[k] < 64,
    ensures
        bit_set(mask_of(nodes), j) == nodes.contains(j as usize),
    decreases nodes.len(),
{
    if nodes.len() == 0 {
        lemma_bit_of_zero(j);
    } else {
        let rest = nodes.drop_last();
        lemma_mask_of_bits(rest, j);
        lemma_bit_of_or(mask_of(rest), nodes.last() as u64, j);
        if nodes.contains(j as usize) {
            let k = choose|k: int| 0 <= k < nodes.len() && nodes[k] == j as usize;
            if k < nodes.len() - 1 {
                assert(rest[k] == j as usize);
            }
        }
        if rest.contains(j as usize) {
            let k = choose|k: int| 0 <= k < rest.len() && rest[k] == j as usize;
            assert(nodes[k] == j as usize);
        }
    }
}

impl Numa {
    /// Every node index fits in the 64-bit mask.
    pub open spec fn wf(&self) -> bool {
        match self {
            Numa::Bind { node } => *node < 64,
            Numa::Interleave { nodes } => forall|k: int| 0 <= k < nodes@.len() ==> nodes@[k] < 64,
        }
    }

    /// The nodes the policy names.
    pub open spec fn nodes(&self) -> Seq<usize> {
        match self {
            Numa::Bind { node } => seq![*node],
            Numa::Interleave { nodes } => nodes@,
        }
    }

    /// The policy as the kernel takes it.
    pub open spec fn policy(&self) -> Policy {
        Policy {
            mode: match self {
                Numa::Bind { .. } => Mode::Bind,
                Numa::Interleave { .. } => Mode::Interleave,
            },
            static_nodes: true,
            mask: mask_of(self.nodes()),
        }
    }

    /// Whether every node index fits in the 64-bit mask; a policy that does
    /// not is to be rejected before it is used.
    pub fn is_valid(&self) -> (r: bool)
        ensures
            r == self.wf(),
    {
        match self {
            Numa::Bind { node } => *node < 64,
            Numa::Interleave { nodes } => {
                let mut i: usize = 0;
                while i < nodes.len()
                    invariant
                        i <= nodes@.len(),
                        forall|k: int| 0 <= k < i ==> nodes@[k] < 64,
                        self.wf() == (forall|k: int| 0 <= k < nodes@.len() ==> nodes@[k] < 64),
                    decreases nodes@.len() - i,
                {
                    if nodes[i] >= 64 {
                        assert(nodes@[i as int] >= 64);
                        return false;
                    }
                    i = i + 1;
                }
                true
            },
        }
    }

    /// Encodes the policy into mode, static-nodes modifier and node mask.
    pub fn to_mode_mask(&self) -> (r: Policy)
        requires
            self.wf(),
        ensures
            r == self.policy(),
    {
        match self {
            Numa::Bind { node } => {
                let mask = 1u64 << (*node as u64);
                proof {
                    let s = seq![*node];
                    assert(s.drop_last() =~= Seq::<usize>::empty());
                    reveal_with_fuel(mask_of, 2);
                    assert(0u64 | mask == mask) by (bit_vector);
                }
                Policy { mode: Mode::Bind, static_nodes: true, mask }
            },
            Numa::Interleave { nodes } => {
                let mut mask: u64 = 0;
                let mut i: usize = 0;
                while i < nodes.len()
                    invariant
                        i <= nodes@.len(),
                        forall|k: int| 0 <= k < nodes@.len() ==> nodes@[k] < 64,
                        mask == mask_of(nodes@.subrange(0, i as int)),
                    decreases nodes@.len() - i,
                {
                    proof {
                        let next = nodes@.subrange(0, i + 1);
                        assert(next.drop_last() =~= nodes@.subrange(0, i as int));
                    }
                    mask = mask | (1u64 << (nodes[i] as u64));
                    i = i + 1;
                }
                proof {
                    assert(nodes@.subrange(0, i as int) =~= nodes@);
                }
                Policy { mode: Mode::Interleave, static_nodes: true, mask }
            },
        }
    }

    /// The call that applies the policy to the mapped range
    /// `[address, address + size)`.
    pub fn mbind(&self, address: usize, size: usize) -> (r: Call)
        requires
            self.wf(),
        ensures
            r == (Call::Mbind {
                address,
                length: size,
                policy: self.policy(),
                max_node: MAX_NODE,
                flags: 0,
            }),
    {
        Call::Mbind { address, length: size, policy: self.to_mode_mask(), max_node: MAX_NODE, flags: 0 }
    }

    /// The result of binding a range, from the outcome of [`Numa::mbind`]'s call.
    pub fn finish_mbind(outcome: Outcome) -> (r: crate::Result<()>)
        ensures
            match outcome {
                Ok(_) => r is Ok,
                Err(e) => r matches Err(Error::Libc { op, errno }) && op == Op::Mbind && errno == e,
            },
    {
        match outcome {
            Ok(_) => Ok(()),
            Err(e) => Err(Error::Libc { op: Op::Mbind, errno: e }),
        }
    }

    /// The call that makes the policy the calling thread's default for
    /// allocations outside any explicitly bound range.
    pub fn set_mempolicy(&self) -> (r: Call)
        requires
            self.wf(),
        ensures
            r == (Call::SetMempolicy { policy: self.policy(), max_node: MAX_NODE }),
    {
        Call::SetMempolicy { policy: self.to_mode_mask(), max_node: MAX_NODE }
    }

    /// The result of setting the default policy, from the outcome of
    /// [`Numa::set_mempolicy`]'s call.
    pub fn finish_set_mempolicy(outcome: Outcome) -> (r: crate::Result<()>)
        ensures
            match outcome {
                Ok(_) => r is Ok,
                Err(e) => r matches Err(Error::Libc { op, errno }) && op == Op::SetMempolicy
                    && errno == e,
            },
    {
        match outcome {
            Ok(_) => Ok(()),
            Err(e) => Err(Error::Libc { op: Op::SetMempolicy, errno: e }),
        }
    }
}

/// The encoded mask of a valid policy has bit `j` set exactly when `j` is one
/// of the policy's nodes, and the static-nodes modifier is always present.
pub proof fn lemma_policy_bits(numa: Numa, j: u64)
    requires
        numa.wf(),
        j < 64,
    ensures
        bit_set(numa.policy().mask, j) == numa.nodes().contains(j as usize),
        numa.policy().static_nodes,
{
    lemma_mask_of_bits(numa.nodes(), j);
}

} // verus!
