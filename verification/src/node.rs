//! The node type stored on the tape, and the spec-level description of the
//! nodes that each arity of push produces.

use vstd::prelude::*;

verus! {

/// One entry of the tape.
///
/// Every node has exactly two partial slots and two parent slots, whatever
/// the true arity of the operation it records. A slot that carries no
/// operand holds the partial `0` (the bit pattern of `0.0`) and, as parent,
/// the node's own index (a self-loop), so both slots are always valid tape
/// indices.
#[derive(Clone, Copy, Debug, PartialEq)]
pub struct Node {
    /// Local partial derivatives with respect to the (up to two) operands,
    /// in operand order, as `f64` bit patterns. Unused slots hold `0`.
    pub partials: [u64; 2],
    /// Tape indices of the operand nodes, in the same order as `partials`.
    /// Unused slots hold the node's own index.
    pub parents: [usize; 2],
}

/// The node recorded for an operation with no differentiable operands,
/// when appended at index `i`: zero partials, both parents the self-loop.
pub open spec fn nullary_node(i: usize) -> Node {
    Node { partials: [0u64, 0u64], parents: [i, i] }
}

/// The node recorded for a one-operand operation appended at index `i`:
/// slot 0 carries the operand, slot 1 is the zero/self-loop default.
pub open spec fn unary_node(i: usize, parent0: usize, partial0: u64) -> Node {
    Node { partials: [partial0, 0u64], parents: [parent0, i] }
}

/// The node recorded for a two-operand operation: both slots carry operands.
pub open spec fn binary_node(parent0: usize, partial0: u64, parent1: usize, partial1: u64) -> Node {
    Node { partials: [partial0, partial1], parents: [parent0, parent1] }
}

/// `n` with both partial slots reset to zero and its parents kept.
pub open spec fn zeroed_node(n: Node) -> Node {
    Node { partials: [0u64, 0u64], parents: n.parents }
}

/// `s` with every node's partial slots reset to zero and its topology
/// (length and parents) kept.
pub open spec fn zeroed(s: Seq<Node>) -> Seq<Node> {
    Seq::new(s.len(), |i: int| zeroed_node(s[i]))
}

/// Both parent entries of `n` point at position `i` or earlier: the edge
/// discipline that lets a backward pass run from high indices to low ones.
pub open spec fn node_points_back(n: Node, i: int) -> bool {
    n.parents[0] <= i && n.parents[1] <= i
}

} // verus!
