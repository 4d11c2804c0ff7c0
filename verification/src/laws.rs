//! The tape's general laws, stated over the spec-level model that the
//! methods' contracts use and proved once for all inputs.

use crate::node::Node;
use crate::node::binary_node;
use crate::node::node_points_back;
use crate::node::nullary_node;
use crate::node::unary_node;
use crate::node::zeroed;
use crate::tape::Operation;
use crate::tape::dispatched_node;
use vstd::prelude::*;

verus! {

/// One push call, as its spec-level description: the arity tag and the
/// caller-supplied parent and partial slots.
pub struct PushCall {
    /// The arity tag handed to `push`.
    pub operation: Operation,
    /// The caller-supplied parent indices.
    pub parents: [usize; 2],
    /// The caller-supplied partials, as `f64` bit patterns.
    pub partials: [u64; 2],
}

/// The tape contents after running the calls of `ops`, in order, against a
/// tape holding `s`: each call appends exactly the node that `push`'s
/// contract promises at the then-current length.
pub open spec fn after_pushes(s: Seq<Node>, ops: Seq<PushCall>) -> Seq<Node>
    decreases ops.len(),
{
    if ops.len() == 0 {
        s
    } else {
        after_pushes(
            s.push(dispatched_node(ops[0].operation, ops[0].parents, ops[0].partials, s.len() as usize)),
            ops.drop_first(),
        )
    }
}

/// Running `ops` grows the tape by exactly one node per call.
pub proof fn lemma_after_pushes_len(s: Seq<Node>, ops: Seq<PushCall>)
    ensures
        after_pushes(s, ops).len() == s.len() + ops.len(),
    decreases ops.len(),
{
    if ops.len() != 0 {
        lemma_after_pushes_len(
            s.push(dispatched_node(ops[0].operation, ops[0].parents, ops[0].partials, s.len() as usize)),
            ops.drop_first(),
        );
    }
}

/// Monotonic indexing: for any mix of arities run against an empty tape,
/// the tape afterwards holds one node per call, and the `k`-th call (0-based)
/// is made against a tape of length `k` — so, since every push returns the
/// length it found, the `k`-th call returns index `k`.
pub proof fn lemma_monotonic_indexing(ops: Seq<PushCall>)
    ensures
        after_pushes(Seq::<Node>::empty(), ops).len() == ops.len(),
        forall|k: int|
            0 <= k <= ops.len() ==> after_pushes(Seq::<Node>::empty(), #[trigger] ops.take(k)).len()
                == k,
{
    lemma_after_pushes_len(Seq::<Node>::empty(), ops);
    assert forall|k: int|
        0 <= k <= ops.len() implies after_pushes(Seq::<Node>::empty(), #[trigger] ops.take(k)).len()
        == k by {
        lemma_after_pushes_len(Seq::<Node>::empty(), ops.take(k));
    }
}

/// Arity shape: a nullary node holds zero partials and two self-loops; a
/// unary node holds its one operand in slot 0 and the zero/self-loop
/// default in slot 1; a binary node holds both operands as supplied.
pub proof fn lemma_arity_shape(i: usize, parent0: usize, partial0: u64, parent1: usize, partial1: u64)
    ensures
        nullary_node(i).parents == [i, i],
        nullary_node(i).partials == [0u64, 0u64],
        unary_node(i, parent0, partial0).parents == [parent0, i],
        unary_node(i, parent0, partial0).partials == [partial0, 0u64],
        binary_node(parent0, partial0, parent1, partial1).parents == [parent0, parent1],
        binary_node(parent0, partial0, parent1, partial1).partials == [partial0, partial1],
{
}

/// Dispatch equivalence, nullary case: `push` with the `Nullary` tag
/// appends exactly the node `push_nullary` appends; both return the old
/// length, so the two calls are interchangeable.
pub proof fn lemma_dispatch_nullary(parents: [usize; 2], partials: [u64; 2], i: usize)
    ensures
        dispatched_node(Operation::Nullary, parents, partials, i) == nullary_node(i),
{
}

/// Dispatch equivalence, unary case: `push` with the `Unary` tag honours
/// only slot 0 of each input and appends exactly the node
/// `push_unary(parents[0], partials[0])` appends.
pub proof fn lemma_dispatch_unary(parents: [usize; 2], partials: [u64; 2], i: usize)
    ensures
        dispatched_node(Operation::Unary, parents, partials, i) == unary_node(
            i,
            parents[0],
            partials[0],
        ),
{
}

/// Dispatch equivalence, binary case: `push` with the `Binary` tag appends
/// exactly the node `push_binary(parents[0], partials[0], parents[1],
/// partials[1])` appends.
pub proof fn lemma_dispatch_binary(parents: [usize; 2], partials: [u64; 2], i: usize)
    ensures
        dispatched_node(Operation::Binary, parents, partials, i) == binary_node(
            parents[0],
            partials[0],
            parents[1],
            partials[1],
        ),
{
}

/// Every node's parent entries point at the node's own position or earlier:
/// the tape is acyclic, with edges only into the past (or the self-loop).
pub open spec fn acyclic(s: Seq<Node>) -> bool {
    forall|i: int| 0 <= i < s.len() ==> node_points_back(#[trigger] s[i], i)
}

/// Acyclicity is preserved by every push whose honoured parent slots do not
/// point past the new node's index. (The tape itself does not validate the
/// supplied parents; a forward-pointing parent is a caller contract
/// violation and is the one way to void this law.)
pub proof fn lemma_push_preserves_acyclic(
    s: Seq<Node>,
    operation: Operation,
    parents: [usize; 2],
    partials: [u64; 2],
    i: usize,
)
    requires
        acyclic(s),
        i == s.len(),
        operation == Operation::Unary ==> parents[0] <= i,
        operation == Operation::Binary ==> parents[0] <= i && parents[1] <= i,
    ensures
        acyclic(s.push(dispatched_node(operation, parents, partials, i))),
{
    let t = s.push(dispatched_node(operation, parents, partials, i));
    assert forall|j: int| 0 <= j < t.len() implies node_points_back(#[trigger] t[j], j) by {
        if j < s.len() {
            assert(t[j] == s[j]);
        }
    }
}

/// Zeroing preserves topology: the node count and every node's parents are
/// unchanged, while every partial slot is forced to zero.
pub proof fn lemma_zeroed_preserves_topology(s: Seq<Node>)
    ensures
        zeroed(s).len() == s.len(),
        forall|i: int| 0 <= i < s.len() ==> (#[trigger] zeroed(s)[i]).parents == s[i].parents,
        forall|i: int| 0 <= i < s.len() ==> (#[trigger] zeroed(s)[i]).partials == [0u64, 0u64],
{
}

/// Zeroing twice in a row changes nothing more than zeroing once.
pub proof fn lemma_zero_idempotent(s: Seq<Node>)
    ensures
        zeroed(zeroed(s)) == zeroed(s),
{
    assert(zeroed(zeroed(s)) =~= zeroed(s));
}

} // verus!
