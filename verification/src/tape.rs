//! The tape (Wengert list): an append-only log of [`Node`]s.

use crate::node::Node;
use crate::node::binary_node;
use crate::node::nullary_node;
use crate::node::unary_node;
use crate::node::zeroed;
use crate::node::zeroed_node;
use vstd::prelude::*;

verus! {

/// The arity of a recorded elementary operation: how many of a node's two
/// slots carry real operands.
#[derive(Clone, Copy, Debug, PartialEq, Eq, Structural)]
pub enum Operation {
    /// No differentiable operands: both slots are zero/self-loop defaults.
    Nullary,
    /// One operand, in slot 0; slot 1 is the zero/self-loop default.
    Unary,
    /// Two operands, one per slot.
    Binary,
}

/// The node that `push` records for `operation` at index `i`, given the
/// caller-supplied parent indices and partials. Only the slots that the
/// arity honours are read; the rest are synthesized defaults.
pub open spec fn dispatched_node(
    operation: Operation,
    parents: [usize; 2],
    partials: [u64; 2],
    i: usize,
) -> Node {
    match operation {
        Operation::Nullary => nullary_node(i),
        Operation::Unary => unary_node(i, parents[0], partials[0]),
        Operation::Binary => binary_node(parents[0], partials[0], parents[1], partials[1]),
    }
}

/// A differentiable input as handed back by `var` and `vars`: the supplied
/// value (an `f64` bit pattern) paired with the index of the nullary node
/// that records it.
///
/// A variable is bound to the tape that issued it; after that tape is
/// cleared the index is stale and must not be used against it again.
#[derive(Clone, Copy, Debug, PartialEq)]
pub struct Variable {
    /// The input's numeric value, as an `f64` bit pattern.
    pub value: u64,
    /// The index of the node recording this input.
    pub index: usize,
}

/// The Wengert list: an ordered, growable log of nodes. A node's index is
/// its position, assigned once and never reused; the log only ever grows,
/// except for `clear`, which empties it whole.
#[derive(Clone, Debug)]
pub struct Tape {
    /// The recorded nodes, in recording order.
    pub nodes: Vec<Node>,
}

impl View for Tape {
    type V = Seq<Node>;

    open spec fn view(&self) -> Seq<Node> {
        self.nodes@
    }
}

impl Default for Tape {
    /// An empty tape, the same as `Tape::new()`.
    fn default() -> (t: Tape)
        ensures
            t@ == Seq::<Node>::empty(),
    {
        Tape { nodes: Vec::new() }
    }
}

impl Tape {
    /// Creates an empty tape.
    pub fn new() -> (t: Tape)
        ensures
            t@ == Seq::<Node>::empty(),
    {
        Tape { nodes: Vec::new() }
    }

    /// Records one nullary node for a fresh differentiable input and
    /// returns a `Variable` carrying `value` and the new node's index.
    pub fn var(&mut self, value: u64) -> (v: Variable)
        ensures
            v.value == value,
            v.index == old(self)@.len(),
            final(self)@ == old(self)@.push(nullary_node(v.index)),
    {
        let index = self.push_nullary();
        Variable { value, index }
    }

    /// Records one nullary node per value, in input order, and returns the
    /// matching variables: the `i`-th result's index is the tape length
    /// before the call plus `i`, exactly as many sequential `var` calls.
    pub fn vars(&mut self, values: &[u64]) -> (vs: Vec<Variable>)
        ensures
            vs@.len() == values@.len(),
            final(self)@.len() == old(self)@.len() + values@.len(),
            forall|j: int| 0 <= j < old(self)@.len() ==> final(self)@[j] == old(self)@[j],
            forall|k: int|
                #![trigger vs@[k]]
                #![trigger final(self)@[old(self)@.len() + k]]
                0 <= k < values@.len() ==> {
                    &&& vs@[k].value == values@[k]
                    &&& vs@[k].index == old(self)@.len() + k
                    &&& final(self)@[old(self)@.len() + k] == nullary_node(vs@[k].index)
                },
    {
        let n = values.len();
        let mut vs: Vec<Variable> = Vec::new();
        let mut i: usize = 0;
        while i < n
            invariant
                n == values@.len(),
                i <= n,
                vs@.len() == i,
                self@.len() == old(self)@.len() + i,
                forall|j: int| 0 <= j < old(self)@.len() ==> self@[j] == old(self)@[j],
                forall|k: int|
                    #![trigger vs@[k]]
                    #![trigger self@[old(self)@.len() + k]]
                    0 <= k < i ==> {
                        &&& vs@[k].value == values@[k]
                        &&& vs@[k].index == old(self)@.len() + k
                        &&& self@[old(self)@.len() + k] == nullary_node(vs@[k].index)
                    },
            decreases n - i,
        {
            let v = self.var(values[i]);
            vs.push(v);
            i += 1;
        }
        vs
    }

    /// The number of nodes recorded so far; also the index the next push
    /// will return.
    pub fn len(&self) -> (n: usize)
        ensures
            n == self@.len(),
    {
        self.nodes.len()
    }

    /// Whether no node has been recorded.
    pub fn is_empty(&self) -> (e: bool)
        ensures
            e == (self@.len() == 0),
    {
        self.nodes.len() == 0
    }

    /// Removes every node. All previously issued indices become stale: the
    /// caller must not use them against this tape again.
    pub fn clear(&mut self)
        ensures
            final(self)@ == Seq::<Node>::empty(),
    {
        self.nodes.clear();
    }

    /// Resets both partial slots of every node to zero, the bit pattern of
    /// `0.0`, leaving the node count and every node's parents untouched.
    /// Readies a recorded graph for a fresh backward pass.
    pub fn zero(&mut self)
        ensures
            final(self)@ == zeroed(old(self)@),
    {
        let n = self.nodes.len();
        let mut i: usize = 0;
        while i < n
            invariant
                n == old(self)@.len(),
                i <= n,
                self@.len() == n,
                forall|j: int| 0 <= j < i ==> self@[j] == zeroed_node(old(self)@[j]),
                forall|j: int| i <= j < n ==> self@[j] == old(self)@[j],
            decreases n - i,
        {
            let parents = self.nodes[i].parents;
            self.nodes[i] = Node { partials: [0u64, 0u64], parents };
            i += 1;
        }
        proof {
            assert(self@ =~= zeroed(old(self)@));
        }
    }

    /// Appends a node with no differentiable operands: zero partials, both
    /// parents the new node's own index. Returns that index.
    pub fn push_nullary(&mut self) -> (idx: usize)
        ensures
            idx == old(self)@.len(),
            final(self)@ == old(self)@.push(nullary_node(idx)),
    {
        let len = self.nodes.len();
        self.nodes.push(Node { partials: [0u64, 0u64], parents: [len, len] });
        len
    }

    /// Appends a node for a one-operand operation: slot 0 holds the
    /// operand's index and local partial, slot 1 the zero/self-loop
    /// default. Returns the new node's index.
    ///
    /// The tape does not check that `parent0` points at an earlier node;
    /// supplying a forward or out-of-range index is a caller contract
    /// violation that a later traversal may fault on.
    pub fn push_unary(&mut self, parent0: usize, partial0: u64) -> (idx: usize)
        ensures
            idx == old(self)@.len(),
            final(self)@ == old(self)@.push(unary_node(idx, parent0, partial0)),
    {
        let len = self.nodes.len();
        self.nodes.push(Node { partials: [partial0, 0u64], parents: [parent0, len] });
        len
    }

    /// Appends a node for a two-operand operation: both slots hold operand
    /// indices and local partials. Returns the new node's index.
    ///
    /// As with `push_unary`, the parent indices are not validated here.
    pub fn push_binary(
        &mut self,
        parent0: usize,
        partial0: u64,
        parent1: usize,
        partial1: u64,
    ) -> (idx: usize)
        ensures
            idx == old(self)@.len(),
            final(self)@ == old(self)@.push(binary_node(parent0, partial0, parent1, partial1)),
    {
        let len = self.nodes.len();
        self.nodes.push(Node { partials: [partial0, partial1], parents: [parent0, parent1] });
        len
    }

    /// Appends one node, selecting the slot layout by the explicit arity
    /// tag: equivalent to `push_nullary`, `push_unary` or `push_binary`.
    /// Slots that the arity does not honour are ignored and synthesized as
    /// zero/self-loop defaults. Returns the new node's index.
    pub fn push(
        &mut self,
        operation: Operation,
        parents: &[usize; 2],
        partials: &[u64; 2],
    ) -> (idx: usize)
        ensures
            idx == old(self)@.len(),
            final(self)@ == old(self)@.push(dispatched_node(operation, *parents, *partials, idx)),
    {
        let len = self.nodes.len();

        let node = match operation {
            Operation::Nullary => Node { partials: [0u64, 0u64], parents: [len, len] },
            Operation::Unary => Node {
                partials: [partials[0], 0u64],
                parents: [parents[0], len],
            },
            Operation::Binary => Node {
                partials: [partials[0], partials[1]],
                parents: [parents[0], parents[1]],
            },
        };

        self.nodes.push(node);

        len
    }
}

} // verus!
