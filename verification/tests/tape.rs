use wengert::tape::Operation;
use wengert::tape::Tape;

#[test]
fn new_tape_is_empty() {
    let t = Tape::new();
    assert_eq!(t.len(), 0);
    assert!(t.is_empty());
    let d = Tape::default();
    assert_eq!(d.len(), 0);
    assert!(d.is_empty());
}

#[test]
fn push_nullary_shape() {
    let mut t = Tape::new();
    let i0 = t.push_nullary();
    assert_eq!(i0, 0);
    assert_eq!(t.nodes[0].parents, [0, 0]);
    assert_eq!(t.nodes[0].partials, [0.0f64.to_bits(), 0.0f64.to_bits()]);
    let i1 = t.push_nullary();
    assert_eq!(i1, 1);
    assert_eq!(t.nodes[1].parents, [1, 1]);
    assert_eq!(t.nodes[1].partials, [0, 0]);
}

#[test]
fn push_unary_shape() {
    let mut t = Tape::new();
    let _ = t.push_nullary();
    let i = t.push_unary(0, 2.5f64.to_bits());
    assert_eq!(i, 1);
    assert_eq!(t.nodes[1].parents, [0, 1]);
    assert_eq!(f64::from_bits(t.nodes[1].partials[0]), 2.5);
    assert_eq!(f64::from_bits(t.nodes[1].partials[1]), 0.0);
}

#[test]
fn push_binary_shape() {
    let mut t = Tape::new();
    let _ = t.push_nullary();
    let _ = t.push_nullary();
    let i = t.push_binary(0, 0.5f64.to_bits(), 1, (-0.5f64).to_bits());
    assert_eq!(i, 2);
    assert_eq!(t.nodes[2].parents, [0, 1]);
    assert_eq!(f64::from_bits(t.nodes[2].partials[0]), 0.5);
    assert_eq!(f64::from_bits(t.nodes[2].partials[1]), -0.5);
}

#[test]
fn dispatch_matches_push_nullary() {
    let mut a = Tape::new();
    let mut b = Tape::new();
    let ia = a.push(Operation::Nullary, &[7, 7], &[9.0f64.to_bits(), 9.0f64.to_bits()]);
    let ib = b.push_nullary();
    assert_eq!(ia, ib);
    assert_eq!(a.nodes[0], b.nodes[0]);
}

#[test]
fn dispatch_matches_push_unary() {
    let mut a = Tape::new();
    let mut b = Tape::new();
    let _ = a.push_nullary();
    let _ = b.push_nullary();
    let d = 3.25f64.to_bits();
    let junk = 8.5f64.to_bits();
    let ia = a.push(Operation::Unary, &[0, 42], &[d, junk]);
    let ib = b.push_unary(0, d);
    assert_eq!(ia, ib);
    assert_eq!(a.nodes[1], b.nodes[1]);
}

#[test]
fn dispatch_matches_push_binary() {
    let mut a = Tape::new();
    let mut b = Tape::new();
    let _ = a.push_nullary();
    let _ = a.push_nullary();
    let _ = b.push_nullary();
    let _ = b.push_nullary();
    let d0 = 1.5f64.to_bits();
    let d1 = 2.5f64.to_bits();
    let ia = a.push(Operation::Binary, &[0, 1], &[d0, d1]);
    let ib = b.push_binary(0, d0, 1, d1);
    assert_eq!(ia, ib);
    assert_eq!(a.nodes[2], b.nodes[2]);
}

#[test]
fn monotonic_indexing_over_mixed_pushes() {
    let mut t = Tape::new();
    let one = 1.0f64.to_bits();
    let idx0 = t.push_nullary();
    let idx1 = t.push_unary(0, one);
    let idx2 = t.push_binary(0, one, 1, one);
    let idx3 = t.push(Operation::Unary, &[2, 0], &[one, 0]);
    let idx4 = t.push_nullary();
    assert_eq!([idx0, idx1, idx2, idx3, idx4], [0, 1, 2, 3, 4]);
    assert_eq!(t.len(), 5);
}

#[test]
fn parents_never_point_forward() {
    let mut t = Tape::new();
    let one = 1.0f64.to_bits();
    let _ = t.push_nullary();
    let _ = t.push_unary(0, one);
    let _ = t.push_binary(0, one, 1, one);
    let _ = t.push(Operation::Binary, &[1, 2], &[one, one]);
    for (i, node) in t.nodes.iter().enumerate() {
        assert!(node.parents[0] <= i);
        assert!(node.parents[1] <= i);
    }
}

#[test]
fn zero_preserves_topology_and_is_idempotent() {
    let mut t = Tape::new();
    let _ = t.push_nullary();
    let _ = t.push_unary(0, 4.0f64.to_bits());
    let _ = t.push_binary(0, 2.0f64.to_bits(), 1, 3.0f64.to_bits());
    let parents_before: Vec<[usize; 2]> = t.nodes.iter().map(|n| n.parents).collect();
    t.zero();
    assert_eq!(t.len(), 3);
    let parents_after: Vec<[usize; 2]> = t.nodes.iter().map(|n| n.parents).collect();
    assert_eq!(parents_before, parents_after);
    for node in &t.nodes {
        assert_eq!(node.partials, [0.0f64.to_bits(), 0.0f64.to_bits()]);
    }
    let snapshot = t.nodes.clone();
    t.zero();
    assert_eq!(t.nodes, snapshot);
}

#[test]
fn zero_on_empty_tape_is_a_no_op() {
    let mut t = Tape::new();
    t.zero();
    assert_eq!(t.len(), 0);
    assert!(t.is_empty());
}

#[test]
fn clear_resets_fully() {
    let mut t = Tape::new();
    let _ = t.var(1.0f64.to_bits());
    let _ = t.push_binary(0, 1.0f64.to_bits(), 0, 1.0f64.to_bits());
    t.clear();
    assert_eq!(t.len(), 0);
    assert!(t.is_empty());
    let i = t.push_nullary();
    assert_eq!(i, 0);
}

#[test]
fn var_returns_value_and_fresh_index() {
    let mut t = Tape::new();
    let v = t.var(3.5f64.to_bits());
    assert_eq!(v.index, 0);
    assert_eq!(f64::from_bits(v.value), 3.5);
    assert_eq!(t.len(), 1);
    assert_eq!(t.nodes[0].parents, [0, 0]);
}

#[test]
fn vars_orders_indices_like_sequential_var_calls() {
    let values = [10.0f64.to_bits(), 20.0f64.to_bits(), 30.0f64.to_bits()];

    let mut batch = Tape::new();
    let vs = batch.vars(&values);
    assert_eq!(vs.len(), 3);
    for (i, v) in vs.iter().enumerate() {
        assert_eq!(v.index, i);
        assert_eq!(v.value, values[i]);
    }
    assert_eq!(batch.len(), 3);

    let mut sequential = Tape::new();
    let s0 = sequential.var(values[0]);
    let s1 = sequential.var(values[1]);
    let s2 = sequential.var(values[2]);
    assert_eq!([vs[0], vs[1], vs[2]], [s0, s1, s2]);
    assert_eq!(batch.nodes, sequential.nodes);
}

#[test]
fn vars_on_populated_tape_continues_numbering() {
    let mut t = Tape::new();
    let _ = t.push_nullary();
    let _ = t.push_nullary();
    let vs = t.vars(&[5.0f64.to_bits()]);
    assert_eq!(vs.len(), 1);
    assert_eq!(vs[0].index, 2);
    assert_eq!(t.len(), 3);
}

#[test]
fn vars_of_nothing_records_nothing() {
    let mut t = Tape::new();
    let vs = t.vars(&[]);
    assert!(vs.is_empty());
    assert!(t.is_empty());
}

#[test]
fn end_to_end_recording_session() {
    let mut t = Tape::new();
    let x = t.var(3.0f64.to_bits());
    assert_eq!(x.index, 0);
    let y = t.var(4.0f64.to_bits());
    assert_eq!(y.index, 1);
    let sum = t.push_binary(0, 1.0f64.to_bits(), 1, 1.0f64.to_bits());
    assert_eq!(sum, 2);
    assert_eq!(t.nodes[2].parents, [0, 1]);
    assert_eq!(f64::from_bits(t.nodes[2].partials[0]), 1.0);
    assert_eq!(f64::from_bits(t.nodes[2].partials[1]), 1.0);
    assert_eq!(t.len(), 3);
    t.zero();
    assert_eq!(t.nodes[2].parents, [0, 1]);
    assert_eq!(f64::from_bits(t.nodes[2].partials[0]), 0.0);
    assert_eq!(f64::from_bits(t.nodes[2].partials[1]), 0.0);
    t.clear();
    assert_eq!(t.len(), 0);
}
