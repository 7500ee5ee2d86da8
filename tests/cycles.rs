use fj_kernel::topology::{Cycles, Edge, ValidationError};

fn triangle_shape() -> (Cycles, Vec<usize>) {
    let mut shape = Cycles::new();
    let a = shape.add_edge(Edge { vertices: Some((0, 1)) });
    let b = shape.add_edge(Edge { vertices: Some((1, 2)) });
    let c = shape.add_edge(Edge { vertices: Some((2, 0)) });
    (shape, vec![a, b, c])
}

#[test]
fn closed_cycle_is_created() {
    let (mut shape, edges) = triangle_shape();
    let cycle = shape.create(edges.clone()).unwrap();
    assert_eq!(cycle.edges, edges);
    let all = shape.all();
    assert_eq!(all.len(), 1);
    assert_eq!(all[0].edges, edges);
}

#[test]
fn cycle_with_gap_is_rejected() {
    let mut shape = Cycles::new();
    let a = shape.add_edge(Edge { vertices: Some((0, 1)) });
    let b = shape.add_edge(Edge { vertices: Some((2, 3)) });
    let c = shape.add_edge(Edge { vertices: Some((3, 0)) });
    assert_eq!(shape.create(vec![a, b, c]), Err(ValidationError::NotClosed));
    assert!(shape.all().is_empty());
}

#[test]
fn open_chain_is_rejected() {
    let mut shape = Cycles::new();
    let a = shape.add_edge(Edge { vertices: Some((0, 1)) });
    let b = shape.add_edge(Edge { vertices: Some((1, 2)) });
    assert_eq!(shape.create(vec![a, b]), Err(ValidationError::NotClosed));
}

#[test]
fn empty_cycle_is_rejected() {
    let mut shape = Cycles::new();
    assert_eq!(shape.create(Vec::new()), Err(ValidationError::NotClosed));
}

#[test]
fn duplicate_cycle_is_rejected() {
    let (mut shape, edges) = triangle_shape();
    assert!(shape.create(edges.clone()).is_ok());
    assert_eq!(shape.create(edges.clone()), Err(ValidationError::Duplicate));
    // The same edges, starting elsewhere in the loop
    let rotated = vec![edges[1], edges[2], edges[0]];
    assert_eq!(shape.create(rotated), Err(ValidationError::Duplicate));
    assert_eq!(shape.all().len(), 1);
}

#[test]
fn unknown_edge_is_rejected() {
    let (mut shape, edges) = triangle_shape();
    assert_eq!(shape.create(vec![edges[0], edges[1], 7]), Err(ValidationError::UnknownEdge));
}

#[test]
fn self_overlapping_cycle_is_rejected() {
    // A figure eight through vertex 0
    let mut shape = Cycles::new();
    let a = shape.add_edge(Edge { vertices: Some((0, 1)) });
    let b = shape.add_edge(Edge { vertices: Some((1, 0)) });
    let c = shape.add_edge(Edge { vertices: Some((0, 2)) });
    let d = shape.add_edge(Edge { vertices: Some((2, 0)) });
    assert_eq!(shape.create(vec![a, b, c, d]), Err(ValidationError::SelfOverlap));
    // The same edge twice
    assert_eq!(shape.create(vec![a, b, a, b]), Err(ValidationError::SelfOverlap));
}

#[test]
fn self_closed_edge_forms_a_cycle() {
    let mut shape = Cycles::new();
    let circle = shape.add_edge(Edge { vertices: None });
    assert!(shape.create(vec![circle]).is_ok());
    // Such an edge cannot be part of a longer chain
    let other = shape.add_edge(Edge { vertices: Some((0, 0)) });
    assert_eq!(shape.create(vec![circle, other]), Err(ValidationError::NotClosed));
}
