use fj_kernel::approx::{GlobalVertex, LocalPoint, Vertex, VerticesOfEdge};

#[test]
fn approx_edge() {
    let a = [1., 2., 3.];
    let b = [2., 3., 5.];
    let c = [3., 5., 8.];
    let d = [5., 8., 13.];

    let v1 = GlobalVertex::from_position(a);
    let v2 = GlobalVertex::from_position(d);

    let vertices =
        VerticesOfEdge::from_vertices([Vertex::new([0.], v1), Vertex::new([1.], v2)]);

    let a = LocalPoint::new([0.0], a);
    let b = LocalPoint::new([0.25], b);
    let c = LocalPoint::new([0.75], c);
    let d = LocalPoint::new([1.0], d);

    // Regular edge
    let mut points = vec![b, c];
    fj_kernel::approx_edge(vertices, &mut points);
    assert_eq!(points, vec![a, b, c, d]);

    // Continuous edge
    let mut points = vec![b, c];
    fj_kernel::approx_edge(VerticesOfEdge::none(), &mut points);
    assert_eq!(points, vec![b, c, b]);
}

#[test]
fn vertices_replace_nearby_samples() {
    // The interior samples do not matter to the ends: the exact vertex
    // positions are used, even when a sample lies right next to them.
    let start = Vertex::new(0i64, GlobalVertex::from_position((0i64, 0i64)));
    let end = Vertex::new(100i64, GlobalVertex::from_position((10i64, 10i64)));
    let mut points = vec![LocalPoint::new(1i64, (0i64, 1i64)), LocalPoint::new(99i64, (10i64, 9i64))];
    fj_kernel::approx_edge(VerticesOfEdge::from_vertices([start, end]), &mut points);
    assert_eq!(points.len(), 4);
    assert_eq!(points[0], LocalPoint::new(0, (0, 0)));
    assert_eq!(points[3], LocalPoint::new(100, (10, 10)));
}

#[test]
fn bounded_edge_without_interior_points() {
    let start = Vertex::new(0i64, GlobalVertex::from_position(7i64));
    let end = Vertex::new(1i64, GlobalVertex::from_position(9i64));
    let mut points: Vec<LocalPoint<i64, i64>> = Vec::new();
    fj_kernel::approx_edge(VerticesOfEdge::from_vertices([start, end]), &mut points);
    assert_eq!(points, vec![LocalPoint::new(0, 7), LocalPoint::new(1, 9)]);
}

#[test]
fn self_closed_edge_without_points_stays_empty() {
    let mut points: Vec<LocalPoint<i64, i64>> = Vec::new();
    fj_kernel::approx_edge(VerticesOfEdge::none(), &mut points);
    assert!(points.is_empty());
}

#[test]
fn self_closed_edge_with_one_point() {
    let mut points = vec![LocalPoint::new(3i64, 4i64)];
    fj_kernel::approx_edge(VerticesOfEdge::none(), &mut points);
    assert_eq!(points, vec![LocalPoint::new(3, 4), LocalPoint::new(3, 4)]);
}

#[test]
fn approximation_is_repeatable() {
    let vertices = VerticesOfEdge::from_vertices([
        Vertex::new(0i64, GlobalVertex::from_position(1i64)),
        Vertex::new(4i64, GlobalVertex::from_position(5i64)),
    ]);
    let interior = vec![LocalPoint::new(1i64, 2i64), LocalPoint::new(2i64, 3i64)];
    let mut first = interior.clone();
    let mut second = interior.clone();
    fj_kernel::approx_edge(vertices, &mut first);
    fj_kernel::approx_edge(vertices, &mut second);
    assert_eq!(first, second);

    let mut closed1 = interior.clone();
    let mut closed2 = interior;
    fj_kernel::approx_edge(VerticesOfEdge::none(), &mut closed1);
    fj_kernel::approx_edge(VerticesOfEdge::none(), &mut closed2);
    assert_eq!(closed1, closed2);
}
