use fj_kernel::difference::{Circle, Difference2d, OperationError, Shape2d};
use fj_kernel::geometry::{Aabb, BoundingVolume, Point, Segment, Triangle};

fn p(x: i64, y: i64) -> Point {
    Point::new(x, y, 0)
}

fn square(lo: i64, hi: i64) -> Shape2d {
    Shape2d::Polygon(vec![p(lo, lo), p(hi, lo), p(hi, hi), p(lo, hi)])
}

fn frame() -> Difference2d {
    Difference2d { a: square(0, 10), b: square(3, 6) }
}

#[test]
fn bounding_volume_is_that_of_a() {
    let d = frame();
    let expected = Aabb { min: p(0, 0), max: p(10, 10) };
    assert_eq!(d.bounding_volume(), expected);
    assert_eq!(d.aabb(), expected);
    assert_eq!(d.a.aabb(), expected);
}

#[test]
fn bounding_volume_of_irregular_polygon() {
    let shape = Shape2d::Polygon(vec![Point::new(3, -2, 1), Point::new(-4, 5, 0), Point::new(1, 1, 7)]);
    assert_eq!(
        shape.bounding_volume(),
        Aabb { min: Point::new(-4, -2, 0), max: Point::new(3, 5, 7) }
    );
}

#[test]
fn bounding_volume_of_circle() {
    let d = Difference2d { a: Shape2d::Circle(Circle { radius: 4 }), b: square(0, 1) };
    assert_eq!(d.bounding_volume(), Aabb { min: p(-4, -4), max: p(4, 4) });
}

#[test]
fn edges_of_b_are_reversed() {
    let edges = frame().edges().unwrap();
    assert_eq!(edges.len(), 8);
    assert_eq!(edges[0], Segment([p(0, 0), p(10, 0)]));
    assert_eq!(edges[3], Segment([p(0, 10), p(0, 0)]));
    assert_eq!(edges[4], Segment([p(6, 3), p(3, 3)]));
    assert_eq!(edges[7], Segment([p(3, 3), p(3, 6)]));
}

#[test]
fn segment_conversions() {
    let s: Segment = [p(1, 2), p(3, 4)].into();
    assert_eq!(s, Segment::from_points([p(1, 2), p(3, 4)]));
    assert_eq!(s.reverse(), Segment([p(3, 4), p(1, 2)]));
}

#[test]
fn vertices_join_both_boundaries() {
    let v = frame().vertices().unwrap();
    assert_eq!(v.len(), 8);
    assert_eq!(v[0], p(0, 0));
    assert_eq!(v[4], p(3, 3));
}

#[test]
fn triangles_inside_the_hole_are_dropped() {
    let d = frame();
    let inside = [p(3, 3), p(6, 3), p(6, 6)];
    let outside = [p(0, 0), p(10, 0), p(3, 3)];
    let one_edge = [p(3, 3), p(6, 3), p(10, 0)];
    let faces = d.faces(&vec![inside, outside, one_edge]).unwrap();
    let red = [255, 0, 0, 255];
    assert_eq!(
        faces,
        vec![Triangle { points: outside, color: red }, Triangle { points: one_edge, color: red }]
    );
    for t in &faces {
        let on_b = |q: &Point| [p(3, 3), p(6, 3), p(6, 6), p(3, 6)].contains(q);
        let pairs = [(0, 1), (1, 2), (2, 0)];
        let n = pairs.iter().filter(|(i, j)| on_b(&t.points[*i]) && on_b(&t.points[*j])).count();
        assert!(n <= 1);
    }
}

#[test]
fn circles_are_not_supported() {
    let d = Difference2d { a: square(0, 10), b: Shape2d::Circle(Circle { radius: 1 }) };
    assert_eq!(d.edges(), Err(OperationError::CircleBoundary));
    assert_eq!(d.vertices(), Err(OperationError::CircleBoundary));
    assert_eq!(d.faces(&Vec::new()), Err(OperationError::CircleBoundary));
}
