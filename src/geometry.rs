use vstd::prelude::*;

verus! {

/// A point in model space, on an integer grid
#[derive(Clone, Copy, Debug, PartialEq, Eq, Structural)]
pub struct Point {
    pub x: i64,
    pub y: i64,
    pub z: i64,
}

impl Point {
    /// The point with the given coordinates
    pub fn new(x: i64, y: i64, z: i64) -> (r: Point)
        ensures
            r == (Point { x, y, z }),
    {
        Point { x, y, z }
    }
}

/// The coordinate of a point along one of the three axes
pub open spec fn coord(p: Point, axis: int) -> i64 {
    if axis == 0 {
        p.x
    } else if axis == 1 {
        p.y
    } else {
        p.z
    }
}

/// A straight line segment between two points
#[derive(Clone, Copy, Debug, PartialEq, Eq)]
pub struct Segment(pub [Point; 2]);

impl Segment {
    /// The segment between two points
    pub fn from_points(points: [Point; 2]) -> (r: Segment)
        ensures
            r.0 == points,
    {
        Segment(points)
    }

    /// The same segment, traversed in the opposite direction
    pub fn reverse(&self) -> (r: Segment)
        ensures
            r == spec_reverse(*self),
    {
        Segment([self.0[1], self.0[0]])
    }
}

/// A segment traversed in the opposite direction
pub open spec fn spec_reverse(s: Segment) -> Segment {
    Segment([s.0[1], s.0[0]])
}

impl From<[Point; 2]> for Segment {
    fn from(points: [Point; 2]) -> (r: Segment) {
        Segment(points)
    }
}

impl vstd::std_specs::convert::FromSpecImpl<[Point; 2]> for Segment {
    open spec fn obeys_from_spec() -> bool {
        true
    }

    open spec fn from_spec(points: [Point; 2]) -> Segment {
        Segment(points)
    }
}

/// The color that triangles of a mesh carry, as red, green, blue and alpha
pub type Color = [u8; 4];

/// The color given to triangles that have no other
pub open spec fn default_color() -> Color {
    [255u8, 0u8, 0u8, 255u8]
}

/// A triangle of a mesh, with its color
#[derive(Clone, Copy, Debug, PartialEq, Eq)]
pub struct Triangle {
    pub points: [Point; 3],
    pub color: Color,
}

/// An axis-aligned bounding box, given by its least and greatest corner
#[derive(Clone, Copy, Debug, PartialEq, Eq, Structural)]
pub struct Aabb {
    pub min: Point,
    pub max: Point,
}

/// Geometry that has an axis-aligned bounding box
pub trait BoundingVolume {
    /// The bounding box of the geometry, as a value
    spec fn spec_aabb(&self) -> Aabb;

    /// Return the geometry's axis-aligned bounding box
    fn aabb(&self) -> (r: Aabb)
        ensures
            r == self.spec_aabb(),
    ;
}

/// The least coordinate along `axis` of the points, or 0 where there are none
pub open spec fn lo(s: Seq<Point>, axis: int) -> i64
    decreases s.len(),
{
    if s.len() == 0 {
        0
    } else if s.len() == 1 {
        coord(s[0], axis)
    } else {
        let m = lo(s.drop_last(), axis);
        let c = coord(s.last(), axis);
        if c < m {
            c
        } else {
            m
        }
    }
}

/// The greatest coordinate along `axis` of the points, or 0 where there are none
pub open spec fn hi(s: Seq<Point>, axis: int) -> i64
    decreases s.len(),
{
    if s.len() == 0 {
        0
    } else if s.len() == 1 {
        coord(s[0], axis)
    } else {
        let m = hi(s.drop_last(), axis);
        let c = coord(s.last(), axis);
        if c > m {
            c
        } else {
            m
        }
    }
}

/// The bounding box of a set of points; a box at the origin where there
/// are none
pub open spec fn bounds_of(s: Seq<Point>) -> Aabb {
    Aabb {
        min: Point { x: lo(s, 0), y: lo(s, 1), z: lo(s, 2) },
        max: Point { x: hi(s, 0), y: hi(s, 1), z: hi(s, 2) },
    }
}

fn get_coord(p: Point, axis: usize) -> (r: i64)
    ensures
        r == coord(p, axis as int),
{
    if axis == 0 {
        p.x
    } else if axis == 1 {
        p.y
    } else {
        p.z
    }
}

fn extreme(points: &Vec<Point>, axis: usize, least: bool) -> (r: i64)
    ensures
        least ==> r == lo(points@, axis as int),
        !least ==> r == hi(points@, axis as int),
{
    if points.len() == 0 {
        return 0;
    }
    let mut m = get_coord(points[0], axis);
    let mut i: usize = 1;
    proof {
        assert(points@.take(1).drop_last() =~= points@.take(0));
    }
    while i < points.len()
        invariant
            1 <= i <= points.len(),
            least ==> m == lo(points@.take(i as int), axis as int),
            !least ==> m == hi(points@.take(i as int), axis as int),
        decreases points.len() - i,
    {
        let c = get_coord(points[i], axis);
        assert(points@.take(i + 1).drop_last() =~= points@.take(i as int));
        if (least && c < m) || (!least && c > m) {
            m = c;
        }
        i += 1;
    }
    assert(points@.take(i as int) =~= points@);
    m
}

/// The bounding box of the points
pub fn bounds(points: &Vec<Point>) -> (r: Aabb)
    ensures
        r == bounds_of(points@),
{
    Aabb {
        min: Point {
            x: extreme(points, 0, true),
            y: extreme(points, 1, true),
            z: extreme(points, 2, true),
        },
        max: Point {
            x: extreme(points, 0, false),
            y: extreme(points, 1, false),
            z: extreme(points, 2, false),
        },
    }
}

} // verus!
