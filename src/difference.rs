use vstd::prelude::*;

use crate::geometry::{
    bounds, bounds_of, default_color, spec_reverse, Aabb, BoundingVolume, Point, Segment, Triangle,
};

verus! {

/// A circle around the origin
#[derive(Clone, Copy, Debug, PartialEq, Eq, Structural)]
pub struct Circle {
    pub radius: u32,
}

/// A two-dimensional shape that can be an operand of a difference
#[derive(Clone, Debug, PartialEq, Eq)]
pub enum Shape2d {
    /// A polygon, by its corners in boundary order
    Polygon(Vec<Point>),
    /// A circle; its boundary cannot be approximated yet
    Circle(Circle),
}

/// An operation that is not supported on some kind of shape
#[derive(Clone, Copy, Debug, PartialEq, Eq, Structural)]
pub enum OperationError {
    /// The boundary of a circle cannot be approximated yet
    CircleBoundary,
}

/// The difference `a - b` of two shapes, where `b` lies inside `a`
#[derive(Clone, Debug, PartialEq, Eq)]
pub struct Difference2d {
    pub a: Shape2d,
    pub b: Shape2d,
}

/// The bounding box of a shape
pub open spec fn shape_aabb(s: Shape2d) -> Aabb {
    match s {
        Shape2d::Polygon(v) => bounds_of(v@),
        Shape2d::Circle(c) => Aabb {
            min: Point { x: (-c.radius) as i64, y: (-c.radius) as i64, z: 0 },
            max: Point { x: c.radius as i64, y: c.radius as i64, z: 0 },
        },
    }
}

/// The edges of a polygon with the given corners: each corner to the next,
/// and the last back to the first
pub open spec fn polygon_edges(v: Seq<Point>) -> Seq<Segment> {
    Seq::new(v.len(), |i: int| Segment([v[i], v[(i + 1) % (v.len() as int)]]))
}

/// The boundary edges of a shape, where they can be computed
pub open spec fn boundary_edges(s: Shape2d) -> Option<Seq<Segment>> {
    match s {
        Shape2d::Polygon(v) => Some(polygon_edges(v@)),
        Shape2d::Circle(_) => None,
    }
}

/// The points that approximate the boundary of a shape, where they can be
/// computed
pub open spec fn boundary_points(s: Shape2d) -> Option<Seq<Point>> {
    match s {
        Shape2d::Polygon(v) => Some(v@),
        Shape2d::Circle(_) => None,
    }
}

/// Both end points of the segment are among the points
pub open spec fn on_boundary(b: Seq<Point>, p: Point, q: Point) -> bool {
    b.contains(p) && b.contains(q)
}

/// How many edges of the triangle have both end points among the points
pub open spec fn edges_on(b: Seq<Point>, t: [Point; 3]) -> nat {
    (if on_boundary(b, t[0], t[1]) { 1nat } else { 0nat }) + (if on_boundary(b, t[1], t[2]) {
        1nat
    } else {
        0nat
    }) + (if on_boundary(b, t[2], t[0]) { 1nat } else { 0nat })
}

/// The triangles that lie outside the subtracted region: those with at most
/// one edge on its boundary points, in their order, with the default color
pub open spec fn kept(b: Seq<Point>, ts: Seq<[Point; 3]>) -> Seq<Triangle>
    decreases ts.len(),
{
    if ts.len() == 0 {
        Seq::empty()
    } else {
        let k = kept(b, ts.drop_last());
        if edges_on(b, ts.last()) <= 1 {
            k.push(Triangle { points: ts.last(), color: default_color() })
        } else {
            k
        }
    }
}

fn contains_point(b: &Vec<Point>, p: Point) -> (r: bool)
    ensures
        r == b@.contains(p),
{
    let mut i: usize = 0;
    while i < b.len()
        invariant
            i <= b.len(),
            forall|j: int| 0 <= j < i ==> b@[j] != p,
        decreases b.len() - i,
    {
        if b[i] == p {
            return true;
        }
        i += 1;
    }
    false
}

fn count_edges_on(b: &Vec<Point>, t: [Point; 3]) -> (r: u8)
    ensures
        r as nat == edges_on(b@, t),
{
    let mut n: u8 = 0;
    if contains_point(b, t[0]) && contains_point(b, t[1]) {
        n += 1;
    }
    if contains_point(b, t[1]) && contains_point(b, t[2]) {
        n += 1;
    }
    if contains_point(b, t[2]) && contains_point(b, t[0]) {
        n += 1;
    }
    n
}

/// Keep the triangles that have at most one edge with both end points among
/// the boundary points of the subtracted shape, and give them the default
/// color
pub fn classify_triangles(b: &Vec<Point>, triangles: &Vec<[Point; 3]>) -> (r: Vec<Triangle>)
    ensures
        r@ == kept(b@, triangles@),
{
    let mut r: Vec<Triangle> = Vec::new();
    let mut i: usize = 0;
    while i < triangles.len()
        invariant
            i <= triangles.len(),
            r@ == kept(b@, triangles@.take(i as int)),
        decreases triangles.len() - i,
    {
        let t = triangles[i];
        assert(triangles@.take(i + 1).drop_last() =~= triangles@.take(i as int));
        if count_edges_on(b, t) <= 1 {
            r.push(Triangle { points: t, color: [255u8, 0u8, 0u8, 255u8] });
        }
        i += 1;
    }
    assert(triangles@.take(i as int) =~= triangles@);
    r
}

/// No triangle that survives the classification has two or more edges with
/// both end points among the boundary points of the subtracted shape
pub proof fn lemma_kept_triangles(b: Seq<Point>, ts: Seq<[Point; 3]>)
    ensures
        forall|j: int| 0 <= j < kept(b, ts).len() ==> edges_on(b, #[trigger] kept(b, ts)[j].points) <= 1,
    decreases ts.len(),
{
    if ts.len() > 0 {
        lemma_kept_triangles(b, ts.drop_last());
        let k = kept(b, ts.drop_last());
        assert forall|j: int| 0 <= j < kept(b, ts).len() implies edges_on(
            b,
            #[trigger] kept(b, ts)[j].points,
        ) <= 1 by {
            if j < k.len() {
                assert(kept(b, ts)[j] == k[j]);
            }
        }
    }
}

fn polygon_segments(v: &Vec<Point>) -> (r: Vec<Segment>)
    ensures
        r@ == polygon_edges(v@),
{
    let n = v.len();
    let mut r: Vec<Segment> = Vec::new();
    let mut i: usize = 0;
    while i < n
        invariant
            n == v.len(),
            i <= n,
            r@ == polygon_edges(v@).take(i as int),
        decreases n - i,
    {
        let next: usize = if i + 1 == n {
            0
        } else {
            i + 1
        };
        proof {
            if i + 1 == n {
                vstd::arithmetic::div_mod::lemma_mod_self_0(n as int);
            } else {
                vstd::arithmetic::div_mod::lemma_small_mod((i + 1) as nat, n as nat);
            }
        }
        r.push(Segment([v[i], v[next]]));
        assert(r@ =~= polygon_edges(v@).take(i + 1));
        i += 1;
    }
    assert(polygon_edges(v@).take(n as int) =~= polygon_edges(v@));
    r
}

impl Shape2d {
    /// The bounding box of the shape
    pub fn bounding_volume(&self) -> (r: Aabb)
        ensures
            r == shape_aabb(*self),
    {
        match self {
            Shape2d::Polygon(v) => bounds(v),
            Shape2d::Circle(c) => Aabb {
                min: Point { x: -(c.radius as i64), y: -(c.radius as i64), z: 0 },
                max: Point { x: c.radius as i64, y: c.radius as i64, z: 0 },
            },
        }
    }

    /// The edges of the shape's boundary
    pub fn edges(&self) -> (r: Result<Vec<Segment>, OperationError>)
        ensures
            match r {
                Ok(e) => boundary_edges(*self) == Some(e@),
                Err(err) => boundary_edges(*self) is None && err == OperationError::CircleBoundary,
            },
    {
        match self {
            Shape2d::Polygon(v) => Ok(polygon_segments(v)),
            Shape2d::Circle(_) => Err(OperationError::CircleBoundary),
        }
    }

    /// The points that approximate the shape's boundary
    pub fn approx_points(&self) -> (r: Result<Vec<Point>, OperationError>)
        ensures
            match r {
                Ok(p) => boundary_points(*self) == Some(p@),
                Err(err) => boundary_points(*self) is None && err == OperationError::CircleBoundary,
            },
    {
        match self {
            Shape2d::Polygon(v) => Ok(v.clone()),
            Shape2d::Circle(_) => Err(OperationError::CircleBoundary),
        }
    }
}

impl BoundingVolume for Shape2d {
    open spec fn spec_aabb(&self) -> Aabb {
        shape_aabb(*self)
    }

    fn aabb(&self) -> (r: Aabb) {
        self.bounding_volume()
    }
}

/// The edges of `a - b`: those of `a`, followed by those of `b` reversed, so
/// that the hole reads with the opposite winding
pub open spec fn difference_edges(ea: Seq<Segment>, eb: Seq<Segment>) -> Seq<Segment> {
    ea + eb.map_values(|s: Segment| spec_reverse(s))
}

impl Difference2d {
    /// The bounding box of the difference: that of `a`, which subtracting
    /// `b` can only make looser, never too small
    pub fn bounding_volume(&self) -> (r: Aabb)
        ensures
            r == shape_aabb(self.a),
    {
        self.a.bounding_volume()
    }

    /// The boundary edges of the difference; `b` is taken to lie inside `a`
    pub fn edges(&self) -> (r: Result<Vec<Segment>, OperationError>)
        ensures
            match r {
                Ok(e) => boundary_edges(self.a) is Some && boundary_edges(self.b) is Some
                    && e@ == difference_edges(
                    boundary_edges(self.a)->0,
                    boundary_edges(self.b)->0,
                ),
                Err(err) => (boundary_edges(self.a) is None || boundary_edges(self.b) is None)
                    && err == OperationError::CircleBoundary,
            },
    {
        let mut edges = self.a.edges()?;
        let eb = self.b.edges()?;
        let ghost ea = edges@;
        let mut i: usize = 0;
        while i < eb.len()
            invariant
                i <= eb.len(),
                edges@ == difference_edges(ea, eb@.take(i as int)),
            decreases eb.len() - i,
        {
            edges.push(eb[i].reverse());
            assert(edges@ =~= difference_edges(ea, eb@.take(i + 1)));
            i += 1;
        }
        assert(eb@.take(i as int) =~= eb@);
        Ok(edges)
    }

    /// The points to triangulate for the faces of the difference: the
    /// boundary points of `a`, followed by those of `b`
    pub fn vertices(&self) -> (r: Result<Vec<Point>, OperationError>)
        ensures
            match r {
                Ok(p) => boundary_points(self.a) is Some && boundary_points(self.b) is Some
                    && p@ == boundary_points(self.a)->0 + boundary_points(self.b)->0,
                Err(err) => (boundary_points(self.a) is None || boundary_points(self.b) is None)
                    && err == OperationError::CircleBoundary,
            },
    {
        let mut a = self.a.approx_points()?;
        let mut b = self.b.approx_points()?;
        a.append(&mut b);
        Ok(a)
    }

    /// The faces of the difference, from a triangulation of its `vertices`:
    /// the triangles with at most one edge whose end points both lie on the
    /// boundary of `b`, in the color that faces have by default
    pub fn faces(&self, triangles: &Vec<[Point; 3]>) -> (r: Result<Vec<Triangle>, OperationError>)
        ensures
            match r {
                Ok(f) => boundary_points(self.a) is Some && boundary_points(self.b) is Some
                    && f@ == kept(boundary_points(self.b)->0, triangles@),
                Err(err) => (boundary_points(self.a) is None || boundary_points(self.b) is None)
                    && err == OperationError::CircleBoundary,
            },
    {
        let _a = self.a.approx_points()?;
        let b = self.b.approx_points()?;
        Ok(classify_triangles(&b, triangles))
    }
}

impl BoundingVolume for Difference2d {
    open spec fn spec_aabb(&self) -> Aabb {
        shape_aabb(self.a)
    }

    fn aabb(&self) -> (r: Aabb) {
        self.bounding_volume()
    }
}

/// The bounding box of `a - b` is exactly that of `a`
pub proof fn lemma_difference_bounds(a: Shape2d, b: Shape2d)
    ensures
        (Difference2d { a, b }).spec_aabb() == a.spec_aabb(),
{
}

/// No face of `a - b` has two or more edges whose end points both lie on the
/// boundary of `b`
pub proof fn lemma_difference_faces(d: Difference2d, triangles: Seq<[Point; 3]>)
    requires
        boundary_points(d.b) is Some,
    ensures
        forall|j: int|
            0 <= j < kept(boundary_points(d.b)->0, triangles).len() ==> edges_on(
                boundary_points(d.b)->0,
                #[trigger] kept(boundary_points(d.b)->0, triangles)[j].points,
            ) <= 1,
{
    lemma_kept_triangles(boundary_points(d.b)->0, triangles);
}

} // verus!
