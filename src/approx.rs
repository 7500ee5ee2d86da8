use vstd::prelude::*;

verus! {

/// A point on a curve: its coordinate in the curve's own parameter space,
/// together with where that point lies in model space.
#[derive(Clone, Copy, Debug, PartialEq)]
pub struct LocalPoint<L, G> {
    pub local: L,
    pub global: G,
}

impl<L: Copy, G: Copy> LocalPoint<L, G> {
    /// Pair a local coordinate with its position in model space
    pub fn new(local: L, global: G) -> (r: Self)
        ensures
            r.local == local,
            r.global == global,
    {
        LocalPoint { local, global }
    }
}

/// The single, exact representation of a location in model space
#[derive(Clone, Copy, Debug, PartialEq)]
pub struct GlobalVertex<G> {
    pub position: G,
}

impl<G: Copy> GlobalVertex<G> {
    /// Create a global vertex at the given position
    pub fn from_position(position: G) -> (r: Self)
        ensures
            r.position == position,
    {
        GlobalVertex { position }
    }

    /// The exact position of this vertex
    pub fn position(&self) -> (r: G)
        ensures
            r == self.position,
    {
        self.position
    }
}

/// A vertex on an edge: its coordinate along the edge's curve, and the
/// global vertex it stands at
#[derive(Clone, Copy, Debug, PartialEq)]
pub struct Vertex<L, G> {
    pub position: L,
    pub global: GlobalVertex<G>,
}

impl<L: Copy, G: Copy> Vertex<L, G> {
    /// Create a vertex from its local coordinate and its global vertex
    pub fn new(position: L, global: GlobalVertex<G>) -> (r: Self)
        ensures
            r.position == position,
            r.global == global,
    {
        Vertex { position, global }
    }

    /// The coordinate of this vertex along its edge's curve
    pub fn position(&self) -> (r: L)
        ensures
            r == self.position,
    {
        self.position
    }

    /// The global vertex this vertex stands at
    pub fn global(&self) -> (r: GlobalVertex<G>)
        ensures
            r == self.global,
    {
        self.global
    }
}

impl<L, G> Vertex<L, G> {
    /// This vertex as a point on the curve, with its exact global position
    pub open spec fn spec_local_point(self) -> LocalPoint<L, G> {
        LocalPoint { local: self.position, global: self.global.position }
    }
}

/// The vertices that bound an edge, in curve order: either none, for an
/// edge that connects to itself, or a start and an end
#[derive(Clone, Copy, Debug, PartialEq)]
pub struct VerticesOfEdge<L, G>(pub Option<[Vertex<L, G>; 2]>);

impl<L: Copy, G: Copy> VerticesOfEdge<L, G> {
    /// The vertices of an edge that has a start and an end
    pub fn from_vertices(vertices: [Vertex<L, G>; 2]) -> (r: Self)
        ensures
            r.0 == Some(vertices),
    {
        VerticesOfEdge(Some(vertices))
    }

    /// The vertices of an edge that connects to itself
    pub fn none() -> (r: Self)
        ensures
            r.0.is_none(),
    {
        VerticesOfEdge(None)
    }
}

/// The approximation of an edge, given its vertices and the interior points
/// that were sampled along its curve
pub open spec fn approximation<L, G>(
    vertices: VerticesOfEdge<L, G>,
    points: Seq<LocalPoint<L, G>>,
) -> Seq<LocalPoint<L, G>> {
    match vertices.0 {
        Some(v) => seq![v[0].spec_local_point()] + points + seq![v[1].spec_local_point()],
        None => if points.len() == 0 {
            points
        } else {
            points.push(points[0])
        },
    }
}

/// Insert the exact vertices of an edge into the approximation of its curve
///
/// The exact vertices are used instead of whatever the curve approximation
/// would deliver for them, so that points which refer to the same vertex are
/// identical, not merely close. An edge without vertices connects to itself:
/// its first point is repeated at the end.
pub fn approx_edge<L: Copy, G: Copy>(
    vertices: VerticesOfEdge<L, G>,
    points: &mut Vec<LocalPoint<L, G>>,
)
    ensures
        final(points)@ == approximation(vertices, old(points)@),
{
    match vertices.0 {
        Some(v) => {
            let a = LocalPoint::new(v[0].position(), v[0].global().position());
            let b = LocalPoint::new(v[1].position(), v[1].global().position());
            points.insert(0, a);
            points.push(b);
            assert(points@ =~= approximation(vertices, old(points)@));
        },
        None => {
            if points.len() > 0 {
                let first = points[0];
                points.push(first);
            }
        },
    }
}

/// Vertex exactness: with a start and an end vertex, the approximation
/// begins and ends with exactly those vertices, whatever the interior points
pub proof fn lemma_vertex_exactness<L, G>(
    start: Vertex<L, G>,
    end: Vertex<L, G>,
    points: Seq<LocalPoint<L, G>>,
)
    ensures
        ({
            let r = approximation(VerticesOfEdge(Some([start, end])), points);
            &&& r.first() == (LocalPoint { local: start.position, global: start.global.position })
            &&& r.last() == (LocalPoint { local: end.position, global: end.global.position })
            &&& r.subrange(1, r.len() - 1) == points
        }),
{
    let r = approximation(VerticesOfEdge(Some([start, end])), points);
    assert(r.subrange(1, r.len() - 1) =~= points);
}

/// Self-closed edges: without vertices, a non-empty approximation ends
/// where it begins, and an empty one stays empty
pub proof fn lemma_self_closed<L, G>(points: Seq<LocalPoint<L, G>>)
    ensures
        ({
            let r = approximation(VerticesOfEdge(None), points);
            &&& points.len() == 0 ==> r.len() == 0
            &&& points.len() > 0 ==> r.len() == points.len() + 1 && r.first() == r.last()
                && r.subrange(0, points.len() as int) == points
        }),
{
    let r = approximation(VerticesOfEdge(None), points);
    if points.len() > 0 {
        assert(r.subrange(0, points.len() as int) =~= points);
    }
}

/// Approximating an edge is a function of its vertices and interior points:
/// two runs on the same inputs give the same sequence
pub proof fn lemma_approximation_deterministic<L, G>(
    vertices: VerticesOfEdge<L, G>,
    points1: Seq<LocalPoint<L, G>>,
    points2: Seq<LocalPoint<L, G>>,
)
    requires
        points1 == points2,
    ensures
        approximation(vertices, points1) == approximation(vertices, points2),
{
}

} // verus!
