use vstd::prelude::*;

verus! {

/// An edge of a shape, known by the global vertices it runs between
#[derive(Clone, Copy, Debug, PartialEq, Eq)]
pub struct Edge {
    /// Identifiers of the global vertices at the edge's start and end, or
    /// `None` for an edge that connects to itself
    pub vertices: Option<(u64, u64)>,
}

/// A closed chain of edges, given by their handles in the owning shape
#[derive(Clone, Debug, PartialEq, Eq)]
pub struct Cycle {
    pub edges: Vec<usize>,
}

/// Why a proposed cycle was rejected
#[derive(Clone, Copy, Debug, PartialEq, Eq, Structural)]
pub enum ValidationError {
    /// An edge handle does not refer to an edge of the shape
    UnknownEdge,
    /// The edges do not form a closed loop
    NotClosed,
    /// The loop passes through an edge or a vertex more than once
    SelfOverlap,
    /// The shape already has a cycle with the same set of edges
    Duplicate,
}

/// Every handle refers to an edge of the shape
pub open spec fn known(edges: Seq<Edge>, hs: Seq<usize>) -> bool {
    forall|i: int| 0 <= i < hs.len() ==> #[trigger] hs[i] < edges.len()
}

/// The edge at position `i` of the chain ends where the next one starts
pub open spec fn links(edges: Seq<Edge>, hs: Seq<usize>, i: int) -> bool {
    let e = edges[hs[i] as int];
    let f = edges[hs[(i + 1) % (hs.len() as int)] as int];
    end_of(e) is Some && end_of(e) == start_of(f)
}

/// The global vertex an edge ends at, if it has one
pub open spec fn end_of(e: Edge) -> Option<u64> {
    match e.vertices {
        Some(v) => Some(v.1),
        None => None,
    }
}

/// The chain is a single edge that connects to itself
pub open spec fn self_closed(edges: Seq<Edge>, hs: Seq<usize>) -> bool {
    hs.len() == 1 && edges[hs[0] as int].vertices is None
}

/// The chain forms a closed loop
pub open spec fn closes(edges: Seq<Edge>, hs: Seq<usize>) -> bool {
    hs.len() > 0 && (self_closed(edges, hs) || forall|i: int|
        0 <= i < hs.len() ==> #[trigger] links(edges, hs, i))
}

/// The global vertex an edge starts at, if it has one
pub open spec fn start_of(e: Edge) -> Option<u64> {
    match e.vertices {
        Some(v) => Some(v.0),
        None => None,
    }
}

/// No edge and no start vertex occurs twice in the chain
pub open spec fn simple(edges: Seq<Edge>, hs: Seq<usize>) -> bool {
    forall|i: int, j: int|
        0 <= i < j < hs.len() ==> #[trigger] hs[i] != #[trigger] hs[j] && start_of(
            edges[hs[i] as int],
        ) != start_of(edges[hs[j] as int])
}

/// Two chains consist of the same set of edges
pub open spec fn same_edges(a: Seq<usize>, b: Seq<usize>) -> bool {
    forall|x: usize| a.contains(x) <==> b.contains(x)
}

/// Some existing cycle consists of the same set of edges
pub open spec fn duplicate(cycles: Seq<Seq<usize>>, hs: Seq<usize>) -> bool {
    exists|k: int| 0 <= k < cycles.len() && same_edges(#[trigger] cycles[k], hs)
}

/// The first condition that a proposed cycle fails, if any
pub open spec fn validate(edges: Seq<Edge>, cycles: Seq<Seq<usize>>, hs: Seq<usize>) -> Option<
    ValidationError,
> {
    if !known(edges, hs) {
        Some(ValidationError::UnknownEdge)
    } else if !closes(edges, hs) {
        Some(ValidationError::NotClosed)
    } else if !simple(edges, hs) {
        Some(ValidationError::SelfOverlap)
    } else if duplicate(cycles, hs) {
        Some(ValidationError::Duplicate)
    } else {
        None
    }
}

/// The cycles of a shape, together with the edges they are built from
pub struct Cycles {
    edges: Vec<Edge>,
    cycles: Vec<Cycle>,
}

impl Cycle {
    /// A copy of this cycle
    pub fn duplicate(&self) -> (r: Cycle)
        ensures
            r.edges@ == self.edges@,
    {
        Cycle { edges: self.edges.clone() }
    }
}

impl Cycles {
    /// The edges of the shape, by handle
    pub closed spec fn spec_edges(&self) -> Seq<Edge> {
        self.edges@
    }

    /// The cycles of the shape, each as its sequence of edge handles
    pub closed spec fn spec_cycles(&self) -> Seq<Seq<usize>> {
        self.cycles@.map_values(|c: Cycle| c.edges@)
    }

    /// Every cycle of the shape refers to its edges and forms a simple,
    /// closed loop
    pub open spec fn wf(&self) -> bool {
        forall|k: int|
            0 <= k < self.spec_cycles().len() ==> known(self.spec_edges(), #[trigger] self.spec_cycles()[k])
                && closes(self.spec_edges(), self.spec_cycles()[k]) && simple(self.spec_edges(), self.spec_cycles()[k])
    }

    /// A shape without edges or cycles
    pub fn new() -> (r: Self)
        ensures
            r.wf(),
            r.spec_edges().len() == 0,
            r.spec_cycles().len() == 0,
    {
        let r = Cycles { edges: Vec::new(), cycles: Vec::new() };
        assert(r.spec_cycles() =~= Seq::empty());
        r
    }
}

fn edge_start(e: Edge) -> (r: Option<u64>)
    ensures
        r == start_of(e),
{
    match e.vertices {
        Some(v) => Some(v.0),
        None => None,
    }
}

fn edge_end(e: Edge) -> (r: Option<u64>)
    ensures
        r == end_of(e),
{
    match e.vertices {
        Some(v) => Some(v.1),
        None => None,
    }
}

fn all_known(edges: &Vec<Edge>, hs: &Vec<usize>) -> (r: bool)
    ensures
        r == known(edges@, hs@),
{
    let mut i: usize = 0;
    while i < hs.len()
        invariant
            i <= hs.len(),
            known(edges@, hs@.take(i as int)),
        decreases hs.len() - i,
    {
        if hs[i] >= edges.len() {
            assert(!(hs@[i as int] < edges@.len()));
            return false;
        }
        assert(known(edges@, hs@.take(i + 1)));
        i += 1;
    }
    assert(hs@.take(i as int) =~= hs@);
    true
}

fn is_closed(edges: &Vec<Edge>, hs: &Vec<usize>) -> (r: bool)
    requires
        known(edges@, hs@),
    ensures
        r == closes(edges@, hs@),
{
    let n = hs.len();
    if n == 0 {
        return false;
    }
    if n == 1 && edges[hs[0]].vertices.is_none() {
        return true;
    }
    let mut i: usize = 0;
    while i < n
        invariant
            n == hs.len(),
            n > 0,
            !self_closed(edges@, hs@),
            known(edges@, hs@),
            i <= n,
            forall|j: int| 0 <= j < i ==> #[trigger] links(edges@, hs@, j),
        decreases n - i,
    {
        let next: usize = if i + 1 == n {
            0
        } else {
            i + 1
        };
        proof {
            if i + 1 == n {
                vstd::arithmetic::div_mod::lemma_mod_self_0(n as int);
            } else {
                vstd::arithmetic::div_mod::lemma_small_mod((i + 1) as nat, n as nat);
            }
        }
        let e = edge_end(edges[hs[i]]);
        let f = edge_start(edges[hs[next]]);
        if e.is_none() || e != f {
            assert(!links(edges@, hs@, i as int));
            return false;
        }
        assert(links(edges@, hs@, i as int));
        i += 1;
    }
    true
}

fn is_simple(edges: &Vec<Edge>, hs: &Vec<usize>) -> (r: bool)
    requires
        known(edges@, hs@),
    ensures
        r == simple(edges@, hs@),
{
    let n = hs.len();
    let mut i: usize = 0;
    while i < n
        invariant
            n == hs.len(),
            known(edges@, hs@),
            i <= n,
            forall|a: int, b: int|
                0 <= a < i && a < b < n ==> #[trigger] hs@[a] != #[trigger] hs@[b] && start_of(
                    edges@[hs@[a] as int],
                ) != start_of(edges@[hs@[b] as int]),
        decreases n - i,
    {
        let mut j: usize = i + 1;
        while j < n
            invariant
                n == hs.len(),
                known(edges@, hs@),
                i < n,
                i < j <= n,
                forall|a: int, b: int|
                    0 <= a < i && a < b < n ==> #[trigger] hs@[a] != #[trigger] hs@[b] && start_of(
                        edges@[hs@[a] as int],
                    ) != start_of(edges@[hs@[b] as int]),
                forall|b: int|
                    i < b < j ==> hs@[i as int] != #[trigger] hs@[b] && start_of(
                        edges@[hs@[i as int] as int],
                    ) != start_of(edges@[hs@[b] as int]),
            decreases n - j,
        {
            if hs[i] == hs[j] || edge_start(edges[hs[i]]) == edge_start(edges[hs[j]]) {
                return false;
            }
            j += 1;
        }
        i += 1;
    }
    true
}

fn contains(v: &Vec<usize>, x: usize) -> (r: bool)
    ensures
        r == v@.contains(x),
{
    let mut i: usize = 0;
    while i < v.len()
        invariant
            i <= v.len(),
            forall|j: int| 0 <= j < i ==> v@[j] != x,
        decreases v.len() - i,
    {
        if v[i] == x {
            return true;
        }
        i += 1;
    }
    false
}

fn included(a: &Vec<usize>, b: &Vec<usize>) -> (r: bool)
    ensures
        r == (forall|x: usize| a@.contains(x) ==> b@.contains(x)),
{
    let mut i: usize = 0;
    while i < a.len()
        invariant
            i <= a.len(),
            forall|j: int| 0 <= j < i ==> b@.contains(#[trigger] a@[j]),
        decreases a.len() - i,
    {
        if !contains(b, a[i]) {
            assert(a@.contains(a@[i as int]));
            return false;
        }
        i += 1;
    }
    true
}

fn has_same_edges(a: &Vec<usize>, b: &Vec<usize>) -> (r: bool)
    ensures
        r == same_edges(a@, b@),
{
    included(a, b) && included(b, a)
}

impl Cycles {
    fn is_duplicate(&self, hs: &Vec<usize>) -> (r: bool)
        ensures
            r == duplicate(self.spec_cycles(), hs@),
    {
        let mut k: usize = 0;
        while k < self.cycles.len()
            invariant
                k <= self.cycles.len(),
                self.spec_cycles().len() == self.cycles@.len(),
                forall|j: int| 0 <= j < k ==> !same_edges(#[trigger] self.spec_cycles()[j], hs@),
            decreases self.cycles.len() - k,
        {
            if has_same_edges(&self.cycles[k].edges, hs) {
                assert(same_edges(self.spec_cycles()[k as int], hs@));
                return true;
            }
            k += 1;
        }
        false
    }

    /// Register an edge with the shape, and return its handle
    pub fn add_edge(&mut self, edge: Edge) -> (h: usize)
        requires
            old(self).wf(),
            old(self).spec_edges().len() < usize::MAX,
        ensures
            final(self).wf(),
            h == old(self).spec_edges().len(),
            final(self).spec_edges() == old(self).spec_edges().push(edge),
            final(self).spec_cycles() == old(self).spec_cycles(),
    {
        let h = self.edges.len();
        let ghost edges0 = self.edges@;
        self.edges.push(edge);
        assert forall|k: int| 0 <= k < self.spec_cycles().len() implies known(
            self.spec_edges(),
            #[trigger] self.spec_cycles()[k],
        ) && closes(self.spec_edges(), self.spec_cycles()[k]) && simple(
            self.spec_edges(),
            self.spec_cycles()[k],
        ) by {
            let hs = self.spec_cycles()[k];
            assert(old(self).spec_cycles()[k] == hs);
            assert(known(edges0, hs));
            assert(closes(edges0, hs));
            assert(simple(edges0, hs));
            assert forall|i: int| 0 <= i < hs.len() implies self.edges@[hs[i] as int] == edges0[hs[i] as int] by {
                assert(hs[i] < edges0.len());
            }
            if !self_closed(edges0, hs) {
                assert forall|i: int| 0 <= i < hs.len() implies #[trigger] links(self.spec_edges(), hs, i) by {
                    assert(links(edges0, hs, i));
                    let n = hs.len() as int;
                    assert(0 <= (i + 1) % n < n);
                    assert(hs[(i + 1) % n] < edges0.len());
                }
            }
        }
        h
    }

    /// Create a cycle from the edges with the given handles, after checking
    /// that they are edges of the shape, that they form a closed loop which
    /// does not overlap itself, and that no cycle of the shape has the same
    /// edges
    pub fn create(&mut self, edges: Vec<usize>) -> (r: Result<Cycle, ValidationError>)
        requires
            old(self).wf(),
        ensures
            final(self).wf(),
            final(self).spec_edges() == old(self).spec_edges(),
            match r {
                Ok(c) => {
                    &&& validate(old(self).spec_edges(), old(self).spec_cycles(), edges@) is None
                    &&& c.edges@ == edges@
                    &&& final(self).spec_cycles() == old(self).spec_cycles().push(edges@)
                },
                Err(e) => {
                    &&& validate(old(self).spec_edges(), old(self).spec_cycles(), edges@) == Some(e)
                    &&& final(self).spec_cycles() == old(self).spec_cycles()
                },
            },
    {
        if !all_known(&self.edges, &edges) {
            return Err(ValidationError::UnknownEdge);
        }
        if !is_closed(&self.edges, &edges) {
            return Err(ValidationError::NotClosed);
        }
        if !is_simple(&self.edges, &edges) {
            return Err(ValidationError::SelfOverlap);
        }
        if self.is_duplicate(&edges) {
            return Err(ValidationError::Duplicate);
        }
        let cycle = Cycle { edges };
        let ghost cycles0 = self.spec_cycles();
        self.cycles.push(cycle.duplicate());
        assert(self.spec_cycles() =~= cycles0.push(edges@));
        Ok(cycle)
    }

    /// All cycles of the shape
    pub fn all(&self) -> (r: Vec<Cycle>)
        ensures
            r@.len() == self.spec_cycles().len(),
            forall|k: int| 0 <= k < r@.len() ==> #[trigger] r@[k].edges@ == self.spec_cycles()[k],
    {
        let mut r: Vec<Cycle> = Vec::new();
        let mut k: usize = 0;
        while k < self.cycles.len()
            invariant
                k <= self.cycles.len(),
                self.spec_cycles().len() == self.cycles@.len(),
                r@.len() == k,
                forall|j: int| 0 <= j < k ==> #[trigger] r@[j].edges@ == self.spec_cycles()[j],
            decreases self.cycles.len() - k,
        {
            r.push(self.cycles[k].duplicate());
            k += 1;
        }
        r
    }
}

/// In a cycle of a well-formed shape, each edge ends at the global vertex
/// where the next one starts, wrapping around; the one exception is a cycle
/// of a single edge that connects to itself
pub proof fn lemma_cycles_close(shape: Cycles, k: int, i: int)
    requires
        shape.wf(),
        0 <= k < shape.spec_cycles().len(),
        0 <= i < shape.spec_cycles()[k].len(),
    ensures
        ({
            let edges = shape.spec_edges();
            let hs = shape.spec_cycles()[k];
            let n = hs.len() as int;
            ||| self_closed(edges, hs)
            ||| end_of(edges[hs[i] as int]) is Some && end_of(edges[hs[i] as int]) == start_of(
                edges[hs[(i + 1) % n] as int],
            )
        }),
{
    assert(closes(shape.spec_edges(), shape.spec_cycles()[k]));
    if !self_closed(shape.spec_edges(), shape.spec_cycles()[k]) {
        assert(links(shape.spec_edges(), shape.spec_cycles()[k], i));
    }
}

/// A chain with a gap is never accepted as a cycle
pub proof fn lemma_gap_rejected(edges: Seq<Edge>, cycles: Seq<Seq<usize>>, hs: Seq<usize>, i: int)
    requires
        known(edges, hs),
        0 <= i < hs.len(),
        !self_closed(edges, hs),
        !links(edges, hs, i),
    ensures
        validate(edges, cycles, hs) == Some(ValidationError::NotClosed),
{
}

/// Once a cycle has been created, creating another from the same set of
/// edges, in any order, is rejected; from the very same sequence, it is
/// rejected as a duplicate
pub proof fn lemma_duplicate_rejected(
    edges: Seq<Edge>,
    cycles: Seq<Seq<usize>>,
    hs: Seq<usize>,
    again: Seq<usize>,
)
    requires
        validate(edges, cycles, hs) is None,
        same_edges(hs, again),
    ensures
        validate(edges, cycles.push(hs), again) is Some,
        validate(edges, cycles.push(hs), hs) == Some(ValidationError::Duplicate),
{
    assert(cycles.push(hs)[cycles.len() as int] == hs);
    assert(same_edges(hs, hs));
}

} // verus!
