use vstd::prelude::*;

use crate::geometry::{normalize, norm_squared, is_isqrt, normalized, Point, DIR_SCALE};
use crate::random::gen_range_u64;

verus! {

/// Vertices of a boundary path stay within this distance of the origin on
/// each axis.
pub const PATH_LIMIT: i64 = 0x40000000; // 2^30

/// A sampled point lies at parameter `u / SAMPLE_RESOLUTION` along its segment.
pub const SAMPLE_RESOLUTION: i64 = 1_000_000;

pub open spec fn in_path_range(p: Point) -> bool {
    -PATH_LIMIT <= p.x <= PATH_LIMIT && -PATH_LIMIT <= p.y <= PATH_LIMIT
}

/// Why a list of vertices is not a boundary path.
#[derive(Clone, Copy, Debug, PartialEq, Eq, Structural)]
pub enum PathError {
    /// Fewer than three vertices.
    TooFewVertices,
    /// A vertex lies outside `PATH_LIMIT`.
    CoordinateOutOfRange,
    /// Two consecutive vertices (the last and the first included) coincide,
    /// so the edge between them has no direction.
    DegenerateGeometry,
}

/// A closed polygon: edge `i` runs from vertex `i` to vertex `(i + 1) % n`.
pub struct Path {
    vertices: Vec<Point>,
}

/// Edge `i` of a polygon with vertices `v` has two distinct ends.
pub open spec fn edge_nondegenerate(v: Seq<Point>, i: int) -> bool {
    v[i] != v[(i + 1) % v.len() as int]
}

pub open spec fn valid_vertices(v: Seq<Point>) -> bool {
    &&& v.len() >= 3
    &&& forall|i: int| 0 <= i < v.len() ==> #[trigger] in_path_range(v[i])
    &&& forall|i: int| 0 <= i < v.len() ==> #[trigger] edge_nondegenerate(v, i)
}

/// A straight piece of a path, from `begin` to `end`.
#[derive(Clone, Copy, Debug, PartialEq, Eq, Structural)]
pub struct DirectedLineSegment {
    begin: Point,
    end: Point,
}

/// One axis of the point at parameter `u / SAMPLE_RESOLUTION` from `a` to `b`,
/// rounded toward `a`.
pub open spec fn toward(a: int, b: int, u: int) -> int {
    if a <= b {
        a + (b - a) * u / (SAMPLE_RESOLUTION as int)
    } else {
        a - (a - b) * u / (SAMPLE_RESOLUTION as int)
    }
}

pub open spec fn min(a: int, b: int) -> int {
    if a <= b { a } else { b }
}

pub open spec fn max(a: int, b: int) -> int {
    if a <= b { b } else { a }
}

impl DirectedLineSegment {
    pub closed spec fn begin_spec(&self) -> Point {
        self.begin
    }

    pub closed spec fn end_spec(&self) -> Point {
        self.end
    }

    pub open spec fn wf(&self) -> bool {
        &&& self.begin_spec() != self.end_spec()
        &&& in_path_range(self.begin_spec())
        &&& in_path_range(self.end_spec())
    }

    /// The vector from `begin` to `end`.
    pub open spec fn delta(&self) -> Point {
        Point {
            x: (self.end_spec().x - self.begin_spec().x) as i64,
            y: (self.end_spec().y - self.begin_spec().y) as i64,
        }
    }

    /// The point at parameter `u / SAMPLE_RESOLUTION` along the segment.
    pub open spec fn point_at_spec(&self, u: int) -> Point {
        Point {
            x: toward(self.begin_spec().x as int, self.end_spec().x as int, u) as i64,
            y: toward(self.begin_spec().y as int, self.end_spec().y as int, u) as i64,
        }
    }

    pub fn begin(&self) -> (r: Point)
        ensures
            r == self.begin_spec(),
    {
        self.begin
    }

    pub fn end(&self) -> (r: Point)
        ensures
            r == self.end_spec(),
    {
        self.end
    }

    /// The vector from `begin` to `end`.
    pub fn delta_vector(&self) -> (r: Point)
        requires
            self.wf(),
        ensures
            r == self.delta(),
    {
        Point { x: self.end.x - self.begin.x, y: self.end.y - self.begin.y }
    }

    /// The segment's direction, of length about `DIR_SCALE`.
    pub fn rotation(&self) -> (r: Point)
        requires
            self.wf(),
        ensures
            exists|len: int| is_isqrt(norm_squared(self.delta()), len) && r == normalized(self.delta(), len),
            -DIR_SCALE <= r.x <= DIR_SCALE,
            -DIR_SCALE <= r.y <= DIR_SCALE,
    {
        normalize(self.delta_vector())
    }

    /// The integer length of the segment.
    pub fn len(&self) -> (r: u128)
        requires
            self.wf(),
        ensures
            is_isqrt(norm_squared(self.delta()), r as int),
    {
        let d = self.delta_vector();
        assert(0 <= d.x * d.x <= 0x4000000000000000) by (nonlinear_arith)
            requires
                -0x80000000 <= d.x <= 0x80000000,
        ;
        assert(0 <= d.y * d.y <= 0x4000000000000000) by (nonlinear_arith)
            requires
                -0x80000000 <= d.y <= 0x80000000,
        ;
        let xx: u128 = (d.x as i128 * d.x as i128) as u128;
        let yy: u128 = (d.y as i128 * d.y as i128) as u128;
        crate::geometry::isqrt(xx + yy)
    }

    /// The point at parameter `u / SAMPLE_RESOLUTION` along the segment, each
    /// axis rounded toward `begin`.
    pub fn point_at(&self, u: i64) -> (r: Point)
        requires
            self.wf(),
            0 <= u <= SAMPLE_RESOLUTION,
        ensures
            r == self.point_at_spec(u as int),
            min(self.begin_spec().x as int, self.end_spec().x as int) <= r.x
                <= max(self.begin_spec().x as int, self.end_spec().x as int),
            min(self.begin_spec().y as int, self.end_spec().y as int) <= r.y
                <= max(self.begin_spec().y as int, self.end_spec().y as int),
    {
        proof {
            lemma_toward_between(self.begin.x as int, self.end.x as int, u as int);
            lemma_toward_between(self.begin.y as int, self.end.y as int, u as int);
        }
        Point {
            x: axis_toward(self.begin.x, self.end.x, u),
            y: axis_toward(self.begin.y, self.end.y, u),
        }
    }

    /// A point drawn from `rng` on the segment: `begin + t * (end - begin)`
    /// for some `t` in `[0, 1]` on the `SAMPLE_RESOLUTION` grid.
    pub fn random_point(&self, rng: &mut rand::rngs::StdRng) -> (r: Point)
        requires
            self.wf(),
        ensures
            exists|u: int| 0 <= u <= SAMPLE_RESOLUTION && r == self.point_at_spec(u),
    {
        let u: u64 = gen_range_u64(rng, 0, SAMPLE_RESOLUTION as u64 + 1);
        self.point_at(u as i64)
    }
}

fn axis_toward(a: i64, b: i64, u: i64) -> (r: i64)
    requires
        -PATH_LIMIT <= a <= PATH_LIMIT,
        -PATH_LIMIT <= b <= PATH_LIMIT,
        0 <= u <= SAMPLE_RESOLUTION,
    ensures
        r == toward(a as int, b as int, u as int),
{
    proof {
        lemma_toward_between(a as int, b as int, u as int);
    }
    if a <= b {
        assert(0 <= (b - a) * u <= 0x80000000 * 1_000_000) by (nonlinear_arith)
            requires
                0 <= b - a <= 0x80000000,
                0 <= u <= 1_000_000,
        ;
        a + (b - a) * u / SAMPLE_RESOLUTION
    } else {
        assert(0 <= (a - b) * u <= 0x80000000 * 1_000_000) by (nonlinear_arith)
            requires
                0 <= a - b <= 0x80000000,
                0 <= u <= 1_000_000,
        ;
        a - (a - b) * u / SAMPLE_RESOLUTION
    }
}

/// A sampled point never leaves the box spanned by the two ends of its
/// segment: on each axis it lies between the two end coordinates.
pub proof fn lemma_toward_between(a: int, b: int, u: int)
    requires
        0 <= u <= SAMPLE_RESOLUTION,
    ensures
        min(a, b) <= toward(a, b, u) <= max(a, b),
        u == 0 ==> toward(a, b, u) == a,
        u == SAMPLE_RESOLUTION ==> toward(a, b, u) == b,
{
    let d = if a <= b { b - a } else { a - b };
    assert(0 <= d * u / 1_000_000 <= d) by (nonlinear_arith)
        requires
            d >= 0,
            0 <= u <= 1_000_000,
    ;
    assert(d * 1_000_000 / 1_000_000 == d) by (nonlinear_arith);
    assert(d * 0 / 1_000_000 == 0) by (nonlinear_arith);
}

/// Every point that `random_point` can return lies on its segment: at
/// parameter `t = u / SAMPLE_RESOLUTION` in `[0, 1]`, within the box spanned by
/// the two vertices, at `begin` for `t = 0` and at `end` for `t = 1`.
pub proof fn lemma_random_point_on_segment(seg: DirectedLineSegment, u: int)
    requires
        seg.wf(),
        0 <= u <= SAMPLE_RESOLUTION,
    ensures
        min(seg.begin_spec().x as int, seg.end_spec().x as int) <= seg.point_at_spec(u).x
            <= max(seg.begin_spec().x as int, seg.end_spec().x as int),
        min(seg.begin_spec().y as int, seg.end_spec().y as int) <= seg.point_at_spec(u).y
            <= max(seg.begin_spec().y as int, seg.end_spec().y as int),
        u == 0 ==> seg.point_at_spec(u) == seg.begin_spec(),
        u == SAMPLE_RESOLUTION ==> seg.point_at_spec(u) == seg.end_spec(),
{
    lemma_toward_between(seg.begin_spec().x as int, seg.end_spec().x as int, u);
    lemma_toward_between(seg.begin_spec().y as int, seg.end_spec().y as int, u);
}

proof fn lemma_next_index(i: int, n: int)
    requires
        0 <= i < n,
    ensures
        (i + 1) % n == if i + 1 == n { 0 } else { i + 1 },
{
    if i + 1 == n {
        vstd::arithmetic::div_mod::lemma_mod_self_0(n);
    } else {
        vstd::arithmetic::div_mod::lemma_small_mod((i + 1) as nat, n as nat);
    }
}

impl Path {
    pub closed spec fn points(&self) -> Seq<Point> {
        self.vertices@
    }

    pub open spec fn wf(&self) -> bool {
        valid_vertices(self.points())
    }

    /// The segment along edge `i`.
    pub open spec fn segment_spec(&self, i: int) -> (Point, Point) {
        (self.points()[i], self.points()[(i + 1) % self.points().len() as int])
    }

    /// Checks the vertices and builds the path; the first failing check, in
    /// the order of `PathError`, decides the error.
    pub fn new(vertices: Vec<Point>) -> (r: Result<Path, PathError>)
        ensures
            vertices@.len() < 3 ==> r == Err::<Path, PathError>(PathError::TooFewVertices),
            vertices@.len() >= 3 && (exists|i: int| 0 <= i < vertices@.len() && !#[trigger] in_path_range(vertices@[i]))
                ==> r == Err::<Path, PathError>(PathError::CoordinateOutOfRange),
            vertices@.len() >= 3 && (forall|i: int| 0 <= i < vertices@.len() ==> #[trigger] in_path_range(vertices@[i]))
                && (exists|i: int| 0 <= i < vertices@.len() && !#[trigger] edge_nondegenerate(vertices@, i))
                ==> r == Err::<Path, PathError>(PathError::DegenerateGeometry),
            r is Ok <==> valid_vertices(vertices@),
            r matches Ok(p) ==> p.points() == vertices@,
    {
        let n: usize = vertices.len();
        if n < 3 {
            return Err(PathError::TooFewVertices);
        }
        let mut i: usize = 0;
        while i < n
            invariant
                n == vertices@.len(),
                n >= 3,
                i <= n,
                forall|k: int| 0 <= k < i ==> #[trigger] in_path_range(vertices@[k]),
            decreases n - i,
        {
            let p = vertices[i];
            if !(-PATH_LIMIT <= p.x && p.x <= PATH_LIMIT && -PATH_LIMIT <= p.y && p.y <= PATH_LIMIT) {
                assert(!in_path_range(vertices@[i as int]));
                return Err(PathError::CoordinateOutOfRange);
            }
            i = i + 1;
        }
        let mut j: usize = 0;
        while j < n
            invariant
                n == vertices@.len(),
                n >= 3,
                j <= n,
                forall|k: int| 0 <= k < n ==> #[trigger] in_path_range(vertices@[k]),
                forall|k: int| 0 <= k < j ==> #[trigger] edge_nondegenerate(vertices@, k),
            decreases n - j,
        {
            let next: usize = if j + 1 == n { 0 } else { j + 1 };
            proof {
                lemma_next_index(j as int, n as int);
            }
            if vertices[j] == vertices[next] {
                assert(!edge_nondegenerate(vertices@, j as int));
                return Err(PathError::DegenerateGeometry);
            }
            j = j + 1;
        }
        Ok(Path { vertices })
    }

    pub fn vertex_count(&self) -> (r: usize)
        ensures
            r == self.points().len(),
    {
        self.vertices.len()
    }

    /// The segment along edge `i`, from vertex `i` to vertex `(i + 1) % n`.
    pub fn segment(&self, i: usize) -> (r: DirectedLineSegment)
        requires
            self.wf(),
            i < self.points().len(),
        ensures
            r.wf(),
            r.begin_spec() == self.points()[i as int],
            r.end_spec() == self.points()[(i + 1) % self.points().len() as int],
    {
        let n: usize = self.vertices.len();
        let next: usize = if i + 1 == n { 0 } else { i + 1 };
        proof {
            lemma_next_index(i as int, n as int);
        }
        assert(edge_nondegenerate(self.points(), i as int));
        assert(in_path_range(self.points()[i as int]));
        assert(in_path_range(self.points()[next as int]));
        DirectedLineSegment { begin: self.vertices[i], end: self.vertices[next] }
    }

    /// The segment along an edge drawn from `rng`.
    pub fn random_segment(&self, rng: &mut rand::rngs::StdRng) -> (r: DirectedLineSegment)
        requires
            self.wf(),
        ensures
            r.wf(),
            exists|i: int|
                0 <= i < self.points().len()
                && r.begin_spec() == #[trigger] self.points()[i]
                && r.end_spec() == self.points()[(i + 1) % self.points().len() as int],
    {
        let n: usize = self.vertices.len();
        let i: u64 = gen_range_u64(rng, 0, n as u64);
        self.segment(i as usize)
    }
}

/// The boundary on which enemies appear: a rectangle 400 pixels wide and 720
/// tall round the origin, traversed clockwise.
pub struct ScreenPath(pub Path);

impl Default for ScreenPath {
    fn default() -> (r: ScreenPath)
        ensures
            r.0.wf(),
            r.0.points() == seq![
                Point { x: -200_000i64, y: 360_000i64 },
                Point { x: 200_000i64, y: 360_000i64 },
                Point { x: 200_000i64, y: -360_000i64 },
                Point { x: -200_000i64, y: -360_000i64 },
            ],
    {
        let v = vec![
            Point { x: -200_000, y: 360_000 },
            Point { x: 200_000, y: 360_000 },
            Point { x: 200_000, y: -360_000 },
            Point { x: -200_000, y: -360_000 },
        ];
        let ghost s = v@;
        assert(s.len() == 4);
        proof {
            lemma_next_index(0, 4);
            lemma_next_index(1, 4);
            lemma_next_index(2, 4);
            lemma_next_index(3, 4);
        }
        assert(forall|i: int| 0 <= i < 4 ==> #[trigger] in_path_range(s[i]));
        assert(edge_nondegenerate(s, 0));
        assert(edge_nondegenerate(s, 1));
        assert(edge_nondegenerate(s, 2));
        assert(edge_nondegenerate(s, 3));
        match Path::new(v) {
            Ok(p) => ScreenPath(p),
            Err(_) => {
                assert(false);
                ScreenPath(Path { vertices: Vec::new() })
            }
        }
    }
}

} // verus!
