//! Fixed-point plane geometry: points, line segments stored as midpoint and
//! direction, and the input-debouncing distance test.
//!
//! Coordinates are integers in units of one millionth of a normalized device
//! coordinate, so the drawing epsilon of 1e-3 is exactly `DEBOUNCE_EPS` units.
//! A segment stores `position = from + to` (twice its midpoint) and
//! `dir = to - from`; keeping the doubled midpoint makes both endpoints
//! reconstructible exactly, with no rounding.

use vstd::prelude::*;

verus! {

/// Units per normalized-device-coordinate unit.
pub const COORD_SCALE: i64 = 1_000_000;

/// Debouncing epsilon (1e-3 in normalized device coordinates).
pub const DEBOUNCE_EPS: i64 = 1_000;

/// Bound on the coordinates accepted from input mapping; keeps every sum and
/// difference of two coordinates far inside the `i64` range.
pub const COORD_LIMIT: i64 = 0x1_0000_0000;

/// A point or vector of the drawing plane, in fixed-point units.
#[derive(Clone, Copy, PartialEq, Eq, Structural, Debug)]
pub struct Vec2I {
    pub x: i64,
    pub y: i64,
}

pub open spec fn coord_ok(c: i64) -> bool {
    -COORD_LIMIT <= c <= COORD_LIMIT
}

pub open spec fn point_ok(p: Vec2I) -> bool {
    coord_ok(p.x) && coord_ok(p.y)
}

/// Two points are close enough to be debounced when each coordinate differs
/// by at most the epsilon.
pub open spec fn within_eps(a: Vec2I, b: Vec2I) -> bool {
    &&& -DEBOUNCE_EPS <= a.x - b.x <= DEBOUNCE_EPS
    &&& -DEBOUNCE_EPS <= a.y - b.y <= DEBOUNCE_EPS
}

/// Runtime debouncing test.
pub fn points_within_eps(a: Vec2I, b: Vec2I) -> (r: bool)
    requires
        point_ok(a),
        point_ok(b),
    ensures
        r == within_eps(a, b),
{
    let dx = a.x - b.x;
    let dy = a.y - b.y;
    -DEBOUNCE_EPS <= dx && dx <= DEBOUNCE_EPS && -DEBOUNCE_EPS <= dy && dy <= DEBOUNCE_EPS
}

/// One drawable line segment: `position` is twice the midpoint of the two
/// endpoints, `dir` is `to - from`.
#[derive(Clone, Copy, PartialEq, Eq, Structural, Debug)]
pub struct Line {
    pub position: Vec2I,
    pub dir: Vec2I,
}

/// The segment recorded for a pair of endpoints.
pub open spec fn line_between(from: Vec2I, to: Vec2I) -> Line {
    Line {
        position: Vec2I { x: (from.x + to.x) as i64, y: (from.y + to.y) as i64 },
        dir: Vec2I { x: (to.x - from.x) as i64, y: (to.y - from.y) as i64 },
    }
}

/// Twice the first endpoint of a segment: `2 * (center - direction / 2)`.
pub open spec fn start2(l: Line) -> (int, int) {
    (l.position.x - l.dir.x, l.position.y - l.dir.y)
}

/// Twice the second endpoint of a segment: `2 * (center + direction / 2)`.
pub open spec fn end2(l: Line) -> (int, int) {
    (l.position.x + l.dir.x, l.position.y + l.dir.y)
}

/// A segment is degenerate when its endpoints are within the epsilon of each
/// other; such segments are never recorded.
pub open spec fn degenerate(l: Line) -> bool {
    &&& -DEBOUNCE_EPS <= l.dir.x <= DEBOUNCE_EPS
    &&& -DEBOUNCE_EPS <= l.dir.y <= DEBOUNCE_EPS
}

/// Both stored vectors of a segment stay within twice the coordinate bound.
pub open spec fn seg_ok(l: Line) -> bool {
    &&& -2 * COORD_LIMIT <= l.position.x <= 2 * COORD_LIMIT
    &&& -2 * COORD_LIMIT <= l.position.y <= 2 * COORD_LIMIT
    &&& -2 * COORD_LIMIT <= l.dir.x <= 2 * COORD_LIMIT
    &&& -2 * COORD_LIMIT <= l.dir.y <= 2 * COORD_LIMIT
}

impl Line {
    /// Records the segment between two endpoints.
    pub fn new(from: Vec2I, to: Vec2I) -> (r: Line)
        requires
            point_ok(from),
            point_ok(to),
        ensures
            r == line_between(from, to),
            seg_ok(r),
    {
        Line {
            position: Vec2I { x: from.x + to.x, y: from.y + to.y },
            dir: Vec2I { x: to.x - from.x, y: to.y - from.y },
        }
    }
}

/// An ordered collection of segments.
#[derive(Debug, Default, Clone)]
pub struct Lines(Vec<Line>);

impl View for Lines {
    type V = Seq<Line>;

    closed spec fn view(&self) -> Seq<Line> {
        self.0@
    }
}

impl Lines {
    /// An empty collection.
    pub fn new() -> (r: Lines)
        ensures
            r@ =~= Seq::<Line>::empty(),
    {
        Lines(Vec::new())
    }

    /// Removes every segment.
    pub fn clear(&mut self)
        ensures
            final(self)@ =~= Seq::<Line>::empty(),
    {
        self.0.clear();
    }

    /// Appends one segment.
    pub fn add(&mut self, line: Line)
        ensures
            final(self)@ =~= old(self)@.push(line),
    {
        self.0.push(line);
    }

    /// Appends every segment of another collection, in order.
    pub fn extend(&mut self, segments: &Lines)
        ensures
            final(self)@ =~= old(self)@ + segments@,
    {
        let mut i: usize = 0;
        while i < segments.0.len()
            invariant
                0 <= i <= segments.0@.len(),
                self.0@ =~= old(self).0@ + segments.0@.take(i as int),
            decreases segments.0@.len() - i,
        {
            self.0.push(segments.0[i]);
            proof {
                assert(self.0@ =~= old(self).0@ + segments.0@.take(i as int + 1));
            }
            i = i + 1;
        }
        proof {
            assert(segments.0@.take(segments.0@.len() as int) =~= segments.0@);
        }
    }

    /// Number of segments.
    pub fn len(&self) -> (n: usize)
        ensures
            n == self@.len(),
    {
        self.0.len()
    }

    /// One segment.
    pub fn at(&self, i: usize) -> (l: Line)
        requires
            i < self@.len(),
        ensures
            l == self@[i as int],
    {
        self.0[i]
    }
}

/// Reconstruction: for any recorded segment, `center - direction/2` and
/// `center + direction/2` are exactly the two input endpoints (stated over
/// doubled coordinates, which avoid any rounding).
pub proof fn lemma_line_reconstruction(from: Vec2I, to: Vec2I)
    requires
        point_ok(from),
        point_ok(to),
    ensures
        start2(line_between(from, to)) == (2 * from.x as int, 2 * from.y as int),
        end2(line_between(from, to)) == (2 * to.x as int, 2 * to.y as int),
{
}

/// Two points within the epsilon in Euclidean distance are always debounced:
/// the squared-distance bound forces each coordinate difference within the
/// epsilon.
pub proof fn lemma_euclidean_within_eps(a: Vec2I, b: Vec2I)
    requires
        (a.x - b.x) * (a.x - b.x) + (a.y - b.y) * (a.y - b.y) <= DEBOUNCE_EPS * DEBOUNCE_EPS,
    ensures
        within_eps(a, b),
{
    let dx = a.x - b.x;
    let dy = a.y - b.y;
    assert(-DEBOUNCE_EPS <= dx <= DEBOUNCE_EPS && -DEBOUNCE_EPS <= dy <= DEBOUNCE_EPS)
        by (nonlinear_arith)
        requires
            dx * dx + dy * dy <= DEBOUNCE_EPS * DEBOUNCE_EPS,
    ;
}

/// A segment recorded for endpoints that are not within the epsilon is never
/// degenerate.
pub proof fn lemma_line_nondegenerate(from: Vec2I, to: Vec2I)
    requires
        point_ok(from),
        point_ok(to),
        !within_eps(from, to),
    ensures
        !degenerate(line_between(from, to)),
{
}

} // verus!
