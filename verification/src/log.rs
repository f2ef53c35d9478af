//! The append-only geometry log: committed strokes, the in-progress pending
//! stroke, and the debounced append operation.
//!
//! The log is seeded with one empty placeholder stroke, so removing the most
//! recent stroke only has to check that more than that placeholder exists.
//! The mathematical model of the log is [`LogModel`]; every operation's
//! contract states its exact transition on the model.

use vstd::prelude::*;

use crate::geom::{
    degenerate, end2, line_between, point_ok, points_within_eps, seg_ok, within_eps, Line, Vec2I,
};

verus! {

/// Mathematical state of the geometry log.
#[verifier::ext_equal]
pub ghost struct LogModel {
    /// Committed strokes, oldest first; always holds the placeholder.
    pub committed: Seq<Seq<Line>>,
    /// Segments of the stroke being drawn, oldest first.
    pub pending: Seq<Line>,
    /// Start point of the current stroke, set by its first input point.
    pub anchor: Option<Vec2I>,
    /// Endpoint of the last pending segment.
    pub tip: Option<Vec2I>,
}

/// All committed strokes, in order, as one flat sequence of segments.
pub open spec fn flat(ss: Seq<Seq<Line>>) -> Seq<Line>
    decreases ss.len(),
{
    if ss.len() == 0 {
        Seq::empty()
    } else {
        flat(ss.drop_last()) + ss.last()
    }
}

/// Total number of committed segments.
pub open spec fn seg_total(ss: Seq<Seq<Line>>) -> nat {
    flat(ss).len()
}

/// Every segment of a stroke is in bounds and non-degenerate.
pub open spec fn stroke_ok(s: Seq<Line>) -> bool {
    forall|i: int| 0 <= i < s.len() ==> seg_ok(#[trigger] s[i]) && !degenerate(s[i])
}

/// The point that debouncing compares against: the endpoint of the last
/// pending segment while a stroke is open, else the anchor, if any.
pub open spec fn ref_point(m: LogModel) -> Option<Vec2I> {
    if m.pending.len() > 0 {
        m.tip
    } else {
        m.anchor
    }
}

/// Well-formedness of the log model.
pub open spec fn log_wf(m: LogModel) -> bool {
    &&& m.committed.len() >= 1
    &&& stroke_ok(m.pending)
    &&& forall|i: int| 0 <= i < m.committed.len() ==> stroke_ok(#[trigger] m.committed[i])
    &&& m.pending.len() > 0 ==> {
        &&& m.tip is Some
        &&& end2(m.pending.last()) == (2 * m.tip.unwrap().x as int, 2 * m.tip.unwrap().y as int)
    }
    &&& m.anchor is Some ==> point_ok(m.anchor.unwrap())
    &&& m.tip is Some ==> point_ok(m.tip.unwrap())
}

/// The state after one debounced append of point `p`.
pub open spec fn append_step(m: LogModel, p: Vec2I) -> LogModel {
    match ref_point(m) {
        Some(q) => if within_eps(q, p) {
            m
        } else {
            LogModel { pending: m.pending.push(line_between(q, p)), tip: Some(p), ..m }
        },
        None => LogModel { anchor: Some(p), ..m },
    }
}

/// The state after committing the first `n` pending segments. When segments
/// remain, they stay pending and the stroke continues; when the whole stroke
/// moves, the stroke is closed and the anchor is reset.
pub open spec fn commit_front_step(m: LogModel, n: int) -> LogModel {
    if n < m.pending.len() {
        LogModel { committed: m.committed.push(m.pending.take(n)), pending: m.pending.skip(n), ..m }
    } else {
        LogModel {
            committed: m.committed.push(m.pending),
            pending: Seq::empty(),
            anchor: None,
            tip: None,
        }
    }
}

/// The state after removing the most recently committed stroke, if any stands
/// beyond the placeholder.
pub open spec fn undo_step(m: LogModel) -> LogModel {
    if m.committed.len() > 1 {
        LogModel { committed: m.committed.drop_last(), ..m }
    } else {
        m
    }
}

/// The state after closing an empty stroke: only the anchor is dropped.
pub open spec fn clear_anchor_step(m: LogModel) -> LogModel {
    LogModel { anchor: None, tip: None, ..m }
}

/// The append-only, in-memory record of strokes.
pub struct GeometryLog {
    committed: Vec<Vec<Line>>,
    pending: Vec<Line>,
    anchor: Option<Vec2I>,
    tip: Option<Vec2I>,
}

impl View for GeometryLog {
    type V = LogModel;

    closed spec fn view(&self) -> LogModel {
        LogModel {
            committed: self.committed@.map_values(|s: Vec<Line>| s@),
            pending: self.pending@,
            anchor: self.anchor,
            tip: self.tip,
        }
    }
}

impl GeometryLog {
    pub open spec fn wf(&self) -> bool {
        log_wf(self@)
    }

    /// A fresh log: one empty placeholder stroke, nothing pending.
    pub fn new() -> (r: GeometryLog)
        ensures
            r.wf(),
            r@.committed =~= seq![Seq::<Line>::empty()],
            r@.pending =~= Seq::<Line>::empty(),
            r@.anchor is None,
            r@.tip is None,
    {
        let mut committed: Vec<Vec<Line>> = Vec::new();
        committed.push(Vec::new());
        GeometryLog { committed, pending: Vec::new(), anchor: None, tip: None }
    }

    /// Debounced append: starts, anchors or extends the pending stroke as
    /// [`append_step`] describes; never fails and never commits.
    pub fn append_vertex(&mut self, p: Vec2I)
        requires
            old(self).wf(),
            point_ok(p),
        ensures
            final(self).wf(),
            final(self)@ == append_step(old(self)@, p),
    {
        if self.pending.len() > 0 {
            let t = self.tip.unwrap();
            if !points_within_eps(t, p) {
                let l = Line::new(t, p);
                self.pending.push(l);
                self.tip = Some(p);
                proof {
                    assert(self@.pending =~= old(self)@.pending.push(line_between(t, p)));
                }
            }
        } else {
            match self.anchor {
                Some(a) => {
                    if !points_within_eps(a, p) {
                        let l = Line::new(a, p);
                        self.pending.push(l);
                        self.tip = Some(p);
                        proof {
                            assert(self@.pending =~= old(self)@.pending.push(line_between(a, p)));
                        }
                    }
                },
                None => {
                    self.anchor = Some(p);
                },
            }
        }
        proof {
            assert(self@ =~= append_step(old(self)@, p));
        }
    }

    /// Moves the first `n` pending segments into a newly committed stroke,
    /// closing the stroke when everything moved.
    pub fn commit_front(&mut self, n: usize)
        requires
            old(self).wf(),
            1 <= n <= old(self)@.pending.len(),
        ensures
            final(self).wf(),
            final(self)@ == commit_front_step(old(self)@, n as int),
    {
        if n < self.pending.len() {
            let frag = copy_range(&self.pending, 0, n);
            let rest = copy_range(&self.pending, n, self.pending.len());
            self.committed.push(frag);
            self.pending = rest;
            proof {
                assert(self@.committed =~= old(self)@.committed.push(
                    old(self)@.pending.take(n as int),
                ));
                assert(self@.pending =~= old(self)@.pending.skip(n as int));
                assert(self@ =~= commit_front_step(old(self)@, n as int));
            }
        } else {
            let whole = copy_range(&self.pending, 0, self.pending.len());
            self.committed.push(whole);
            self.pending = Vec::new();
            self.anchor = None;
            self.tip = None;
            proof {
                assert(old(self)@.pending.take(old(self)@.pending.len() as int) =~= old(
                    self,
                )@.pending);
                assert(self@.committed =~= old(self)@.committed.push(old(self)@.pending));
                assert(self@ =~= commit_front_step(old(self)@, n as int));
            }
        }
    }

    /// Removes the most recently committed stroke; a no-op while only the
    /// placeholder exists. The pending stroke is never touched.
    pub fn undo(&mut self)
        requires
            old(self).wf(),
        ensures
            final(self).wf(),
            final(self)@ == undo_step(old(self)@),
    {
        if self.committed.len() > 1 {
            self.committed.pop();
            proof {
                assert(self@.committed =~= old(self)@.committed.drop_last());
                assert(self@ =~= undo_step(old(self)@));
            }
        }
    }

    /// Closes an empty stroke: forgets the anchor without recording anything.
    pub fn clear_anchor(&mut self)
        requires
            old(self).wf(),
            old(self)@.pending.len() == 0,
        ensures
            final(self).wf(),
            final(self)@ == clear_anchor_step(old(self)@),
    {
        self.anchor = None;
        self.tip = None;
        proof {
            assert(self@ =~= clear_anchor_step(old(self)@));
        }
    }

    /// Sum of the segment counts of all committed strokes: the device-buffer
    /// write offset and the committed part of the draw instance count.
    pub fn total_committed_segments(&self) -> (t: u64)
        requires
            self.wf(),
            seg_total(self@.committed) <= u64::MAX,
        ensures
            t == seg_total(self@.committed),
    {
        let ghost cs = self@.committed;
        let mut t: u64 = 0;
        let mut i: usize = 0;
        while i < self.committed.len()
            invariant
                0 <= i <= cs.len(),
                cs =~= self@.committed,
                self.committed@.len() == cs.len(),
                forall|j: int| 0 <= j < cs.len() ==> cs[j] =~= self.committed@[j]@,
                seg_total(cs) <= u64::MAX,
                t == seg_total(cs.take(i as int)),
            decreases cs.len() - i,
        {
            proof {
                lemma_flat_take_succ(cs, i as int);
                lemma_seg_total_take_bound(cs, i as int + 1);
            }
            t = t + self.committed[i].len() as u64;
            i = i + 1;
        }
        proof {
            assert(cs.take(cs.len() as int) =~= cs);
        }
        t
    }

    /// Number of committed strokes, the placeholder included.
    pub fn stroke_count(&self) -> (n: usize)
        ensures
            n == self@.committed.len(),
    {
        self.committed.len()
    }

    /// Segment count of one committed stroke.
    pub fn stroke_len(&self, i: usize) -> (n: usize)
        requires
            i < self@.committed.len(),
        ensures
            n == self@.committed[i as int].len(),
    {
        self.committed[i].len()
    }

    /// Number of segments of the pending stroke.
    pub fn pending_len(&self) -> (n: usize)
        ensures
            n == self@.pending.len(),
    {
        self.pending.len()
    }

    /// One segment of the pending stroke.
    pub fn pending_at(&self, i: usize) -> (l: Line)
        requires
            i < self@.pending.len(),
        ensures
            l == self@.pending[i as int],
    {
        self.pending[i]
    }

    /// One segment of a committed stroke.
    pub fn committed_at(&self, i: usize, j: usize) -> (l: Line)
        requires
            i < self@.committed.len(),
            j < self@.committed[i as int].len(),
        ensures
            l == self@.committed[i as int][j as int],
    {
        self.committed[i][j]
    }

    /// The pending segments as a borrowed vector (the source that the staging
    /// region is filled from).
    pub fn pending_segments(&self) -> (v: &Vec<Line>)
        ensures
            v@ =~= self@.pending,
    {
        &self.pending
    }
}

/// Copies `src[from..to]` into a fresh vector.
fn copy_range(src: &Vec<Line>, from: usize, to: usize) -> (r: Vec<Line>)
    requires
        from <= to <= src@.len(),
    ensures
        r@ =~= src@.subrange(from as int, to as int),
{
    let mut r: Vec<Line> = Vec::new();
    let mut i: usize = from;
    while i < to
        invariant
            from <= i <= to <= src@.len(),
            r@ =~= src@.subrange(from as int, i as int),
        decreases to - i,
    {
        r.push(src[i]);
        proof {
            assert(r@ =~= src@.subrange(from as int, i as int + 1));
        }
        i = i + 1;
    }
    r
}

/// Flattening distributes over appending one stroke.
pub proof fn lemma_flat_push(ss: Seq<Seq<Line>>, s: Seq<Line>)
    ensures
        flat(ss.push(s)) =~= flat(ss) + s,
{
    assert(ss.push(s).drop_last() =~= ss);
    assert(ss.push(s).last() =~= s);
}

/// Flattening one more prefix element appends exactly that stroke.
pub proof fn lemma_flat_take_succ(ss: Seq<Seq<Line>>, i: int)
    requires
        0 <= i < ss.len(),
    ensures
        flat(ss.take(i + 1)) =~= flat(ss.take(i)) + ss[i],
{
    assert(ss.take(i + 1).drop_last() =~= ss.take(i));
    assert(ss.take(i + 1).last() =~= ss[i]);
}

/// A prefix never holds more segments than the whole.
pub proof fn lemma_seg_total_take_bound(ss: Seq<Seq<Line>>, i: int)
    requires
        0 <= i <= ss.len(),
    ensures
        seg_total(ss.take(i)) <= seg_total(ss),
    decreases ss.len() - i,
{
    if i == ss.len() {
        assert(ss.take(i) =~= ss);
    } else {
        lemma_flat_take_succ(ss, i);
        lemma_seg_total_take_bound(ss, i + 1);
    }
}

/// Debouncing is idempotent: appending the same point a second time changes
/// nothing, whatever the first append did.
pub proof fn lemma_append_idempotent(m: LogModel, p: Vec2I)
    requires
        log_wf(m),
        point_ok(p),
    ensures
        append_step(append_step(m, p), p) == append_step(m, p),
{
}

/// Committing and then immediately undoing leaves the total committed segment
/// count unchanged: the commit appends exactly one stroke and the undo removes
/// exactly it.
pub proof fn lemma_commit_undo_total(m: LogModel, n: int)
    requires
        log_wf(m),
        1 <= n <= m.pending.len(),
    ensures
        seg_total(undo_step(commit_front_step(m, n)).committed) == seg_total(m.committed),
{
    let c = commit_front_step(m, n);
    assert(c.committed.len() == m.committed.len() + 1);
    assert(c.committed.drop_last() =~= m.committed);
}

} // verus!
