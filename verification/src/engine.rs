//! The incremental geometry-streaming engine: the geometry log, the staging
//! region and the device buffer, tied together by the commit protocol.
//!
//! A commit cycle moves `min(len(pending), staging capacity)` segments: they
//! are written to the staging region at offset zero, copied device-side at an
//! offset equal to the current committed segment count, and then moved from
//! the pending stroke into the committed log — split across several cycles
//! when the stroke is longer than the staging capacity. A commit that would
//! push the committed count past the device capacity is refused and changes
//! nothing.

use vstd::prelude::*;

use crate::device::{overwrite_at, DeviceGeometryBuffer};
use crate::geom::{point_ok, Line, Vec2I};
use crate::log::{
    append_step, clear_anchor_step, commit_front_step, flat, lemma_flat_push, log_wf, seg_total,
    undo_step, GeometryLog, LogModel,
};
use crate::staging::StagingStream;

verus! {

/// Mathematical state of the whole streaming engine.
#[verifier::ext_equal]
pub ghost struct EngineModel {
    pub log: LogModel,
    /// Contents of the staging region.
    pub staging: Seq<Line>,
    /// Written prefix of the device buffer.
    pub device: Seq<Line>,
    /// Staging capacity, in segments; also the per-cycle batch size.
    pub staging_capacity: int,
    /// Device buffer capacity, in segments.
    pub max_vertices: int,
}

/// Number of segments one commit cycle moves.
pub open spec fn batch_size(m: EngineModel) -> int {
    if m.log.pending.len() < m.staging_capacity {
        m.log.pending.len() as int
    } else {
        m.staging_capacity
    }
}

/// A commit cycle is allowed when the moved batch still fits the device
/// buffer.
pub open spec fn commit_allowed(m: EngineModel) -> bool {
    seg_total(m.log.committed) + batch_size(m) <= m.max_vertices
}

/// The per-frame staging refresh: while a stroke is pending, the staging
/// region mirrors its longest fitting prefix.
pub open spec fn stage_step(m: EngineModel) -> EngineModel {
    if m.log.pending.len() > 0 {
        EngineModel { staging: m.log.pending.take(batch_size(m)), ..m }
    } else {
        m
    }
}

/// One commit cycle on a non-empty pending stroke: stage the batch, copy it
/// device-side at the committed count, then move it into the committed log.
pub open spec fn commit_step(m: EngineModel) -> EngineModel {
    let n = batch_size(m);
    let batch = m.log.pending.take(n);
    EngineModel {
        log: commit_front_step(m.log, n),
        staging: batch,
        device: overwrite_at(m.device, seg_total(m.log.committed) as int, batch),
        ..m
    }
}

/// Well-formedness of the engine model. The committed segments are exactly
/// the written device-buffer prefix, in order.
pub open spec fn engine_wf(m: EngineModel) -> bool {
    &&& log_wf(m.log)
    &&& 1 <= m.staging_capacity <= u32::MAX
    &&& m.max_vertices <= u32::MAX
    &&& m.staging.len() <= m.staging_capacity
    &&& m.device.len() <= m.max_vertices
    &&& seg_total(m.log.committed) <= m.max_vertices
    &&& seg_total(m.log.committed) <= m.device.len()
    &&& m.device.take(seg_total(m.log.committed) as int) == flat(m.log.committed)
}

/// A device-side copy that the surrounding code must carry out: `count`
/// segments from staging offset zero to the device buffer at segment index
/// `dst_index`.
#[derive(Clone, Copy, PartialEq, Eq, Structural, Debug)]
pub struct CopyOp {
    pub dst_index: usize,
    pub count: usize,
}

/// Failure of a commit cycle.
#[derive(Clone, Copy, PartialEq, Eq, Structural, Debug)]
pub enum CommitError {
    /// The batch would push the committed segment count past the device
    /// buffer capacity.
    CapacityExceeded,
}

/// The streaming engine.
pub struct StrokeEngine {
    log: GeometryLog,
    staging: StagingStream,
    device: DeviceGeometryBuffer,
}

impl View for StrokeEngine {
    type V = EngineModel;

    closed spec fn view(&self) -> EngineModel {
        EngineModel {
            log: self.log@,
            staging: self.staging@,
            device: self.device@,
            staging_capacity: self.staging.spec_capacity(),
            max_vertices: self.device.spec_capacity(),
        }
    }
}

impl StrokeEngine {
    pub open spec fn wf(&self) -> bool {
        engine_wf(self@)
    }

    /// A fresh engine: empty log (but for the placeholder stroke), empty
    /// staging region, unwritten device buffer.
    pub fn new(max_vertices: u32, staging_capacity: u32) -> (r: StrokeEngine)
        requires
            staging_capacity >= 1,
        ensures
            r.wf(),
            r@.log.committed =~= seq![Seq::<Line>::empty()],
            r@.log.pending =~= Seq::<Line>::empty(),
            r@.log.anchor is None,
            r@.log.tip is None,
            r@.staging =~= Seq::<Line>::empty(),
            r@.device =~= Seq::<Line>::empty(),
            r@.staging_capacity == staging_capacity,
            r@.max_vertices == max_vertices,
    {
        let r = StrokeEngine {
            log: GeometryLog::new(),
            staging: StagingStream::new(staging_capacity),
            device: DeviceGeometryBuffer::new(max_vertices),
        };
        proof {
            assert(seg_total(r@.log.committed) == 0) by {
                assert(r@.log.committed.drop_last() =~= Seq::<Seq<Line>>::empty());
                assert(flat(Seq::<Seq<Line>>::empty()) =~= Seq::<Line>::empty());
                assert(flat(r@.log.committed) =~= flat(r@.log.committed.drop_last())
                    + r@.log.committed.last());
            }
            assert(r@.device.take(0) =~= flat(r@.log.committed));
        }
        r
    }

    /// Debounced input append; never commits and never fails.
    pub fn append_vertex(&mut self, p: Vec2I)
        requires
            old(self).wf(),
            point_ok(p),
        ensures
            final(self).wf(),
            final(self)@ == (EngineModel { log: append_step(old(self)@.log, p), ..old(self)@ }),
    {
        self.log.append_vertex(p);
        proof {
            assert(self@ =~= (EngineModel { log: append_step(old(self)@.log, p), ..old(self)@ }));
            assert(append_step(old(self)@.log, p).committed =~= old(self)@.log.committed);
        }
    }

    /// True when the pending stroke has reached the staging capacity, so a
    /// commit cycle is due.
    pub fn needs_batch_commit(&self) -> (r: bool)
        ensures
            r == (self@.log.pending.len() >= self@.staging_capacity),
    {
        self.log.pending_len() >= self.staging.capacity() as usize
    }

    /// Per-frame staging refresh: mirrors the longest fitting prefix of the
    /// pending stroke into the staging region; returns how many segments the
    /// caller must write into the mapped transfer buffer.
    pub fn stage_pending(&mut self) -> (n: usize)
        requires
            old(self).wf(),
        ensures
            final(self).wf(),
            final(self)@ == stage_step(old(self)@),
            n == if old(self)@.log.pending.len() > 0 {
                batch_size(old(self)@)
            } else {
                0
            },
    {
        if self.log.pending_len() == 0 {
            proof {
                assert(self@ =~= stage_step(old(self)@));
            }
            return 0;
        }
        let n = self.staging.load_prefix(self.log.pending_segments());
        proof {
            assert(self@ =~= stage_step(old(self)@));
        }
        n
    }

    /// One commit cycle. With an empty pending stroke this only forgets the
    /// anchor and no stroke is recorded. Otherwise the batch of
    /// `min(len(pending), staging capacity)` segments is staged, copied
    /// device-side at the committed count, and committed — unless that would
    /// exceed the device capacity, in which case nothing changes and the
    /// capacity error is returned. The returned copy description is the
    /// device-side copy the caller must issue before the next draw.
    pub fn commit_new_line(&mut self) -> (r: Result<Option<CopyOp>, CommitError>)
        requires
            old(self).wf(),
        ensures
            final(self).wf(),
            old(self)@.log.pending.len() == 0 ==> {
                &&& r == Ok::<Option<CopyOp>, CommitError>(None)
                &&& final(self)@ == (EngineModel {
                    log: clear_anchor_step(old(self)@.log),
                    ..old(self)@
                })
            },
            old(self)@.log.pending.len() > 0 && commit_allowed(old(self)@) ==> {
                &&& r == Ok::<Option<CopyOp>, CommitError>(
                    Some(
                        CopyOp {
                            dst_index: seg_total(old(self)@.log.committed) as usize,
                            count: batch_size(old(self)@) as usize,
                        },
                    ),
                )
                &&& final(self)@ == commit_step(old(self)@)
            },
            old(self)@.log.pending.len() > 0 && !commit_allowed(old(self)@) ==> {
                &&& r == Err::<Option<CopyOp>, CommitError>(CommitError::CapacityExceeded)
                &&& final(self)@ == old(self)@
            },
    {
        let plen = self.log.pending_len();
        if plen == 0 {
            self.log.clear_anchor();
            proof {
                assert(self@ =~= (EngineModel {
                    log: clear_anchor_step(old(self)@.log),
                    ..old(self)@
                }));
            }
            return Ok(None);
        }
        let cap = self.staging.capacity() as usize;
        let n = if plen < cap {
            plen
        } else {
            cap
        };
        let total = self.log.total_committed_segments();
        let maxv = self.device.capacity();
        if total + (n as u64) > (maxv as u64) {
            return Err(CommitError::CapacityExceeded);
        }
        let staged = self.staging.load_prefix(self.log.pending_segments());
        let dst = total as usize;
        self.device.copy_from_staging(&self.staging, n, dst);
        self.log.commit_front(n);
        proof {
            let m = old(self)@;
            let nn = batch_size(m);
            let batch = m.log.pending.take(nn);
            assert(self@.staging =~= batch);
            assert(self@ =~= commit_step(m));
            lemma_commit_wf(m);
        }
        Ok(Some(CopyOp { dst_index: dst, count: n }))
    }

    /// Removes the most recently committed stroke, if one stands beyond the
    /// placeholder. The device buffer is not rewritten: the shortened
    /// committed prefix simply stops being drawn, and the next commit
    /// overwrites the abandoned range.
    pub fn undo(&mut self)
        requires
            old(self).wf(),
        ensures
            final(self).wf(),
            final(self)@ == (EngineModel { log: undo_step(old(self)@.log), ..old(self)@ }),
    {
        self.log.undo();
        proof {
            assert(self@ =~= (EngineModel { log: undo_step(old(self)@.log), ..old(self)@ }));
            lemma_undo_wf(old(self)@);
        }
    }

    /// Sum of the segment counts of all committed strokes.
    pub fn total_committed_segments(&self) -> (t: u64)
        requires
            self.wf(),
        ensures
            t == seg_total(self@.log.committed),
    {
        self.log.total_committed_segments()
    }

    /// Instance count for the next draw: every committed segment plus the
    /// staged prefix of the in-progress stroke.
    pub fn draw_instance_count(&self) -> (c: u64)
        requires
            self.wf(),
        ensures
            c == seg_total(self@.log.committed) + self@.staging.len(),
    {
        self.log.total_committed_segments() + self.staging.len() as u64
    }

    /// The geometry log, for inspection.
    pub fn geometry_log(&self) -> (r: &GeometryLog)
        ensures
            r@ == self@.log,
    {
        &self.log
    }

    /// The staging region, for inspection and for filling the mapped
    /// transfer buffer.
    pub fn staging_stream(&self) -> (r: &StagingStream)
        ensures
            r@ == self@.staging,
            r.spec_capacity() == self@.staging_capacity,
    {
        &self.staging
    }

    /// The device-buffer image, for inspection.
    pub fn device_buffer(&self) -> (r: &DeviceGeometryBuffer)
        ensures
            r@ == self@.device,
            r.spec_capacity() == self@.max_vertices,
    {
        &self.device
    }
}

/// A commit cycle preserves engine well-formedness.
proof fn lemma_commit_wf(m: EngineModel)
    requires
        engine_wf(m),
        m.log.pending.len() > 0,
        commit_allowed(m),
    ensures
        engine_wf(commit_step(m)),
{
    let n = batch_size(m);
    let batch = m.log.pending.take(n);
    let total = seg_total(m.log.committed) as int;
    let c = commit_step(m);
    if n < m.log.pending.len() {
        lemma_flat_push(m.log.committed, batch);
    } else {
        assert(batch =~= m.log.pending);
        lemma_flat_push(m.log.committed, m.log.pending);
    }
    assert(flat(c.log.committed) =~= flat(m.log.committed) + batch);
    assert(c.device.take(total + n) =~= flat(m.log.committed) + batch);
}

/// Undoing preserves engine well-formedness: the shortened committed flat
/// sequence is still the corresponding device-buffer prefix.
proof fn lemma_undo_wf(m: EngineModel)
    requires
        engine_wf(m),
    ensures
        engine_wf(EngineModel { log: undo_step(m.log), ..m }),
{
    if m.log.committed.len() > 1 {
        let c = m.log.committed;
        let total = seg_total(c) as int;
        let total2 = seg_total(c.drop_last()) as int;
        assert(flat(c) =~= flat(c.drop_last()) + c.last());
        assert(flat(c.drop_last()) =~= flat(c).take(total2));
        assert(m.device.take(total2) =~= m.device.take(total).take(total2));
    }
}

/// Repeated commit cycles on a pending stroke: each cycle keeps the combined
/// committed-plus-pending segments unchanged as a sequence.
pub proof fn lemma_commit_step_keeps_segments(m: EngineModel)
    requires
        m.staging_capacity >= 1,
        m.log.pending.len() > 0,
    ensures
        flat(commit_step(m).log.committed) + commit_step(m).log.pending =~= flat(m.log.committed)
            + m.log.pending,
        commit_step(m).log.pending.len() < m.log.pending.len(),
        seg_total(commit_step(m).log.committed) + commit_step(m).log.pending.len() == seg_total(
            m.log.committed,
        ) + m.log.pending.len(),
        commit_step(m).staging_capacity == m.staging_capacity,
        commit_step(m).max_vertices == m.max_vertices,
{
    let n = batch_size(m);
    let batch = m.log.pending.take(n);
    if n < m.log.pending.len() {
        lemma_flat_push(m.log.committed, batch);
        assert(batch + m.log.pending.skip(n) =~= m.log.pending);
    } else {
        assert(batch =~= m.log.pending);
        lemma_flat_push(m.log.committed, m.log.pending);
    }
}

/// The state after repeatedly committing until nothing is pending.
pub open spec fn drain(m: EngineModel) -> EngineModel
    decreases m.log.pending.len(),
    when m.staging_capacity >= 1
{
    if m.log.pending.len() == 0 {
        m
    } else {
        drain(commit_step(m))
    }
}

/// Batch-splitting correctness: repeated commit cycles terminate with an
/// empty pending stroke, and move every pending segment into the committed
/// log in order — none duplicated, reordered or dropped.
pub proof fn lemma_drain_moves_all(m: EngineModel)
    requires
        m.staging_capacity >= 1,
    ensures
        drain(m).log.pending.len() == 0,
        flat(drain(m).log.committed) =~= flat(m.log.committed) + m.log.pending,
        seg_total(drain(m).log.committed) == seg_total(m.log.committed) + m.log.pending.len(),
        drain(m).staging_capacity == m.staging_capacity,
        drain(m).max_vertices == m.max_vertices,
        // With the whole outstanding stroke within capacity, every cycle
        // along the way is allowed.
        seg_total(m.log.committed) + m.log.pending.len() <= m.max_vertices && m.log.pending.len()
            > 0 ==> commit_allowed(m),
    decreases m.log.pending.len(),
{
    if m.log.pending.len() == 0 {
        assert(flat(m.log.committed) + m.log.pending =~= flat(m.log.committed));
    } else {
        lemma_commit_step_keeps_segments(m);
        lemma_drain_moves_all(commit_step(m));
    }
}

} // verus!
