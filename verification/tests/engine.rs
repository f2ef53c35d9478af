use scribble::engine::{CommitError, CopyOp, StrokeEngine};
use scribble::geom::Vec2I;

fn pt(x: i64, y: i64) -> Vec2I {
    Vec2I { x, y }
}

/// Appends `count` segments along the x axis, spaced well past the epsilon.
/// The first call only anchors the stroke.
fn build_pending(engine: &mut StrokeEngine, count: usize) {
    engine.append_vertex(pt(0, 0));
    for i in 1..=count {
        engine.append_vertex(pt((i as i64) * 5_000, 0));
    }
    assert_eq!(engine.geometry_log().pending_len(), count);
}

#[test]
fn debounce_scenario() {
    // A first point anchors; a point within the epsilon adds nothing; a far
    // point adds one segment from the anchor to it.
    let mut engine = StrokeEngine::new(65536, 1024);
    engine.append_vertex(pt(0, 0));
    assert_eq!(engine.geometry_log().pending_len(), 0);
    engine.append_vertex(pt(0, 500));
    assert_eq!(engine.geometry_log().pending_len(), 0);
    engine.append_vertex(pt(0, 500_000));
    assert_eq!(engine.geometry_log().pending_len(), 1);
    let seg = engine.geometry_log().pending_at(0);
    // position holds from + to; dir holds to - from.
    assert_eq!(seg.position, pt(0, 500_000));
    assert_eq!(seg.dir, pt(0, 500_000));
}

#[test]
fn debounce_idempotent() {
    // Appending the same point again never yields another segment.
    let mut engine = StrokeEngine::new(65536, 1024);
    engine.append_vertex(pt(0, 0));
    engine.append_vertex(pt(30_000, 40_000));
    assert_eq!(engine.geometry_log().pending_len(), 1);
    engine.append_vertex(pt(30_000, 40_000));
    assert_eq!(engine.geometry_log().pending_len(), 1);
    // A nearby point within the epsilon is debounced too.
    engine.append_vertex(pt(30_400, 39_600));
    assert_eq!(engine.geometry_log().pending_len(), 1);
}

#[test]
fn reconstruction() {
    // position - dir and position + dir are exactly twice the endpoints.
    let mut engine = StrokeEngine::new(65536, 1024);
    engine.append_vertex(pt(10, -20));
    engine.append_vertex(pt(4_010, 1_980));
    let seg = engine.geometry_log().pending_at(0);
    assert_eq!(seg.position.x - seg.dir.x, 2 * 10);
    assert_eq!(seg.position.y - seg.dir.y, 2 * -20);
    assert_eq!(seg.position.x + seg.dir.x, 2 * 4_010);
    assert_eq!(seg.position.y + seg.dir.y, 2 * 1_980);
}

#[test]
fn batch_split_scenario() {
    // Ten pending segments, staging capacity four: three commit cycles move
    // 4, 4 and 2 segments, in order, none duplicated or dropped.
    let mut engine = StrokeEngine::new(65536, 4);
    build_pending(&mut engine, 10);

    let op = engine.commit_new_line().unwrap().unwrap();
    assert_eq!(op, CopyOp { dst_index: 0, count: 4 });
    assert_eq!(engine.total_committed_segments(), 4);
    assert_eq!(engine.geometry_log().pending_len(), 6);
    assert_eq!(engine.geometry_log().stroke_count(), 2);

    let op = engine.commit_new_line().unwrap().unwrap();
    assert_eq!(op, CopyOp { dst_index: 4, count: 4 });
    assert_eq!(engine.total_committed_segments(), 8);
    assert_eq!(engine.geometry_log().pending_len(), 2);

    let op = engine.commit_new_line().unwrap().unwrap();
    assert_eq!(op, CopyOp { dst_index: 8, count: 2 });
    assert_eq!(engine.total_committed_segments(), 10);
    assert_eq!(engine.geometry_log().pending_len(), 0);

    // The device buffer holds the ten segments in drawing order.
    assert_eq!(engine.device_buffer().len(), 10);
    for i in 0..10 {
        let seg = engine.device_buffer().segment_at(i);
        let from = (i as i64) * 5_000;
        let to = (i as i64 + 1) * 5_000;
        assert_eq!(seg.position, pt(from + to, 0));
        assert_eq!(seg.dir, pt(to - from, 0));
    }
}

#[test]
fn capacity_guard() {
    // A batch that would exceed the device capacity is refused and changes
    // nothing.
    let mut engine = StrokeEngine::new(2, 4);
    build_pending(&mut engine, 3);
    let r = engine.commit_new_line();
    assert!(matches!(r, Err(CommitError::CapacityExceeded)));
    assert_eq!(engine.geometry_log().pending_len(), 3);
    assert_eq!(engine.total_committed_segments(), 0);
    assert_eq!(engine.device_buffer().len(), 0);
    assert_eq!(engine.geometry_log().stroke_count(), 1);
}

#[test]
fn commit_within_capacity_succeeds() {
    let mut engine = StrokeEngine::new(3, 4);
    build_pending(&mut engine, 3);
    let op = engine.commit_new_line().unwrap().unwrap();
    assert_eq!(op, CopyOp { dst_index: 0, count: 3 });
    assert_eq!(engine.total_committed_segments(), 3);
}

#[test]
fn commit_undo_inverse() {
    // Undo right after a commit restores the committed segment count.
    let mut engine = StrokeEngine::new(65536, 1024);
    build_pending(&mut engine, 2);
    engine.commit_new_line().unwrap();
    assert_eq!(engine.total_committed_segments(), 2);

    build_pending(&mut engine, 5);
    engine.commit_new_line().unwrap();
    assert_eq!(engine.total_committed_segments(), 7);
    engine.undo();
    assert_eq!(engine.total_committed_segments(), 2);
}

#[test]
fn undo_after_partial_commit_restores_total() {
    // A partial commit records one stroke fragment; undoing removes exactly
    // that fragment and leaves the rest of the stroke pending.
    let mut engine = StrokeEngine::new(65536, 4);
    build_pending(&mut engine, 10);
    engine.commit_new_line().unwrap();
    assert_eq!(engine.total_committed_segments(), 4);
    engine.undo();
    assert_eq!(engine.total_committed_segments(), 0);
    assert_eq!(engine.geometry_log().pending_len(), 6);
}

#[test]
fn stroke_continues_after_partial_commit() {
    // After a partial commit the stroke stays open: the next far point
    // extends it from the current tip, not from a new anchor.
    let mut engine = StrokeEngine::new(65536, 4);
    build_pending(&mut engine, 5);
    engine.commit_new_line().unwrap();
    assert_eq!(engine.geometry_log().pending_len(), 1);
    engine.append_vertex(pt(30_000, 0));
    assert_eq!(engine.geometry_log().pending_len(), 2);
    let seg = engine.geometry_log().pending_at(1);
    assert_eq!(seg.position.x - seg.dir.x, 2 * 25_000);
    assert_eq!(seg.position.x + seg.dir.x, 2 * 30_000);
}

#[test]
fn undo_placeholder_noop() {
    // Undo with only the initial placeholder stroke is a no-op.
    let mut engine = StrokeEngine::new(65536, 1024);
    engine.undo();
    assert_eq!(engine.geometry_log().stroke_count(), 1);
    assert_eq!(engine.total_committed_segments(), 0);
}

#[test]
fn undo_never_touches_pending() {
    let mut engine = StrokeEngine::new(65536, 1024);
    build_pending(&mut engine, 2);
    engine.commit_new_line().unwrap();
    build_pending(&mut engine, 4);
    engine.undo();
    assert_eq!(engine.geometry_log().pending_len(), 4);
    assert_eq!(engine.total_committed_segments(), 0);
}

#[test]
fn commit_empty_pending_only_clears_anchor() {
    // Releasing the pointer without a far-enough move records nothing.
    let mut engine = StrokeEngine::new(65536, 1024);
    engine.append_vertex(pt(0, 0));
    let r = engine.commit_new_line().unwrap();
    assert!(r.is_none());
    assert_eq!(engine.geometry_log().stroke_count(), 1);
    // The anchor is gone: the next point anchors a new stroke instead of
    // closing a segment with the old one.
    engine.append_vertex(pt(500_000, 0));
    assert_eq!(engine.geometry_log().pending_len(), 0);
}

#[test]
fn stage_pending_prefix() {
    // The staging region mirrors the longest fitting prefix of the pending
    // stroke.
    let mut engine = StrokeEngine::new(65536, 2);
    build_pending(&mut engine, 3);
    let n = engine.stage_pending();
    assert_eq!(n, 2);
    assert_eq!(engine.staging_stream().len(), 2);
    for i in 0..2 {
        let staged = engine.staging_stream().segment_at(i);
        let pending = engine.geometry_log().pending_at(i);
        assert_eq!(staged, pending);
    }
}

#[test]
fn stage_pending_empty_is_noop() {
    let mut engine = StrokeEngine::new(65536, 2);
    let n = engine.stage_pending();
    assert_eq!(n, 0);
    assert_eq!(engine.staging_stream().len(), 0);
}

#[test]
fn draw_count_includes_staged_tail() {
    let mut engine = StrokeEngine::new(65536, 4);
    build_pending(&mut engine, 6);
    engine.commit_new_line().unwrap();
    let n = engine.stage_pending();
    assert_eq!(n, 2);
    assert_eq!(engine.draw_instance_count(), 4 + 2);
}

#[test]
fn needs_batch_commit_at_threshold() {
    let mut engine = StrokeEngine::new(65536, 4);
    build_pending(&mut engine, 3);
    assert!(!engine.needs_batch_commit());
    engine.append_vertex(pt(4 * 5_000, 0));
    assert!(engine.needs_batch_commit());
}
