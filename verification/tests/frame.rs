use scribble::frame::{AcquireOutcome, FrameScheduler, FrameStep, PresentOutcome};

#[test]
fn minimize_suppresses_then_one_rebuild() {
    // Zero-area resize suppresses rendering; restoring the surface lets the
    // next frame render and triggers exactly one swapchain rebuild.
    let mut sched = FrameScheduler::new(2, 3);
    assert!(sched.should_render());

    sched.handle_resize(0, 0);
    assert!(!sched.should_render());

    sched.handle_resize(800, 600);
    assert!(sched.should_render());

    // One full frame renders and presents.
    let slot = sched.current_slot();
    assert_eq!(slot, 0);
    let step = sched.process_acquire(AcquireOutcome::Acquired(1));
    assert_eq!(step, FrameStep::Draw { image_index: 1, wait_image_slot: None });
    let rebuild_after_present = sched.process_present(PresentOutcome::Presented);
    assert!(!rebuild_after_present);

    // The pending resize asks for exactly one rebuild.
    assert!(sched.take_resize_pending());
    sched.on_rebuilt(3);
    assert!(!sched.take_resize_pending());
}

#[test]
fn slot_ring_advances_modulo() {
    let mut sched = FrameScheduler::new(2, 2);
    assert_eq!(sched.current_slot(), 0);
    sched.process_present(PresentOutcome::Presented);
    assert_eq!(sched.current_slot(), 1);
    sched.process_present(PresentOutcome::Presented);
    assert_eq!(sched.current_slot(), 0);
}

#[test]
fn image_still_in_flight_requires_wait() {
    // Re-acquiring an image an older frame still claims names that frame's
    // slot, whose fence must be waited on.
    let mut sched = FrameScheduler::new(2, 2);
    let step = sched.process_acquire(AcquireOutcome::Acquired(0));
    assert_eq!(step, FrameStep::Draw { image_index: 0, wait_image_slot: None });
    sched.process_present(PresentOutcome::Presented);

    let step = sched.process_acquire(AcquireOutcome::Acquired(0));
    assert_eq!(step, FrameStep::Draw { image_index: 0, wait_image_slot: Some(0) });
}

#[test]
fn stale_acquire_skips_and_rebuilds() {
    let mut sched = FrameScheduler::new(2, 2);
    let step = sched.process_acquire(AcquireOutcome::Stale);
    assert_eq!(step, FrameStep::RebuildAndSkip);
    // The frame was skipped: the slot did not advance.
    assert_eq!(sched.current_slot(), 0);
}

#[test]
fn stale_present_asks_for_rebuild() {
    let mut sched = FrameScheduler::new(2, 2);
    sched.process_acquire(AcquireOutcome::Acquired(0));
    let rebuild = sched.process_present(PresentOutcome::Stale);
    assert!(rebuild);
    assert_eq!(sched.current_slot(), 1);
}

#[test]
fn rebuild_resizes_image_tracking() {
    let mut sched = FrameScheduler::new(2, 2);
    sched.process_acquire(AcquireOutcome::Acquired(1));
    sched.on_rebuilt(4);
    assert_eq!(sched.image_count(), 4);
    // Surviving entries are kept: image 1 is still claimed by slot 0.
    let step = sched.process_acquire(AcquireOutcome::Acquired(1));
    assert_eq!(step, FrameStep::Draw { image_index: 1, wait_image_slot: Some(0) });
    sched.on_rebuilt(1);
    assert_eq!(sched.image_count(), 1);
}
