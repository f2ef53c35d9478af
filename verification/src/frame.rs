//! The per-frame scheduling state machine.
//!
//! One frame runs acquire → wait → record → submit → present against a small
//! fixed ring of frame slots, each owning its synchronization objects. The
//! scheduler decides, from the outcomes the presentation engine reports,
//! which slot's fence to wait on, whether an acquired image is still claimed
//! by an older in-flight frame, when the frame must be skipped and the
//! swapchain rebuilt, and how the image-tracking array survives a rebuild.
//! The waits, submissions and rebuilds themselves are carried out by the
//! surrounding code, which feeds every outcome back in as a plain value.

use vstd::prelude::*;

verus! {

/// Mathematical state of the frame scheduler.
#[verifier::ext_equal]
pub ghost struct SchedulerModel {
    /// Number of frame slots (frames in flight).
    pub slot_count: int,
    /// Slot used by the frame being prepared.
    pub current_slot: int,
    /// For each presentable image: the slot whose fence last claimed it.
    pub images: Seq<Option<int>>,
    /// A surface-size change is waiting for a swapchain rebuild.
    pub resize_pending: bool,
    /// The surface has zero area; rendering is suppressed.
    pub minimized: bool,
}

pub open spec fn scheduler_wf(m: SchedulerModel) -> bool {
    &&& 1 <= m.slot_count
    &&& 0 <= m.current_slot < m.slot_count
    &&& forall|i: int|
        0 <= i < m.images.len() ==> match #[trigger] m.images[i] {
            Some(s) => 0 <= s < m.slot_count,
            None => true,
        }
}

/// What the acquire call reported: a usable image, or a stale surface.
#[derive(Clone, Copy, PartialEq, Eq, Structural, Debug)]
pub enum AcquireOutcome {
    /// An image was acquired, by its index in the swapchain.
    Acquired(usize),
    /// The surface is out of date; nothing was acquired.
    Stale,
}

/// What the present call reported: a successful present, or a stale or
/// suboptimal surface (still presented, but a rebuild is due).
#[derive(Clone, Copy, PartialEq, Eq, Structural, Debug)]
pub enum PresentOutcome {
    Presented,
    Stale,
}

/// How the frame proceeds after the acquire outcome is processed.
#[derive(Clone, Copy, PartialEq, Eq, Structural, Debug)]
pub enum FrameStep {
    /// Record and submit for this image; when `wait_image_slot` names a
    /// slot, that slot's fence must be waited on first, because the image is
    /// still claimed by an older in-flight frame.
    Draw { image_index: usize, wait_image_slot: Option<usize> },
    /// Skip the frame and rebuild the swapchain; not an error.
    RebuildAndSkip,
}

/// The state after a resize notification.
pub open spec fn resize_step(m: SchedulerModel, width: u32, height: u32) -> SchedulerModel {
    if width == 0 || height == 0 {
        SchedulerModel { minimized: true, ..m }
    } else {
        SchedulerModel { minimized: false, resize_pending: true, ..m }
    }
}

/// The state after acquiring image `i`: the image becomes claimed by the
/// current slot.
pub open spec fn acquire_step(m: SchedulerModel, i: int) -> SchedulerModel {
    SchedulerModel { images: m.images.update(i, Some(m.current_slot)), ..m }
}

/// The state after the present outcome is processed: the slot ring advances.
pub open spec fn present_step(m: SchedulerModel) -> SchedulerModel {
    SchedulerModel { current_slot: (m.current_slot + 1) % m.slot_count, ..m }
}

/// The state after a swapchain rebuild: the image-tracking array is resized
/// to the new image count, keeping what it knows of surviving indices.
pub open spec fn rebuilt_step(m: SchedulerModel, count: int) -> SchedulerModel {
    SchedulerModel {
        images: Seq::new(
            count as nat,
            |i: int|
                if i < m.images.len() {
                    m.images[i]
                } else {
                    None
                },
        ),
        ..m
    }
}

/// The frame scheduler.
pub struct FrameScheduler {
    slot_count: usize,
    current_slot: usize,
    images_in_flight: Vec<Option<usize>>,
    resize_pending: bool,
    minimized: bool,
}

impl View for FrameScheduler {
    type V = SchedulerModel;

    closed spec fn view(&self) -> SchedulerModel {
        SchedulerModel {
            slot_count: self.slot_count as int,
            current_slot: self.current_slot as int,
            images: self.images_in_flight@.map_values(
                |o: Option<usize>|
                    match o {
                        Some(s) => Some(s as int),
                        None => None,
                    },
            ),
            resize_pending: self.resize_pending,
            minimized: self.minimized,
        }
    }
}

impl FrameScheduler {
    pub open spec fn wf(&self) -> bool {
        scheduler_wf(self@)
    }

    /// A fresh scheduler: slot zero, no image claimed, no resize pending,
    /// not minimized.
    pub fn new(slot_count: usize, image_count: usize) -> (r: FrameScheduler)
        requires
            slot_count >= 1,
        ensures
            r.wf(),
            r@.slot_count == slot_count,
            r@.current_slot == 0,
            r@.images =~= Seq::new(image_count as nat, |i: int| None::<int>),
            !r@.resize_pending,
            !r@.minimized,
    {
        let mut images_in_flight: Vec<Option<usize>> = Vec::new();
        let mut i: usize = 0;
        while i < image_count
            invariant
                0 <= i <= image_count,
                images_in_flight@.len() == i,
                forall|j: int| 0 <= j < i ==> images_in_flight@[j] is None,
            decreases image_count - i,
        {
            images_in_flight.push(None);
            i = i + 1;
        }
        let r = FrameScheduler {
            slot_count,
            current_slot: 0,
            images_in_flight,
            resize_pending: false,
            minimized: false,
        };
        proof {
            assert(r@.images =~= Seq::new(image_count as nat, |i: int| None::<int>));
        }
        r
    }

    /// A resize notification: zero area suppresses rendering; a usable size
    /// clears the suppression and schedules exactly one rebuild.
    pub fn handle_resize(&mut self, width: u32, height: u32)
        requires
            old(self).wf(),
        ensures
            final(self).wf(),
            final(self)@ == resize_step(old(self)@, width, height),
    {
        if width == 0 || height == 0 {
            self.minimized = true;
        } else {
            self.minimized = false;
            self.resize_pending = true;
        }
        proof {
            assert(self@ =~= resize_step(old(self)@, width, height));
        }
    }

    /// Whether a frame may be rendered at all: never while minimized.
    pub fn should_render(&self) -> (r: bool)
        ensures
            r == !self@.minimized,
    {
        !self.minimized
    }

    /// The slot whose fence must be waited on before re-recording its
    /// command buffer.
    pub fn current_slot(&self) -> (s: usize)
        requires
            self.wf(),
        ensures
            s == self@.current_slot,
            s < self@.slot_count,
    {
        self.current_slot
    }

    /// Number of tracked presentable images.
    pub fn image_count(&self) -> (n: usize)
        ensures
            n == self@.images.len(),
    {
        self.images_in_flight.len()
    }

    /// Decides how the frame proceeds once the acquire outcome is known. A
    /// stale surface skips the frame and asks for a rebuild, changing
    /// nothing else. An acquired image is claimed by the current slot; if an
    /// older frame's slot still claims it, that slot's fence must be waited
    /// on first.
    pub fn process_acquire(&mut self, outcome: AcquireOutcome) -> (step: FrameStep)
        requires
            old(self).wf(),
            outcome matches AcquireOutcome::Acquired(i) ==> i < old(self)@.images.len(),
        ensures
            final(self).wf(),
            match outcome {
                AcquireOutcome::Stale => {
                    &&& step == FrameStep::RebuildAndSkip
                    &&& final(self)@ == old(self)@
                },
                AcquireOutcome::Acquired(i) => {
                    &&& final(self)@ == acquire_step(old(self)@, i as int)
                    &&& step matches FrameStep::Draw { image_index, wait_image_slot } && {
                        &&& image_index == i
                        &&& match old(self)@.images[i as int] {
                            Some(s) => wait_image_slot == Some(s as usize) && s
                                < old(self)@.slot_count,
                            None => wait_image_slot is None,
                        }
                    }
                },
            },
    {
        match outcome {
            AcquireOutcome::Stale => FrameStep::RebuildAndSkip,
            AcquireOutcome::Acquired(i) => {
                let wait_image_slot = self.images_in_flight[i];
                self.images_in_flight.set(i, Some(self.current_slot));
                proof {
                    assert(self@ =~= acquire_step(old(self)@, i as int));
                }
                FrameStep::Draw { image_index: i, wait_image_slot }
            },
        }
    }

    /// Processes the present outcome and advances the slot ring: returns
    /// whether the swapchain must be rebuilt (a recoverable condition, not
    /// an error).
    pub fn process_present(&mut self, outcome: PresentOutcome) -> (rebuild: bool)
        requires
            old(self).wf(),
        ensures
            final(self).wf(),
            final(self)@ == present_step(old(self)@),
            rebuild == (outcome is Stale),
            final(self)@.current_slot == (old(self)@.current_slot + 1) % old(self)@.slot_count,
    {
        self.current_slot = (self.current_slot + 1) % self.slot_count;
        proof {
            assert(self@ =~= present_step(old(self)@));
        }
        match outcome {
            PresentOutcome::Presented => false,
            PresentOutcome::Stale => true,
        }
    }

    /// Reads and clears the resize-pending flag; the caller rebuilds the
    /// swapchain exactly when it was set.
    pub fn take_resize_pending(&mut self) -> (r: bool)
        requires
            old(self).wf(),
        ensures
            final(self).wf(),
            r == old(self)@.resize_pending,
            final(self)@ == (SchedulerModel { resize_pending: false, ..old(self)@ }),
    {
        let r = self.resize_pending;
        self.resize_pending = false;
        proof {
            assert(self@ =~= (SchedulerModel { resize_pending: false, ..old(self)@ }));
        }
        r
    }

    /// After a swapchain rebuild: the image-tracking array is resized to the
    /// new image count, keeping entries for surviving indices.
    pub fn on_rebuilt(&mut self, image_count: usize)
        requires
            old(self).wf(),
        ensures
            final(self).wf(),
            final(self)@ == rebuilt_step(old(self)@, image_count as int),
    {
        let mut images: Vec<Option<usize>> = Vec::new();
        let mut i: usize = 0;
        while i < image_count
            invariant
                0 <= i <= image_count,
                images@.len() == i,
                self == old(self),
                forall|j: int|
                    0 <= j < i ==> #[trigger] images@[j] == (if j
                        < old(self).images_in_flight@.len() {
                        old(self).images_in_flight@[j]
                    } else {
                        None
                    }),
            decreases image_count - i,
        {
            if i < self.images_in_flight.len() {
                let entry = self.images_in_flight[i];
                images.push(entry);
            } else {
                images.push(None);
            }
            i = i + 1;
        }
        self.images_in_flight = images;
        proof {
            assert(self@ =~= rebuilt_step(old(self)@, image_count as int));
        }
    }
}

} // verus!
