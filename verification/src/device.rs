//! The device-local geometry buffer.
//!
//! Device storage grows only by incremental copies out of the staging region,
//! each written at a caller-chosen offset that, in the streaming protocol, is
//! always the current committed segment count — so committed ranges are never
//! overwritten, and the buffer never exceeds its configured capacity. The
//! contents here are the exact image of what the device-side copy commands
//! produce.

use vstd::prelude::*;

use crate::geom::Line;
use crate::staging::StagingStream;

verus! {

/// The written contents after copying `s` over `d` starting at `dst`.
pub open spec fn overwrite_at(d: Seq<Line>, dst: int, s: Seq<Line>) -> Seq<Line> {
    if dst + s.len() <= d.len() {
        d.take(dst) + s + d.skip(dst + s.len())
    } else {
        d.take(dst) + s
    }
}

/// Host-side image of the device-local buffer: the prefix written so far.
pub struct DeviceGeometryBuffer {
    data: Vec<Line>,
    capacity: u32,
}

impl View for DeviceGeometryBuffer {
    type V = Seq<Line>;

    closed spec fn view(&self) -> Seq<Line> {
        self.data@
    }
}

impl DeviceGeometryBuffer {
    /// Configured capacity, in segments (`max_vertices`).
    pub closed spec fn spec_capacity(&self) -> int {
        self.capacity as int
    }

    pub open spec fn wf(&self) -> bool {
        self@.len() <= self.spec_capacity()
    }

    /// A fresh, unwritten buffer with the configured capacity.
    pub fn new(capacity: u32) -> (r: DeviceGeometryBuffer)
        ensures
            r.wf(),
            r@ =~= Seq::<Line>::empty(),
            r.spec_capacity() == capacity,
    {
        DeviceGeometryBuffer { data: Vec::new(), capacity }
    }

    pub fn capacity(&self) -> (c: u32)
        ensures
            c == self.spec_capacity(),
    {
        self.capacity
    }

    /// Copies the first `n` staged segments into the buffer at offset `dst`.
    /// The copy must land inside the configured capacity and must not leave a
    /// gap of unwritten segments before `dst`.
    pub fn copy_from_staging(&mut self, staging: &StagingStream, n: usize, dst: usize)
        requires
            old(self).wf(),
            n <= staging@.len(),
            dst <= old(self)@.len(),
            dst + n <= old(self).spec_capacity(),
        ensures
            final(self).wf(),
            final(self).spec_capacity() == old(self).spec_capacity(),
            final(self)@ =~= overwrite_at(old(self)@, dst as int, staging@.take(n as int)),
    {
        let mut k: usize = 0;
        while k < n
            invariant
                0 <= k <= n <= staging@.len(),
                dst + n <= self.spec_capacity(),
                dst <= old(self)@.len(),
                self.spec_capacity() == old(self).spec_capacity(),
                self@.len() == if old(self)@.len() >= dst + k {
                    old(self)@.len() as int
                } else {
                    dst + k
                },
                forall|i: int|
                    0 <= i < self@.len() ==> #[trigger] self@[i] == (if dst <= i < dst + k {
                        staging@[i - dst]
                    } else {
                        old(self)@[i]
                    }),
            decreases n - k,
        {
            let seg = staging.segment_at(k);
            if dst + k < self.data.len() {
                self.data.set(dst + k, seg);
            } else {
                self.data.push(seg);
            }
            k = k + 1;
        }
        proof {
            let s = staging@.take(n as int);
            let o = old(self)@;
            if dst + n <= o.len() {
                assert(self@ =~= o.take(dst as int) + s + o.skip(dst + n as int));
            } else {
                assert(self@ =~= o.take(dst as int) + s);
            }
        }
    }

    /// Number of segments written so far.
    pub fn len(&self) -> (n: usize)
        ensures
            n == self@.len(),
    {
        self.data.len()
    }

    /// One written segment.
    pub fn segment_at(&self, i: usize) -> (l: Line)
        requires
            i < self@.len(),
        ensures
            l == self@[i as int],
    {
        self.data[i]
    }
}

} // verus!
