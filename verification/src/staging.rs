//! The bounded, host-visible staging region.
//!
//! The staging region is a fixed-capacity window that is refreshed, at offset
//! zero, with the longest prefix of the pending stroke that fits. Its
//! contents here are the exact image of what the surrounding code writes into
//! the persistently mapped transfer buffer, so every device copy is specified
//! against them.

use vstd::prelude::*;

use crate::geom::Line;

verus! {

/// Host-side image of the staging region.
pub struct StagingStream {
    data: Vec<Line>,
    capacity: u32,
}

impl View for StagingStream {
    type V = Seq<Line>;

    closed spec fn view(&self) -> Seq<Line> {
        self.data@
    }
}

impl StagingStream {
    /// Configured capacity, in segments; also the per-cycle batch size.
    pub closed spec fn spec_capacity(&self) -> int {
        self.capacity as int
    }

    pub open spec fn wf(&self) -> bool {
        &&& self.spec_capacity() >= 1
        &&& self@.len() <= self.spec_capacity()
    }

    /// An empty staging region with the configured capacity.
    pub fn new(capacity: u32) -> (r: StagingStream)
        requires
            capacity >= 1,
        ensures
            r.wf(),
            r@ =~= Seq::<Line>::empty(),
            r.spec_capacity() == capacity,
    {
        StagingStream { data: Vec::new(), capacity }
    }

    pub fn capacity(&self) -> (c: u32)
        ensures
            c == self.spec_capacity(),
    {
        self.capacity
    }

    /// Refreshes the region with the longest prefix of `src` that fits,
    /// writing from offset zero; returns how many segments were written.
    pub fn load_prefix(&mut self, src: &Vec<Line>) -> (n: usize)
        requires
            old(self).wf(),
        ensures
            final(self).wf(),
            final(self).spec_capacity() == old(self).spec_capacity(),
            n == if src@.len() < old(self).spec_capacity() {
                src@.len() as int
            } else {
                old(self).spec_capacity()
            },
            final(self)@ =~= src@.take(n as int),
    {
        let cap = self.capacity as usize;
        let n = if src.len() < cap {
            src.len()
        } else {
            cap
        };
        let mut data: Vec<Line> = Vec::new();
        let mut i: usize = 0;
        while i < n
            invariant
                0 <= i <= n <= src@.len(),
                data@ =~= src@.take(i as int),
            decreases n - i,
        {
            data.push(src[i]);
            proof {
                assert(data@ =~= src@.take(i as int + 1));
            }
            i = i + 1;
        }
        self.data = data;
        n
    }

    /// Number of segments currently staged.
    pub fn len(&self) -> (n: usize)
        ensures
            n == self@.len(),
    {
        self.data.len()
    }

    /// One staged segment.
    pub fn segment_at(&self, i: usize) -> (l: Line)
        requires
            i < self@.len(),
        ensures
            l == self@[i as int],
    {
        self.data[i]
    }

    /// The staged segments as a borrowed vector (what the mapped transfer
    /// buffer is filled from).
    pub fn segments(&self) -> (v: &Vec<Line>)
        ensures
            v@ =~= self@,
    {
        &self.data
    }
}

} // verus!
