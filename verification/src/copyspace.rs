//! The nursery copy space: a fixed-extent evacuation region.
//!
//! Surviving objects are copied out on their first trace and leave a
//! forwarding record behind; later traces of the same object return the
//! recorded copy, so each object is copied at most once.  The copy itself
//! is the host copy context's work: it hands the library the address the
//! copy went to, and the library decides and records.

use vstd::prelude::*;
use crate::address::{Address, ObjectReference};

verus! {

/// A fixed-extent evacuation space with reserved-page accounting and
/// forwarding records.
pub struct CopySpace {
    /// Identity of the space, compared against other spaces' descriptors.
    pub descriptor: usize,
    /// First address of the space.
    pub start: usize,
    /// Bytes in the space.
    pub extent: usize,
    /// Pages reserved for copy reserve plus live data.
    pub reserved: usize,
    /// True while the space is the from-space of the cycle.
    pub from_space: bool,
    /// Forwarding records of the current cycle: each traced object's
    /// address, paired with the address its copy went to.
    pub forwarding: Vec<(usize, usize)>,
}

impl CopySpace {
    /// True iff the address lies within the space's range.
    pub open spec fn addr_in_space(&self, a: usize) -> bool {
        self.start <= a < self.start + self.extent
    }

    /// True iff the object has a forwarding record.
    pub open spec fn is_forwarded(&self, a: usize) -> bool {
        exists|i: int| 0 <= i < self.forwarding@.len() && (#[trigger] self.forwarding@[i]).0 == a
    }

    /// The address the object was forwarded to.
    pub open spec fn forwarding_of(&self, a: usize) -> usize {
        let i = choose|i: int|
            0 <= i < self.forwarding@.len() && (#[trigger] self.forwarding@[i]).0 == a;
        self.forwarding@[i].1
    }

    /// Well-formedness: the range fits the address space, each object is
    /// forwarded at most once, from inside the space to outside it.
    pub open spec fn wf(&self) -> bool {
        &&& self.start + self.extent <= usize::MAX
        &&& forall|i: int, j: int|
            0 <= i < j < self.forwarding@.len() ==> (#[trigger] self.forwarding@[i]).0 != (
            #[trigger] self.forwarding@[j]).0
        &&& forall|i: int|
            0 <= i < self.forwarding@.len() ==> self.addr_in_space(
                (#[trigger] self.forwarding@[i]).0,
            ) && !self.addr_in_space(self.forwarding@[i].1)
    }

    /// Every object with a forwarding record was moved out of the space.
    pub proof fn lemma_forwarded_objects_leave_space(&self, a: usize)
        requires
            self.wf(),
            self.is_forwarded(a),
        ensures
            !self.addr_in_space(self.forwarding_of(a)),
    {
    }

    /// Make a space over `[start, start + extent)` with nothing reserved,
    /// not yet a from-space, and no forwarding records.
    pub fn new(descriptor: usize, start: usize, extent: usize) -> (r: CopySpace)
        requires
            start + extent <= usize::MAX,
        ensures
            r.wf(),
            r.descriptor == descriptor,
            r.start == start,
            r.extent == extent,
            r.reserved == 0,
            r.from_space == false,
            r.forwarding@.len() == 0,
    {
        CopySpace { descriptor, start, extent, reserved: 0, from_space: false, forwarding: Vec::new() }
    }

    /// Pages currently reserved for copy reserve plus live data.
    pub fn reserved_pages(&self) -> (r: usize)
        ensures
            r == self.reserved,
    {
        self.reserved
    }

    /// True iff the reference lies within this space's range.
    pub fn in_space(&self, object: ObjectReference) -> (r: bool)
        requires
            self.wf(),
        ensures
            r == self.addr_in_space(object.0),
    {
        self.start <= object.0 && object.0 - self.start < self.extent
    }

    /// Begin a cycle: set whether this space is the from-space, and start
    /// the cycle with no forwarding records.  Reserved pages are untouched.
    pub fn prepare(&mut self, flip: bool)
        ensures
            old(self).wf() ==> final(self).wf(),
            final(self).descriptor == old(self).descriptor,
            final(self).start == old(self).start,
            final(self).extent == old(self).extent,
            final(self).reserved == old(self).reserved,
            final(self).from_space == flip,
            final(self).forwarding@.len() == 0,
    {
        self.from_space = flip;
        self.forwarding = Vec::new();
    }

    /// End a cycle: the from-space pages go back to the page resource, so
    /// nothing stays reserved, and the space stops being a from-space.
    pub fn release(&mut self)
        ensures
            old(self).wf() ==> final(self).wf(),
            final(self).descriptor == old(self).descriptor,
            final(self).start == old(self).start,
            final(self).extent == old(self).extent,
            final(self).reserved == 0,
            final(self).from_space == false,
            final(self).forwarding@.len() == 0,
    {
        self.reserved = 0;
        self.from_space = false;
        self.forwarding = Vec::new();
    }

    /// Forward-or-copy one reference.  On the first visit the object's copy
    /// — made by the host copy context at `copy_to`, outside this space —
    /// is recorded and returned; on every later visit the recorded copy is
    /// returned unchanged, so each object is copied at most once.
    pub fn trace_object(&mut self, object: ObjectReference, copy_to: Address) -> (r:
        ObjectReference)
        requires
            old(self).wf(),
            old(self).addr_in_space(object.0),
            !old(self).addr_in_space(copy_to.0),
        ensures
            final(self).wf(),
            final(self).descriptor == old(self).descriptor,
            final(self).start == old(self).start,
            final(self).extent == old(self).extent,
            final(self).reserved == old(self).reserved,
            final(self).from_space == old(self).from_space,
            !final(self).addr_in_space(r.0),
            old(self).is_forwarded(object.0) ==> {
                &&& r.0 == old(self).forwarding_of(object.0)
                &&& final(self).forwarding == old(self).forwarding
            },
            !old(self).is_forwarded(object.0) ==> {
                &&& r.0 == copy_to.0
                &&& final(self).forwarding@ == old(self).forwarding@.push((object.0, copy_to.0))
            },
            final(self).is_forwarded(object.0),
            final(self).forwarding_of(object.0) == r.0,
    {
        let n = self.forwarding.len();
        let mut i: usize = 0;
        while i < n
            invariant
                *self == *old(self),
                self.wf(),
                n == self.forwarding@.len(),
                i <= n,
                forall|j: int| 0 <= j < i ==> (#[trigger] self.forwarding@[j]).0 != object.0,
            decreases n - i,
        {
            let k = self.forwarding[i].0;
            if k == object.0 {
                let v = self.forwarding[i].1;
                proof {
                    assert(self.is_forwarded(object.0));
                    let w = choose|w: int|
                        0 <= w < self.forwarding@.len() && (#[trigger] self.forwarding@[w]).0
                            == object.0;
                    assert(w == i as int);
                }
                return ObjectReference(v);
            }
            i = i + 1;
        }
        proof {
            assert(!old(self).is_forwarded(object.0));
        }
        self.forwarding.push((object.0, copy_to.0));
        proof {
            let s = self.forwarding@;
            let olds = old(self).forwarding@;
            assert forall|i2: int, j2: int| 0 <= i2 < j2 < s.len() implies (#[trigger] s[i2]).0 != (
                #[trigger] s[j2]).0 by {
                if j2 == s.len() - 1 {
                    assert(s[i2] == olds[i2]);
                }
            }
            assert(self.is_forwarded(object.0)) by {
                assert(s[s.len() - 1].0 == object.0);
            }
            let w = choose|w: int| 0 <= w < s.len() && (#[trigger] s[w]).0 == object.0;
            if w != s.len() - 1 {
                assert(olds[w] == s[w]);
                assert(old(self).is_forwarded(object.0));
            }
        }
        ObjectReference(copy_to.0)
    }
}

} // verus!
