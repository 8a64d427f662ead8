//! The generational coordinator: the policy engine of a generational plan.
//!
//! It owns the nursery, reads the common plan's accounting, and holds the
//! two mode latches: `gc_full_heap`, the mode of the collection in
//! progress, written once per cycle by `request_full_heap_collection`; and
//! `next_gc_full_heap`, the sticky promotion of the next cycle, latched
//! when a non-nursery space fills and cleared at the end of a full-heap
//! collection.  The host's schedulers, spaces and copy contexts stay
//! outside: their answers come in as plain values.

use vstd::prelude::*;
use crate::address::{Address, ObjectReference};
use crate::conversions::{bytes_to_pages_up, spec_bytes_to_pages_up};
use crate::copyspace::CopySpace;

verus! {

/// The host options the coordinator reads.
pub struct GcOptions {
    /// Upper bound, in bytes, on nursery occupancy before a collection is
    /// forced.
    pub max_nursery: usize,
    /// Lower bound, in bytes, used when asking whether the heap can still
    /// hold a minimum nursery.
    pub min_nursery: usize,
    /// Promote user-requested collections to full-heap ones.
    pub full_heap_system_gc: bool,
}

/// The base accounting shared by all plans, as far as the coordinator
/// reads it.  The host updates these fields between cycles.
pub struct BasePlan {
    /// The recognized options.
    pub options: GcOptions,
    /// A collection was requested by the user.
    pub user_triggered_collection: bool,
    /// How many collections the pending allocation has already triggered;
    /// above one, the previous collection failed to satisfy it.
    pub cur_collection_attempts: usize,
    /// The heap size handed over at initialization.
    pub heap_size: usize,
}

/// The common plan: base accounting plus what the coordinator sees of the
/// non-nursery spaces.
pub struct CommonPlan {
    /// The base accounting.
    pub base: BasePlan,
    /// First address of the large-object space.
    pub los_start: usize,
    /// Bytes in the large-object space.
    pub los_extent: usize,
    /// Pages used by the common (non-nursery) spaces.
    pub pages_used: usize,
    /// The mode the common spaces were prepared with for the cycle in
    /// progress: mature spaces only cycle when the collection is full-heap.
    pub prepared_full_heap: bool,
}

impl CommonPlan {
    /// The large-object space range fits the address space.
    pub open spec fn wf(&self) -> bool {
        self.los_start + self.los_extent <= usize::MAX
    }
}

/// Common implementation for generational plans.  Each generational plan
/// includes this type and forwards calls to it where possible.
pub struct Gen {
    /// The nursery space.
    pub nursery: CopySpace,
    /// The common plan.
    pub common: CommonPlan,
    /// Is the collection in progress a full-heap one?
    pub gc_full_heap: bool,
    /// Must the next collection be promoted to full-heap?
    pub next_gc_full_heap: bool,
    /// Force every collection to be full-heap (barrier-overhead
    /// measurement builds set this).
    pub full_nursery_gc: bool,
}

impl Gen {
    /// Well-formedness of the coordinator and its spaces.
    pub open spec fn wf(&self) -> bool {
        &&& self.nursery.wf()
        &&& self.common.wf()
    }

    /// The collection in progress is a nursery one exactly when the
    /// full-heap latch is off.
    pub open spec fn is_nursery_gc(&self) -> bool {
        !self.gc_full_heap
    }

    /// The nursery at `[nursery_start, nursery_start + nursery_extent)`
    /// starts empty; both mode latches start false, so the first collection
    /// is a minor one unless something promotes it.
    pub fn new(
        nursery_descriptor: usize,
        nursery_start: usize,
        nursery_extent: usize,
        los_start: usize,
        los_extent: usize,
        options: GcOptions,
        full_nursery_gc: bool,
    ) -> (r: Gen)
        requires
            nursery_start + nursery_extent <= usize::MAX,
            los_start + los_extent <= usize::MAX,
        ensures
            r.wf(),
            r.nursery.descriptor == nursery_descriptor,
            r.nursery.start == nursery_start,
            r.nursery.extent == nursery_extent,
            r.nursery.reserved == 0,
            r.nursery.from_space == false,
            r.nursery.forwarding@.len() == 0,
            r.common.base.options == options,
            r.common.base.user_triggered_collection == false,
            r.common.base.cur_collection_attempts == 0,
            r.common.base.heap_size == 0,
            r.common.los_start == los_start,
            r.common.los_extent == los_extent,
            r.common.pages_used == 0,
            r.common.prepared_full_heap == false,
            r.gc_full_heap == false,
            r.next_gc_full_heap == false,
            r.full_nursery_gc == full_nursery_gc,
    {
        Gen {
            nursery: CopySpace::new(nursery_descriptor, nursery_start, nursery_extent),
            common: CommonPlan {
                base: BasePlan {
                    options,
                    user_triggered_collection: false,
                    cur_collection_attempts: 0,
                    heap_size: 0,
                },
                los_start,
                los_extent,
                pages_used: 0,
                prepared_full_heap: false,
            },
            gc_full_heap: false,
            next_gc_full_heap: false,
            full_nursery_gc,
        }
    }

    /// The space layout the metadata is keyed by is sane: both ranges fit
    /// the address space and do not overlap.
    pub open spec fn metadata_sane(&self) -> bool {
        &&& self.nursery.start + self.nursery.extent <= usize::MAX
        &&& self.common.los_start + self.common.los_extent <= usize::MAX
        &&& (self.nursery.start + self.nursery.extent <= self.common.los_start
            || self.common.los_start + self.common.los_extent <= self.nursery.start)
    }

    /// Verify the layout of the spaces' side metadata: their address
    /// ranges must fit and must not overlap.
    pub fn verify_side_metadata_sanity(&self) -> (r: bool)
        requires
            self.wf(),
        ensures
            r == self.metadata_sane(),
    {
        self.nursery.start + self.nursery.extent <= self.common.los_start
            || self.common.los_start + self.common.los_extent <= self.nursery.start
    }

    /// Record the heap size the host initialized the plan with.
    pub fn gc_init(&mut self, heap_size: usize)
        requires
            old(self).wf(),
        ensures
            final(self).wf(),
            final(self).common.base.heap_size == heap_size,
            final(self).common.base.options == old(self).common.base.options,
            final(self).common.base.user_triggered_collection == old(
                self,
            ).common.base.user_triggered_collection,
            final(self).common.base.cur_collection_attempts == old(
                self,
            ).common.base.cur_collection_attempts,
            final(self).common.los_start == old(self).common.los_start,
            final(self).common.los_extent == old(self).common.los_extent,
            final(self).common.pages_used == old(self).common.pages_used,
            final(self).common.prepared_full_heap == old(self).common.prepared_full_heap,
            final(self).nursery == old(self).nursery,
            final(self).gc_full_heap == old(self).gc_full_heap,
            final(self).next_gc_full_heap == old(self).next_gc_full_heap,
            final(self).full_nursery_gc == old(self).full_nursery_gc,
    {
        self.common.base.heap_size = heap_size;
    }

    /// Begin a cycle: the common spaces are prepared with the mode of this
    /// collection (they cycle only when it is full-heap), and the nursery
    /// always flips to from-space.  Called by a single thread before any
    /// trace starts; the mode latches stay as
    /// `request_full_heap_collection` left them.
    pub fn prepare(&mut self)
        requires
            old(self).wf(),
        ensures
            final(self).wf(),
            final(self).common.base == old(self).common.base,
            final(self).common.los_start == old(self).common.los_start,
            final(self).common.los_extent == old(self).common.los_extent,
            final(self).common.pages_used == old(self).common.pages_used,
            final(self).common.prepared_full_heap == old(self).gc_full_heap,
            final(self).nursery.descriptor == old(self).nursery.descriptor,
            final(self).nursery.start == old(self).nursery.start,
            final(self).nursery.extent == old(self).nursery.extent,
            final(self).nursery.reserved == old(self).nursery.reserved,
            final(self).nursery.from_space == true,
            final(self).nursery.forwarding@.len() == 0,
            final(self).gc_full_heap == old(self).gc_full_heap,
            final(self).next_gc_full_heap == old(self).next_gc_full_heap,
            final(self).full_nursery_gc == old(self).full_nursery_gc,
    {
        let full_heap = !self.is_current_gc_nursery();
        self.common.prepared_full_heap = full_heap;
        self.nursery.prepare(true);
    }

    /// End a cycle: the nursery returns its from-space pages, so nothing
    /// stays reserved in it, and a completed full-heap collection clears
    /// the sticky promotion of the next cycle.
    pub fn release(&mut self)
        requires
            old(self).wf(),
        ensures
            final(self).wf(),
            final(self).common.base == old(self).common.base,
            final(self).common.los_start == old(self).common.los_start,
            final(self).common.los_extent == old(self).common.los_extent,
            final(self).common.pages_used == old(self).common.pages_used,
            final(self).common.prepared_full_heap == false,
            final(self).nursery.descriptor == old(self).nursery.descriptor,
            final(self).nursery.start == old(self).nursery.start,
            final(self).nursery.extent == old(self).nursery.extent,
            final(self).nursery.reserved == 0,
            final(self).nursery.from_space == false,
            final(self).nursery.forwarding@.len() == 0,
            final(self).gc_full_heap == old(self).gc_full_heap,
            final(self).next_gc_full_heap == (old(self).next_gc_full_heap && !old(
                self,
            ).gc_full_heap),
            final(self).full_nursery_gc == old(self).full_nursery_gc,
    {
        let full_heap = !self.is_current_gc_nursery();
        self.common.prepared_full_heap = false;
        self.nursery.release();
        if full_heap {
            self.next_gc_full_heap = false;
        }
    }

    /// Decide, on a slow-path allocation, whether a collection is needed:
    /// yes when the nursery's reserved pages reach the configured maximum
    /// nursery size, or when the base accounting asks for one
    /// (`base_gc_required` is its verdict for this plan and space).  When
    /// a non-nursery space reports full, the next collection is latched
    /// full-heap: that exhaustion is cleared only by a full-heap cycle.
    pub fn collection_required(
        &mut self,
        space_full: bool,
        space_descriptor: usize,
        base_gc_required: bool,
    ) -> (r: bool)
        requires
            old(self).wf(),
        ensures
            final(self).wf(),
            ({
                let nursery_full = old(self).nursery.reserved >= spec_bytes_to_pages_up(
                    old(self).common.base.options.max_nursery,
                );
                &&& r == (nursery_full || base_gc_required)
                &&& (nursery_full ==> r)
                &&& final(self).next_gc_full_heap == (old(self).next_gc_full_heap || (!nursery_full
                    && space_full && space_descriptor != old(self).nursery.descriptor))
            }),
            final(self).nursery == old(self).nursery,
            final(self).common == old(self).common,
            final(self).gc_full_heap == old(self).gc_full_heap,
            final(self).full_nursery_gc == old(self).full_nursery_gc,
    {
        let nursery_full = self.nursery.reserved_pages() >= bytes_to_pages_up(
            self.common.base.options.max_nursery,
        );
        if nursery_full {
            return true;
        }
        if space_full && space_descriptor != self.nursery.descriptor {
            self.next_gc_full_heap = true;
        }
        base_gc_required
    }

    /// Pick the mode of the collection being started and write it into
    /// `gc_full_heap`: full when the build forces it, when the user asked
    /// and the options promote user collections, when the promotion latch
    /// is set or the previous attempt failed, or, as the last resort, when
    /// the heap is effectively exhausted (`total_pages <= reserved_pages`).
    pub fn request_full_heap_collection(&mut self, total_pages: usize, reserved_pages: usize) -> (r:
        bool)
        requires
            old(self).wf(),
        ensures
            final(self).wf(),
            r == (old(self).full_nursery_gc || (old(self).common.base.user_triggered_collection
                && old(self).common.base.options.full_heap_system_gc) || old(
                self,
            ).next_gc_full_heap || old(self).common.base.cur_collection_attempts > 1 || total_pages
                <= reserved_pages),
            final(self).gc_full_heap == r,
            final(self).nursery == old(self).nursery,
            final(self).common == old(self).common,
            final(self).next_gc_full_heap == old(self).next_gc_full_heap,
            final(self).full_nursery_gc == old(self).full_nursery_gc,
    {
        let is_full_heap = if self.full_nursery_gc {
            // This build measures barrier overhead: always collect the
            // full heap.
            true
        } else if self.common.base.user_triggered_collection
            && self.common.base.options.full_heap_system_gc {
            // A user-triggered collection, promoted to full-heap by the
            // options.
            true
        } else if self.next_gc_full_heap || self.common.base.cur_collection_attempts > 1 {
            // A latched promotion, or the previous collection failed to
            // satisfy the allocation: force a full heap.
            true
        } else {
            total_pages <= reserved_pages
        };
        self.gc_full_heap = is_full_heap;
        is_full_heap
    }

    /// Trace one reference during a full-heap collection: a nursery object
    /// is evacuated through the nursery's forwarding (its copy, made by
    /// the host copy context, sits at `copy_to`, outside the nursery); a
    /// reference into any other space is traced in place and stays.
    pub fn trace_object_full_heap(&mut self, object: ObjectReference, copy_to: Address) -> (r:
        ObjectReference)
        requires
            old(self).wf(),
            old(self).nursery.addr_in_space(object.0) ==> !old(self).nursery.addr_in_space(
                copy_to.0,
            ),
        ensures
            final(self).wf(),
            final(self).common == old(self).common,
            final(self).gc_full_heap == old(self).gc_full_heap,
            final(self).next_gc_full_heap == old(self).next_gc_full_heap,
            final(self).full_nursery_gc == old(self).full_nursery_gc,
            final(self).nursery.descriptor == old(self).nursery.descriptor,
            final(self).nursery.start == old(self).nursery.start,
            final(self).nursery.extent == old(self).nursery.extent,
            final(self).nursery.reserved == old(self).nursery.reserved,
            final(self).nursery.from_space == old(self).nursery.from_space,
            old(self).nursery.addr_in_space(object.0) ==> {
                &&& !final(self).nursery.addr_in_space(r.0)
                &&& final(self).nursery.is_forwarded(object.0)
                &&& final(self).nursery.forwarding_of(object.0) == r.0
                &&& (old(self).nursery.is_forwarded(object.0) ==> {
                    &&& r.0 == old(self).nursery.forwarding_of(object.0)
                    &&& final(self).nursery == old(self).nursery
                })
                &&& (!old(self).nursery.is_forwarded(object.0) ==> {
                    &&& r.0 == copy_to.0
                    &&& final(self).nursery.forwarding@ == old(self).nursery.forwarding@.push(
                        (object.0, copy_to.0),
                    )
                })
            },
            !old(self).nursery.addr_in_space(object.0) ==> r == object && final(self).nursery
                == old(self).nursery,
    {
        if self.nursery.in_space(object) {
            return self.nursery.trace_object(object, copy_to);
        }
        // The common spaces (mature, immortal, large-object, host spaces)
        // trace in place: the reference stays.
        object
    }

    /// Trace one reference during a nursery collection: a nursery object
    /// is evacuated as in a full-heap trace; a large object allocated
    /// directly into the large-object space as a nursery object is traced
    /// in place; any other (mature) reference is not scanned in a minor
    /// collection and returns unchanged.
    pub fn trace_object_nursery(&mut self, object: ObjectReference, copy_to: Address) -> (r:
        ObjectReference)
        requires
            old(self).wf(),
            old(self).nursery.addr_in_space(object.0) ==> !old(self).nursery.addr_in_space(
                copy_to.0,
            ),
        ensures
            final(self).wf(),
            final(self).common == old(self).common,
            final(self).gc_full_heap == old(self).gc_full_heap,
            final(self).next_gc_full_heap == old(self).next_gc_full_heap,
            final(self).full_nursery_gc == old(self).full_nursery_gc,
            final(self).nursery.descriptor == old(self).nursery.descriptor,
            final(self).nursery.start == old(self).nursery.start,
            final(self).nursery.extent == old(self).nursery.extent,
            final(self).nursery.reserved == old(self).nursery.reserved,
            final(self).nursery.from_space == old(self).nursery.from_space,
            old(self).nursery.addr_in_space(object.0) ==> {
                &&& !final(self).nursery.addr_in_space(r.0)
                &&& final(self).nursery.is_forwarded(object.0)
                &&& final(self).nursery.forwarding_of(object.0) == r.0
                &&& (old(self).nursery.is_forwarded(object.0) ==> {
                    &&& r.0 == old(self).nursery.forwarding_of(object.0)
                    &&& final(self).nursery == old(self).nursery
                })
                &&& (!old(self).nursery.is_forwarded(object.0) ==> {
                    &&& r.0 == copy_to.0
                    &&& final(self).nursery.forwarding@ == old(self).nursery.forwarding@.push(
                        (object.0, copy_to.0),
                    )
                })
            },
            !old(self).nursery.addr_in_space(object.0) ==> r == object && final(self).nursery
                == old(self).nursery,
    {
        if self.nursery.in_space(object) {
            // Evacuate nursery objects.
            return self.nursery.trace_object(object, copy_to);
        }
        if self.common.los_start <= object.0 && object.0 - self.common.los_start
            < self.common.los_extent {
            // Large objects may be allocated into the large-object space
            // as nursery objects: its trace marks in place, the reference
            // stays.
            return object;
        }
        // Mature references are not scanned in a minor collection.
        object
    }

    /// Is the collection in progress a nursery collection?
    pub fn is_current_gc_nursery(&self) -> (r: bool)
        ensures
            r == self.is_nursery_gc(),
            r == !self.gc_full_heap,
    {
        !self.gc_full_heap
    }

    /// The collection in progress is a nursery one if and only if the
    /// full-heap latch is off.  The latch is written once per cycle by
    /// `request_full_heap_collection` and left untouched by `prepare`,
    /// both traces and `release`, so the equivalence holds for the whole
    /// cycle.
    pub proof fn lemma_nursery_gc_iff_not_full_heap(g: &Gen)
        ensures
            g.is_nursery_gc() <==> !g.gc_full_heap,
    {
    }

    /// Should the next collection be a full-heap one?  Yes when the pages
    /// still available to the plan cannot hold even a minimum nursery.
    pub fn should_next_gc_be_full_heap(pages_avail: usize, options: &GcOptions) -> (r: bool)
        ensures
            r == (pages_avail < spec_bytes_to_pages_up(options.min_nursery)),
    {
        pages_avail < bytes_to_pages_up(options.min_nursery)
    }

    /// Latch or clear the promotion of the next collection to full-heap.
    pub fn set_next_gc_full_heap(&mut self, next_gc_full_heap: bool)
        requires
            old(self).wf(),
        ensures
            final(self).wf(),
            final(self).next_gc_full_heap == next_gc_full_heap,
            final(self).nursery == old(self).nursery,
            final(self).common == old(self).common,
            final(self).gc_full_heap == old(self).gc_full_heap,
            final(self).full_nursery_gc == old(self).full_nursery_gc,
    {
        self.next_gc_full_heap = next_gc_full_heap;
    }

    /// Pages reserved for the collection by a generational plan: the
    /// nursery's reservation.  A concrete plan adds its own on top.
    pub fn get_collection_reserve(&self) -> (r: usize)
        ensures
            r == self.nursery.reserved,
    {
        self.nursery.reserved_pages()
    }

    /// Pages used by a generational plan: the nursery's reservation plus
    /// the common spaces' use.  A concrete plan adds its own on top.
    pub fn get_pages_used(&self) -> (r: usize)
        requires
            self.nursery.reserved + self.common.pages_used <= usize::MAX,
        ensures
            r == self.nursery.reserved + self.common.pages_used,
    {
        self.nursery.reserved_pages() + self.common.pages_used
    }
}

} // verus!
