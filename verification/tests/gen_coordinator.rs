//! The generational coordinator: collection triggers, mode selection, the
//! prepare/release cycle and tracing dispatch.

use mmtk::address::{Address, ObjectReference};
use mmtk::conversions::BYTES_IN_PAGE;
use mmtk::copyspace::CopySpace;
use mmtk::generational::{Gen, GcOptions};

const NURSERY_DESC: usize = 1;
const NURSERY_START: usize = 0x1000_0000;
const NURSERY_EXTENT: usize = 0x0100_0000;
const LOS_START: usize = 0x3000_0000;
const LOS_EXTENT: usize = 0x0100_0000;
const MATURE_DESC: usize = 2;
const MAX_NURSERY_PAGES: usize = 100;

fn options() -> GcOptions {
    GcOptions {
        max_nursery: MAX_NURSERY_PAGES * BYTES_IN_PAGE,
        min_nursery: 2 * BYTES_IN_PAGE,
        full_heap_system_gc: false,
    }
}

fn gen_with(options: GcOptions) -> Gen {
    Gen::new(NURSERY_DESC, NURSERY_START, NURSERY_EXTENT, LOS_START, LOS_EXTENT, options, false)
}

#[test]
fn collection_required_on_nursery_boundary() {
    let mut g = gen_with(options());
    g.nursery.reserved = MAX_NURSERY_PAGES - 1;
    assert!(!g.collection_required(false, NURSERY_DESC, false));
    g.nursery.reserved = MAX_NURSERY_PAGES;
    assert!(g.collection_required(false, NURSERY_DESC, false));
}

#[test]
fn collection_required_ceil_of_max_nursery() {
    // A max_nursery that is not page-aligned rounds up.
    let mut opts = options();
    opts.max_nursery = BYTES_IN_PAGE + 1;
    let mut g = gen_with(opts);
    g.nursery.reserved = 1;
    assert!(!g.collection_required(false, NURSERY_DESC, false));
    g.nursery.reserved = 2;
    assert!(g.collection_required(false, NURSERY_DESC, false));
}

#[test]
fn collection_required_follows_base_verdict() {
    let mut g = gen_with(options());
    assert!(!g.collection_required(false, MATURE_DESC, false));
    assert!(g.collection_required(false, MATURE_DESC, true));
}

#[test]
fn request_full_heap_on_exhausted_heap_boundary() {
    let mut g = gen_with(options());
    assert!(g.request_full_heap_collection(100, 100));
    assert!(!g.is_current_gc_nursery());
    let mut g2 = gen_with(options());
    assert!(!g2.request_full_heap_collection(100, 99));
    assert!(g2.is_current_gc_nursery());
}

#[test]
fn space_full_promotion_latches_next_gc() {
    let mut g = gen_with(options());
    // A full mature space asks for a collection and latches the promotion.
    assert!(g.collection_required(true, MATURE_DESC, true));
    assert!(g.next_gc_full_heap);
    // The next collection is full-heap even though the heuristics would
    // prefer a minor one.
    assert!(g.request_full_heap_collection(1000, 400));
}

#[test]
fn space_full_on_nursery_does_not_latch() {
    let mut g = gen_with(options());
    assert!(g.collection_required(true, NURSERY_DESC, true));
    assert!(!g.next_gc_full_heap);
}

#[test]
fn retry_escalation_forces_full_heap() {
    let mut g = gen_with(options());
    // The minor collection failed: the allocation is on its second attempt.
    g.common.base.cur_collection_attempts = 2;
    assert!(g.request_full_heap_collection(1000, 10));
}

#[test]
fn user_triggered_full_heap_system_gc() {
    let mut opts = options();
    opts.full_heap_system_gc = true;
    let mut g = gen_with(opts);
    g.common.base.user_triggered_collection = true;
    assert!(g.request_full_heap_collection(1000, 10));
}

#[test]
fn user_triggered_without_option_stays_minor() {
    let mut g = gen_with(options());
    g.common.base.user_triggered_collection = true;
    assert!(!g.request_full_heap_collection(1000, 10));
}

#[test]
fn full_nursery_gc_build_always_full_heap() {
    let mut g = Gen::new(
        NURSERY_DESC,
        NURSERY_START,
        NURSERY_EXTENT,
        LOS_START,
        LOS_EXTENT,
        options(),
        true,
    );
    assert!(g.request_full_heap_collection(1000, 10));
}

#[test]
fn prepare_release_leaves_nursery_empty() {
    let mut g = gen_with(options());
    g.nursery.reserved = 55;
    g.prepare();
    assert!(g.nursery.from_space);
    assert_eq!(g.nursery.reserved, 55);
    g.release();
    assert_eq!(g.nursery.reserved_pages(), 0);
    assert!(!g.nursery.from_space);
}

#[test]
fn prepare_hands_mode_to_common_spaces() {
    let mut g = gen_with(options());
    g.request_full_heap_collection(100, 100);
    g.prepare();
    assert!(g.common.prepared_full_heap);
    g.release();
    assert!(!g.common.prepared_full_heap);
}

#[test]
fn release_after_full_heap_clears_promotion() {
    let mut g = gen_with(options());
    g.set_next_gc_full_heap(true);
    assert!(g.request_full_heap_collection(1000, 10));
    g.prepare();
    g.release();
    assert!(!g.next_gc_full_heap);
}

#[test]
fn minor_gc_under_nursery_pressure() {
    let mut g = gen_with(options());
    g.nursery.reserved = MAX_NURSERY_PAGES;
    assert!(g.collection_required(false, NURSERY_DESC, false));
    assert!(!g.request_full_heap_collection(1000, 300));
    assert!(g.is_current_gc_nursery());
    g.prepare();
    // A nursery object is evacuated to the copy its context made outside
    // the nursery; tracing it again returns the same copy.
    let obj = ObjectReference(NURSERY_START + 64);
    let copy = Address(0x2000_0000);
    let r = g.trace_object_nursery(obj, copy);
    assert_eq!(r.0, 0x2000_0000);
    let again = g.trace_object_nursery(obj, Address(0x2222_0000));
    assert_eq!(again.0, 0x2000_0000);
    // A large object traced in place, and a mature object left alone.
    let los_obj = ObjectReference(LOS_START + 128);
    assert_eq!(g.trace_object_nursery(los_obj, Address(0x2000_1000)), los_obj);
    let mature = ObjectReference(0x4000_0000);
    assert_eq!(g.trace_object_nursery(mature, Address(0x2000_2000)), mature);
    g.release();
    assert_eq!(g.nursery.reserved_pages(), 0);
}

#[test]
fn full_heap_trace_moves_only_nursery_objects() {
    let mut g = gen_with(options());
    g.request_full_heap_collection(100, 100);
    g.prepare();
    let obj = ObjectReference(NURSERY_START + 8);
    let r = g.trace_object_full_heap(obj, Address(0x2000_0000));
    assert_eq!(r.0, 0x2000_0000);
    let mature = ObjectReference(0x4000_0000);
    assert_eq!(g.trace_object_full_heap(mature, Address(0x2000_1000)), mature);
}

#[test]
fn should_next_gc_be_full_heap_boundary() {
    let opts = options();
    assert!(Gen::should_next_gc_be_full_heap(1, &opts));
    assert!(!Gen::should_next_gc_be_full_heap(2, &opts));
}

#[test]
fn accounting_sums() {
    let mut g = gen_with(options());
    g.nursery.reserved = 30;
    g.common.pages_used = 12;
    assert_eq!(g.get_collection_reserve(), 30);
    assert_eq!(g.get_pages_used(), 42);
}

#[test]
fn side_metadata_sanity() {
    let g = gen_with(options());
    assert!(g.verify_side_metadata_sanity());
    let overlapping = Gen::new(
        NURSERY_DESC,
        NURSERY_START,
        NURSERY_EXTENT,
        NURSERY_START + 4096,
        LOS_EXTENT,
        options(),
        false,
    );
    assert!(!overlapping.verify_side_metadata_sanity());
}

#[test]
fn gc_init_records_heap_size() {
    let mut g = gen_with(options());
    g.gc_init(1 << 30);
    assert_eq!(g.common.base.heap_size, 1 << 30);
}

#[test]
fn copyspace_in_space() {
    let cs = CopySpace::new(9, 0x1000, 0x1000);
    assert!(cs.in_space(ObjectReference(0x1000)));
    assert!(cs.in_space(ObjectReference(0x1fff)));
    assert!(!cs.in_space(ObjectReference(0x2000)));
    assert!(!cs.in_space(ObjectReference(0xfff)));
}
