//! Conversions, addresses, the metadata accessor and the constraints
//! registry.

use mmtk::address::Address;
use mmtk::constraints::{
    gencopy_constraints, immix_constraints, ms_constraints, nogc_constraints, pp_constraints,
    ss_constraints, BarrierSelector,
};
use mmtk::chunk::Chunk;
use mmtk::conversions::bytes_to_pages_up;
use mmtk::line::{Line, LINE_BYTES};
use mmtk::side_metadata::MetadataTable;

#[test]
fn bytes_to_pages_rounds_up() {
    assert_eq!(bytes_to_pages_up(0), 0);
    assert_eq!(bytes_to_pages_up(1), 1);
    assert_eq!(bytes_to_pages_up(4096), 1);
    assert_eq!(bytes_to_pages_up(4097), 2);
    assert_eq!(bytes_to_pages_up(10 * 4096), 10);
}

#[test]
fn address_alignment() {
    let a = Address(0x12345);
    assert_eq!(a.align_down(0x1000).0, 0x12000);
    assert!(Address(0x12000).is_aligned_to(0x1000));
    assert!(!a.is_aligned_to(0x1000));
    assert_eq!(a.add(0x10).0, 0x12355);
    assert_eq!(a.as_usize(), 0x12345);
}

#[test]
fn metadata_table_load_store() {
    let mut t = MetadataTable::new_zeroed(0x8000, 0x100, 16);
    assert_eq!(t.load(Address(0x8000)), 0);
    t.store(Address(0x8100), 7);
    t.store(Address(0x81ff), 9);
    // Both addresses fall in the second unit: the later store wins.
    assert_eq!(t.load(Address(0x8100)), 9);
    assert_eq!(t.load(Address(0x8000)), 0);
    assert_eq!(t.load(Address(0x8200)), 0);
}

#[test]
fn line_and_chunk_handles() {
    let l = Line::from(Address(3 * LINE_BYTES));
    assert_eq!(l.start().0, 3 * LINE_BYTES);
    assert!(Line::is_marked(7, 7));
    assert!(!Line::is_marked(7, 8));
    let c = Chunk::from(Address(0));
    assert_eq!(c.start().0, 0);
}

#[test]
fn constraints_registry() {
    let gencopy = gencopy_constraints();
    assert!(gencopy.moves_objects);
    assert_eq!(gencopy.barrier_kind, BarrierSelector::ObjectBarrier);
    assert!(gencopy.needs_log_bit);
    let immix = immix_constraints();
    assert!(immix.moves_objects);
    assert_eq!(immix.barrier_kind, BarrierSelector::NoBarrier);
    assert_eq!(immix.max_non_los_default_alloc_bytes, 16384);
    assert!(!ms_constraints().moves_objects);
    assert!(!nogc_constraints().moves_objects);
    assert!(!pp_constraints().moves_objects);
    assert!(ss_constraints().moves_objects);
    assert_eq!(ms_constraints().gc_header_bits, 2);
}
