//! Plan constraints: the per-plan invariants the host queries to size
//! object headers and emit the right write barrier, and the registry of
//! pre-built entries for the plans the toolkit ships.

use vstd::prelude::*;

verus! {

/// Which write barrier a plan requires of the host.
#[derive(Debug, Clone, Copy, PartialEq, Eq, Structural)]
pub enum BarrierSelector {
    /// No barrier is emitted.
    NoBarrier,
    /// An object-remembering barrier is emitted on reference stores.
    ObjectBarrier,
}

/// The static per-plan record of invariants, immutable after program
/// initialization.
#[derive(Debug, Clone, Copy, PartialEq, Eq, Structural)]
pub struct PlanConstraints {
    /// The plan moves objects.
    pub moves_objects: bool,
    /// Bits of each object header the collector may use.
    pub gc_header_bits: usize,
    /// Number of specialized scan kinds the plan asks of the host.
    pub num_specialized_scans: usize,
    /// The write barrier the plan requires.
    pub barrier_kind: BarrierSelector,
    /// The plan needs the unlogged bit in object headers.
    pub needs_log_bit: bool,
    /// The plan needs linear-scan support from the host.
    pub needs_linear_scan: bool,
    /// The plan may trace the same edge twice.
    pub may_trace_duplicate_edges: bool,
    /// Largest allocation served outside the large-object space.
    pub max_non_los_default_alloc_bytes: usize,
}

impl PlanConstraints {
    /// The defaults a plan starts from: a non-moving plan with no barrier,
    /// two header bits, one scan kind, and no size cap below the
    /// large-object threshold.
    pub fn base() -> (r: PlanConstraints)
        ensures
            r.moves_objects == false,
            r.gc_header_bits == 2,
            r.num_specialized_scans == 1,
            r.barrier_kind == BarrierSelector::NoBarrier,
            r.needs_log_bit == false,
            r.needs_linear_scan == false,
            r.may_trace_duplicate_edges == false,
            r.max_non_los_default_alloc_bytes == usize::MAX,
    {
        PlanConstraints {
            moves_objects: false,
            gc_header_bits: 2,
            num_specialized_scans: 1,
            barrier_kind: BarrierSelector::NoBarrier,
            needs_log_bit: false,
            needs_linear_scan: false,
            may_trace_duplicate_edges: false,
            max_non_los_default_alloc_bytes: usize::MAX,
        }
    }
}

/// Constraints of the generational copying plan: it moves objects and
/// needs the object barrier with the unlogged bit.
pub fn gencopy_constraints() -> (r: PlanConstraints)
    ensures
        r.moves_objects == true,
        r.gc_header_bits == 2,
        r.num_specialized_scans == 1,
        r.barrier_kind == BarrierSelector::ObjectBarrier,
        r.needs_log_bit == true,
        r.needs_linear_scan == false,
        r.may_trace_duplicate_edges == false,
        r.max_non_los_default_alloc_bytes == usize::MAX,
{
    let mut r = PlanConstraints::base();
    r.moves_objects = true;
    r.barrier_kind = BarrierSelector::ObjectBarrier;
    r.needs_log_bit = true;
    r
}

/// Constraints of the Immix plan: it moves objects when defragmenting and
/// caps non-large allocations at half a block.
pub fn immix_constraints() -> (r: PlanConstraints)
    ensures
        r.moves_objects == true,
        r.gc_header_bits == 2,
        r.num_specialized_scans == 1,
        r.barrier_kind == BarrierSelector::NoBarrier,
        r.needs_log_bit == false,
        r.needs_linear_scan == false,
        r.may_trace_duplicate_edges == false,
        r.max_non_los_default_alloc_bytes == crate::block::BLOCK_BYTES / 2,
{
    let mut r = PlanConstraints::base();
    r.moves_objects = true;
    r.max_non_los_default_alloc_bytes = crate::block::BLOCK_BYTES / 2;
    r
}

/// Constraints of the mark-sweep plan: the defaults of a non-moving plan.
pub fn ms_constraints() -> (r: PlanConstraints)
    ensures
        r == (PlanConstraints {
            moves_objects: false,
            gc_header_bits: 2,
            num_specialized_scans: 1,
            barrier_kind: BarrierSelector::NoBarrier,
            needs_log_bit: false,
            needs_linear_scan: false,
            may_trace_duplicate_edges: false,
            max_non_los_default_alloc_bytes: usize::MAX,
        }),
{
    PlanConstraints::base()
}

/// Constraints of the no-collection plan: the defaults of a non-moving
/// plan.
pub fn nogc_constraints() -> (r: PlanConstraints)
    ensures
        r == (PlanConstraints {
            moves_objects: false,
            gc_header_bits: 2,
            num_specialized_scans: 1,
            barrier_kind: BarrierSelector::NoBarrier,
            needs_log_bit: false,
            needs_linear_scan: false,
            may_trace_duplicate_edges: false,
            max_non_los_default_alloc_bytes: usize::MAX,
        }),
{
    PlanConstraints::base()
}

/// Constraints of the page-protect plan: the defaults of a non-moving
/// plan.
pub fn pp_constraints() -> (r: PlanConstraints)
    ensures
        r == (PlanConstraints {
            moves_objects: false,
            gc_header_bits: 2,
            num_specialized_scans: 1,
            barrier_kind: BarrierSelector::NoBarrier,
            needs_log_bit: false,
            needs_linear_scan: false,
            may_trace_duplicate_edges: false,
            max_non_los_default_alloc_bytes: usize::MAX,
        }),
{
    PlanConstraints::base()
}

/// Constraints of the semispace plan: it moves objects.
pub fn ss_constraints() -> (r: PlanConstraints)
    ensures
        r.moves_objects == true,
        r.gc_header_bits == 2,
        r.num_specialized_scans == 1,
        r.barrier_kind == BarrierSelector::NoBarrier,
        r.needs_log_bit == false,
        r.needs_linear_scan == false,
        r.may_trace_duplicate_edges == false,
        r.max_non_los_default_alloc_bytes == usize::MAX,
{
    let mut r = PlanConstraints::base();
    r.moves_objects = true;
    r
}

} // verus!
