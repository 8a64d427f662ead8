//! Side metadata: a shadow table holding one byte of metadata for each
//! fixed-size unit of a tracked address range.
//!
//! The toolkit keeps block and line metadata out of line, keyed by heap
//! address.  A table covers the range `[base, base + len * bytes_per_unit)`
//! and resolves an address to the byte at index
//! `(address - base) / bytes_per_unit`.  Collectors run stop-the-world and
//! each byte is claimed by the worker holding the corresponding block, so
//! the accessors take exclusive references; the host runtime performs the
//! underlying accesses with sequentially consistent ordering.

use vstd::prelude::*;
use crate::address::Address;

verus! {

/// A shadow table of metadata bytes for an address range.
pub struct MetadataTable {
    /// First heap address the table covers.
    pub base: usize,
    /// Bytes of heap covered by one metadata byte.
    pub bytes_per_unit: usize,
    /// The metadata bytes themselves.
    pub data: Vec<u8>,
}

impl MetadataTable {
    /// A usable table: positive granularity, aligned base, covered range
    /// within the address space.
    pub open spec fn wf(&self) -> bool {
        &&& self.bytes_per_unit >= 1
        &&& self.base % self.bytes_per_unit == 0
        &&& self.base + self.data@.len() * self.bytes_per_unit <= usize::MAX
    }

    /// True iff the table holds a byte for the given address.
    pub open spec fn covers(&self, addr: usize) -> bool {
        self.base <= addr < self.base + self.data@.len() * self.bytes_per_unit
    }

    /// The index of the byte that shadows the given address.
    pub open spec fn index_of(&self, addr: usize) -> int {
        (addr - self.base) / (self.bytes_per_unit as int)
    }

    /// The metadata byte that shadows the given address.
    pub open spec fn byte_at(&self, addr: usize) -> u8 {
        self.data@[self.index_of(addr)]
    }

    /// The index of a covered address stays inside the table.
    pub proof fn lemma_index_in_bounds(&self, addr: usize)
        requires
            self.wf(),
            self.covers(addr),
        ensures
            0 <= self.index_of(addr) < self.data@.len(),
    {
        let bpu = self.bytes_per_unit as int;
        let off = addr - self.base;
        assert(0 <= off / bpu < self.data@.len()) by (nonlinear_arith)
            requires
                bpu >= 1,
                0 <= off,
                off < self.data@.len() * bpu,
        ;
    }

    /// Make a table of `units` zero bytes covering the range that starts at
    /// `base` in units of `bytes_per_unit` bytes.
    pub fn new_zeroed(base: usize, bytes_per_unit: usize, units: usize) -> (r: MetadataTable)
        requires
            bytes_per_unit >= 1,
            base % bytes_per_unit == 0,
            base + units * bytes_per_unit <= usize::MAX,
        ensures
            r.wf(),
            r.base == base,
            r.bytes_per_unit == bytes_per_unit,
            r.data@.len() == units,
            forall|i: int| 0 <= i < units ==> r.data@[i] == 0u8,
    {
        let mut data: Vec<u8> = Vec::new();
        let mut i: usize = 0;
        while i < units
            invariant
                i <= units,
                data@.len() == i,
                forall|j: int| 0 <= j < i ==> data@[j] == 0u8,
            decreases units - i,
        {
            data.push(0u8);
            i = i + 1;
        }
        MetadataTable { base, bytes_per_unit, data }
    }

    /// Load the metadata byte that shadows `addr`.
    pub fn load(&self, addr: Address) -> (r: u8)
        requires
            self.wf(),
            self.covers(addr.0),
        ensures
            r == self.byte_at(addr.0),
    {
        proof {
            self.lemma_index_in_bounds(addr.0);
        }
        let off = addr.0 - self.base;
        let idx = off / self.bytes_per_unit;
        self.data[idx]
    }

    /// Store `value` into the metadata byte that shadows `addr`.  Bytes at
    /// every other index keep their value.
    pub fn store(&mut self, addr: Address, value: u8)
        requires
            old(self).wf(),
            old(self).covers(addr.0),
        ensures
            final(self).base == old(self).base,
            final(self).bytes_per_unit == old(self).bytes_per_unit,
            final(self).data@ == old(self).data@.update(old(self).index_of(addr.0), value),
            final(self).wf(),
            final(self).byte_at(addr.0) == value,
    {
        proof {
            self.lemma_index_in_bounds(addr.0);
        }
        let off = addr.0 - self.base;
        let idx = off / self.bytes_per_unit;
        self.data[idx] = value;
    }
}

} // verus!
