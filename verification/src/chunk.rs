//! Chunks: the coarse address-aligned grouping of blocks, used as an
//! addressing parent.

use vstd::prelude::*;
use crate::address::Address;

verus! {

/// Log of the bytes in a chunk.
pub const CHUNK_LOG_BYTES: usize = 22;

/// Bytes in a chunk.
pub const CHUNK_BYTES: usize = 4194304;

/// A handle to one chunk: a chunk-aligned address.
#[derive(Debug, Clone, Copy, PartialEq, Eq, Structural)]
pub struct Chunk(pub Address);

impl Chunk {
    /// Align the address down to a chunk boundary.
    pub fn align(address: Address) -> (r: Address)
        ensures
            r.0 == address.0 - address.0 % CHUNK_BYTES,
            r.0 % CHUNK_BYTES == 0,
            r.0 <= address.0,
    {
        address.align_down(CHUNK_BYTES)
    }

    /// Get the chunk at a given address.  The address must be chunk-aligned.
    pub fn from(address: Address) -> (r: Self)
        requires
            address.0 % CHUNK_BYTES == 0,
        ensures
            r.0 == address,
    {
        Chunk(address)
    }

    /// Get the chunk start address.
    pub fn start(&self) -> (r: Address)
        ensures
            r == self.0,
    {
        self.0
    }
}

} // verus!
