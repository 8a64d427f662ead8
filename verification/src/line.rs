//! Lines: the sub-block allocation granularity of Immix.
//!
//! A line carries one mark byte in a per-line side-metadata table; the
//! line is marked exactly when that byte equals the mark epoch of the
//! current collection.  Flipping the epoch on prepare invalidates all
//! prior marks without rewriting the table.

use vstd::prelude::*;
use crate::address::Address;

verus! {

/// Log of the bytes in a line, in the conventional geometry.
pub const LINE_LOG_BYTES: usize = 8;

/// Bytes in a line, in the conventional geometry.
pub const LINE_BYTES: usize = 256;

/// A handle to one line: a line-aligned address.
#[derive(Debug, Clone, Copy, PartialEq, Eq, Structural)]
pub struct Line(pub Address);

impl Line {
    /// Get the line at a given address.  The address must be line-aligned.
    pub fn from(address: Address) -> (r: Self)
        requires
            address.0 % LINE_BYTES == 0,
        ensures
            r.0 == address,
    {
        Line(address)
    }

    /// Get the line start address.
    pub fn start(&self) -> (r: Address)
        ensures
            r == self.0,
    {
        self.0
    }

    /// True iff a stored mark byte means "marked" under the given epoch.
    pub fn is_marked(stored: u8, epoch: u8) -> (r: bool)
        ensures
            r == (stored == epoch),
    {
        stored == epoch
    }
}

} // verus!
