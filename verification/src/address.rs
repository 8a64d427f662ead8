//! Addresses into managed memory and opaque object handles.

use vstd::prelude::*;

verus! {

/// An unsigned machine-word address into managed memory.
#[derive(Clone, Copy, PartialEq, Eq, Structural, Debug)]
pub struct Address(pub usize);

impl Address {
    /// The raw word of the address.
    pub fn as_usize(&self) -> (r: usize)
        ensures
            r == self.0,
    {
        self.0
    }

    /// True iff the address is a multiple of `align`.
    pub fn is_aligned_to(&self, align: usize) -> (r: bool)
        requires
            align >= 1,
        ensures
            r == (self.0 % align == 0),
    {
        self.0 % align == 0
    }

    /// Round the address down to a multiple of `align`.
    pub fn align_down(&self, align: usize) -> (r: Address)
        requires
            align >= 1,
        ensures
            r.0 == self.0 - self.0 % align,
            r.0 % align == 0,
            r.0 <= self.0,
            self.0 - r.0 < align,
    {
        let rem = self.0 % align;
        proof {
            vstd::arithmetic::div_mod::lemma_fundamental_div_mod(self.0 as int, align as int);
            vstd::arithmetic::div_mod::lemma_mod_bound(self.0 as int, align as int);
            assert((self.0 - rem) % (align as int) == 0) by (nonlinear_arith)
                requires
                    align >= 1,
                    self.0 as int == (align as int) * ((self.0 as int) / (align as int)) + rem,
                    rem == (self.0 as int) % (align as int),
                    0 <= rem < align,
            ;
        }
        Address(self.0 - rem)
    }

    /// The address `offset` bytes above this one.
    pub fn add(&self, offset: usize) -> (r: Address)
        requires
            self.0 + offset <= usize::MAX,
        ensures
            r.0 == self.0 + offset,
    {
        Address(self.0 + offset)
    }
}

/// An opaque handle to a heap object, produced by the host object model.
/// Its canonical projection to an address is `to_address`.
#[derive(Clone, Copy, PartialEq, Eq, Structural, Debug)]
pub struct ObjectReference(pub usize);

impl ObjectReference {
    /// The canonical address of the referenced object.
    pub fn to_address(&self) -> (r: Address)
        ensures
            r.0 == self.0,
    {
        Address(self.0)
    }
}

} // verus!
