//! Page-size constants and byte/page conversions.

use vstd::prelude::*;

verus! {

/// Log of the bytes in one page.
pub const LOG_BYTES_IN_PAGE: usize = 12;

/// Bytes in one page.
pub const BYTES_IN_PAGE: usize = 4096;

/// The number of pages needed to hold `bytes` bytes, rounding up.
pub open spec fn spec_bytes_to_pages_up(bytes: usize) -> int {
    (bytes + BYTES_IN_PAGE - 1) / (BYTES_IN_PAGE as int)
}

/// Convert bytes to the number of pages that hold them, rounding up.
pub fn bytes_to_pages_up(bytes: usize) -> (r: usize)
    ensures
        r == spec_bytes_to_pages_up(bytes),
{
    let q = bytes / BYTES_IN_PAGE;
    let rem = bytes % BYTES_IN_PAGE;
    proof {
        vstd::arithmetic::div_mod::lemma_fundamental_div_mod(bytes as int, BYTES_IN_PAGE as int);
        vstd::arithmetic::div_mod::lemma_mod_bound(bytes as int, BYTES_IN_PAGE as int);
        let p = BYTES_IN_PAGE as int;
        assert((bytes + p - 1) / p == q + if rem == 0 { 0int } else { 1int }) by (nonlinear_arith)
            requires
                p == 4096,
                bytes as int == p * (q as int) + rem,
                rem == (bytes as int) % p,
                0 <= rem < p,
                q == (bytes as int) / p,
        ;
    }
    if rem == 0 {
        q
    } else {
        q + 1
    }
}

} // verus!
