//! Small arithmetic helpers shared by the whole crate.

use vstd::prelude::*;

pub mod bit;
pub mod spinlock;

verus! {

/// The least multiple of `align` that is not below `val`.
pub open spec fn align_up_spec(val: int, align: int) -> int {
    ((val + align - 1) / align) * align
}

/// `align_up_spec` is a multiple of `align`, is not below `val`, and exceeds
/// it by less than `align`: it is the least such multiple.
pub proof fn lemma_align_up(val: int, align: int)
    requires
        0 <= val,
        0 < align,
    ensures
        align_up_spec(val, align) % align == 0,
        val <= align_up_spec(val, align) < val + align,
        val % align == 0 ==> align_up_spec(val, align) == val,
{
    let q = (val + align - 1) / align;
    assert(q * align + (val + align - 1) % align == val + align - 1 && 0 <= (val + align - 1)
        % align < align && (q * align) % align == 0 && (val % align == 0 ==> q * align == val))
        by (nonlinear_arith)
        requires
            q == (val + align - 1) / align,
            0 <= val,
            0 < align,
    ;
}

/// Rounds `val` up to the next multiple of `align`.
pub fn align_up(val: u64, align: u64) -> (r: u64)
    requires
        align > 0,
        val + align - 1 <= u64::MAX,
    ensures
        r == align_up_spec(val as int, align as int),
        r % align == 0,
        val <= r < val + align,
{
    proof {
        lemma_align_up(val as int, align as int);
    }
    let q: u64 = (val + (align - 1)) / align;
    assert(q * align <= u64::MAX) by (nonlinear_arith)
        requires
            q == (val + align - 1) / (align as int),
            val + align - 1 <= u64::MAX,
            align > 0,
    ;
    q * align
}

} // verus!
