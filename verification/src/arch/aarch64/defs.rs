//! Constants of the architecture.

use vstd::prelude::*;

verus! {

/// Bytes in a page of the smallest granule.
pub const PAGE_SIZE: u64 = 0x1000;

} // verus!
