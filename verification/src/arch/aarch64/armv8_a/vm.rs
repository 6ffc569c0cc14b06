//! What a virtual machine's configuration says about its interrupt
//! controller.

use vstd::prelude::*;
use crate::baocore::types::Vaddr;

verus! {

/// Where a guest expects its interrupt controller.
#[derive(Clone, Copy, Debug, PartialEq, Eq, Structural)]
pub struct VGicDscr {
    /// Base address of the distributor window.
    pub gicd_addr: Vaddr,
    /// Base address of the first redistributor; the others follow it.
    pub gicr_addr: Vaddr,
}

} // verus!
