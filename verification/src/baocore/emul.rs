//! Trapped guest accesses and the regions that are emulated.

use vstd::prelude::*;
use crate::baocore::types::Vaddr;

verus! {

/// One guest access to memory that trapped.
#[derive(Clone, Copy, Debug, PartialEq, Eq, Structural)]
pub struct EmulAccess {
    /// The address the guest touched.
    pub addr: Vaddr,
    /// How many bytes the access spans.
    pub width: u64,
    /// `true` for a store, `false` for a load.
    pub write: bool,
    /// What a store writes; ignored for a load.
    pub value: u64,
}

/// The entry point an emulated region is bound to.
#[derive(Clone, Copy, Debug, PartialEq, Eq, Structural)]
pub enum EmulHandler {
    /// The virtual distributor.
    VGicD,
    /// The virtual redistributors.
    VGicR,
}

/// A region of guest addresses whose accesses are emulated.
#[derive(Clone, Copy, Debug, PartialEq, Eq, Structural)]
pub struct EmulMem {
    /// First address of the region.
    pub va_base: Vaddr,
    /// Bytes in the region.
    pub size: u64,
    /// Who emulates an access to the region.
    pub handler: EmulHandler,
}

impl EmulMem {
    /// Whether `addr` lies in the region.
    pub open spec fn contains_spec(self, addr: Vaddr) -> bool {
        self.va_base <= addr && addr - self.va_base < self.size
    }

    /// Whether `addr` lies in the region.
    pub fn contains(&self, addr: Vaddr) -> (b: bool)
        ensures
            b == self.contains_spec(addr),
    {
        self.va_base <= addr && addr - self.va_base < self.size
    }
}

/// What became of a trapped access.
#[derive(Clone, Copy, Debug, PartialEq, Eq, Structural)]
pub struct EmulResult {
    /// Whether some emulated region took the access.
    pub handled: bool,
    /// What a load reads; zero for a store and for an access nobody took.
    pub value: u64,
}

} // verus!
