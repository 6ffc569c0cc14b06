//! Names for the integers that run through the hypervisor.

use vstd::prelude::*;

verus! {

/// A virtual address.
pub type Vaddr = u64;

/// Identifier of an address space.
pub type Asid = u64;

/// A set of cache colours, one bit per colour.
pub type ColorMap = u64;

/// What an address space is for.
#[derive(Clone, Copy, Debug, PartialEq, Eq, Structural)]
pub enum AsType {
    /// The hypervisor's own address space.
    AsHyp,
    /// The address space of a guest.
    AsVM,
    /// A copy of the hypervisor's address space.
    AsHypCpy,
}

} // verus!
