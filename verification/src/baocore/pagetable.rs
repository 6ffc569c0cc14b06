//! Page tables, as far as an address space needs to know them.

use vstd::prelude::*;
use crate::arch::aarch64::armv8_a::pagetable::PagetableDscr;
use crate::baocore::types::Vaddr;

verus! {

/// A page table: where its root lies and which kind of table it is.
#[derive(Clone, Copy, Debug, PartialEq, Eq, Structural)]
pub struct Pagetable {
    /// Address of the root table.
    pub root: Vaddr,
    /// The kind of table: the hypervisor's own or a guest's second stage.
    pub dscr: PagetableDscr,
}

} // verus!
