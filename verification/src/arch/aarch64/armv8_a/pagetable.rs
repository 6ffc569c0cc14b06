//! The two kinds of page table.

use vstd::prelude::*;

verus! {

/// Which kind a page table is of.
#[derive(Clone, Copy, Debug, PartialEq, Eq, Structural)]
pub enum PagetableDscr {
    /// The hypervisor's own, which maps its virtual addresses in one stage.
    Hyp,
    /// The second stage, which maps the physical addresses a guest sees.
    Vm,
}

/// Descriptor of the hypervisor's page tables.
pub const HYP_PT_DSCR: PagetableDscr = PagetableDscr::Hyp;

/// Descriptor of a guest's second-stage page tables.
pub const VM_PT_DSCR: PagetableDscr = PagetableDscr::Vm;

} // verus!
