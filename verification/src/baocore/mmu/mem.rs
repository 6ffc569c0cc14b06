//! Address spaces.

use vstd::prelude::*;
use crate::arch::aarch64::armv8_a::pagetable::HYP_PT_DSCR;
use crate::arch::aarch64::armv8_a::pagetable::PagetableDscr;
use crate::arch::aarch64::armv8_a::pagetable::VM_PT_DSCR;
use crate::baocore::pagetable::Pagetable;
use crate::baocore::types::Asid;
use crate::baocore::types::AsType;
use crate::baocore::types::ColorMap;
use crate::baocore::types::Vaddr;

verus! {

/// Identifier of the hypervisor's own address space.
pub const HYP_ASID: u64 = 0;

/// An address space: a page table and what it is for.
#[derive(Clone, Copy, Debug, PartialEq, Eq, Structural)]
pub struct AddrSpace {
    /// The page table that maps the address space.
    pub pt: Pagetable,
    /// What the address space is for.
    pub as_type: AsType,
    /// The cache colours its pages may have.
    pub colors: ColorMap,
    /// Its identifier.
    pub id: Asid,
}

/// The kind of page table of an address space of type `as_type`: a guest's
/// second stage for a guest, the hypervisor's own for every other type.
pub open spec fn pt_dscr_spec(as_type: AsType) -> PagetableDscr {
    match as_type {
        AsType::AsVM => VM_PT_DSCR,
        _ => HYP_PT_DSCR,
    }
}

/// What an architecture adds to the set-up of an address space.
///
/// An implementation prepares the root table for the architecture's way of
/// walking it.  That is a matter of writing memory, which this crate does
/// not model: the method promises nothing, and `AddrSpace::init` relies on
/// nothing from it.
pub trait AsArchTrait {
    /// Called once the fields of `addr_space` are set.
    fn arch_init(&mut self, addr_space: &AddrSpace);
}

impl AddrSpace {
    /// Sets the address space up over the root table at `root_pt`, and then
    /// lets `arch` do the architecture's part.
    ///
    /// A root table must be given: `root_pt` is not zero.
    pub fn init<A: AsArchTrait>(
        &mut self,
        arch: &mut A,
        as_type: AsType,
        id: Asid,
        root_pt: Vaddr,
        colors: ColorMap,
    )
        requires
            root_pt != 0,
        ensures
            *final(self) == (AddrSpace {
                pt: Pagetable { root: root_pt, dscr: pt_dscr_spec(as_type) },
                as_type,
                colors,
                id,
            }),
    {
        self.as_type = as_type;
        self.colors = colors;
        self.id = id;

        self.pt = Pagetable {
            root: root_pt,
            dscr: match as_type {
                AsType::AsVM => VM_PT_DSCR,
                _ => HYP_PT_DSCR,
            },
        };

        arch.arch_init(self);
    }
}

/// Sets up the hypervisor's own address space over the root table at
/// `root_pt`, which is not zero: its type is `AsHyp`, its identifier
/// `HYP_ASID`, and it has no cache colours.
pub fn mem_prot_init<A: AsArchTrait>(arch: &mut A, addr_space: &mut AddrSpace, root_pt: Vaddr)
    requires
        root_pt != 0,
    ensures
        *final(addr_space) == (AddrSpace {
            pt: Pagetable { root: root_pt, dscr: HYP_PT_DSCR },
            as_type: AsType::AsHyp,
            colors: 0,
            id: HYP_ASID,
        }),
{
    addr_space.init(arch, AsType::AsHyp, HYP_ASID, root_pt, 0);
}

} // verus!
