//! The interrupt controller: what the hardware offers, and the virtual one
//! that guests see.

use vstd::prelude::*;

pub mod lemmas;
pub mod vgic;
pub mod vgicv3;

verus! {

/// How many interrupts are private to each CPU: the ids below this number.
pub const GIC_CPU_PRIV: u64 = 32;

/// The numerically largest priority, which is the least urgent.
pub const GIC_LOWEST_PRIO: u8 = 0xff;

/// The route of an interrupt that is routed nowhere.
pub const GICD_IROUTER_INV: u64 = 0xffff_ffff_ffff_0000;

/// Bytes in the distributor's register block.
pub const GICD_HW_SIZE: u64 = 0x1_0000;

/// Bytes in one redistributor's register block: two frames of 64 KiB.
pub const GICR_HW_SIZE: u64 = 0x2_0000;

/// What the hypervisor learned about the physical controller at boot.
#[derive(Clone, Copy, Debug, PartialEq, Eq, Structural)]
pub struct Gic {
    /// How many interrupt lines the hardware supports.
    pub max_irqs: u64,
}

} // verus!
