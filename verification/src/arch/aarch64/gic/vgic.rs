//! The virtual interrupt records and the register accesses that read and
//! change them.
//!
//! A register of the interrupt controller is a row of fields, one per
//! interrupt, in the order of the interrupt ids.  An access names a span of
//! bytes in such a row, and so a run of interrupts; a load packs the fields of
//! those interrupts into a word, a store takes a word apart and hands each
//! interrupt its field.

use vstd::prelude::*;
use crate::arch::aarch64::gic::GIC_LOWEST_PRIO;
use crate::arch::aarch64::gic::GICD_IROUTER_INV;
use crate::arch::aarch64::gic::lemmas::lemma_emul_keeps_wf;
use crate::arch::aarch64::gic::vgicv3::gicd_reg_mask_spec;
use crate::arch::aarch64::gic::vgicv3::gicd_reg_mask;
use crate::baocore::emul::EmulAccess;
use crate::baocore::vm::VM;
use crate::baocore::vm::VMView;
use crate::util::bit::bit_extract_spec;
use crate::util::bit::bit_extract;
use crate::util::bit::bit_insert;
use crate::util::bit::bit_mask_spec;
use crate::util::bit::lemma_clear_above;
use crate::util::bit::lemma_insert_keeps_others;
use crate::util::bit::lemma_insert_then_extract;
use crate::util::bit::lemma_insert_top_clear;
use crate::util::bit::lemma_mask_fits;
use crate::util::spinlock::lock_acquire;
use crate::util::spinlock::lock_new;

verus! {

/// Offset of the first enable-clear register of the distributor.
pub const GICD_REG_ICENABLER_OFF: u64 = 0x180;

/// Offset of the first pending-clear register of the distributor.
pub const GICD_REG_ICPENDR_OFF: u64 = 0x280;

/// Offset of the first active-clear register of the distributor.
pub const GICD_REG_ICACTIVER_OFF: u64 = 0x380;

/// Offset of the first priority register of the distributor.
pub const GICD_REG_IPRIORITYR_OFF: u64 = 0x400;

/// Where an interrupt stands between being raised and being completed.
#[derive(Clone, Copy, Debug, PartialEq, Eq, Structural)]
pub enum VGicIntrState {
    /// Neither raised nor being served.
    Inactive,
    /// Raised and waiting to be served.
    Pending,
    /// Being served.
    Active,
    /// Being served and raised again meanwhile.
    PendingActive,
}

impl VGicIntrState {
    /// Whether the interrupt is raised.
    pub open spec fn is_pending_spec(self) -> bool {
        self == VGicIntrState::Pending || self == VGicIntrState::PendingActive
    }

    /// Whether the interrupt is being served.
    pub open spec fn is_active_spec(self) -> bool {
        self == VGicIntrState::Active || self == VGicIntrState::PendingActive
    }

    /// The state that is raised, being served, both or neither.
    pub open spec fn from_bits_spec(pending: bool, active: bool) -> VGicIntrState {
        if pending && active {
            VGicIntrState::PendingActive
        } else if pending {
            VGicIntrState::Pending
        } else if active {
            VGicIntrState::Active
        } else {
            VGicIntrState::Inactive
        }
    }

    /// Whether the interrupt is raised.
    #[verifier::when_used_as_spec(is_pending_spec)]
    pub fn is_pending(self) -> (b: bool)
        ensures
            b == self.is_pending_spec(),
    {
        match self {
            VGicIntrState::Pending | VGicIntrState::PendingActive => true,
            _ => false,
        }
    }

    /// Whether the interrupt is being served.
    #[verifier::when_used_as_spec(is_active_spec)]
    pub fn is_active(self) -> (b: bool)
        ensures
            b == self.is_active_spec(),
    {
        match self {
            VGicIntrState::Active | VGicIntrState::PendingActive => true,
            _ => false,
        }
    }

    /// The state that is raised, being served, both or neither.
    #[verifier::when_used_as_spec(from_bits_spec)]
    pub fn from_bits(pending: bool, active: bool) -> (state: VGicIntrState)
        ensures
            state == Self::from_bits_spec(pending, active),
            state.is_pending_spec() == pending,
            state.is_active_spec() == active,
    {
        if pending && active {
            VGicIntrState::PendingActive
        } else if pending {
            VGicIntrState::Pending
        } else if active {
            VGicIntrState::Active
        } else {
            VGicIntrState::Inactive
        }
    }
}

/// A family of registers that hold one field per interrupt.
#[derive(Clone, Copy, Debug, PartialEq, Eq, Structural)]
pub enum VGicReg {
    /// Enable-clear: one bit per interrupt; a one disables it.
    IcEnabler,
    /// Pending-clear: one bit per interrupt; a one takes back its raising.
    IcPendr,
    /// Active-clear: one bit per interrupt; a one ends its service.
    IcActiver,
    /// Priority: one byte per interrupt, written as it is.
    IPriorityr,
}

/// What an interrupt record holds, without the lock that guards it.
pub struct VGicIntrView {
    pub owner: Option<u64>,
    pub id: u64,
    pub state: VGicIntrState,
    pub prio: u8,
    pub cfg: u8,
    pub route: u64,
    pub phys_route: u64,
    pub hw: bool,
    pub in_lr: bool,
    pub enabled: bool,
}

impl VGicIntrView {
    /// The record of interrupt `id` as the architecture resets it: owned by
    /// nobody, disabled, inactive, of the lowest priority, routed nowhere,
    /// with no configuration bits set and no hardware behind it.
    pub open spec fn reset(id: u64) -> VGicIntrView {
        VGicIntrView {
            owner: None,
            id,
            state: VGicIntrState::Inactive,
            prio: GIC_LOWEST_PRIO,
            cfg: 0,
            route: GICD_IROUTER_INV,
            phys_route: GICD_IROUTER_INV,
            hw: false,
            in_lr: false,
            enabled: false,
        }
    }
}

impl VGicReg {
    /// How many bits of a register of this family belong to one interrupt.
    pub open spec fn field_width_spec(self) -> u64 {
        match self {
            VGicReg::IPriorityr => 8,
            _ => 1,
        }
    }

    /// Offset of the family's first register in the distributor's window.
    pub open spec fn base_spec(self) -> u64 {
        match self {
            VGicReg::IcEnabler => GICD_REG_ICENABLER_OFF,
            VGicReg::IcPendr => GICD_REG_ICPENDR_OFF,
            VGicReg::IcActiver => GICD_REG_ICACTIVER_OFF,
            VGicReg::IPriorityr => GICD_REG_IPRIORITYR_OFF,
        }
    }

    /// What a load from this family reads for one interrupt: its enable bit,
    /// whether it is raised, whether it is being served, or its priority.
    pub open spec fn read_field_spec(self, intr: VGicIntrView) -> u64 {
        match self {
            VGicReg::IcEnabler => if intr.enabled { 1 } else { 0 },
            VGicReg::IcPendr => if intr.state.is_pending_spec() { 1 } else { 0 },
            VGicReg::IcActiver => if intr.state.is_active_spec() { 1 } else { 0 },
            VGicReg::IPriorityr => intr.prio as u64,
        }
    }

    /// What a store of `data` to this family makes of one interrupt.  In the
    /// three clear families a zero changes nothing and anything else clears
    /// what the family stands for; the priority takes the low byte of `data`.
    pub open spec fn update_field_spec(self, intr: VGicIntrView, data: u64) -> VGicIntrView {
        match self {
            VGicReg::IcEnabler => if data == 0 {
                intr
            } else {
                VGicIntrView { enabled: false, ..intr }
            },
            VGicReg::IcPendr => if data == 0 {
                intr
            } else {
                VGicIntrView {
                    state: VGicIntrState::from_bits_spec(false, intr.state.is_active_spec()),
                    ..intr
                }
            },
            VGicReg::IcActiver => if data == 0 {
                intr
            } else {
                VGicIntrView {
                    state: VGicIntrState::from_bits_spec(intr.state.is_pending_spec(), false),
                    ..intr
                }
            },
            VGicReg::IPriorityr => VGicIntrView { prio: (data % 0x100) as u8, ..intr },
        }
    }

    /// How many bits of a register of this family belong to one interrupt.
    #[verifier::when_used_as_spec(field_width_spec)]
    pub fn field_width(self) -> (width: u64)
        ensures
            width == self.field_width_spec(),
    {
        match self {
            VGicReg::IPriorityr => 8,
            _ => 1,
        }
    }

    /// Offset of the family's first register in the distributor's window.
    #[verifier::when_used_as_spec(base_spec)]
    pub fn base(self) -> (off: u64)
        ensures
            off == self.base_spec(),
    {
        match self {
            VGicReg::IcEnabler => GICD_REG_ICENABLER_OFF,
            VGicReg::IcPendr => GICD_REG_ICPENDR_OFF,
            VGicReg::IcActiver => GICD_REG_ICACTIVER_OFF,
            VGicReg::IPriorityr => GICD_REG_IPRIORITYR_OFF,
        }
    }
}

/// The record of one virtual interrupt.
pub struct VGicIntr {
    /// Index of the virtual CPU that may handle the interrupt, if any.
    pub owner: Option<u64>,
    /// Guards every field below against other paths through the hypervisor.
    pub lock: spin::Mutex<()>,
    /// The interrupt's number.
    pub id: u64,
    /// Whether it is raised, being served, both or neither.
    pub state: VGicIntrState,
    /// Its priority; a smaller number is more urgent.
    pub prio: u8,
    /// Edge or level triggering, and bits kept for later use.
    pub cfg: u8,
    /// The CPU the guest routed it to, or `GICD_IROUTER_INV`.
    pub route: u64,
    /// The CPU the physical interrupt behind it is routed to.
    pub phys_route: u64,
    /// Whether a physical interrupt stands behind it.
    pub hw: bool,
    /// Whether it sits in a list register right now.
    pub in_lr: bool,
    /// Whether the guest enabled it.
    pub enabled: bool,
}

impl VGicIntr {
    /// What the record holds, without its lock.
    pub open spec fn view(&self) -> VGicIntrView {
        VGicIntrView {
            owner: self.owner,
            id: self.id,
            state: self.state,
            prio: self.prio,
            cfg: self.cfg,
            route: self.route,
            phys_route: self.phys_route,
            hw: self.hw,
            in_lr: self.in_lr,
            enabled: self.enabled,
        }
    }

    /// The record of interrupt `id` in its reset state, with a lock of its
    /// own.
    pub fn new(id: u64) -> (intr: VGicIntr)
        ensures
            intr@ == VGicIntrView::reset(id),
    {
        VGicIntr {
            owner: None,
            lock: lock_new(),
            id,
            state: VGicIntrState::Inactive,
            prio: GIC_LOWEST_PRIO,
            cfg: 0,
            route: GICD_IROUTER_INV,
            phys_route: GICD_IROUTER_INV,
            hw: false,
            in_lr: false,
            enabled: false,
        }
    }

    /// Reads the field that registers of family `reg` show for this
    /// interrupt, holding the interrupt's lock meanwhile.
    pub fn read_field(&self, reg: VGicReg) -> (field: u64)
        ensures
            field == reg.read_field_spec(self@),
            field <= bit_mask_spec(reg.field_width_spec()),
    {
        let _guard = lock_acquire(&self.lock);
        assert(bit_mask_spec(1) == 1 && bit_mask_spec(8) == 0xff) by (bit_vector);
        match reg {
            VGicReg::IcEnabler => if self.enabled { 1 } else { 0 },
            VGicReg::IcPendr => if self.state.is_pending() { 1 } else { 0 },
            VGicReg::IcActiver => if self.state.is_active() { 1 } else { 0 },
            VGicReg::IPriorityr => self.prio as u64,
        }
    }

    /// Applies a store of `data` to a register of family `reg` to this
    /// interrupt, holding the interrupt's lock meanwhile.
    pub fn update_field(&mut self, reg: VGicReg, data: u64)
        ensures
            final(self)@ == reg.update_field_spec(old(self)@, data),
    {
        let _guard = lock_acquire(&self.lock);
        match reg {
            VGicReg::IcEnabler => {
                if data != 0 {
                    self.enabled = false;
                }
            },
            VGicReg::IcPendr => {
                if data != 0 {
                    self.state = VGicIntrState::from_bits(false, self.state.is_active());
                }
            },
            VGicReg::IcActiver => {
                if data != 0 {
                    self.state = VGicIntrState::from_bits(self.state.is_pending(), false);
                }
            },
            VGicReg::IPriorityr => {
                self.prio = (data % 0x100) as u8;
            },
        }
    }
}

/// How a register answers an access.
#[derive(Clone, Copy, Debug, PartialEq, Eq, Structural)]
pub enum VGicRegAccess {
    /// Reads as zero, ignores writes.  This stands in for registers that the
    /// virtual controller does not model yet; it is not what the hardware
    /// does.
    Razwi,
    /// Holds one field per interrupt, read and written field by field.
    Generic,
}

/// What the register tables say about one register offset.
#[derive(Clone, Copy, Debug, PartialEq, Eq, Structural)]
pub struct VGicHandlerInfo {
    /// How the register answers an access.
    pub reg_access: VGicRegAccess,
    /// Offset, in the distributor's window, of the first register of the
    /// family the register belongs to; unused where no field is modelled.
    pub regroup_base: u64,
    /// Bits per interrupt: 1, 8, or 0 where no field is modelled.
    pub field_width: u64,
}

impl VGicHandlerInfo {
    /// The family the descriptor stands for: the one that starts at
    /// `regroup_base` and whose fields are `field_width` bits wide.
    pub open spec fn reg_spec(self) -> Option<VGicReg> {
        if self.regroup_base == GICD_REG_ICENABLER_OFF && self.field_width == 1 {
            Some(VGicReg::IcEnabler)
        } else if self.regroup_base == GICD_REG_ICPENDR_OFF && self.field_width == 1 {
            Some(VGicReg::IcPendr)
        } else if self.regroup_base == GICD_REG_ICACTIVER_OFF && self.field_width == 1 {
            Some(VGicReg::IcActiver)
        } else if self.regroup_base == GICD_REG_IPRIORITYR_OFF && self.field_width == 8 {
            Some(VGicReg::IPriorityr)
        } else {
            None
        }
    }

    /// The id of the interrupt whose field starts at the first byte of the
    /// access.
    pub open spec fn first_int_spec(self, acc: EmulAccess) -> int {
        (gicd_reg_mask_spec(acc.addr) - self.regroup_base) * 8 / (self.field_width as int)
    }

    /// How many fields the bytes of the access hold.
    pub open spec fn num_fields_spec(self, acc: EmulAccess) -> int {
        acc.width * 8 / (self.field_width as int)
    }

    /// Whether the primitives can carry out `acc` on a register described by
    /// `self`: the descriptor models no field or stands for a known family,
    /// the access does not start below the family's first register, and it
    /// spans no more than the eight bytes of a register value.
    pub open spec fn admits_spec(self, acc: EmulAccess) -> bool {
        &&& self.field_width == 0 || self.reg_spec() is Some
        &&& self.field_width != 0 ==> self.regroup_base <= gicd_reg_mask_spec(acc.addr)
        &&& acc.width <= 8
    }

    /// Whether the primitives can carry out `acc` on a register described by
    /// `self`.
    #[verifier::when_used_as_spec(admits_spec)]
    pub fn admits(self, acc: EmulAccess) -> (ok: bool)
        ensures
            ok == self.admits_spec(acc),
    {
        (self.field_width == 0 || self.reg().is_some()) && (self.field_width == 0
            || self.regroup_base <= gicd_reg_mask(acc.addr)) && acc.width <= 8
    }

    /// The descriptor of the registers of family `reg`.
    pub fn generic(reg: VGicReg) -> (info: VGicHandlerInfo)
        ensures
            info == (VGicHandlerInfo {
                reg_access: VGicRegAccess::Generic,
                regroup_base: reg.base_spec(),
                field_width: reg.field_width_spec(),
            }),
            info.reg_spec() == Some(reg),
    {
        VGicHandlerInfo {
            reg_access: VGicRegAccess::Generic,
            regroup_base: reg.base(),
            field_width: reg.field_width(),
        }
    }

    /// The descriptor of a register that reads as zero and ignores writes.
    pub fn razwi() -> (info: VGicHandlerInfo)
        ensures
            info == (VGicHandlerInfo {
                reg_access: VGicRegAccess::Razwi,
                regroup_base: 0,
                field_width: 0,
            }),
    {
        VGicHandlerInfo { reg_access: VGicRegAccess::Razwi, regroup_base: 0, field_width: 0 }
    }

    /// The family the descriptor stands for, if it stands for one.
    #[verifier::when_used_as_spec(reg_spec)]
    pub fn reg(self) -> (reg: Option<VGicReg>)
        ensures
            reg == self.reg_spec(),
    {
        if self.regroup_base == GICD_REG_ICENABLER_OFF && self.field_width == 1 {
            Some(VGicReg::IcEnabler)
        } else if self.regroup_base == GICD_REG_ICPENDR_OFF && self.field_width == 1 {
            Some(VGicReg::IcPendr)
        } else if self.regroup_base == GICD_REG_ICACTIVER_OFF && self.field_width == 1 {
            Some(VGicReg::IcActiver)
        } else if self.regroup_base == GICD_REG_IPRIORITYR_OFF && self.field_width == 8 {
            Some(VGicReg::IPriorityr)
        } else {
            None
        }
    }
}

/// The views of a row of interrupt records.
pub open spec fn intrs_view(intrs: Seq<VGicIntr>) -> Seq<VGicIntrView> {
    Seq::new(intrs.len(), |id: int| intrs[id]@)
}

/// The `k`-th field of `width` bits of a register value, counted from bit 0.
pub open spec fn field_of(val: u64, k: int, width: u64) -> u64 {
    bit_extract_spec(val, (k * width) as u64, width)
}

/// What a load from family `reg` reads for interrupt `id`: its field, or zero
/// where the row has no such interrupt.
pub open spec fn field_at(intrs: Seq<VGicIntrView>, reg: VGicReg, id: int) -> u64 {
    if 0 <= id < intrs.len() {
        reg.read_field_spec(intrs[id])
    } else {
        0
    }
}

/// Whether `val` is what a load of `n` fields of family `reg` reads, the
/// first of them that of interrupt `first`: the `k`-th field of `val` is the
/// field of interrupt `first + k`, and `val` has no bit set above its `n`
/// fields.
pub open spec fn packs_fields(
    val: u64,
    intrs: Seq<VGicIntrView>,
    reg: VGicReg,
    first: int,
    n: int,
) -> bool {
    &&& forall|k: int|
        0 <= k < n ==> #[trigger] field_of(val, k, reg.field_width_spec()) == field_at(
            intrs,
            reg,
            first + k,
        )
    &&& n * reg.field_width_spec() < 64 ==> val >> ((n * reg.field_width_spec()) as u64) == 0
}

/// The row after a store of `n` fields of family `reg`, the first of them
/// that of interrupt `first`: interrupt `first + k` takes the `k`-th field of
/// `value`, every other interrupt stays as it was.
pub open spec fn store_fields(
    intrs: Seq<VGicIntrView>,
    reg: VGicReg,
    first: int,
    n: int,
    value: u64,
) -> Seq<VGicIntrView> {
    Seq::new(
        intrs.len(),
        |id: int|
            if first <= id < first + n {
                reg.update_field_spec(
                    intrs[id],
                    field_of(value, id - first, reg.field_width_spec()),
                )
            } else {
                intrs[id]
            },
    )
}

/// The row after `acc` went field by field to a register described by
/// `info`: a store to a known family changes the interrupts it spans, a load
/// and an access to a register without fields change nothing.
pub open spec fn generic_access_intrs(
    intrs: Seq<VGicIntrView>,
    info: VGicHandlerInfo,
    acc: EmulAccess,
) -> Seq<VGicIntrView> {
    match info.reg_spec() {
        Some(reg) => if acc.write {
            store_fields(intrs, reg, info.first_int_spec(acc), info.num_fields_spec(acc), acc.value)
        } else {
            intrs
        },
        None => intrs,
    }
}

/// Whether `val` is what `acc` yields when it goes field by field to a
/// register described by `info`: a load from a known family packs the fields
/// of the interrupts it spans, a store and an access to a register without
/// fields yield zero.
pub open spec fn generic_access_value(
    val: u64,
    intrs: Seq<VGicIntrView>,
    info: VGicHandlerInfo,
    acc: EmulAccess,
) -> bool {
    match info.reg_spec() {
        Some(reg) => if acc.write {
            val == 0
        } else {
            packs_fields(val, intrs, reg, info.first_int_spec(acc), info.num_fields_spec(acc))
        },
        None => val == 0,
    }
}

/// The row after `acc` went to a register described by `info`.
pub open spec fn access_intrs(
    intrs: Seq<VGicIntrView>,
    info: VGicHandlerInfo,
    acc: EmulAccess,
) -> Seq<VGicIntrView> {
    match info.reg_access {
        VGicRegAccess::Razwi => intrs,
        VGicRegAccess::Generic => generic_access_intrs(intrs, info, acc),
    }
}

/// Whether `val` is what `acc` yields from a register described by `info`.
pub open spec fn access_value(
    val: u64,
    intrs: Seq<VGicIntrView>,
    info: VGicHandlerInfo,
    acc: EmulAccess,
) -> bool {
    match info.reg_access {
        VGicRegAccess::Razwi => val == 0,
        VGicRegAccess::Generic => generic_access_value(val, intrs, info, acc),
    }
}

/// Emulates an access to a register that reads as zero and ignores writes.
pub fn vgic_emul_razwi(
    interrupts: &mut Vec<VGicIntr>,
    acc: &EmulAccess,
    handlers: &VGicHandlerInfo,
) -> (val: u64)
    ensures
        val == 0,
        *final(interrupts) == *old(interrupts),
{
    0
}

/// Emulates an access to a register that holds one field per interrupt.
///
/// The access starts at the field of interrupt `first_int_spec` and spans
/// `num_fields_spec` fields.  A load packs the fields of those interrupts
/// into the value it returns, in the order of their ids from bit 0; a store
/// hands each of them its field of `acc.value`.  Interrupts that `interrupts`
/// does not hold read as zero and ignore what is written.  Each interrupt is
/// read or changed while its lock is held.
pub fn vgic_emul_generic_access(
    interrupts: &mut Vec<VGicIntr>,
    acc: &EmulAccess,
    handlers: &VGicHandlerInfo,
) -> (val: u64)
    requires
        handlers.admits(*acc),
    ensures
        intrs_view(final(interrupts)@) == generic_access_intrs(
            intrs_view(old(interrupts)@),
            *handlers,
            *acc,
        ),
        generic_access_value(val, intrs_view(old(interrupts)@), *handlers, *acc),
{
    let reg = match handlers.reg() {
        Some(reg) => reg,
        None => {
            return 0;
        },
    };
    let width: u64 = handlers.field_width;
    let first: u64 = (gicd_reg_mask(acc.addr) - handlers.regroup_base) * 8 / width;
    let n: u64 = acc.width * 8 / width;
    let len: usize = interrupts.len();
    let ghost before = intrs_view(interrupts@);
    let mut val: u64 = 0;
    let mut i: u64 = 0;
    assert(0u64 >> 0u64 == 0) by (bit_vector);
    while i < n && first + i < len as u64
        invariant
            width == reg.field_width_spec(),
            handlers.reg_spec() == Some(reg),
            first == handlers.first_int_spec(*acc),
            n == handlers.num_fields_spec(*acc),
            n * width <= 64,
            i <= n,
            first <= 0x8_0000,
            len == interrupts@.len(),
            before == intrs_view(old(interrupts)@),
            before.len() == len,
            acc.write ==> intrs_view(interrupts@) == store_fields(
                before,
                reg,
                first as int,
                i as int,
                acc.value,
            ),
            acc.write ==> val == 0,
            !acc.write ==> intrs_view(interrupts@) == before,
            !acc.write ==> packs_fields(val, before, reg, first as int, i as int),
        decreases n - i,
    {
        let idx: usize = (first + i) as usize;
        let off: u64 = i * width;
        if acc.write {
            let data = bit_extract(acc.value, off, width);
            let ghost row = intrs_view(interrupts@);
            interrupts[idx].update_field(reg, data);
            proof {
                let target = store_fields(before, reg, first as int, i + 1, acc.value);
                assert forall|id: int| 0 <= id < len implies intrs_view(interrupts@)[id]
                    == target[id] by {
                    if id != idx {
                        assert(intrs_view(interrupts@)[id] == row[id]);
                    } else {
                        assert(row[id] == before[id]);
                    }
                }
            }
        } else {
            let field = interrupts[idx].read_field(reg);
            let ghost low = val;
            val = bit_insert(val, field, off, width);
            proof {
                lemma_mask_fits(field, width);
                lemma_insert_then_extract(low, field, off, width);
                assert forall|k: int| 0 <= k < i + 1 implies #[trigger] field_of(val, k, width)
                    == field_at(before, reg, first + k) by {
                    if k < i {
                        lemma_insert_keeps_others(
                            low,
                            field,
                            off,
                            width,
                            (k * width) as u64,
                            width,
                        );
                        assert(field_of(low, k, width) == field_at(before, reg, first + k));
                    }
                }
                if (i + 1) * width < 64 {
                    lemma_insert_top_clear(low, field, off, width);
                }
            }
        }
        i += 1;
    }
    proof {
        if !acc.write {
            assert forall|k: int| 0 <= k < n implies #[trigger] field_of(val, k, width)
                == field_at(before, reg, first + k) by {
                if k >= i {
                    lemma_clear_above(val, (i * width) as u64, (k * width) as u64, width);
                }
            }
            if i < n && n * width < 64 {
                lemma_clear_above(val, (i * width) as u64, (n * width) as u64, width);
            }
        }
    }
    val
}

impl VGicHandlerInfo {
    /// Emulates `acc` on a register described by `self`, against the row of
    /// interrupts the register belongs to.
    pub fn access(&self, interrupts: &mut Vec<VGicIntr>, acc: &EmulAccess) -> (val: u64)
        requires
            self.reg_access == VGicRegAccess::Generic ==> self.admits(*acc),
        ensures
            intrs_view(final(interrupts)@) == access_intrs(
                intrs_view(old(interrupts)@),
                *self,
                *acc,
            ),
            access_value(val, intrs_view(old(interrupts)@), *self, *acc),
    {
        match self.reg_access {
            VGicRegAccess::Razwi => vgic_emul_razwi(interrupts, acc, self),
            VGicRegAccess::Generic => vgic_emul_generic_access(interrupts, acc, self),
        }
    }
}

/// Why the virtual interrupt controller refused to go on.  None of these
/// is a thing a guest can recover from: the hypervisor stops on each.
#[derive(Clone, Copy, Debug, PartialEq, Eq, Structural)]
pub enum VGicError {
    /// An access fell on an offset of the distributor's window for which the
    /// register table has no entry.
    UnimplementedGicdReg { offset: u64 },
    /// An access fell on an offset of a redistributor's window for which the
    /// register table has no entry.
    UnimplementedGicrReg { vgicr_id: u64, offset: u64 },
    /// An access spans no byte, or more bytes than a register value has.
    InvalidAccessWidth { width: u64 },
    /// The number of interrupt lines or of virtual CPUs does not fit the
    /// fields that `TYPER` has for them.
    InvalidConfig,
}

/// Whether an access of `width` bytes can be emulated: it spans at least one
/// byte and at most the eight bytes of a register value.  Within that, an
/// access may start at any byte and span any number of bytes; the fields it
/// covers are those whose bits lie in its bytes.
pub open spec fn access_width_ok_spec(width: u64) -> bool {
    1 <= width <= 8
}

/// Whether an access of `width` bytes can be emulated.
#[verifier::when_used_as_spec(access_width_ok_spec)]
pub fn access_width_ok(width: u64) -> (ok: bool)
    ensures
        ok == access_width_ok_spec(width),
{
    1 <= width && width <= 8
}

/// What a virtual distributor holds, without the locks.
pub struct VGicDView {
    pub int_num: u64,
    pub typer: u32,
    pub interrupts: Seq<VGicIntrView>,
}

/// The virtual distributor of one virtual machine.
pub struct VGicD {
    /// How many interrupt lines the guest has.
    pub int_num: u64,
    /// What the guest reads from `TYPER`.
    pub typer: u32,
    /// The record of every interrupt line, at the index of its id.  The
    /// lines from 32 up are shared by all CPUs.  The records below 32 are what
    /// the distributor's own registers show for those ids; the private
    /// interrupts of a CPU are kept by its redistributor.
    pub interrupts: Vec<VGicIntr>,
}

impl VGicDView {
    /// Whether there is one record for each id below `int_num`, at the index
    /// of its id.
    pub open spec fn wf(self) -> bool {
        &&& self.interrupts.len() == self.int_num
        &&& forall|id: int|
            0 <= id < self.interrupts.len() ==> (#[trigger] self.interrupts[id]).id == id
    }
}

impl VGicD {
    /// What the distributor holds, without the locks.
    pub open spec fn view(&self) -> VGicDView {
        VGicDView {
            int_num: self.int_num,
            typer: self.typer,
            interrupts: intrs_view(self.interrupts@),
        }
    }

    /// A distributor without interrupt lines, as it is before the virtual
    /// controller is set up.
    pub fn new() -> (vgicd: VGicD)
        ensures
            vgicd@ == (VGicDView { int_num: 0, typer: 0, interrupts: Seq::empty() }),
            vgicd@.wf(),
    {
        let vgicd = VGicD { int_num: 0, typer: 0, interrupts: Vec::new() };
        assert(vgicd@.interrupts =~= Seq::empty());
        vgicd
    }
}

/// The row of `n` interrupt records in their reset state, with the ids from 0
/// up.
pub open spec fn reset_intrs(n: int) -> Seq<VGicIntrView> {
    Seq::new(n as nat, |id: int| VGicIntrView::reset(id as u64))
}

/// Makes `n` interrupt records in their reset state, with the ids from 0 up.
pub fn vgic_alloc_intrs(n: u64) -> (interrupts: Vec<VGicIntr>)
    ensures
        intrs_view(interrupts@) == reset_intrs(n as int),
{
    let mut interrupts: Vec<VGicIntr> = Vec::new();
    let mut id: u64 = 0;
    while id < n
        invariant
            id <= n,
            interrupts@.len() == id,
            intrs_view(interrupts@) =~= reset_intrs(id as int),
        decreases n - id,
    {
        let ghost row = interrupts@;
        interrupts.push(VGicIntr::new(id));
        assert forall|j: int| 0 <= j <= id implies #[trigger] intrs_view(interrupts@)[j]
            == reset_intrs(id + 1)[j] by {
            if j < id {
                assert(intrs_view(row)[j] == reset_intrs(id as int)[j]);
            }
        }
        id += 1;
    }
    interrupts
}

/// The entry of the distributor's register table for offset `gicd_reg`.
///
/// The table knows four families, each as far as it reaches for 1024
/// interrupts: enable-clear, pending-clear and active-clear with one bit per
/// interrupt, and priority with one byte per interrupt.
pub open spec fn vgicd_handler_info_spec(gicd_reg: u64) -> Option<VGicHandlerInfo> {
    if GICD_REG_ICENABLER_OFF <= gicd_reg < GICD_REG_ICENABLER_OFF + 0x80 {
        Some(
            VGicHandlerInfo {
                reg_access: VGicRegAccess::Generic,
                regroup_base: GICD_REG_ICENABLER_OFF,
                field_width: 1,
            },
        )
    } else if GICD_REG_ICPENDR_OFF <= gicd_reg < GICD_REG_ICPENDR_OFF + 0x80 {
        Some(
            VGicHandlerInfo {
                reg_access: VGicRegAccess::Generic,
                regroup_base: GICD_REG_ICPENDR_OFF,
                field_width: 1,
            },
        )
    } else if GICD_REG_ICACTIVER_OFF <= gicd_reg < GICD_REG_ICACTIVER_OFF + 0x80 {
        Some(
            VGicHandlerInfo {
                reg_access: VGicRegAccess::Generic,
                regroup_base: GICD_REG_ICACTIVER_OFF,
                field_width: 1,
            },
        )
    } else if GICD_REG_IPRIORITYR_OFF <= gicd_reg < GICD_REG_IPRIORITYR_OFF + 0x400 {
        Some(
            VGicHandlerInfo {
                reg_access: VGicRegAccess::Generic,
                regroup_base: GICD_REG_IPRIORITYR_OFF,
                field_width: 8,
            },
        )
    } else {
        None
    }
}

/// Looks `gicd_reg` up in the distributor's register table.
pub fn vgicd_handler_info(gicd_reg: u64) -> (info: Option<VGicHandlerInfo>)
    ensures
        info == vgicd_handler_info_spec(gicd_reg),
        info matches Some(h) ==> h.reg_access == VGicRegAccess::Generic && h.reg_spec() is Some
            && h.regroup_base <= gicd_reg,
{
    if GICD_REG_ICENABLER_OFF <= gicd_reg && gicd_reg < GICD_REG_ICENABLER_OFF + 0x80 {
        Some(VGicHandlerInfo::generic(VGicReg::IcEnabler))
    } else if GICD_REG_ICPENDR_OFF <= gicd_reg && gicd_reg < GICD_REG_ICPENDR_OFF + 0x80 {
        Some(VGicHandlerInfo::generic(VGicReg::IcPendr))
    } else if GICD_REG_ICACTIVER_OFF <= gicd_reg && gicd_reg < GICD_REG_ICACTIVER_OFF + 0x80 {
        Some(VGicHandlerInfo::generic(VGicReg::IcActiver))
    } else if GICD_REG_IPRIORITYR_OFF <= gicd_reg && gicd_reg < GICD_REG_IPRIORITYR_OFF + 0x400 {
        Some(VGicHandlerInfo::generic(VGicReg::IPriorityr))
    } else {
        None
    }
}

/// The machine after the distributor emulated `acc`: where the table knows
/// the offset and the width can be emulated, the distributor's interrupts
/// went through the access; otherwise nothing changed.
pub open spec fn vgicd_emul_next(vm: VMView, acc: EmulAccess) -> VMView {
    match vgicd_handler_info_spec(gicd_reg_mask_spec(acc.addr)) {
        Some(info) => if access_width_ok_spec(acc.width) {
            VMView {
                vgicd: VGicDView {
                    interrupts: access_intrs(vm.vgicd.interrupts, info, acc),
                    ..vm.vgicd
                },
                ..vm
            }
        } else {
            vm
        },
        None => vm,
    }
}

/// Whether `r` is what the distributor answers to `acc`: an error that names
/// the offset where the table does not know it, an error that names the
/// width where the width cannot be emulated, and otherwise the value of the
/// access.
pub open spec fn vgicd_emul_answer(r: Result<u64, VGicError>, vm: VMView, acc: EmulAccess) -> bool {
    match vgicd_handler_info_spec(gicd_reg_mask_spec(acc.addr)) {
        Some(info) => if access_width_ok_spec(acc.width) {
            r matches Ok(val) && access_value(val, vm.vgicd.interrupts, info, acc)
        } else {
            r == Err::<u64, VGicError>(VGicError::InvalidAccessWidth { width: acc.width })
        },
        None => r == Err::<u64, VGicError>(
            VGicError::UnimplementedGicdReg { offset: gicd_reg_mask_spec(acc.addr) },
        ),
    }
}

/// Emulates a guest access to the distributor's window.
///
/// The offset of the access in the window selects an entry of the
/// distributor's register table, and the access goes to the machine's
/// shared row of interrupts as the entry says.  No lock is held around the
/// whole access: each interrupt is read or changed under its own.
pub fn vgicd_emul_handler(vm: &mut VM, acc: &EmulAccess) -> (r: Result<u64, VGicError>)
    ensures
        final(vm)@ == vgicd_emul_next(old(vm)@, *acc),
        vgicd_emul_answer(r, old(vm)@, *acc),
        r is Ok <==> vgicd_handler_info_spec(gicd_reg_mask_spec(acc.addr)) is Some
            && access_width_ok_spec(acc.width),
        r is Err ==> final(vm)@ == old(vm)@,
        old(vm)@.wf() ==> final(vm)@.wf(),
{
    proof {
        if vm@.wf() {
            lemma_emul_keeps_wf(vm@, *acc);
        }
    }
    let gicd_reg = gicd_reg_mask(acc.addr);
    let handler_info = match vgicd_handler_info(gicd_reg) {
        Some(info) => info,
        None => {
            return Err(VGicError::UnimplementedGicdReg { offset: gicd_reg });
        },
    };
    if !access_width_ok(acc.width) {
        return Err(VGicError::InvalidAccessWidth { width: acc.width });
    }
    let val = handler_info.access(&mut vm.vgicd.interrupts, acc);
    Ok(val)
}

} // verus!
