//! The GICv3 side of the virtual interrupt controller: redistributors, the
//! register windows, and the controller's construction.

use vstd::prelude::*;
use crate::arch::aarch64::armv8_a::vm::VGicDscr;
use crate::arch::aarch64::defs::PAGE_SIZE;
use crate::arch::aarch64::gic::GIC_CPU_PRIV;
use crate::arch::aarch64::gic::Gic;
use crate::arch::aarch64::gic::GICD_HW_SIZE;
use crate::arch::aarch64::gic::GICR_HW_SIZE;
use crate::arch::aarch64::gic::lemmas::lemma_emul_keeps_wf;
use crate::arch::aarch64::gic::lemmas::lemma_vgic_init_keeps_wf;
use crate::arch::aarch64::gic::vgic::access_intrs;
use crate::arch::aarch64::gic::vgic::access_value;
use crate::arch::aarch64::gic::vgic::access_width_ok_spec;
use crate::arch::aarch64::gic::vgic::access_width_ok;
use crate::arch::aarch64::gic::vgic::GICD_REG_ICACTIVER_OFF;
use crate::arch::aarch64::gic::vgic::GICD_REG_ICENABLER_OFF;
use crate::arch::aarch64::gic::vgic::GICD_REG_ICPENDR_OFF;
use crate::arch::aarch64::gic::vgic::GICD_REG_IPRIORITYR_OFF;
use crate::arch::aarch64::gic::vgic::intrs_view;
use crate::arch::aarch64::gic::vgic::reset_intrs;
use crate::arch::aarch64::gic::vgic::vgic_alloc_intrs;
use crate::arch::aarch64::gic::vgic::VGicDView;
use crate::arch::aarch64::gic::vgic::VGicError;
use crate::arch::aarch64::gic::vgic::VGicHandlerInfo;
use crate::arch::aarch64::gic::vgic::VGicIntr;
use crate::arch::aarch64::gic::vgic::VGicIntrView;
use crate::arch::aarch64::gic::vgic::VGicReg;
use crate::arch::aarch64::gic::vgic::VGicRegAccess;
use crate::baocore::emul::EmulAccess;
use crate::baocore::emul::EmulHandler;
use crate::baocore::emul::EmulMem;
use crate::baocore::types::Vaddr;
use crate::baocore::vm::VCpuView;
use crate::baocore::vm::VM;
use crate::baocore::vm::VMView;
use crate::util::align_up_spec;
use crate::util::align_up;
use crate::util::spinlock::lock_acquire;
use crate::util::spinlock::lock_new;

verus! {

/// The offset of `addr` inside the distributor's window of 64 KiB.
pub open spec fn gicd_reg_mask_spec(addr: Vaddr) -> u64 {
    (addr % 0x1_0000) as u64
}

/// The offset of `addr` inside one redistributor's window of 128 KiB.
pub open spec fn gicr_reg_mask_spec(addr: Vaddr) -> u64 {
    (addr % 0x2_0000) as u64
}

/// Keeps the low 16 bits of `addr`: the offset of a distributor register.
#[verifier::when_used_as_spec(gicd_reg_mask_spec)]
pub fn gicd_reg_mask(addr: Vaddr) -> (reg: u64)
    ensures
        reg == gicd_reg_mask_spec(addr),
{
    assert(addr & 0xffff == addr % 0x1_0000) by (bit_vector);
    addr & 0xffff
}

/// Keeps the low 17 bits of `addr`: the offset of a redistributor register.
#[verifier::when_used_as_spec(gicr_reg_mask_spec)]
pub fn gicr_reg_mask(addr: Vaddr) -> (reg: u64)
    ensures
        reg == gicr_reg_mask_spec(addr),
{
    assert(addr & 0x1ffff == addr % 0x2_0000) by (bit_vector);
    addr & 0x1ffff
}

/// An address has the same offset in the distributor's window as its
/// offset in a redistributor's window has.
pub proof fn lemma_gicr_reg_regroups(addr: Vaddr)
    ensures
        gicd_reg_mask_spec(addr) == gicr_reg_mask_spec(addr) % 0x1_0000,
        gicd_reg_mask_spec(addr) == gicd_reg_mask_spec(gicr_reg_mask_spec(addr)),
{
    assert((addr % 0x2_0000) % 0x1_0000 == addr % 0x1_0000) by (bit_vector);
}

/// What a virtual redistributor shows in its identification and control
/// registers.
pub struct VGicRView {
    pub typer: u64,
    pub ctlr: u32,
    pub iidr: u32,
}

/// The virtual redistributor of one virtual CPU.
pub struct VGicR {
    /// Held while an access to the redistributor's registers is emulated, so
    /// that an access that spans several interrupts is seen whole.
    pub lock: spin::Mutex<()>,
    /// What the guest reads from `TYPER`.
    pub typer: u64,
    /// What the guest reads from `CTLR`.
    pub ctlr: u32,
    /// What the guest reads from `IIDR`.
    pub iidr: u32,
}

impl VGicR {
    /// What the redistributor shows, without its lock.
    pub open spec fn view(&self) -> VGicRView {
        VGicRView { typer: self.typer, ctlr: self.ctlr, iidr: self.iidr }
    }

    /// A redistributor with a lock of its own and all three registers zero.
    pub fn new() -> (vgicr: VGicR)
        ensures
            vgicr@ == (VGicRView { typer: 0, ctlr: 0, iidr: 0 }),
    {
        VGicR { lock: lock_new(), typer: 0, ctlr: 0, iidr: 0 }
    }
}

/// What belongs to one virtual CPU in the virtual interrupt controller,
/// without the locks.
pub struct VGicPrivView {
    pub vgicr: VGicRView,
    pub interrupts: Seq<VGicIntrView>,
}

/// What belongs to one virtual CPU in the virtual interrupt controller: its
/// redistributor and its own records of the private interrupts.
pub struct VGicPriv {
    /// The CPU's redistributor.
    pub vgicr: VGicR,
    /// The records of the CPU's private interrupts, at the index of their id.
    pub interrupts: Vec<VGicIntr>,
}

impl VGicPrivView {
    /// Whether there is one record for each private interrupt, at the index
    /// of its id.
    pub open spec fn wf(self) -> bool {
        &&& self.interrupts.len() == GIC_CPU_PRIV
        &&& forall|id: int|
            0 <= id < self.interrupts.len() ==> (#[trigger] self.interrupts[id]).id == id
    }

    /// The state in which a virtual CPU starts: the redistributor's registers
    /// zero, every private interrupt in its reset state.
    pub open spec fn reset() -> VGicPrivView {
        VGicPrivView {
            vgicr: VGicRView { typer: 0, ctlr: 0, iidr: 0 },
            interrupts: reset_intrs(GIC_CPU_PRIV as int),
        }
    }
}

impl VGicPriv {
    /// What belongs to the CPU, without the locks.
    pub open spec fn view(&self) -> VGicPrivView {
        VGicPrivView { vgicr: self.vgicr@, interrupts: intrs_view(self.interrupts@) }
    }

    /// A redistributor and 32 private interrupts, all in their reset state.
    pub fn new() -> (vgic_priv: VGicPriv)
        ensures
            vgic_priv@ == VGicPrivView::reset(),
            vgic_priv@.wf(),
    {
        VGicPriv { vgicr: VGicR::new(), interrupts: vgic_alloc_intrs(GIC_CPU_PRIV) }
    }

    /// Emulates `acc` on a register of this CPU's redistributor described by
    /// `info`.  The redistributor's lock is held from before the first
    /// interrupt is touched until after the last.
    pub fn emul_access(&mut self, info: &VGicHandlerInfo, acc: &EmulAccess) -> (val: u64)
        requires
            info.reg_access == VGicRegAccess::Generic ==> info.admits(*acc),
        ensures
            final(self)@ == (VGicPrivView {
                interrupts: access_intrs(old(self)@.interrupts, *info, *acc),
                ..old(self)@
            }),
            access_value(val, old(self)@.interrupts, *info, *acc),
    {
        let _gicr_mutex = lock_acquire(&self.vgicr.lock);
        info.access(&mut self.interrupts, acc)
    }
}

/// Bit of a redistributor's `CTLR` that says the redistributor is enabled.
pub const VGIC_ENABLE_MASK: u32 = 0x2;

/// Offset of the wake register in a redistributor's window.
pub const GICR_REG_WAKER_OFF: u64 = 0x14;

/// Offset of the group register of the private interrupts.
pub const GICR_REG_IGROUPR0_OFF: u64 = 0x10080;

/// Offset of the enable-clear register of the private interrupts.
pub const GICR_REG_ICENABLER0_OFF: u64 = 0x10180;

/// Offset of the pending-clear register of the private interrupts.
pub const GICR_REG_ICPENDR0_OFF: u64 = 0x10280;

/// Offset of the active-clear register of the private interrupts.
pub const GICR_REG_ICACTIVER0_OFF: u64 = 0x10380;

/// Offset of the first priority register of the private interrupts.
pub const GICR_REG_IPRIORITYR_OFF: u64 = 0x10400;

/// The entry of the redistributor's register table for offset `gicr_reg`.
///
/// The wake register and the group register read as zero and ignore writes.
/// The enable-clear, pending-clear and active-clear registers of the private
/// interrupts, and the 0x20 bytes of their priorities, are the distributor's
/// registers of the same families under another offset.
pub open spec fn vgicr_handler_info_spec(gicr_reg: u64) -> Option<VGicHandlerInfo> {
    if gicr_reg == GICR_REG_WAKER_OFF || gicr_reg == GICR_REG_IGROUPR0_OFF {
        Some(VGicHandlerInfo { reg_access: VGicRegAccess::Razwi, regroup_base: 0, field_width: 0 })
    } else if gicr_reg == GICR_REG_ICENABLER0_OFF {
        Some(
            VGicHandlerInfo {
                reg_access: VGicRegAccess::Generic,
                regroup_base: GICD_REG_ICENABLER_OFF,
                field_width: 1,
            },
        )
    } else if gicr_reg == GICR_REG_ICPENDR0_OFF {
        Some(
            VGicHandlerInfo {
                reg_access: VGicRegAccess::Generic,
                regroup_base: GICD_REG_ICPENDR_OFF,
                field_width: 1,
            },
        )
    } else if gicr_reg == GICR_REG_ICACTIVER0_OFF {
        Some(
            VGicHandlerInfo {
                reg_access: VGicRegAccess::Generic,
                regroup_base: GICD_REG_ICACTIVER_OFF,
                field_width: 1,
            },
        )
    } else if GICR_REG_IPRIORITYR_OFF <= gicr_reg < GICR_REG_IPRIORITYR_OFF + 0x20 {
        Some(
            VGicHandlerInfo {
                reg_access: VGicRegAccess::Generic,
                regroup_base: GICD_REG_IPRIORITYR_OFF,
                field_width: 8,
            },
        )
    } else {
        None
    }
}

/// Looks `gicr_reg` up in the redistributor's register table.
pub fn vgicr_handler_info(gicr_reg: u64) -> (info: Option<VGicHandlerInfo>)
    ensures
        info == vgicr_handler_info_spec(gicr_reg),
        info matches Some(h) ==> (h.reg_access == VGicRegAccess::Generic ==> h.reg_spec() is Some
            && h.regroup_base <= gicr_reg % 0x1_0000),
{
    if gicr_reg == GICR_REG_WAKER_OFF || gicr_reg == GICR_REG_IGROUPR0_OFF {
        Some(VGicHandlerInfo::razwi())
    } else if gicr_reg == GICR_REG_ICENABLER0_OFF {
        Some(VGicHandlerInfo::generic(VGicReg::IcEnabler))
    } else if gicr_reg == GICR_REG_ICPENDR0_OFF {
        Some(VGicHandlerInfo::generic(VGicReg::IcPendr))
    } else if gicr_reg == GICR_REG_ICACTIVER0_OFF {
        Some(VGicHandlerInfo::generic(VGicReg::IcActiver))
    } else if gicr_reg >= GICR_REG_IPRIORITYR_OFF && gicr_reg < (GICR_REG_IPRIORITYR_OFF + 0x20) {
        Some(VGicHandlerInfo::generic(VGicReg::IPriorityr))
    } else {
        None
    }
}

/// Which redistributor an address belongs to: the windows of the
/// redistributors follow one another from `vgicr_addr`, each as large as a
/// redistributor's register block rounded up to whole pages.
pub open spec fn vgicr_get_id_spec(addr: Vaddr, vgicr_addr: Vaddr) -> int {
    (addr - vgicr_addr) / align_up_spec(GICR_HW_SIZE as int, PAGE_SIZE as int)
}

/// Which redistributor the access goes to, given the base address of the
/// first.
pub fn vgicr_get_id(acc: &EmulAccess, vgicr_addr: Vaddr) -> (id: u64)
    requires
        vgicr_addr <= acc.addr,
    ensures
        id == vgicr_get_id_spec(acc.addr, vgicr_addr),
        id == (acc.addr - vgicr_addr) / 0x2_0000,
{
    (acc.addr - vgicr_addr) / align_up(GICR_HW_SIZE, PAGE_SIZE)
}

/// Whether a controller can be built for `max_irqs` interrupt lines and
/// `cpu_num` CPUs: `TYPER` has five bits for the number of lines in units of
/// 32, less one, and three bits for the number of CPUs, less one.
pub open spec fn vgic_config_ok(max_irqs: u64, cpu_num: u64) -> bool {
    1 <= max_irqs / 32 <= 32 && 1 <= cpu_num <= 8
}

/// What the guest reads from the distributor's `TYPER`: the number of lines
/// in bits 0 to 4, the number of CPUs from bit 5, and from bit 19 the number
/// of bits of an interrupt id, less one, which is 9.
pub open spec fn vgicd_typer_spec(int_num: u64, cpu_num: u64) -> u32 {
    ((((int_num / 32) as u32 - 1) as u32) & 0x1f) | ((((cpu_num as u32) - 1) as u32) << 5) | (9u32
        << 19)
}

/// In `TYPER`, the three fields lie side by side and nothing else is set.
pub proof fn lemma_vgicd_typer_fields(int_num: u64, cpu_num: u64)
    requires
        vgic_config_ok(int_num, cpu_num),
    ensures
        vgicd_typer_spec(int_num, cpu_num) & 0x1f == int_num / 32 - 1,
        (vgicd_typer_spec(int_num, cpu_num) >> 5) & 0x7 == cpu_num - 1,
        (vgicd_typer_spec(int_num, cpu_num) >> 19) & 0x1f == 9,
        vgicd_typer_spec(int_num, cpu_num) == (int_num / 32 - 1) + (cpu_num - 1) * 0x20 + 9
            * 0x8_0000,
{
    let lines: u32 = ((int_num / 32) as u32 - 1) as u32;
    let cpus: u32 = ((cpu_num as u32) - 1) as u32;
    let typer: u32 = (lines & 0x1f) | (cpus << 5) | (9u32 << 19);
    assert(lines <= 31 && cpus <= 7 && typer == (lines & 0x1f) | (cpus << 5) | (9u32 << 19)
        ==> typer & 0x1f == lines && (typer >> 5) & 0x7 == cpus && (typer >> 19) & 0x1f == 9
        && typer == lines + cpus * 0x20 + 9 * 0x8_0000) by (bit_vector);
}

/// The machine after its interrupt controller was built for the guest that
/// `dscr` describes, on hardware with `gic.max_irqs` lines.
pub open spec fn vgic_init_next(vm: VMView, dscr: VGicDscr, gic: Gic) -> VMView {
    VMView {
        vgicr_addr: dscr.gicr_addr,
        vgicd: VGicDView {
            int_num: gic.max_irqs,
            typer: vgicd_typer_spec(gic.max_irqs, vm.cpu_num),
            interrupts: reset_intrs(gic.max_irqs as int),
        },
        emul_mems: vm.emul_mems.push(
            EmulMem {
                va_base: dscr.gicd_addr,
                size: align_up_spec(GICD_HW_SIZE as int, PAGE_SIZE as int) as u64,
                handler: EmulHandler::VGicD,
            },
        ).push(
            EmulMem {
                va_base: dscr.gicr_addr,
                size: (align_up_spec(GICR_HW_SIZE as int, PAGE_SIZE as int) * vm.cpu_num) as u64,
                handler: EmulHandler::VGicR,
            },
        ),
        ..vm
    }
}

/// Builds the virtual interrupt controller of a machine.
///
/// Records where the redistributors start, takes the number of interrupt
/// lines from the hardware, packs `TYPER`, makes one record in its reset
/// state for every line, and registers the distributor's window and the
/// redistributors' window for emulation.  Where the number of lines or of
/// CPUs does not fit `TYPER` the machine cannot start: the function fails
/// and leaves the machine as it was.
pub fn vgic_init(vm: &mut VM, vgic_dscrp: &VGicDscr, gic: &Gic) -> (r: Result<(), VGicError>)
    ensures
        r is Ok <==> vgic_config_ok(gic.max_irqs, old(vm)@.cpu_num),
        r is Ok ==> final(vm)@ == vgic_init_next(old(vm)@, *vgic_dscrp, *gic),
        r is Err ==> r == Err::<(), VGicError>(VGicError::InvalidConfig) && final(vm)@ == old(
            vm,
        )@,
        old(vm)@.wf() ==> final(vm)@.wf(),
{
    proof {
        if vm@.wf() && vgic_config_ok(gic.max_irqs, vm@.cpu_num) {
            lemma_vgic_init_keeps_wf(vm@, *vgic_dscrp, *gic);
        }
    }
    let int_num = gic.max_irqs;
    let cpu_num = vm.cpu_num;
    if int_num / 32 < 1 || int_num / 32 > 32 || cpu_num < 1 || cpu_num > 8 {
        return Err(VGicError::InvalidConfig);
    }
    vm.vgicr_addr = vgic_dscrp.gicr_addr;

    vm.vgicd.int_num = int_num;
    vm.vgicd.typer = (((int_num / 32) as u32 - 1) & 0b11111)  // ITLN
     | ((cpu_num as u32 - 1) << 5)  // CPU_NUM
     | ((10 - 1) << 19);  // TYPER_IDBITS
    vm.vgicd.interrupts = vgic_alloc_intrs(int_num);

    let vgicd_emul = EmulMem {
        va_base: vgic_dscrp.gicd_addr,
        size: align_up(GICD_HW_SIZE, PAGE_SIZE),
        handler: EmulHandler::VGicD,
    };
    vm.emul_add_mem(vgicd_emul);

    let vgicr_emul = EmulMem {
        va_base: vgic_dscrp.gicr_addr,
        size: align_up(GICR_HW_SIZE, PAGE_SIZE) * cpu_num,
        handler: EmulHandler::VGicR,
    };
    vm.emul_add_mem(vgicr_emul);
    Ok(())
}

/// The machine after a redistributor emulated `acc`: where the table knows
/// the offset and the width can be emulated, the private interrupts of the
/// CPU that the address belongs to went through the access; otherwise
/// nothing changed.  No other CPU's interrupts and nothing of the
/// distributor changes in either case.
pub open spec fn vgicr_emul_next(vm: VMView, acc: EmulAccess) -> VMView {
    let vgicr_id = vgicr_get_id_spec(acc.addr, vm.vgicr_addr);
    match vgicr_handler_info_spec(gicr_reg_mask_spec(acc.addr)) {
        Some(info) => if access_width_ok_spec(acc.width) {
            VMView {
                vcpus: vm.vcpus.update(
                    vgicr_id,
                    VCpuView {
                        vgic_priv: VGicPrivView {
                            interrupts: access_intrs(
                                vm.vcpus[vgicr_id].vgic_priv.interrupts,
                                info,
                                acc,
                            ),
                            ..vm.vcpus[vgicr_id].vgic_priv
                        },
                        ..vm.vcpus[vgicr_id]
                    },
                ),
                ..vm
            }
        } else {
            vm
        },
        None => vm,
    }
}

/// Whether `r` is what a redistributor answers to `acc`: an error that names
/// the CPU and the offset where the table does not know the offset, an error
/// that names the width where the width cannot be emulated, and otherwise
/// the value of the access.
pub open spec fn vgicr_emul_answer(r: Result<u64, VGicError>, vm: VMView, acc: EmulAccess) -> bool {
    let vgicr_id = vgicr_get_id_spec(acc.addr, vm.vgicr_addr);
    match vgicr_handler_info_spec(gicr_reg_mask_spec(acc.addr)) {
        Some(info) => if access_width_ok_spec(acc.width) {
            r matches Ok(val) && access_value(
                val,
                vm.vcpus[vgicr_id].vgic_priv.interrupts,
                info,
                acc,
            )
        } else {
            r == Err::<u64, VGicError>(VGicError::InvalidAccessWidth { width: acc.width })
        },
        None => r == Err::<u64, VGicError>(
            VGicError::UnimplementedGicrReg {
                vgicr_id: vgicr_id as u64,
                offset: gicr_reg_mask_spec(acc.addr),
            },
        ),
    }
}

/// Emulates a guest access to the redistributors' window.
///
/// The offset of the access in its redistributor's window selects an entry
/// of the redistributor's register table.  The address also says which CPU's
/// redistributor is meant; the access goes to that CPU's private interrupts
/// as the entry says, while that redistributor's lock is held.
pub fn vgicr_emul_handler(vm: &mut VM, acc: &EmulAccess) -> (r: Result<u64, VGicError>)
    requires
        old(vm)@.in_vgicr_window(acc.addr),
    ensures
        final(vm)@ == vgicr_emul_next(old(vm)@, *acc),
        vgicr_emul_answer(r, old(vm)@, *acc),
        r is Ok <==> vgicr_handler_info_spec(gicr_reg_mask_spec(acc.addr)) is Some
            && access_width_ok_spec(acc.width),
        r is Err ==> final(vm)@ == old(vm)@,
        old(vm)@.wf() ==> final(vm)@.wf(),
{
    proof {
        if vm@.wf() {
            lemma_emul_keeps_wf(vm@, *acc);
        }
    }
    let gicr_reg = gicr_reg_mask(acc.addr);
    let vgicr_id = vgicr_get_id(acc, vm.vgicr_addr);
    let handler_info = match vgicr_handler_info(gicr_reg) {
        Some(info) => info,
        None => {
            return Err(VGicError::UnimplementedGicrReg { vgicr_id, offset: gicr_reg });
        },
    };
    if !access_width_ok(acc.width) {
        return Err(VGicError::InvalidAccessWidth { width: acc.width });
    }
    proof {
        lemma_gicr_reg_regroups(acc.addr);
    }
    let ghost before = vm@;
    assert(before.vcpus.len() == vm.vcpus@.len() == vm.vcpus.len());
    let idx: usize = vgicr_id as usize;
    let val = vm.vcpus[idx].vgic_priv.emul_access(&handler_info, acc);
    assert(vm@.vcpus =~= vgicr_emul_next(before, *acc).vcpus);
    Ok(val)
}

} // verus!
