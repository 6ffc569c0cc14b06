use bao::arch::aarch64::armv8_a::vm::VGicDscr;
use bao::arch::aarch64::gic::vgic::vgicd_emul_handler;
use bao::arch::aarch64::gic::vgic::vgicd_handler_info;
use bao::arch::aarch64::gic::vgic::VGicError;
use bao::arch::aarch64::gic::vgic::VGicHandlerInfo;
use bao::arch::aarch64::gic::vgic::VGicIntrState;
use bao::arch::aarch64::gic::vgic::VGicReg;
use bao::arch::aarch64::gic::vgicv3::gicd_reg_mask;
use bao::arch::aarch64::gic::vgicv3::gicr_reg_mask;
use bao::arch::aarch64::gic::vgicv3::vgic_init;
use bao::arch::aarch64::gic::vgicv3::vgicr_emul_handler;
use bao::arch::aarch64::gic::vgicv3::vgicr_get_id;
use bao::arch::aarch64::gic::vgicv3::vgicr_handler_info;
use bao::arch::aarch64::gic::vgicv3::VGicR;
use bao::arch::aarch64::gic::vgicv3::GICR_REG_ICACTIVER0_OFF;
use bao::arch::aarch64::gic::vgicv3::GICR_REG_ICENABLER0_OFF;
use bao::arch::aarch64::gic::vgicv3::GICR_REG_ICPENDR0_OFF;
use bao::arch::aarch64::gic::vgicv3::GICR_REG_IGROUPR0_OFF;
use bao::arch::aarch64::gic::vgicv3::GICR_REG_IPRIORITYR_OFF;
use bao::arch::aarch64::gic::vgicv3::GICR_REG_WAKER_OFF;
use bao::arch::aarch64::gic::vgicv3::VGIC_ENABLE_MASK;
use bao::arch::aarch64::gic::Gic;
use bao::baocore::emul::EmulAccess;
use bao::baocore::emul::EmulHandler;
use bao::baocore::emul::EmulMem;
use bao::baocore::emul::EmulResult;
use bao::baocore::vm::VM;

const GICD: u64 = 0x0800_0000;
const GICR: u64 = 0x080a_0000;
const STRIDE: u64 = 0x2_0000;

fn machine(cpu_num: u64, max_irqs: u64) -> VM {
    let mut vm = VM::new(cpu_num);
    let dscr = VGicDscr { gicd_addr: GICD, gicr_addr: GICR };
    assert_eq!(vgic_init(&mut vm, &dscr, &Gic { max_irqs }), Ok(()));
    vm
}

fn rd(addr: u64, width: u64) -> EmulAccess {
    EmulAccess { addr, width, write: false, value: 0 }
}

fn wr(addr: u64, width: u64, value: u64) -> EmulAccess {
    EmulAccess { addr, width, write: true, value }
}

fn shared(vm: &VM) -> Vec<(u64, VGicIntrState, u8, bool)> {
    vm.vgicd.interrupts.iter().map(|i| (i.id, i.state, i.prio, i.enabled)).collect()
}

fn private(vm: &VM, cpu: usize) -> Vec<(u64, VGicIntrState, u8, bool)> {
    vm.vcpus[cpu].vgic_priv.interrupts.iter().map(|i| (i.id, i.state, i.prio, i.enabled)).collect()
}

#[test]
fn register_masks() {
    assert_eq!(gicd_reg_mask(0), 0);
    assert_eq!(gicd_reg_mask(0x0800_0180), 0x180);
    assert_eq!(gicd_reg_mask(0x0800_ffff), 0xffff);
    assert_eq!(gicd_reg_mask(0x0801_0400), 0x400);
    assert_eq!(gicd_reg_mask(u64::MAX), 0xffff);
    assert_eq!(gicr_reg_mask(0), 0);
    assert_eq!(gicr_reg_mask(0x080a_0014), 0x14);
    assert_eq!(gicr_reg_mask(0x080b_0180), 0x1_0180);
    assert_eq!(gicr_reg_mask(0x080c_0014), 0x14);
    assert_eq!(gicr_reg_mask(0x080d_0400), 0x1_0400);
    assert_eq!(gicr_reg_mask(u64::MAX), 0x1_ffff);
}

#[test]
fn redistributor_of_an_address() {
    assert_eq!(vgicr_get_id(&rd(GICR, 4), GICR), 0);
    assert_eq!(vgicr_get_id(&rd(GICR + 0x1_ffff, 4), GICR), 0);
    assert_eq!(vgicr_get_id(&rd(GICR + 0x2_0000, 4), GICR), 1);
    assert_eq!(vgicr_get_id(&rd(GICR + 3 * 0x2_0000 + 0x1_0400, 4), GICR), 3);
    assert_eq!(vgicr_get_id(&rd(0x1_0000, 4), 0), 0);
    assert_eq!(vgicr_get_id(&rd(0x2_0000, 4), 0x1), 0);
    assert_eq!(vgicr_get_id(&rd(u64::MAX, 4), 0), 0x7fff_ffff_ffff);
}

#[test]
fn window_of_the_redistributors() {
    let vm = machine(2, 64);
    assert!(!vm.in_vgicr_window(GICR - 1));
    assert!(vm.in_vgicr_window(GICR));
    assert!(vm.in_vgicr_window(GICR + 2 * STRIDE - 1));
    assert!(!vm.in_vgicr_window(GICR + 2 * STRIDE));
    assert!(!vm.in_vgicr_window(0));
    assert!(!vm.in_vgicr_window(u64::MAX));
    assert!(!VM::new(0).in_vgicr_window(0));
}

#[test]
fn redistributor_constants() {
    assert_eq!(GICR_REG_WAKER_OFF, 0x14);
    assert_eq!(GICR_REG_IGROUPR0_OFF, 0x10080);
    assert_eq!(GICR_REG_ICENABLER0_OFF, 0x10180);
    assert_eq!(GICR_REG_ICPENDR0_OFF, 0x10280);
    assert_eq!(GICR_REG_ICACTIVER0_OFF, 0x10380);
    assert_eq!(GICR_REG_IPRIORITYR_OFF, 0x10400);
    assert_eq!(VGIC_ENABLE_MASK, 0x2);
    let vgicr = VGicR::new();
    assert_eq!((vgicr.typer, vgicr.ctlr, vgicr.iidr), (0, 0, 0));
    assert!(vgicr.lock.try_lock().is_some());
}

#[test]
fn distributor_table() {
    let enable = Some(VGicHandlerInfo::generic(VGicReg::IcEnabler));
    let pend = Some(VGicHandlerInfo::generic(VGicReg::IcPendr));
    let act = Some(VGicHandlerInfo::generic(VGicReg::IcActiver));
    let prio = Some(VGicHandlerInfo::generic(VGicReg::IPriorityr));
    assert_eq!(vgicd_handler_info(0x17f), None);
    assert_eq!(vgicd_handler_info(0x180), enable);
    assert_eq!(vgicd_handler_info(0x1ff), enable);
    assert_eq!(vgicd_handler_info(0x200), None);
    assert_eq!(vgicd_handler_info(0x27f), None);
    assert_eq!(vgicd_handler_info(0x280), pend);
    assert_eq!(vgicd_handler_info(0x2ff), pend);
    assert_eq!(vgicd_handler_info(0x300), None);
    assert_eq!(vgicd_handler_info(0x37f), None);
    assert_eq!(vgicd_handler_info(0x380), act);
    assert_eq!(vgicd_handler_info(0x3ff), act);
    assert_eq!(vgicd_handler_info(0x400), prio);
    assert_eq!(vgicd_handler_info(0x7ff), prio);
    assert_eq!(vgicd_handler_info(0x800), None);
    assert_eq!(vgicd_handler_info(0), None);
    assert_eq!(vgicd_handler_info(0x100), None);
    assert_eq!(vgicd_handler_info(0x6000), None);
    assert_eq!(vgicd_handler_info(0x1_0180), None);
}

#[test]
fn redistributor_table() {
    let razwi = Some(VGicHandlerInfo::razwi());
    assert_eq!(vgicr_handler_info(0x14), razwi);
    assert_eq!(vgicr_handler_info(0x10080), razwi);
    assert_eq!(vgicr_handler_info(0x10180), Some(VGicHandlerInfo::generic(VGicReg::IcEnabler)));
    assert_eq!(vgicr_handler_info(0x10280), Some(VGicHandlerInfo::generic(VGicReg::IcPendr)));
    assert_eq!(vgicr_handler_info(0x10380), Some(VGicHandlerInfo::generic(VGicReg::IcActiver)));
    let prio = Some(VGicHandlerInfo::generic(VGicReg::IPriorityr));
    assert_eq!(vgicr_handler_info(0x103ff), None);
    assert_eq!(vgicr_handler_info(0x10400), prio);
    assert_eq!(vgicr_handler_info(0x1041f), prio);
    assert_eq!(vgicr_handler_info(0x10420), None);
    for unknown in [0u64, 0x10, 0x15, 0x180, 0x400, 0x10000, 0x10100, 0x10181, 0x10184, 0x10c00] {
        assert_eq!(vgicr_handler_info(unknown), None, "offset {:#x}", unknown);
    }
}

#[test]
fn the_redistributor_table_regroups_the_distributor_table() {
    for gicr_reg in 0..0x2_0000u64 {
        if let Some(info) = vgicr_handler_info(gicr_reg) {
            if info.reg() != None {
                assert_eq!(vgicd_handler_info(gicd_reg_mask(gicr_reg)), Some(info));
            }
        }
    }
}

#[test]
fn distributor_priority_round_trip() {
    let mut vm = machine(1, 96);
    let addr = GICD + 0x400 + 40;
    assert_eq!(vgicd_emul_handler(&mut vm, &wr(addr, 4, 0x8040_20a0)), Ok(0));
    assert_eq!(vm.vgicd.interrupts[40].prio, 0xa0);
    assert_eq!(vm.vgicd.interrupts[41].prio, 0x20);
    assert_eq!(vm.vgicd.interrupts[42].prio, 0x40);
    assert_eq!(vm.vgicd.interrupts[43].prio, 0x80);
    assert_eq!(vm.vgicd.interrupts[39].prio, 0xff);
    assert_eq!(vm.vgicd.interrupts[44].prio, 0xff);
    assert_eq!(vgicd_emul_handler(&mut vm, &rd(addr, 4)), Ok(0x8040_20a0));
    assert_eq!(vgicd_emul_handler(&mut vm, &rd(addr + 1, 1)), Ok(0x20));
    assert_eq!(vgicd_emul_handler(&mut vm, &rd(addr - 1, 2)), Ok(0xa0ff));
}

#[test]
fn distributor_priority_round_trip_for_every_line() {
    let mut vm = machine(1, 992);
    for id in 0..992u64 {
        let value = (id * 7 + 1) & 0xff;
        assert_eq!(vgicd_emul_handler(&mut vm, &wr(GICD + 0x400 + id, 1, value)), Ok(0));
    }
    for id in 0..992u64 {
        let value = (id * 7 + 1) & 0xff;
        assert_eq!(vgicd_emul_handler(&mut vm, &rd(GICD + 0x400 + id, 1)), Ok(value));
        assert_eq!(vm.vgicd.interrupts[id as usize].prio as u64, value);
    }
    assert_eq!(vgicd_emul_handler(&mut vm, &rd(GICD + 0x400 + 992, 4)), Ok(0));
}

#[test]
fn distributor_clear_registers() {
    let mut vm = machine(1, 96);
    for intr in vm.vgicd.interrupts.iter_mut() {
        intr.enabled = true;
        intr.state = VGicIntrState::PendingActive;
    }
    assert_eq!(vgicd_emul_handler(&mut vm, &rd(GICD + 0x184, 4)), Ok(0xffff_ffff));
    assert_eq!(vgicd_emul_handler(&mut vm, &wr(GICD + 0x184, 4, 0)), Ok(0));
    assert_eq!(vgicd_emul_handler(&mut vm, &rd(GICD + 0x184, 4)), Ok(0xffff_ffff));
    assert_eq!(vgicd_emul_handler(&mut vm, &wr(GICD + 0x184, 4, 0x0000_0101)), Ok(0));
    assert_eq!(vgicd_emul_handler(&mut vm, &rd(GICD + 0x184, 4)), Ok(0xffff_fefe));
    assert!(!vm.vgicd.interrupts[32].enabled);
    assert!(vm.vgicd.interrupts[33].enabled);
    assert!(!vm.vgicd.interrupts[40].enabled);

    assert_eq!(vgicd_emul_handler(&mut vm, &wr(GICD + 0x288, 4, 0x3)), Ok(0));
    assert_eq!(vgicd_emul_handler(&mut vm, &wr(GICD + 0x388, 4, 0x6)), Ok(0));
    assert_eq!(vm.vgicd.interrupts[64].state, VGicIntrState::Active);
    assert_eq!(vm.vgicd.interrupts[65].state, VGicIntrState::Inactive);
    assert_eq!(vm.vgicd.interrupts[66].state, VGicIntrState::Pending);
    assert_eq!(vm.vgicd.interrupts[67].state, VGicIntrState::PendingActive);
    assert_eq!(vgicd_emul_handler(&mut vm, &rd(GICD + 0x288, 4)), Ok(0xffff_fffc));
    assert_eq!(vgicd_emul_handler(&mut vm, &rd(GICD + 0x388, 4)), Ok(0xffff_fff9));
    assert_eq!(vgicd_emul_handler(&mut vm, &rd(GICD + 0x18c, 4)), Ok(0));
}

#[test]
fn distributor_leaves_the_cpus_alone() {
    let mut vm = machine(2, 64);
    for cpu in 0..2 {
        for intr in vm.vcpus[cpu].vgic_priv.interrupts.iter_mut() {
            intr.enabled = true;
        }
    }
    let before = [private(&vm, 0), private(&vm, 1)];
    assert_eq!(vgicd_emul_handler(&mut vm, &wr(GICD + 0x180, 8, u64::MAX)), Ok(0));
    assert_eq!(vgicd_emul_handler(&mut vm, &wr(GICD + 0x400, 8, 0)), Ok(0));
    assert_eq!([private(&vm, 0), private(&vm, 1)], before);
}

#[test]
fn distributor_unknown_offsets_fail() {
    let mut vm = machine(1, 64);
    vm.vgicd.interrupts[33].enabled = true;
    let before = shared(&vm);
    for offset in [0u64, 0x4, 0x8, 0x80, 0x100, 0x17c, 0x200, 0x300, 0x800, 0xc00, 0x6000, 0xffe8] {
        for acc in [rd(GICD + offset, 4), wr(GICD + offset, 4, u64::MAX)] {
            assert_eq!(
                vgicd_emul_handler(&mut vm, &acc),
                Err(VGicError::UnimplementedGicdReg { offset })
            );
        }
    }
    assert_eq!(shared(&vm), before);
}

#[test]
fn distributor_refuses_widths_it_cannot_emulate() {
    let mut vm = machine(1, 64);
    vm.vgicd.interrupts[33].enabled = true;
    let before = shared(&vm);
    for width in [0u64, 9, 16, u64::MAX] {
        assert_eq!(
            vgicd_emul_handler(&mut vm, &wr(GICD + 0x184, width, u64::MAX)),
            Err(VGicError::InvalidAccessWidth { width })
        );
        assert_eq!(
            vgicd_emul_handler(&mut vm, &rd(GICD + 0x400, width)),
            Err(VGicError::InvalidAccessWidth { width })
        );
    }
    assert_eq!(
        vgicd_emul_handler(&mut vm, &rd(GICD + 0x100, 0)),
        Err(VGicError::UnimplementedGicdReg { offset: 0x100 })
    );
    assert_eq!(shared(&vm), before);
}

#[test]
fn distributor_masks_the_address() {
    let mut vm = machine(1, 64);
    assert_eq!(vgicd_emul_handler(&mut vm, &wr(0x1234_0000_0420, 1, 0x33)), Ok(0));
    assert_eq!(vm.vgicd.interrupts[32].prio, 0x33);
}

#[test]
fn redistributor_priority_round_trip() {
    let mut vm = machine(2, 64);
    let addr = GICR + STRIDE + 0x1_0400 + 8;
    assert_eq!(vgicr_emul_handler(&mut vm, &wr(addr, 4, 0x4433_2211)), Ok(0));
    assert_eq!(vgicr_emul_handler(&mut vm, &rd(addr, 4)), Ok(0x4433_2211));
    assert_eq!(vgicr_emul_handler(&mut vm, &rd(addr + 2, 1)), Ok(0x33));
    let prios: Vec<u8> = vm.vcpus[1].vgic_priv.interrupts.iter().map(|i| i.prio).collect();
    assert_eq!(prios[8..12], [0x11, 0x22, 0x33, 0x44]);
    assert!(prios[..8].iter().all(|p| *p == 0xff));
    assert!(prios[12..].iter().all(|p| *p == 0xff));
    assert!(!vm.vcpus[1].vgic_priv.vgicr.lock.is_locked());
    assert!(vm.vcpus[1].vgic_priv.interrupts.iter().all(|i| !i.lock.is_locked()));
}

#[test]
fn redistributor_priority_round_trip_for_every_private_interrupt() {
    let mut vm = machine(1, 64);
    for id in 0..32u64 {
        assert_eq!(vgicr_emul_handler(&mut vm, &wr(GICR + 0x1_0400 + id, 1, 0xc0 + id)), Ok(0));
    }
    for id in 0..32u64 {
        assert_eq!(vgicr_emul_handler(&mut vm, &rd(GICR + 0x1_0400 + id, 1)), Ok(0xc0 + id));
    }
}

#[test]
fn redistributor_priorities_end_with_the_private_interrupts() {
    let mut vm = machine(1, 64);
    let addr = GICR + 0x1_0400 + 0x1c;
    assert_eq!(vgicr_emul_handler(&mut vm, &wr(addr, 8, 0x0807_0605_0403_0201)), Ok(0));
    assert_eq!(vgicr_emul_handler(&mut vm, &rd(addr, 8)), Ok(0x0403_0201));
    assert_eq!(vm.vcpus[0].vgic_priv.interrupts.len(), 32);
    assert_eq!(vm.vcpus[0].vgic_priv.interrupts[31].prio, 0x04);
    assert!(vm.vgicd.interrupts.iter().all(|i| i.prio == 0xff));
}

#[test]
fn redistributor_clear_registers() {
    let mut vm = machine(1, 64);
    for intr in vm.vcpus[0].vgic_priv.interrupts.iter_mut() {
        intr.enabled = true;
        intr.state = VGicIntrState::PendingActive;
    }
    assert_eq!(vgicr_emul_handler(&mut vm, &rd(GICR + 0x1_0180, 4)), Ok(0xffff_ffff));
    assert_eq!(vgicr_emul_handler(&mut vm, &rd(GICR + 0x1_0180, 8)), Ok(0xffff_ffff));
    assert_eq!(vgicr_emul_handler(&mut vm, &wr(GICR + 0x1_0180, 4, 0)), Ok(0));
    assert_eq!(vgicr_emul_handler(&mut vm, &rd(GICR + 0x1_0180, 4)), Ok(0xffff_ffff));
    assert_eq!(vgicr_emul_handler(&mut vm, &wr(GICR + 0x1_0180, 4, 0x8000_0001)), Ok(0));
    assert_eq!(vgicr_emul_handler(&mut vm, &rd(GICR + 0x1_0180, 4)), Ok(0x7fff_fffe));
    assert_eq!(vgicr_emul_handler(&mut vm, &wr(GICR + 0x1_0280, 4, 0b0011)), Ok(0));
    assert_eq!(vgicr_emul_handler(&mut vm, &wr(GICR + 0x1_0380, 4, 0b0110)), Ok(0));
    let states: Vec<VGicIntrState> =
        vm.vcpus[0].vgic_priv.interrupts.iter().map(|i| i.state).collect();
    assert_eq!(
        states[..4],
        [
            VGicIntrState::Active,
            VGicIntrState::Inactive,
            VGicIntrState::Pending,
            VGicIntrState::PendingActive
        ]
    );
    assert_eq!(vgicr_emul_handler(&mut vm, &rd(GICR + 0x1_0280, 4)), Ok(0xffff_fffc));
    assert_eq!(vgicr_emul_handler(&mut vm, &rd(GICR + 0x1_0380, 4)), Ok(0xffff_fff9));
}

#[test]
fn redistributor_wake_and_group_read_zero_and_ignore_stores() {
    let mut vm = machine(2, 64);
    for intr in vm.vcpus[1].vgic_priv.interrupts.iter_mut() {
        intr.enabled = true;
    }
    let before = [private(&vm, 0), private(&vm, 1)];
    let shared_before = shared(&vm);
    for offset in [GICR_REG_WAKER_OFF, GICR_REG_IGROUPR0_OFF] {
        let addr = GICR + STRIDE + offset;
        assert_eq!(vgicr_emul_handler(&mut vm, &wr(addr, 4, u64::MAX)), Ok(0));
        assert_eq!(vgicr_emul_handler(&mut vm, &rd(addr, 4)), Ok(0));
    }
    assert_eq!([private(&vm, 0), private(&vm, 1)], before);
    assert_eq!(shared(&vm), shared_before);
}

#[test]
fn redistributor_unknown_offsets_fail() {
    let mut vm = machine(2, 64);
    vm.vcpus[1].vgic_priv.interrupts[3].enabled = true;
    let before = [private(&vm, 0), private(&vm, 1)];
    for offset in [0u64, 0x4, 0x8, 0x10, 0x18, 0x10000, 0x10100, 0x10184, 0x10200, 0x10420, 0x10c00]
    {
        for acc in [rd(GICR + STRIDE + offset, 4), wr(GICR + STRIDE + offset, 4, u64::MAX)] {
            assert_eq!(
                vgicr_emul_handler(&mut vm, &acc),
                Err(VGicError::UnimplementedGicrReg { vgicr_id: 1, offset })
            );
        }
    }
    assert_eq!(
        vgicr_emul_handler(&mut vm, &rd(GICR + 0x20, 4)),
        Err(VGicError::UnimplementedGicrReg { vgicr_id: 0, offset: 0x20 })
    );
    assert_eq!([private(&vm, 0), private(&vm, 1)], before);
    assert!(!vm.vcpus[1].vgic_priv.vgicr.lock.is_locked());
}

#[test]
fn redistributor_refuses_widths_it_cannot_emulate() {
    let mut vm = machine(1, 64);
    for width in [0u64, 9, 16] {
        assert_eq!(
            vgicr_emul_handler(&mut vm, &wr(GICR + 0x1_0180, width, 1)),
            Err(VGicError::InvalidAccessWidth { width })
        );
        assert_eq!(
            vgicr_emul_handler(&mut vm, &rd(GICR + 0x14, width)),
            Err(VGicError::InvalidAccessWidth { width })
        );
    }
}

#[test]
fn a_store_through_one_redistributor_leaves_the_other_cpus_alone() {
    let mut vm = machine(4, 64);
    for cpu in 0..4 {
        for intr in vm.vcpus[cpu].vgic_priv.interrupts.iter_mut() {
            intr.enabled = true;
            intr.state = VGicIntrState::PendingActive;
            intr.prio = 0x80;
        }
    }
    let before: Vec<_> = (0..4).map(|cpu| private(&vm, cpu)).collect();
    let shared_before = shared(&vm);
    let base = GICR + 2 * STRIDE;
    assert_eq!(vgicr_emul_handler(&mut vm, &wr(base + 0x1_0180, 4, u64::MAX)), Ok(0));
    assert_eq!(vgicr_emul_handler(&mut vm, &wr(base + 0x1_0280, 4, u64::MAX)), Ok(0));
    assert_eq!(vgicr_emul_handler(&mut vm, &wr(base + 0x1_0380, 4, u64::MAX)), Ok(0));
    assert_eq!(vgicr_emul_handler(&mut vm, &wr(base + 0x1_0400, 8, 0)), Ok(0));
    for cpu in [0, 1, 3] {
        assert_eq!(private(&vm, cpu), before[cpu]);
    }
    assert_ne!(private(&vm, 2), before[2]);
    for (id, intr) in vm.vcpus[2].vgic_priv.interrupts.iter().enumerate() {
        assert!(!intr.enabled);
        assert_eq!(intr.state, VGicIntrState::Inactive);
        assert_eq!(intr.prio, if id < 8 { 0 } else { 0x80 });
    }
    assert_eq!(shared(&vm), shared_before);
}

#[test]
fn redistributor_and_distributor_do_the_same_to_equal_records() {
    let stores = [
        (0x1_0180u64, 4u64, 0x00ff_00f1u64),
        (0x1_0180, 1, 0x5a),
        (0x1_0280, 4, 0xaaaa_5555),
        (0x1_0380, 4, 0x0f0f_0f0f),
        (0x1_0380, 2, 0xffff),
        (0x1_0400, 8, 0x0102_0304_0506_0708),
        (0x1_0413, 4, 0xdead_beef),
        (0x1_041f, 1, 0x42),
    ];
    for (offset, width, value) in stores {
        let mut vm = machine(2, 64);
        for id in 0..32usize {
            for intr in
                [&mut vm.vcpus[1].vgic_priv.interrupts[id], &mut vm.vgicd.interrupts[id]]
            {
                intr.enabled = id % 3 != 0;
                intr.state = [
                    VGicIntrState::Inactive,
                    VGicIntrState::Pending,
                    VGicIntrState::Active,
                    VGicIntrState::PendingActive,
                ][id % 4];
                intr.prio = id as u8;
            }
        }
        let gicr_addr = GICR + STRIDE + offset;
        let gicd_addr = GICD + gicd_reg_mask(offset);
        assert_eq!(vgicr_emul_handler(&mut vm, &wr(gicr_addr, width, value)), Ok(0));
        assert_eq!(vgicd_emul_handler(&mut vm, &wr(gicd_addr, width, value)), Ok(0));
        assert_eq!(private(&vm, 1)[..], shared(&vm)[..32]);
        let mask = if width >= 4 { 0xffff_ffff } else { (1u64 << (8 * width)) - 1 };
        let through_gicr = vgicr_emul_handler(&mut vm, &rd(gicr_addr, width.min(4))).unwrap();
        let through_gicd = vgicd_emul_handler(&mut vm, &rd(gicd_addr, width.min(4))).unwrap();
        if offset < 0x1_0400 {
            assert_eq!(through_gicr & mask, through_gicd & mask);
        }
    }
}

#[test]
fn the_machine_hands_an_access_to_the_region_that_holds_it() {
    let mut vm = machine(2, 64);
    assert_eq!(
        vm.emul_get_mem(GICD),
        Some(EmulMem { va_base: GICD, size: 0x1_0000, handler: EmulHandler::VGicD })
    );
    assert_eq!(vm.emul_get_mem(GICD + 0xffff).map(|m| m.handler), Some(EmulHandler::VGicD));
    assert_eq!(vm.emul_get_mem(GICD + 0x1_0000), None);
    assert_eq!(vm.emul_get_mem(GICD - 1), None);
    assert_eq!(vm.emul_get_mem(GICR).map(|m| m.handler), Some(EmulHandler::VGicR));
    assert_eq!(
        vm.emul_get_mem(GICR + 2 * STRIDE - 1).map(|m| m.handler),
        Some(EmulHandler::VGicR)
    );
    assert_eq!(vm.emul_get_mem(GICR + 2 * STRIDE), None);

    assert_eq!(
        vm.emul_handler(&wr(GICD + 0x400 + 33, 1, 0x21)),
        Ok(EmulResult { handled: true, value: 0 })
    );
    assert_eq!(vm.vgicd.interrupts[33].prio, 0x21);
    assert_eq!(
        vm.emul_handler(&rd(GICD + 0x400 + 32, 2)),
        Ok(EmulResult { handled: true, value: 0x21ff })
    );
    assert_eq!(
        vm.emul_handler(&wr(GICR + STRIDE + 0x1_0400 + 5, 1, 0x55)),
        Ok(EmulResult { handled: true, value: 0 })
    );
    assert_eq!(vm.vcpus[1].vgic_priv.interrupts[5].prio, 0x55);
    assert_eq!(vm.vcpus[0].vgic_priv.interrupts[5].prio, 0xff);
    assert_eq!(
        vm.emul_handler(&rd(GICR + STRIDE + 0x1_0400 + 4, 4)),
        Ok(EmulResult { handled: true, value: 0xffff_55ff })
    );
}

#[test]
fn the_machine_does_not_handle_what_lies_in_no_region() {
    let mut vm = machine(2, 64);
    let before = (shared(&vm), private(&vm, 0), private(&vm, 1));
    for addr in [0u64, GICD - 4, GICD + 0x1_0000, GICR - 4, GICR + 2 * STRIDE, u64::MAX] {
        assert_eq!(
            vm.emul_handler(&wr(addr, 4, u64::MAX)),
            Ok(EmulResult { handled: false, value: 0 })
        );
    }
    assert_eq!((shared(&vm), private(&vm, 0), private(&vm, 1)), before);
    let mut bare = VM::new(1);
    assert_eq!(
        bare.emul_handler(&rd(GICD + 0x400, 4)),
        Ok(EmulResult { handled: false, value: 0 })
    );
}

#[test]
fn the_machine_passes_the_handlers_errors_on() {
    let mut vm = machine(2, 64);
    assert_eq!(
        vm.emul_handler(&rd(GICD + 0x100, 4)),
        Err(VGicError::UnimplementedGicdReg { offset: 0x100 })
    );
    assert_eq!(
        vm.emul_handler(&rd(GICR + STRIDE + 0x1_0100, 4)),
        Err(VGicError::UnimplementedGicrReg { vgicr_id: 1, offset: 0x1_0100 })
    );
    assert_eq!(
        vm.emul_handler(&rd(GICD + 0x400, 16)),
        Err(VGicError::InvalidAccessWidth { width: 16 })
    );
}

#[test]
fn the_first_region_that_was_registered_wins() {
    let mut vm = VM::new(1);
    vm.emul_add_mem(EmulMem { va_base: GICR, size: 0x1000, handler: EmulHandler::VGicD });
    let dscr = VGicDscr { gicd_addr: GICD, gicr_addr: GICR };
    assert_eq!(vgic_init(&mut vm, &dscr, &Gic { max_irqs: 64 }), Ok(()));
    assert_eq!(vm.emul_get_mem(GICR + 0x14).map(|m| m.handler), Some(EmulHandler::VGicD));
    assert_eq!(
        vm.emul_handler(&rd(GICR + 0x14, 4)),
        Err(VGicError::UnimplementedGicdReg { offset: 0x14 })
    );
    assert_eq!(vm.emul_get_mem(GICR + 0x1_0180).map(|m| m.handler), Some(EmulHandler::VGicR));
}

#[test]
fn a_redistributor_region_beyond_the_cpus_is_not_handled() {
    let mut vm = machine(1, 64);
    vm.emul_add_mem(EmulMem { va_base: 0x4000_0000, size: 0x1000, handler: EmulHandler::VGicR });
    vm.emul_add_mem(EmulMem { va_base: GICR + STRIDE, size: STRIDE, handler: EmulHandler::VGicR });
    assert_eq!(
        vm.emul_handler(&rd(0x4000_0014, 4)),
        Ok(EmulResult { handled: false, value: 0 })
    );
    assert_eq!(
        vm.emul_handler(&rd(GICR + STRIDE + 0x14, 4)),
        Ok(EmulResult { handled: false, value: 0 })
    );
    assert_eq!(vm.emul_handler(&rd(GICR + 0x14, 4)), Ok(EmulResult { handled: true, value: 0 }));
}

#[test]
fn accesses_to_different_interrupts_do_not_disturb_each_other() {
    let mut vm = machine(2, 64);
    assert_eq!(vgicd_emul_handler(&mut vm, &wr(GICD + 0x400 + 40, 1, 0x11)), Ok(0));
    assert_eq!(vgicr_emul_handler(&mut vm, &wr(GICR + 0x1_0400 + 8, 1, 0x22)), Ok(0));
    assert_eq!(vgicd_emul_handler(&mut vm, &wr(GICD + 0x400 + 41, 1, 0x33)), Ok(0));
    assert_eq!(vgicr_emul_handler(&mut vm, &wr(GICR + STRIDE + 0x1_0400 + 8, 1, 0x44)), Ok(0));
    assert_eq!(vm.vgicd.interrupts[40].prio, 0x11);
    assert_eq!(vm.vgicd.interrupts[41].prio, 0x33);
    assert_eq!(vm.vcpus[0].vgic_priv.interrupts[8].prio, 0x22);
    assert_eq!(vm.vcpus[1].vgic_priv.interrupts[8].prio, 0x44);
    assert!(vm.vgicd.interrupts.iter().all(|i| i.lock.try_lock().is_some()));
}
