//! What follows from the contracts of the register accesses.
//!
//! Each function here is a theorem about the spec functions that the
//! handlers' contracts are written in, so each holds of every access the
//! handlers emulate.

use vstd::prelude::*;
use crate::arch::aarch64::armv8_a::vm::VGicDscr;
use crate::arch::aarch64::gic::Gic;
use crate::arch::aarch64::gic::vgic::access_intrs;
use crate::arch::aarch64::gic::vgic::access_value;
use crate::arch::aarch64::gic::vgic::access_width_ok_spec;
use crate::arch::aarch64::gic::vgic::field_at;
use crate::arch::aarch64::gic::vgic::field_of;
use crate::arch::aarch64::gic::vgic::packs_fields;
use crate::arch::aarch64::gic::vgic::vgicd_emul_answer;
use crate::arch::aarch64::gic::vgic::vgicd_emul_next;
use crate::arch::aarch64::gic::vgic::vgicd_handler_info_spec;
use crate::arch::aarch64::gic::vgic::VGicError;
use crate::arch::aarch64::gic::vgic::VGicHandlerInfo;
use crate::arch::aarch64::gic::vgic::VGicIntrState;
use crate::arch::aarch64::gic::vgic::VGicIntrView;
use crate::arch::aarch64::gic::vgic::VGicReg;
use crate::arch::aarch64::gic::vgic::VGicRegAccess;
use crate::arch::aarch64::gic::vgicv3::gicd_reg_mask_spec;
use crate::arch::aarch64::gic::vgicv3::gicr_reg_mask_spec;
use crate::arch::aarch64::gic::vgicv3::lemma_gicr_reg_regroups;
use crate::arch::aarch64::gic::vgicv3::vgic_config_ok;
use crate::arch::aarch64::gic::vgicv3::vgic_init_next;
use crate::arch::aarch64::gic::vgicv3::vgicr_emul_answer;
use crate::arch::aarch64::gic::vgicv3::vgicr_emul_next;
use crate::arch::aarch64::gic::vgicv3::vgicr_get_id_spec;
use crate::arch::aarch64::gic::vgicv3::vgicr_handler_info_spec;
use crate::baocore::emul::EmulAccess;
use crate::baocore::vm::emul_next;
use crate::baocore::vm::VMView;
use crate::util::bit::bit_extract_spec;
use crate::util::bit::bit_insert_spec;
use crate::util::bit::bit_mask_spec;
use crate::util::bit::lemma_clear_above;
use crate::util::bit::lemma_equal_bits;
use crate::util::bit::lemma_equal_bytes;
use crate::util::bit::lemma_insert_then_extract;
use crate::util::bit::lemma_mask_fits;

verus! {

/// A field of an interrupt that was put into a register value is read back
/// from it unchanged, whether fields are one bit or eight bits wide.
pub proof fn lemma_field_round_trip(word: u64, val: u64, k: int, width: u64)
    requires
        width == 1 || width == 8,
        0 <= k,
        (k + 1) * width <= 64,
    ensures
        field_of(bit_insert_spec(word, val, (k * width) as u64, width), k, width) == val
            & bit_mask_spec(width),
        val <= bit_mask_spec(width) ==> field_of(
            bit_insert_spec(word, val, (k * width) as u64, width),
            k,
            width,
        ) == val,
{
    lemma_insert_then_extract(word, val, (k * width) as u64, width);
    if val <= bit_mask_spec(width) {
        lemma_mask_fits(val, width);
    }
}

/// What a load reads is determined by the interrupts it spans: two values
/// that pack the same fields are the same value.
pub proof fn lemma_packs_fields_unique(
    a: u64,
    b: u64,
    intrs: Seq<VGicIntrView>,
    reg: VGicReg,
    first: int,
    n: int,
)
    requires
        0 <= n,
        n * reg.field_width_spec() <= 64,
        packs_fields(a, intrs, reg, first, n),
        packs_fields(b, intrs, reg, first, n),
    ensures
        a == b,
{
    if reg.field_width_spec() == 1 {
        assert forall|j: u64| j < 64 implies #[trigger] bit_extract_spec(a, j, 1)
            == bit_extract_spec(b, j, 1) by {
            if j < n {
                assert(field_of(a, j as int, 1) == field_of(b, j as int, 1));
            } else {
                lemma_clear_above(a, n as u64, j, 1);
                lemma_clear_above(b, n as u64, j, 1);
            }
        }
        lemma_equal_bits(a, b);
    } else {
        assert forall|j: u64| j < 8 implies #[trigger] bit_extract_spec(a, (8 * j) as u64, 8)
            == bit_extract_spec(b, (8 * j) as u64, 8) by {
            if j < n {
                assert(field_of(a, j as int, 8) == field_of(b, j as int, 8));
            } else {
                lemma_clear_above(a, (n * 8) as u64, (8 * j) as u64, 8);
                lemma_clear_above(b, (n * 8) as u64, (8 * j) as u64, 8);
            }
        }
        lemma_equal_bytes(a, b);
    }
}

/// A priority that was written is the priority that is read: after a store
/// to the priority registers, a load of the same bytes reads, for every
/// interrupt that exists, the byte that the store wrote for it.
pub proof fn lemma_priority_round_trip(
    intrs: Seq<VGicIntrView>,
    info: VGicHandlerInfo,
    store: EmulAccess,
    load: EmulAccess,
    val: u64,
    k: int,
)
    requires
        info.reg_access == VGicRegAccess::Generic,
        info.reg_spec() == Some(VGicReg::IPriorityr),
        info.admits(store),
        store.write,
        !load.write,
        load.addr == store.addr,
        load.width == store.width,
        access_value(val, access_intrs(intrs, info, store), info, load),
        0 <= k < store.width,
        info.first_int_spec(store) + k < intrs.len(),
    ensures
        field_of(val, k, 8) == field_of(store.value, k, 8),
{
    let value = store.value;
    let off = (k * 8) as u64;
    assert(bit_extract_spec(value, off, 8) <= 0xff) by (bit_vector);
}

/// A store of zero to a bit of the enable-clear, pending-clear or
/// active-clear registers changes nothing of the interrupt.
pub proof fn lemma_clear_zero_is_noop(reg: VGicReg, intr: VGicIntrView)
    requires
        reg != VGicReg::IPriorityr,
    ensures
        reg.update_field_spec(intr, 0) == intr,
{
}

/// A store of one to a bit of the enable-clear, pending-clear or
/// active-clear registers clears what the register stands for, whatever the
/// interrupt's state was: afterwards the bit reads as zero, and what the two
/// other registers show of the interrupt is as before.
pub proof fn lemma_clear_one_clears(reg: VGicReg, intr: VGicIntrView, other: VGicReg)
    requires
        reg != VGicReg::IPriorityr,
        other != reg,
    ensures
        reg.read_field_spec(reg.update_field_spec(intr, 1)) == 0,
        other.read_field_spec(reg.update_field_spec(intr, 1)) == other.read_field_spec(intr),
        reg == VGicReg::IcEnabler ==> reg.update_field_spec(intr, 1) == (VGicIntrView {
            enabled: false,
            ..intr
        }),
        reg == VGicReg::IcPendr ==> reg.update_field_spec(intr, 1) == (VGicIntrView {
            state: VGicIntrState::from_bits_spec(false, intr.state.is_active_spec()),
            ..intr
        }),
        reg == VGicReg::IcActiver ==> reg.update_field_spec(intr, 1) == (VGicIntrView {
            state: VGicIntrState::from_bits_spec(intr.state.is_pending_spec(), false),
            ..intr
        }),
{
}

/// In a store to the enable-clear, pending-clear or active-clear registers,
/// every interrupt whose bit is zero stays exactly as it was, and every
/// interrupt whose bit is one then reads as zero in that register.
pub proof fn lemma_clear_store(
    intrs: Seq<VGicIntrView>,
    info: VGicHandlerInfo,
    store: EmulAccess,
    k: int,
)
    requires
        info.reg_access == VGicRegAccess::Generic,
        info.reg_spec() is Some,
        info.reg_spec() != Some(VGicReg::IPriorityr),
        info.admits(store),
        store.write,
        0 <= k < 8 * store.width,
        info.first_int_spec(store) + k < intrs.len(),
    ensures
        ({
            let id = info.first_int_spec(store) + k;
            let reg = info.reg_spec()->0;
            let after = access_intrs(intrs, info, store);
            &&& field_of(store.value, k, 1) == 0 ==> after[id] == intrs[id]
            &&& field_of(store.value, k, 1) == 1 ==> after[id] == reg.update_field_spec(
                intrs[id],
                1,
            ) && field_at(after, reg, id) == 0
            &&& field_of(store.value, k, 1) == 0 || field_of(store.value, k, 1) == 1
        }),
{
    let value = store.value;
    let off = (k * 1) as u64;
    assert(bit_extract_spec(value, off, 1) == 0 || bit_extract_spec(value, off, 1) == 1)
        by (bit_vector);
    assert(info.num_fields_spec(store) == 8 * store.width);
}

/// Through the distributor, a priority that was written is the priority that
/// is read: a load of the bytes that a store wrote reads, for every line that
/// the machine has, the byte that the store wrote for it.
pub proof fn lemma_vgicd_priority_round_trip(
    vm: VMView,
    store: EmulAccess,
    load: EmulAccess,
    r: Result<u64, VGicError>,
    k: int,
)
    requires
        vgicd_handler_info_spec(gicd_reg_mask_spec(store.addr)) matches Some(info)
            && info.reg_spec() == Some(VGicReg::IPriorityr) && info.first_int_spec(store) + k
            < vm.vgicd.interrupts.len(),
        access_width_ok_spec(store.width),
        store.write,
        !load.write,
        load.addr == store.addr,
        load.width == store.width,
        0 <= k < store.width,
        vgicd_emul_answer(r, vgicd_emul_next(vm, store), load),
    ensures
        r matches Ok(val) && field_of(val, k, 8) == field_of(store.value, k, 8),
{
    let info = vgicd_handler_info_spec(gicd_reg_mask_spec(store.addr))->0;
    lemma_priority_round_trip(vm.vgicd.interrupts, info, store, load, r->Ok_0, k);
}

/// Through a redistributor, a priority that was written is the priority that
/// is read: a load of the bytes that a store wrote reads, for every private
/// interrupt of the CPU, the byte that the store wrote for it.
pub proof fn lemma_vgicr_priority_round_trip(
    vm: VMView,
    store: EmulAccess,
    load: EmulAccess,
    r: Result<u64, VGicError>,
    k: int,
)
    requires
        vm.in_vgicr_window(store.addr),
        vgicr_handler_info_spec(gicr_reg_mask_spec(store.addr)) matches Some(info)
            && info.reg_spec() == Some(VGicReg::IPriorityr) && info.first_int_spec(store) + k
            < vm.vcpus[vgicr_get_id_spec(store.addr, vm.vgicr_addr)].vgic_priv.interrupts.len(),
        access_width_ok_spec(store.width),
        store.write,
        !load.write,
        load.addr == store.addr,
        load.width == store.width,
        0 <= k < store.width,
        vgicr_emul_answer(r, vgicr_emul_next(vm, store), load),
    ensures
        r matches Ok(val) && field_of(val, k, 8) == field_of(store.value, k, 8),
{
    let info = vgicr_handler_info_spec(gicr_reg_mask_spec(store.addr))->0;
    let vgicr_id = vgicr_get_id_spec(store.addr, vm.vgicr_addr);
    lemma_gicr_reg_regroups(store.addr);
    lemma_priority_round_trip(
        vm.vcpus[vgicr_id].vgic_priv.interrupts,
        info,
        store,
        load,
        r->Ok_0,
        k,
    );
}

/// Through the distributor, a store to the enable-clear, pending-clear or
/// active-clear registers leaves every line whose bit is zero exactly as it
/// was, and clears for every line whose bit is one what the register stands
/// for, whatever the line's state was.
pub proof fn lemma_vgicd_clear_store(vm: VMView, store: EmulAccess, k: int)
    requires
        vgicd_handler_info_spec(gicd_reg_mask_spec(store.addr)) matches Some(info)
            && info.field_width == 1 && info.first_int_spec(store) + k
            < vm.vgicd.interrupts.len(),
        access_width_ok_spec(store.width),
        store.write,
        0 <= k < 8 * store.width,
    ensures
        ({
            let info = vgicd_handler_info_spec(gicd_reg_mask_spec(store.addr))->0;
            let id = info.first_int_spec(store) + k;
            let before = vm.vgicd.interrupts[id];
            let after = vgicd_emul_next(vm, store).vgicd.interrupts[id];
            if field_of(store.value, k, 1) == 0 {
                after == before
            } else {
                after == info.reg_spec()->0.update_field_spec(before, 1)
            }
        }),
{
    let info = vgicd_handler_info_spec(gicd_reg_mask_spec(store.addr))->0;
    lemma_clear_store(vm.vgicd.interrupts, info, store, k);
}

/// Through a redistributor, a store to the enable-clear, pending-clear or
/// active-clear register leaves every private interrupt whose bit is zero
/// exactly as it was, and clears for every private interrupt whose bit is one
/// what the register stands for, whatever the interrupt's state was.
pub proof fn lemma_vgicr_clear_store(vm: VMView, store: EmulAccess, k: int)
    requires
        vm.in_vgicr_window(store.addr),
        vgicr_handler_info_spec(gicr_reg_mask_spec(store.addr)) matches Some(info)
            && info.field_width == 1 && info.first_int_spec(store) + k
            < vm.vcpus[vgicr_get_id_spec(store.addr, vm.vgicr_addr)].vgic_priv.interrupts.len(),
        access_width_ok_spec(store.width),
        store.write,
        0 <= k < 8 * store.width,
    ensures
        ({
            let info = vgicr_handler_info_spec(gicr_reg_mask_spec(store.addr))->0;
            let id = info.first_int_spec(store) + k;
            let vgicr_id = vgicr_get_id_spec(store.addr, vm.vgicr_addr);
            let before = vm.vcpus[vgicr_id].vgic_priv.interrupts[id];
            let after = vgicr_emul_next(vm, store).vcpus[vgicr_id].vgic_priv.interrupts[id];
            if field_of(store.value, k, 1) == 0 {
                after == before
            } else {
                after == info.reg_spec()->0.update_field_spec(before, 1)
            }
        }),
{
    let info = vgicr_handler_info_spec(gicr_reg_mask_spec(store.addr))->0;
    let vgicr_id = vgicr_get_id_spec(store.addr, vm.vgicr_addr);
    lemma_gicr_reg_regroups(store.addr);
    lemma_clear_store(vm.vcpus[vgicr_id].vgic_priv.interrupts, info, store, k);
}

/// An access changes of an interrupt only what its register stands for: the
/// row keeps its length, and every record keeps its id, its owner, its
/// configuration, both routes and both hardware marks.
pub proof fn lemma_access_frame(intrs: Seq<VGicIntrView>, info: VGicHandlerInfo, acc: EmulAccess)
    ensures
        access_intrs(intrs, info, acc).len() == intrs.len(),
        forall|id: int|
            #![trigger access_intrs(intrs, info, acc)[id]]
            0 <= id < intrs.len() ==> {
                let before = intrs[id];
                let after = access_intrs(intrs, info, acc)[id];
                &&& after.id == before.id
                &&& after.owner == before.owner
                &&& after.cfg == before.cfg
                &&& after.route == before.route
                &&& after.phys_route == before.phys_route
                &&& after.hw == before.hw
                &&& after.in_lr == before.in_lr
            },
{
}

/// An access leaves every interrupt outside the span of its bytes exactly as
/// it was.
pub proof fn lemma_access_outside_span(
    intrs: Seq<VGicIntrView>,
    info: VGicHandlerInfo,
    acc: EmulAccess,
    id: int,
)
    requires
        0 <= id < intrs.len(),
        id < info.first_int_spec(acc) || info.first_int_spec(acc) + info.num_fields_spec(acc)
            <= id,
    ensures
        access_intrs(intrs, info, acc)[id] == intrs[id],
{
}

/// Two stores that span different interrupts do not disturb each other:
/// whichever goes first, the interrupts end up the same.
pub proof fn lemma_disjoint_stores_commute(
    intrs: Seq<VGicIntrView>,
    info1: VGicHandlerInfo,
    acc1: EmulAccess,
    info2: VGicHandlerInfo,
    acc2: EmulAccess,
)
    requires
        info1.first_int_spec(acc1) + info1.num_fields_spec(acc1) <= info2.first_int_spec(acc2)
            || info2.first_int_spec(acc2) + info2.num_fields_spec(acc2) <= info1.first_int_spec(
            acc1,
        ),
    ensures
        access_intrs(access_intrs(intrs, info1, acc1), info2, acc2) == access_intrs(
            access_intrs(intrs, info2, acc2),
            info1,
            acc1,
        ),
{
}

/// Every register of the private interrupts that the redistributor's table
/// knows as a row of fields is the distributor's register at the same offset
/// in the distributor's window: the two tables give the same entry.
pub proof fn lemma_vgicr_regroups_vgicd(gicr_reg: u64)
    requires
        vgicr_handler_info_spec(gicr_reg) matches Some(info) && info.reg_access
            == VGicRegAccess::Generic,
    ensures
        vgicd_handler_info_spec((gicr_reg % 0x1_0000) as u64) == vgicr_handler_info_spec(gicr_reg),
{
}

/// An access through a redistributor does to a private interrupt what the
/// same access through the distributor, at the same offset in the
/// distributor's window, does to the distributor's record of that id: if the
/// two records were equal before, they are equal after, and the two accesses
/// succeed or fail alike.
pub proof fn lemma_vgicr_vgicd_equivalence(
    vm: VMView,
    gicr_acc: EmulAccess,
    gicd_acc: EmulAccess,
    id: int,
)
    requires
        vm.in_vgicr_window(gicr_acc.addr),
        vgicr_handler_info_spec(gicr_reg_mask_spec(gicr_acc.addr)) matches Some(info)
            && info.reg_access == VGicRegAccess::Generic,
        gicd_reg_mask_spec(gicd_acc.addr) == gicd_reg_mask_spec(gicr_acc.addr),
        gicd_acc.width == gicr_acc.width,
        gicd_acc.write == gicr_acc.write,
        gicd_acc.value == gicr_acc.value,
        0 <= id < 32,
        id < vm.vgicd.interrupts.len(),
        id < vm.vcpus[vgicr_get_id_spec(gicr_acc.addr, vm.vgicr_addr)].vgic_priv.interrupts.len(),
        vm.vcpus[vgicr_get_id_spec(gicr_acc.addr, vm.vgicr_addr)].vgic_priv.interrupts[id]
            == vm.vgicd.interrupts[id],
    ensures
        vgicr_emul_next(vm, gicr_acc).vcpus[vgicr_get_id_spec(
            gicr_acc.addr,
            vm.vgicr_addr,
        )].vgic_priv.interrupts[id] == vgicd_emul_next(vm, gicd_acc).vgicd.interrupts[id],
        forall|r: Result<u64, VGicError>, d: Result<u64, VGicError>|
            vgicr_emul_answer(r, vm, gicr_acc) && vgicd_emul_answer(d, vm, gicd_acc) ==> (r is Ok
                <==> d is Ok),
{
    lemma_gicr_reg_regroups(gicr_acc.addr);
    lemma_vgicr_regroups_vgicd(gicr_reg_mask_spec(gicr_acc.addr));
}

/// A load through a redistributor reads for a private interrupt what the
/// same load through the distributor, at the same offset in the distributor's
/// window, reads for the distributor's record of that id, if the two records
/// are equal.
pub proof fn lemma_vgicr_vgicd_same_load(
    vm: VMView,
    gicr_acc: EmulAccess,
    gicd_acc: EmulAccess,
    gicr_val: u64,
    gicd_val: u64,
    k: int,
)
    requires
        vm.in_vgicr_window(gicr_acc.addr),
        vgicr_handler_info_spec(gicr_reg_mask_spec(gicr_acc.addr)) matches Some(info)
            && info.reg_access == VGicRegAccess::Generic && 0 <= k < info.num_fields_spec(
            gicr_acc,
        ) && 0 <= info.first_int_spec(gicr_acc) + k < vm.vgicd.interrupts.len()
            && info.first_int_spec(gicr_acc) + k < vm.vcpus[vgicr_get_id_spec(
            gicr_acc.addr,
            vm.vgicr_addr,
        )].vgic_priv.interrupts.len() && vm.vcpus[vgicr_get_id_spec(
            gicr_acc.addr,
            vm.vgicr_addr,
        )].vgic_priv.interrupts[info.first_int_spec(gicr_acc) + k]
            == vm.vgicd.interrupts[info.first_int_spec(gicr_acc) + k],
        gicd_reg_mask_spec(gicd_acc.addr) == gicd_reg_mask_spec(gicr_acc.addr),
        gicd_acc.width == gicr_acc.width,
        !gicd_acc.write,
        !gicr_acc.write,
        vgicr_emul_answer(Ok(gicr_val), vm, gicr_acc),
        vgicd_emul_answer(Ok(gicd_val), vm, gicd_acc),
    ensures
        field_of(
            gicr_val,
            k,
            vgicr_handler_info_spec(gicr_reg_mask_spec(gicr_acc.addr))->0.field_width,
        ) == field_of(
            gicd_val,
            k,
            vgicr_handler_info_spec(gicr_reg_mask_spec(gicr_acc.addr))->0.field_width,
        ),
{
    lemma_gicr_reg_regroups(gicr_acc.addr);
    lemma_vgicr_regroups_vgicd(gicr_reg_mask_spec(gicr_acc.addr));
}

/// An access through one CPU's redistributor changes nothing of any other
/// CPU and nothing of the distributor.
pub proof fn lemma_vgicr_isolation(vm: VMView, acc: EmulAccess, other: int)
    requires
        vm.in_vgicr_window(acc.addr),
        0 <= other < vm.vcpus.len(),
        other != vgicr_get_id_spec(acc.addr, vm.vgicr_addr),
    ensures
        vgicr_emul_next(vm, acc).vcpus[other] == vm.vcpus[other],
        vgicr_emul_next(vm, acc).vgicd == vm.vgicd,
        vgicr_emul_next(vm, acc).vcpus.len() == vm.vcpus.len(),
{
}

/// An access through the distributor changes nothing of any CPU.
pub proof fn lemma_vgicd_isolation(vm: VMView, acc: EmulAccess)
    ensures
        vgicd_emul_next(vm, acc).vcpus == vm.vcpus,
{
}

/// An access to an offset that the register table does not know is answered
/// with an error and changes nothing, through the distributor and through a
/// redistributor alike; an access that is answered with a value fell on an
/// offset that the table knows.
pub proof fn lemma_unknown_offset_fails(vm: VMView, acc: EmulAccess, r: Result<u64, VGicError>)
    ensures
        vgicd_emul_answer(r, vm, acc) && vgicd_handler_info_spec(gicd_reg_mask_spec(acc.addr))
            is None ==> r is Err && vgicd_emul_next(vm, acc) == vm,
        vgicr_emul_answer(r, vm, acc) && vgicr_handler_info_spec(gicr_reg_mask_spec(acc.addr))
            is None ==> r is Err && vgicr_emul_next(vm, acc) == vm,
        vgicd_emul_answer(r, vm, acc) && r is Ok ==> vgicd_handler_info_spec(
            gicd_reg_mask_spec(acc.addr),
        ) is Some,
        vgicr_emul_answer(r, vm, acc) && r is Ok ==> vgicr_handler_info_spec(
            gicr_reg_mask_spec(acc.addr),
        ) is Some,
{
}

/// Emulation keeps a well-formed machine well-formed: after any trapped
/// access there is still one record for each interrupt line and one for each
/// private interrupt of each CPU, at the index of its id.
pub proof fn lemma_emul_keeps_wf(vm: VMView, acc: EmulAccess)
    requires
        vm.wf(),
    ensures
        vgicd_emul_next(vm, acc).wf(),
        vm.in_vgicr_window(acc.addr) ==> vgicr_emul_next(vm, acc).wf(),
        emul_next(vm, acc).wf(),
{
    match vgicd_handler_info_spec(gicd_reg_mask_spec(acc.addr)) {
        Some(info) => {
            lemma_access_frame(vm.vgicd.interrupts, info, acc);
        },
        None => {},
    }
    if vm.in_vgicr_window(acc.addr) {
        let vgicr_id = vgicr_get_id_spec(acc.addr, vm.vgicr_addr);
        match vgicr_handler_info_spec(gicr_reg_mask_spec(acc.addr)) {
            Some(info) => {
                lemma_access_frame(vm.vcpus[vgicr_id].vgic_priv.interrupts, info, acc);
            },
            None => {},
        }
    }
}

/// Building the controller leaves a well-formed machine well-formed, with
/// one record for each of the hardware's interrupt lines.
pub proof fn lemma_vgic_init_keeps_wf(vm: VMView, dscr: VGicDscr, gic: Gic)
    requires
        vm.wf(),
        vgic_config_ok(gic.max_irqs, vm.cpu_num),
    ensures
        vgic_init_next(vm, dscr, gic).wf(),
        vgic_init_next(vm, dscr, gic).vgicd.interrupts.len() == gic.max_irqs,
{
}

} // verus!
