//! A virtual machine, as far as its interrupt controller is concerned.

use vstd::prelude::*;
use crate::arch::aarch64::gic::lemmas::lemma_emul_keeps_wf;
use crate::arch::aarch64::gic::vgic::vgicd_emul_answer;
use crate::arch::aarch64::gic::vgic::vgicd_emul_handler;
use crate::arch::aarch64::gic::vgic::vgicd_emul_next;
use crate::arch::aarch64::gic::vgic::VGicD;
use crate::arch::aarch64::gic::vgic::VGicDView;
use crate::arch::aarch64::gic::vgic::VGicError;
use crate::arch::aarch64::gic::vgicv3::VGicPriv;
use crate::arch::aarch64::gic::vgicv3::VGicPrivView;
use crate::arch::aarch64::gic::vgicv3::vgicr_emul_answer;
use crate::arch::aarch64::gic::vgicv3::vgicr_emul_handler;
use crate::arch::aarch64::gic::vgicv3::vgicr_emul_next;
use crate::arch::aarch64::gic::vgicv3::vgicr_get_id_spec;
use crate::arch::aarch64::gic::vgicv3::vgicr_get_id;
use crate::baocore::emul::EmulAccess;
use crate::baocore::emul::EmulHandler;
use crate::baocore::emul::EmulMem;
use crate::baocore::emul::EmulResult;
use crate::baocore::types::Vaddr;

verus! {

/// What a virtual CPU holds, without the locks.
pub struct VCpuView {
    pub id: u64,
    pub vgic_priv: VGicPrivView,
}

/// A virtual CPU.
pub struct VCpu {
    /// Index of the CPU in its machine.
    pub id: u64,
    /// The CPU's redistributor and private interrupts.
    pub vgic_priv: VGicPriv,
}

impl VCpu {
    /// What the CPU holds, without the locks.
    pub open spec fn view(&self) -> VCpuView {
        VCpuView { id: self.id, vgic_priv: self.vgic_priv@ }
    }

    /// Virtual CPU number `id`, with its redistributor and its private
    /// interrupts in their reset state.
    pub fn new(id: u64) -> (vcpu: VCpu)
        ensures
            vcpu@ == (VCpuView { id, vgic_priv: VGicPrivView::reset() }),
    {
        VCpu { id, vgic_priv: VGicPriv::new() }
    }
}

/// The views of a row of virtual CPUs.
pub open spec fn vcpus_view(vcpus: Seq<VCpu>) -> Seq<VCpuView> {
    Seq::new(vcpus.len(), |i: int| vcpus[i]@)
}

/// What a virtual machine holds, without the locks.
pub struct VMView {
    pub cpu_num: u64,
    pub vgicr_addr: Vaddr,
    pub vgicd: VGicDView,
    pub vcpus: Seq<VCpuView>,
    pub emul_mems: Seq<EmulMem>,
}

/// A virtual machine.
pub struct VM {
    /// How many virtual CPUs the machine is configured with.
    pub cpu_num: u64,
    /// Base address of the first redistributor's window.
    pub vgicr_addr: Vaddr,
    /// The distributor, shared by all CPUs.
    pub vgicd: VGicD,
    /// The virtual CPUs, each at the index of its id.
    pub vcpus: Vec<VCpu>,
    /// The regions whose accesses are emulated, in the order in which they
    /// were registered.
    pub emul_mems: Vec<EmulMem>,
}

impl VMView {
    /// Whether `addr` belongs to the redistributor of one of the machine's
    /// CPUs.
    pub open spec fn in_vgicr_window(self, addr: Vaddr) -> bool {
        self.vgicr_addr <= addr && vgicr_get_id_spec(addr, self.vgicr_addr) < self.vcpus.len()
    }

    /// Whether the machine has the CPUs it is configured with, each with its
    /// 32 private interrupts, and a distributor with one record per line.
    pub open spec fn wf(self) -> bool {
        &&& self.vcpus.len() == self.cpu_num
        &&& forall|i: int|
            0 <= i < self.vcpus.len() ==> (#[trigger] self.vcpus[i]).id == i
                && self.vcpus[i].vgic_priv.wf()
        &&& self.vgicd.wf()
    }
}

impl VM {
    /// What the machine holds, without the locks.
    pub open spec fn view(&self) -> VMView {
        VMView {
            cpu_num: self.cpu_num,
            vgicr_addr: self.vgicr_addr,
            vgicd: self.vgicd@,
            vcpus: vcpus_view(self.vcpus@),
            emul_mems: self.emul_mems@,
        }
    }
}

/// The row of `n` virtual CPUs in their reset state, with the ids from 0 up.
pub open spec fn reset_vcpus(n: int) -> Seq<VCpuView> {
    Seq::new(n as nat, |i: int| VCpuView { id: i as u64, vgic_priv: VGicPrivView::reset() })
}

impl VM {
    /// A machine with `cpu_num` virtual CPUs in their reset state, a
    /// distributor without lines, and no emulated region.
    pub fn new(cpu_num: u64) -> (vm: VM)
        ensures
            vm@ == (VMView {
                cpu_num,
                vgicr_addr: 0,
                vgicd: VGicDView { int_num: 0, typer: 0, interrupts: Seq::empty() },
                vcpus: reset_vcpus(cpu_num as int),
                emul_mems: Seq::empty(),
            }),
            vm@.wf(),
    {
        let mut vcpus: Vec<VCpu> = Vec::new();
        let mut id: u64 = 0;
        while id < cpu_num
            invariant
                id <= cpu_num,
                vcpus@.len() == id,
                vcpus_view(vcpus@) =~= reset_vcpus(id as int),
            decreases cpu_num - id,
        {
            let ghost row = vcpus@;
            vcpus.push(VCpu::new(id));
            assert forall|j: int| 0 <= j <= id implies #[trigger] vcpus_view(vcpus@)[j]
                == reset_vcpus(id + 1)[j] by {
                if j < id {
                    assert(vcpus_view(row)[j] == reset_vcpus(id as int)[j]);
                }
            }
            id += 1;
        }
        VM { cpu_num, vgicr_addr: 0, vgicd: VGicD::new(), vcpus, emul_mems: Vec::new() }
    }

    /// Registers a region whose accesses are emulated, behind those that are
    /// registered already.
    pub fn emul_add_mem(&mut self, emul: EmulMem)
        ensures
            final(self)@ == (VMView { emul_mems: old(self)@.emul_mems.push(emul), ..old(self)@ }),
            old(self)@.wf() ==> final(self)@.wf(),
    {
        self.emul_mems.push(emul);
    }
}

/// Whether region `i` of `mems` is the first that `addr` lies in.
pub open spec fn is_first_emul_mem(mems: Seq<EmulMem>, addr: Vaddr, i: int) -> bool {
    &&& 0 <= i < mems.len()
    &&& mems[i].contains_spec(addr)
    &&& forall|j: int| 0 <= j < i ==> !(#[trigger] mems[j]).contains_spec(addr)
}

/// The region that takes an access to `addr`: of those that `addr` lies in,
/// the one that was registered first.
pub open spec fn emul_get_mem_spec(mems: Seq<EmulMem>, addr: Vaddr) -> Option<EmulMem> {
    if exists|i: int| is_first_emul_mem(mems, addr, i) {
        Some(mems[choose|i: int| is_first_emul_mem(mems, addr, i)])
    } else {
        None
    }
}

/// What the machine's answer to a trapped access is, given what the handler
/// of the region answered: the handler's value with the mark that the access
/// was handled, or the handler's error.
pub open spec fn emul_handled(r: Result<EmulResult, VGicError>) -> Result<u64, VGicError> {
    match r {
        Ok(res) => Ok(res.value),
        Err(e) => Err(e),
    }
}

/// The machine after it emulated `acc`: the handler of the region that takes
/// the address did its work; where no region takes it, or the region is the
/// redistributors' and the address belongs to no CPU's redistributor,
/// nothing changed.
pub open spec fn emul_next(vm: VMView, acc: EmulAccess) -> VMView {
    match emul_get_mem_spec(vm.emul_mems, acc.addr) {
        Some(mem) => match mem.handler {
            EmulHandler::VGicD => vgicd_emul_next(vm, acc),
            EmulHandler::VGicR => if vm.in_vgicr_window(acc.addr) {
                vgicr_emul_next(vm, acc)
            } else {
                vm
            },
        },
        None => vm,
    }
}

/// Whether `r` is the machine's answer to `acc`: what the handler of the
/// region that takes the address answers, marked as handled; where no region
/// takes it, or the region is the redistributors' and the address belongs to
/// no CPU's redistributor, the answer that nobody handled the access.
pub open spec fn emul_answer(
    r: Result<EmulResult, VGicError>,
    vm: VMView,
    acc: EmulAccess,
) -> bool {
    let unhandled = Ok::<EmulResult, VGicError>(EmulResult { handled: false, value: 0 });
    match emul_get_mem_spec(vm.emul_mems, acc.addr) {
        Some(mem) => match mem.handler {
            EmulHandler::VGicD => (r matches Ok(res) ==> res.handled) && vgicd_emul_answer(
                emul_handled(r),
                vm,
                acc,
            ),
            EmulHandler::VGicR => if vm.in_vgicr_window(acc.addr) {
                (r matches Ok(res) ==> res.handled) && vgicr_emul_answer(emul_handled(r), vm, acc)
            } else {
                r == unhandled
            },
        },
        None => r == unhandled,
    }
}

impl VM {
    /// Finds the region that takes an access to `addr`.
    pub fn emul_get_mem(&self, addr: Vaddr) -> (mem: Option<EmulMem>)
        ensures
            mem == emul_get_mem_spec(self@.emul_mems, addr),
    {
        let mut i: usize = 0;
        while i < self.emul_mems.len()
            invariant
                i <= self.emul_mems@.len(),
                forall|j: int| 0 <= j < i ==> !(#[trigger] self.emul_mems@[j]).contains_spec(addr),
            decreases self.emul_mems@.len() - i,
        {
            if self.emul_mems[i].contains(addr) {
                assert(is_first_emul_mem(self@.emul_mems, addr, i as int));
                return Some(self.emul_mems[i]);
            }
            i += 1;
        }
        None
    }

    /// Whether `addr` belongs to the redistributor of one of the CPUs.
    pub fn in_vgicr_window(&self, addr: Vaddr) -> (b: bool)
        ensures
            b == self@.in_vgicr_window(addr),
    {
        if addr < self.vgicr_addr {
            return false;
        }
        let acc = EmulAccess { addr, width: 0, write: false, value: 0 };
        vgicr_get_id(&acc, self.vgicr_addr) < self.vcpus.len() as u64
    }

    /// Emulates a trapped guest access.
    ///
    /// The first registered region that holds the address decides who
    /// emulates the access: the distributor or the redistributors.  The
    /// answer says whether anybody did, and what a load reads.
    pub fn emul_handler(&mut self, acc: &EmulAccess) -> (r: Result<EmulResult, VGicError>)
        ensures
            final(self)@ == emul_next(old(self)@, *acc),
            emul_answer(r, old(self)@, *acc),
            r is Err ==> final(self)@ == old(self)@,
            old(self)@.wf() ==> final(self)@.wf(),
    {
        proof {
            if self@.wf() {
                lemma_emul_keeps_wf(self@, *acc);
            }
        }
        let unhandled = EmulResult { handled: false, value: 0 };
        let answer = match self.emul_get_mem(acc.addr) {
            Some(mem) => match mem.handler {
                EmulHandler::VGicD => vgicd_emul_handler(self, acc),
                EmulHandler::VGicR => {
                    if !self.in_vgicr_window(acc.addr) {
                        return Ok(unhandled);
                    }
                    vgicr_emul_handler(self, acc)
                },
            },
            None => {
                return Ok(unhandled);
            },
        };
        match answer {
            Ok(value) => Ok(EmulResult { handled: true, value }),
            Err(e) => Err(e),
        }
    }
}

} // verus!
