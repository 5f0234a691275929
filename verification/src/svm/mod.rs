//! The AMD-V (SVM) backend of a single virtual CPU.
//!
//! The structural counterpart of the [`vmx`](crate::vmx) module. Where VT-x has a
//! VMXON region, a VMCS and Extended Page Tables, AMD-V has a host-save area, a
//! Virtual Machine Control Block ([`Vmcb`]) and Nested Page Tables
//! ([`Npt`](npt::Npt)).
//!
//! Entering the guest takes the processor's own instructions, which are the
//! embedder's part. It calls [`SvmCpu::enter`], carries out what that asks for and
//! executes the `VMRUN`, and calls [`SvmCpu::leave`] with the control block, the
//! general-purpose registers and the FP state as the processor left them.

pub mod exitcode;
pub mod laws;
pub mod npt;
pub mod vmcb;

use vstd::prelude::*;

use crate::apic;
use crate::apic::{
    ApicTimer, IA32_TSC_DEADLINE, IA32_X2APIC_INIT_COUNT, IA32_X2APIC_LVT_TIMER, LVT_MASKED,
    LVT_TIMER_MODE_MASK, LVT_TIMER_MODE_PERIODIC, LVT_TIMER_MODE_TSC_DEADLINE,
};
use crate::backend::{ExitReason, VcpuBackend};
use crate::bytes;
use crate::error::HypervisorError;
use crate::fpu::FpuState;
use crate::host::{host_physical, HostMemory, HostMemoryCell};
use crate::paging;
use crate::paging::{Area, PagePool};
use crate::svm::vmcb::Vmcb;
use crate::vmx::run;
use crate::vmx::run::GuestRegisters;

verus! {

/// IA32_EFER model-specific register.
pub const IA32_EFER: u32 = 0xC000_0080;

/// VM_HSAVE_PA: physical address of the area `VMRUN` saves host state to.
pub const VM_HSAVE_PA: u32 = 0xC001_0117;

/// IA32_FS_BASE model-specific register.
pub const IA32_FS_BASE: u32 = 0xC000_0100;

/// IA32_GS_BASE model-specific register.
pub const IA32_GS_BASE: u32 = 0xC000_0101;

/// `RFLAGS.IF`: the guest accepts interrupts.
pub const RFLAGS_IF: u64 = 0x200;

/// The valid bit of an injected event; an external interrupt has type zero, so the
/// vector is all there is to add.
pub const EVENT_VALID: u64 = 0x8000_0000;

/// What the processor answers to CPUID.
#[derive(Debug, Clone, Copy, PartialEq, Eq)]
pub struct CpuidAnswer {
    pub eax: u32,
    pub ebx: u32,
    pub ecx: u32,
    pub edx: u32,
}

/// A 4 KiB permission bitmap (the I/O- or MSR-permission map).
///
/// Both maps are kept to a single page filled with `1` bits, intercepting every
/// port / MSR whose control bit lies in the first 4 KiB block. That covers all of
/// the standard I/O ports (`0x0000..0x7FFF`) and the standard plus `0xC000_xxxx`
/// MSR ranges, i.e. everything a booting kernel touches. (The architecture permits
/// the maps to span 12 KiB / 8 KiB; the remaining high ports / AMD MSRs are not
/// intercepted, matching what the guest never uses.)
pub struct Bitmap {
    vaddr: u64,
    data: [u8; 4096],
}

impl Bitmap {
    /// The host-virtual address of the page the bitmap belongs in.
    pub closed spec fn address(&self) -> u64 {
        self.vaddr
    }

    /// The bytes of the bitmap.
    pub closed spec fn bits(&self) -> Seq<u8> {
        self.data@
    }

    /// A bitmap for the page at `vaddr` with every bit set.
    fn all_ones(vaddr: u64) -> (bitmap: Self)
        ensures
            bitmap.address() == vaddr,
            bitmap.bits() == Seq::new(4096, |i: int| 0xFFu8),
    {
        let bitmap = Bitmap { vaddr, data: [0xFFu8; 4096] };
        assert(bitmap.bits() =~= Seq::new(4096, |i: int| 0xFFu8));
        bitmap
    }

    fn host_physical<H: HostMemory>(&self, host: &HostMemoryCell<H>) -> (hpa: Result<
        u64,
        HypervisorError,
    >)
        requires
            host.registered() is Some,
        ensures
            hpa == (match host.translates(self.address()) {
                Some(address) => Ok::<u64, HypervisorError>(address),
                None => Err(HypervisorError::AllocationFailed),
            }),
    {
        host_physical(host, self.vaddr)
    }

    /// The host-virtual address of the page the bitmap belongs in.
    pub fn page(&self) -> (vaddr: u64)
        ensures
            vaddr == self.address(),
    {
        self.vaddr
    }

    /// The byte at `offset`, for copying the bitmap to its page.
    pub fn byte(&self, offset: usize) -> (value: u8)
        requires
            offset < 4096,
        ensures
            value == self.bits()[offset as int],
    {
        self.data[offset]
    }
}

/// The areas the processor works on while it runs a vCPU.
#[derive(Debug, Clone, Copy, PartialEq, Eq)]
pub struct SvmAreas {
    /// The guest VMCB.
    pub vmcb: Area,
    /// A scratch VMCB the trampoline saves the host's hidden segment state into, so
    /// it can be restored after the guest runs.
    pub host_vmcb: Area,
    /// The area `VMRUN` saves the host's core register state to (`VM_HSAVE_PA`).
    pub host_save: Area,
}

/// The vCPU as the backend's steps change it.
#[verifier::ext_equal]
pub struct SvmState {
    /// The guest VMCB.
    pub vmcb: Seq<u8>,
    /// The guest's registers.
    pub regs: GuestRegisters,
    /// The emulated local-APIC timer.
    pub timer: ApicTimer,
    /// The interrupt vector waiting to be injected, if any.
    pub pending: Option<u8>,
}

/// The 64-bit field of a control block at `offset`.
pub open spec fn vmcb_value(memory: Seq<u8>, offset: usize) -> u64 {
    bytes::field(memory, offset as int, 8) as u64
}

impl SvmState {
    /// What a read of the model-specific register `index` gives the guest. Only the
    /// segment bases, EFER (without `SVME`, which is the host's business) and the
    /// armed timer deadline are kept; every other register reads as zero.
    pub open spec fn msr(self, index: u32) -> u64 {
        if index == IA32_FS_BASE {
            vmcb_value(self.vmcb, vmcb::FS_BASE)
        } else if index == IA32_GS_BASE {
            vmcb_value(self.vmcb, vmcb::GS_BASE)
        } else if index == IA32_EFER {
            vmcb_value(self.vmcb, vmcb::EFER) & !vmcb::EFER_SVME
        } else if index == IA32_TSC_DEADLINE {
            match self.timer.deadline {
                Some(deadline) => deadline,
                None => 0,
            }
        } else {
            0
        }
    }

    /// The vCPU after the guest has written a model-specific register at time `tsc`.
    /// `EFER.SVME` stays set whatever the guest writes; writes to registers that are
    /// not kept are ignored.
    pub open spec fn after_msr_write(self, index: u32, value: u64, tsc: u64) -> SvmState {
        if index == IA32_FS_BASE {
            SvmState { vmcb: vmcb::with_value(self.vmcb, vmcb::FS_BASE, value), ..self }
        } else if index == IA32_GS_BASE {
            SvmState { vmcb: vmcb::with_value(self.vmcb, vmcb::GS_BASE, value), ..self }
        } else if index == IA32_EFER {
            SvmState {
                vmcb: vmcb::with_value(self.vmcb, vmcb::EFER, value | vmcb::EFER_SVME),
                ..self
            }
        } else {
            SvmState { timer: self.timer.after_write(index, value, tsc), ..self }
        }
    }

    /// The vCPU after its timer has been looked at: a due timer fires, and unless it
    /// is masked its vector becomes pending.
    pub open spec fn serviced(self, tsc: u64) -> SvmState {
        if self.timer.due(tsc) {
            SvmState {
                timer: self.timer.fired(),
                pending: if self.timer.masked {
                    self.pending
                } else {
                    Some(self.timer.vector)
                },
                ..self
            }
        } else {
            self
        }
    }

    /// Whether the guest can take an interrupt: its flags allow it and it is not in
    /// the shadow of an instruction that defers interrupts.
    pub open spec fn interruptible(self) -> bool {
        self.regs.rflags & RFLAGS_IF != 0 && vmcb_value(self.vmcb, vmcb::INT_STATE) & 1 == 0
    }

    /// The vCPU after a pending vector has been handed to the processor, if the
    /// guest can take it. The injection field is written either way, so no earlier
    /// event is delivered again.
    pub open spec fn injected(self) -> SvmState {
        if self.pending is Some && self.interruptible() {
            SvmState {
                vmcb: vmcb::with_value(
                    self.vmcb,
                    vmcb::EVENTINJ,
                    EVENT_VALID | (self.pending->0 as u64),
                ),
                pending: None,
                ..self
            }
        } else {
            SvmState { vmcb: vmcb::with_value(self.vmcb, vmcb::EVENTINJ, 0), ..self }
        }
    }

    /// The vCPU with RAX, RIP, RSP and RFLAGS copied to the control block.
    pub open spec fn mirrored(self) -> SvmState {
        let rax = vmcb::with_value(self.vmcb, vmcb::RAX, self.regs.rax);
        let rip = vmcb::with_value(rax, vmcb::RIP, self.regs.rip);
        let rsp = vmcb::with_value(rip, vmcb::RSP, self.regs.rsp);
        SvmState { vmcb: vmcb::with_value(rsp, vmcb::RFLAGS, self.regs.rflags), ..self }
    }

    /// The vCPU with RAX, RIP, RSP and RFLAGS copied from the control block.
    pub open spec fn refreshed(self) -> SvmState {
        SvmState {
            regs: GuestRegisters {
                rax: vmcb_value(self.vmcb, vmcb::RAX),
                rip: vmcb_value(self.vmcb, vmcb::RIP),
                rsp: vmcb_value(self.vmcb, vmcb::RSP),
                rflags: vmcb_value(self.vmcb, vmcb::RFLAGS),
                ..self.regs
            },
            ..self
        }
    }

    /// The vCPU after an instruction of `length` bytes has been dealt with.
    pub open spec fn advanced(self, length: int) -> SvmState {
        SvmState { regs: self.regs.advanced(length), ..self }
    }

    /// The vCPU after CPUID has been answered.
    pub open spec fn answered(self, answer: CpuidAnswer) -> SvmState {
        SvmState {
            regs: GuestRegisters {
                rax: answer.eax as u64,
                rbx: answer.ebx as u64,
                rcx: answer.ecx as u64,
                rdx: answer.edx as u64,
                ..self.regs
            },
            ..self
        }.advanced(2)
    }

    /// The vCPU after RDMSR or WRMSR: bit 0 of the first exit-information field tells
    /// which, RCX names the register, and EDX:EAX is the value.
    pub open spec fn after_msr_exit(self, tsc: u64) -> SvmState {
        let index = self.regs.rcx as u32;
        if vmcb_value(self.vmcb, vmcb::EXITINFO1) & 1 != 0 {
            self.after_msr_write(index, edx_eax(self.regs), tsc).advanced(2)
        } else {
            SvmState {
                regs: GuestRegisters {
                    rax: self.msr(index) & 0xffff_ffff,
                    rdx: self.msr(index) >> 32,
                    ..self.regs
                },
                ..self
            }.advanced(2)
        }
    }
}

impl SvmState {
    /// How an exit is dealt with, once the registers have been copied from the control
    /// block: what the caller is told, and the vCPU then.
    ///
    /// CPUID is left to the caller, with the leaf in EAX and the sub-leaf in ECX.
    /// PAUSE and the emulated instructions are stepped over by their length. A port
    /// access resumes where the processor says the next instruction is. A physical
    /// interrupt resumes where it interrupted. Shutdown ends the run, a block the
    /// processor rejects is a failed entry, and anything else is not known.
    pub open spec fn decoded(self, tsc: u64) -> (Result<SvmExit, HypervisorError>, SvmState) {
        let code = vmcb_value(self.vmcb, vmcb::EXITCODE);
        let resume = Ok::<SvmExit, HypervisorError>(SvmExit::Reason(ExitReason::Success));
        if code == exitcode::INTR {
            (resume, self)
        } else if code == exitcode::PAUSE {
            (resume, self.advanced(2))
        } else if code == exitcode::HLT {
            (resume, self.advanced(1))
        } else if code == exitcode::CPUID {
            (
                Ok(
                    SvmExit::Cpuid {
                        leaf: self.regs.rax as u32,
                        sub_leaf: self.regs.rcx as u32,
                    },
                ),
                self,
            )
        } else if code == exitcode::MSR {
            (resume, self.after_msr_exit(tsc))
        } else if code == exitcode::XSETBV {
            (
                Ok(SvmExit::Xsetbv { index: self.regs.rcx as u32, value: edx_eax(self.regs) }),
                self.advanced(3),
            )
        } else if code == exitcode::IOIO {
            (
                Ok(
                    SvmExit::Reason(
                        ExitReason::IoInstruction(
                            io_qualification(vmcb_value(self.vmcb, vmcb::EXITINFO1)),
                        ),
                    ),
                ),
                SvmState {
                    regs: GuestRegisters {
                        rip: vmcb_value(self.vmcb, vmcb::EXITINFO2),
                        ..self.regs
                    },
                    ..self
                },
            )
        } else if code == exitcode::SHUTDOWN {
            (Ok(SvmExit::Reason(ExitReason::Shutdown)), self)
        } else if code == exitcode::INVALID {
            (Err(HypervisorError::VMEntryFailed(0)), self)
        } else {
            (Err(HypervisorError::UnknownVMExitReason), self)
        }
    }
}

/// The 64-bit value in EDX:EAX.
pub open spec fn edx_eax(regs: GuestRegisters) -> u64 {
    (regs.rdx << 32) | (regs.rax & 0xffff_ffff)
}

/// The exit qualification of a port access: the port in bits 31:16, bit 3 set for a
/// read. It is made from the first exit-information field, which has the port in the
/// same place and the direction in bit 0.
pub open spec fn io_qualification(info1: u64) -> u64 {
    (((info1 >> 16) & 0xFFFF) << 16) | ((info1 & 1) << 3)
}

/// The write to `IA32_EFER` that enables SVM on a core whose register reads `efer`, if
/// it takes one.
pub open spec fn efer_write(efer: u64) -> Option<u64> {
    if efer & vmcb::EFER_SVME == 0 {
        Some(efer | vmcb::EFER_SVME)
    } else {
        None
    }
}

/// What [`SvmCpu::setup_svm`] asks of the embedder.
#[derive(Debug, Clone, Copy, PartialEq, Eq)]
pub struct SvmSetup {
    /// The value to write to `IA32_EFER`, if it has to change.
    pub efer: Option<u64>,
    /// The value to write to `VM_HSAVE_PA`.
    pub host_save_pa: u64,
}

/// How a `#VMEXIT` has been dealt with.
#[derive(Debug, Clone, Copy, PartialEq, Eq)]
pub enum SvmExit {
    /// The exit is decoded; the caller goes on as the reason says.
    Reason(ExitReason),
    /// The embedder executes CPUID with this leaf and sub-leaf on behalf of the guest and
    /// hands the answer to [`SvmCpu::complete_cpuid`], after which the guest is resumed.
    Cpuid { leaf: u32, sub_leaf: u32 },
    /// The embedder executes `XSETBV` on behalf of the guest, which is then resumed.
    Xsetbv { index: u32, value: u64 },
}

/// The AMD-V backend of a single virtual CPU.
///
/// Holds the per-CPU SVM state. The Nested Page Tables are *not* owned here: they
/// belong to the virtual machine and are shared between all of its vCPUs, which only
/// need the nested CR3 (a physical address) passed at construction.
pub struct SvmCpu {
    vmcb: Vmcb,
    areas: SvmAreas,
    /// I/O-permission map referenced by the VMCB control area.
    iopm: Bitmap,
    /// MSR-permission map referenced by the VMCB control area.
    msrpm: Bitmap,
    regs: GuestRegisters,
    apic_timer: ApicTimer,
    pending_vector: Option<u8>,
    /// The guest's extended FP state, preserved across runs.
    guest_fpu: FpuState,
    /// Scratch area holding the host's FP state while the guest runs.
    host_fpu: FpuState,
}

impl View for SvmCpu {
    type V = SvmState;

    closed spec fn view(&self) -> SvmState {
        SvmState {
            vmcb: self.vmcb@,
            regs: self.regs,
            timer: self.apic_timer,
            pending: self.pending_vector,
        }
    }
}

/// What of a vCPU its steps do not change.
pub struct SvmFrame {
    pub areas: SvmAreas,
    pub iopm: Bitmap,
    pub msrpm: Bitmap,
    pub guest_fpu: FpuState,
    pub host_fpu: FpuState,
}

/// The extended FP states that a vCPU keeps: the guest's between its runs, and the
/// host's while the guest runs.
#[verifier::ext_equal]
pub struct FpAreas {
    pub guest: Seq<u8>,
    pub host: Seq<u8>,
}

impl FpAreas {
    /// The areas after the guest has been entered from a host whose FP state was `live`.
    pub open spec fn entered(self, live: Seq<u8>) -> FpAreas {
        FpAreas { host: live, ..self }
    }

    /// The areas after the guest has been left with the FP state `live`.
    pub open spec fn left(self, live: Seq<u8>) -> FpAreas {
        FpAreas { guest: live, ..self }
    }
}

impl SvmFrame {
    /// The extended FP states.
    pub open spec fn fp(self) -> FpAreas {
        FpAreas { guest: self.guest_fpu@, host: self.host_fpu@ }
    }
}

/// What it takes to enter the guest.
pub struct SvmEntry {
    /// What enables SVM operation on the core.
    pub setup: SvmSetup,
    /// The guest's general-purpose registers.
    pub regs: GuestRegisters,
    /// Host-physical address of the guest VMCB.
    pub vmcb_pa: u64,
    /// Host-physical address of the scratch VMCB.
    pub host_vmcb_pa: u64,
    /// The guest's extended FP state.
    pub fpu: [u8; 4096],
}

/// What a run comes to.
pub struct SvmLeft {
    /// How the `#VMEXIT` has been dealt with.
    pub exit: Result<SvmExit, HypervisorError>,
    /// The host's extended FP state.
    pub fpu: [u8; 4096],
}

/// Whether the pool and the host's translation have what a vCPU needs: five pages
/// with host-physical addresses.
pub open spec fn can_create<H: HostMemory>(host: HostMemoryCell<H>, pool: Seq<u64>) -> bool {
    &&& pool.len() >= 5
    &&& forall|k: int|
        0 <= k < 5 ==> (#[trigger] host.translates(paging::pool_page(pool, k))) is Some
}

impl SvmCpu {
    /// What the steps leave as it is.
    pub closed spec fn frame(&self) -> SvmFrame {
        SvmFrame {
            areas: self.areas,
            iopm: self.iopm,
            msrpm: self.msrpm,
            guest_fpu: self.guest_fpu,
            host_fpu: self.host_fpu,
        }
    }

    /// Creates the AMD-V backend of a vCPU. It is ready to run once the embedder has
    /// carried out [`SvmCpu::setup_svm`].
    ///
    /// `ncr3` is the VM-wide nested CR3, `cpu_id` becomes the guest's RSI (CPU id)
    /// and `entry_point`/`guest_rsp` its initial RIP/RSP. The boot-info pointer is
    /// passed to the guest in RDI, following the hermit kernel's entry convention.
    /// AMD-V has no APIC-access-page mechanism, so `_apic_access_hpa` is unused (the
    /// local-APIC MMIO is backed as plain memory through the NPT); it is accepted
    /// only to share a signature with the VT-x backend.
    pub fn new<H: HostMemory>(
        host: &HostMemoryCell<H>,
        pool: &mut PagePool,
        ncr3: u64,
        _apic_access_hpa: u64,
        cpu_id: u64,
        entry_point: u64,
        guest_rsp: u64,
    ) -> (cpu: Result<Self, HypervisorError>)
        requires
            host.registered() is Some,
        ensures
            can_create(*host, old(pool)@) ==> {
                &&& cpu matches Ok(c) && {
                    let (iopm, msrpm) = (paging::area(*host, old(pool)@, 3), paging::area(*host, old(pool)@, 4));
                    &&& vmcb::boot_block(
                        c@.vmcb,
                        ncr3,
                        iopm.hpa,
                        msrpm.hpa,
                        entry_point,
                        guest_rsp,
                    )
                    &&& c@.regs == run::boot_registers(cpu_id, entry_point, guest_rsp)
                    &&& c@.timer == apic::idle_timer()
                    &&& c@.pending is None
                    &&& c.frame().areas == (SvmAreas {
                        vmcb: paging::area(*host, old(pool)@, 0),
                        host_vmcb: paging::area(*host, old(pool)@, 1),
                        host_save: paging::area(*host, old(pool)@, 2),
                    })
                    &&& c.frame().iopm.address() == iopm.vaddr
                    &&& c.frame().iopm.bits() == Seq::new(4096, |i: int| 0xFFu8)
                    &&& c.frame().msrpm.address() == msrpm.vaddr
                    &&& c.frame().msrpm.bits() == Seq::new(4096, |i: int| 0xFFu8)
                    &&& c.frame().guest_fpu@ == crate::fpu::initial_state()
                    &&& c.frame().host_fpu@ == Seq::new(4096, |i: int| 0u8)
                }
                &&& final(pool)@ == old(pool)@.take(old(pool)@.len() - 5)
            },
            !can_create(*host, old(pool)@) ==> {
                &&& cpu matches Err(e) && e == HypervisorError::AllocationFailed
                &&& final(pool)@ == old(pool)@
            },
    {
        if pool.len() < 5 {
            return Err(HypervisorError::AllocationFailed);
        }
        let regs = GuestRegisters::boot(cpu_id, entry_point, guest_rsp);
        let mut vmcb = Vmcb::zeroed();
        let iopm = Bitmap::all_ones(pool.peek(3));
        let msrpm = Bitmap::all_ones(pool.peek(4));
        let vmcb_page = pool.peek(0);
        let host_vmcb_page = pool.peek(1);
        let host_save_page = pool.peek(2);
        let vmcb_pa = match host_physical(host, vmcb_page) {
            Ok(hpa) => hpa,
            Err(error) => return Err(error),
        };
        let host_vmcb_pa = match host_physical(host, host_vmcb_page) {
            Ok(hpa) => hpa,
            Err(error) => return Err(error),
        };
        let host_save_pa = match host_physical(host, host_save_page) {
            Ok(hpa) => hpa,
            Err(error) => return Err(error),
        };
        let iopm_pa = match iopm.host_physical(host) {
            Ok(hpa) => hpa,
            Err(error) => return Err(error),
        };
        let msrpm_pa = match msrpm.host_physical(host) {
            Ok(hpa) => hpa,
            Err(error) => return Err(error),
        };
        vmcb.setup_control(ncr3, iopm_pa, msrpm_pa);
        vmcb.setup_guest(entry_point, guest_rsp);
        proof {
            vmcb.lemma_len();
        }
        pool.advance(5);
        Ok(
            SvmCpu {
                vmcb,
                areas: SvmAreas {
                    vmcb: Area { vaddr: vmcb_page, hpa: vmcb_pa },
                    host_vmcb: Area { vaddr: host_vmcb_page, hpa: host_vmcb_pa },
                    host_save: Area { vaddr: host_save_page, hpa: host_save_pa },
                },
                iopm,
                msrpm,
                regs,
                apic_timer: ApicTimer::default(),
                pending_vector: None,
                guest_fpu: FpuState::init_guest(),
                host_fpu: FpuState::scratch(),
            },
        )
    }

    /// Decides what it takes to enable SVM operation on the current physical core,
    /// whose `IA32_EFER` reads `efer`: `EFER.SVME` is set if it is not, and
    /// `VM_HSAVE_PA` points at this vCPU's host-save area.
    ///
    /// Enabling is per physical core and idempotent; as several vCPUs may share a
    /// core it is refreshed before each run.
    pub fn setup_svm(&self, efer: u64) -> (setup: SvmSetup)
        ensures
            setup.efer == efer_write(efer),
            setup.host_save_pa == self.frame().areas.host_save.hpa,
    {
        let enabled = if efer & vmcb::EFER_SVME == 0 {
            Some(efer | vmcb::EFER_SVME)
        } else {
            None
        };
        SvmSetup { efer: enabled, host_save_pa: self.areas.host_save.hpa }
    }

    /// Emulates an MSR-read intercept by reflecting the guest's own VMCB-resident
    /// MSR state. Unknown MSRs read as zero, matching the VT-x backend.
    pub fn read_msr(&self, index: u32) -> (value: u64)
        ensures
            value == self@.msr(index),
    {
        if index == IA32_FS_BASE {
            self.vmcb.read_u64(vmcb::FS_BASE)
        } else if index == IA32_GS_BASE {
            self.vmcb.read_u64(vmcb::GS_BASE)
        } else if index == IA32_EFER {
            self.vmcb.read_u64(vmcb::EFER) & !vmcb::EFER_SVME
        } else if index == IA32_TSC_DEADLINE {
            // Mirror back the armed local-APIC timer deadline.
            match self.apic_timer.deadline {
                Some(deadline) => deadline,
                None => 0,
            }
        } else {
            0
        }
    }

    /// Writes a guest MSR back into the VMCB-resident state. Writes to unknown MSRs
    /// are ignored, matching the VT-x backend. `EFER.SVME` is kept set regardless,
    /// or the next `VMRUN` would fail its consistency check. `tsc` is the current
    /// value of the time-stamp counter.
    pub fn write_msr(&mut self, index: u32, value: u64, tsc: u64)
        ensures
            final(self)@ == old(self)@.after_msr_write(index, value, tsc),
            final(self).frame() == old(self).frame(),
    {
        if index == IA32_FS_BASE {
            self.vmcb.write_u64(vmcb::FS_BASE, value);
        } else if index == IA32_GS_BASE {
            self.vmcb.write_u64(vmcb::GS_BASE, value);
        } else if index == IA32_EFER {
            self.vmcb.write_u64(vmcb::EFER, value | vmcb::EFER_SVME);
        } else if index == IA32_X2APIC_LVT_TIMER || index == IA32_TSC_DEADLINE || index
            == IA32_X2APIC_INIT_COUNT {
            // Local-APIC timer programming (x2APIC): record it and let the run loop
            // inject the interrupt when the deadline elapses.
            self.write_apic_timer_msr(index, value, tsc);
        }
    }

    /// Records a guest write to a local-APIC timer MSR, updating the emulated timer
    /// and its host-TSC deadline. As no TSC offsetting is configured, the guest's
    /// RDTSC reads the host TSC, so a programmed TSC deadline is directly comparable
    /// to the host's counter.
    pub fn write_apic_timer_msr(&mut self, msr: u32, value: u64, tsc: u64)
        ensures
            final(self)@ == (SvmState {
                timer: old(self)@.timer.after_write(msr, value, tsc),
                ..old(self)@
            }),
            final(self).frame() == old(self).frame(),
    {
        if msr == IA32_X2APIC_LVT_TIMER {
            self.apic_timer.vector = (value & 0xff) as u8;
            self.apic_timer.masked = value & LVT_MASKED != 0;
            let mode = value & LVT_TIMER_MODE_MASK;
            self.apic_timer.tsc_deadline_mode = mode == LVT_TIMER_MODE_TSC_DEADLINE;
            self.apic_timer.periodic = mode == LVT_TIMER_MODE_PERIODIC;
            // Masking the timer disarms any pending deadline.
            if self.apic_timer.masked {
                self.apic_timer.deadline = None;
                self.apic_timer.period = None;
            }
        } else if msr == IA32_TSC_DEADLINE {
            // Absolute TSC deadline; writing 0 disarms the timer.
            self.apic_timer.deadline = if value != 0 && !self.apic_timer.masked {
                Some(value)
            } else {
                None
            };
            self.apic_timer.period = None;
        } else if msr == IA32_X2APIC_INIT_COUNT {
            // One-shot / periodic count mode. The APIC timer input frequency is not
            // recovered here; one count is taken as one TSC tick, which keeps the
            // interval in the right ballpark. Guests that support the TSC-deadline
            // timer (the common case) use the MSR above instead.
            if value == 0 || self.apic_timer.masked || self.apic_timer.tsc_deadline_mode {
                self.apic_timer.deadline = None;
                self.apic_timer.period = None;
            } else {
                self.apic_timer.deadline = Some(tsc.wrapping_add(value));
                self.apic_timer.period = if self.apic_timer.periodic {
                    Some(value)
                } else {
                    None
                };
            }
        }
    }

    /// Services the emulated APIC timer before a `VMRUN`: if its deadline has
    /// elapsed at time `tsc`, makes the timer vector pending and re-arms a periodic
    /// timer for the next period. Called on every entry, so a busy guest is polled
    /// through its natural exits and an idle one through the intercepted HLT exits.
    pub fn service_timer(&mut self, tsc: u64)
        ensures
            final(self)@ == old(self)@.serviced(tsc),
            final(self).frame() == old(self).frame(),
    {
        let deadline = match self.apic_timer.deadline {
            Some(deadline) => deadline,
            None => return,
        };
        if tsc < deadline {
            return;
        }
        self.apic_timer.deadline = None;
        if !self.apic_timer.masked {
            self.pending_vector = Some(self.apic_timer.vector);
        }
        if let Some(period) = self.apic_timer.period {
            self.apic_timer.deadline = Some(deadline.saturating_add(period));
        }
    }

    /// Injects a pending interrupt vector into the guest via the VMCB event-injection
    /// field, but only once the guest is interruptible: an injected event ignores
    /// `RFLAGS.IF`, so delivering it while interrupts are masked would violate the
    /// guest's expectations. While not interruptible the vector stays pending and is
    /// retried on the next entry. The field is rewritten every time (the processor
    /// does not clear it) so a stale event is never replayed.
    pub fn inject_pending(&mut self)
        ensures
            final(self)@ == old(self)@.injected(),
            final(self).frame() == old(self).frame(),
    {
        let interruptible = self.regs.rflags & RFLAGS_IF != 0 && self.vmcb.read_u64(vmcb::INT_STATE)
            & 1 == 0;
        match self.pending_vector {
            Some(vector) if interruptible => {
                let event = EVENT_VALID | vector as u64;
                self.vmcb.write_u64(vmcb::EVENTINJ, event);
                self.pending_vector = None;
            },
            _ => self.vmcb.write_u64(vmcb::EVENTINJ, 0),
        }
    }

    /// Prepares the vCPU for a `VMRUN` at time `tsc`: mirrors the cached RAX, RIP,
    /// RSP and RFLAGS into the control block so the guest continues where the
    /// previous exit left off, polls the emulated timer (AMD-V has no preemption
    /// timer) and injects an expired timer's interrupt once the guest can take it.
    pub fn begin_run(&mut self, tsc: u64)
        ensures
            final(self)@ == old(self)@.mirrored().serviced(tsc).injected(),
            final(self).frame() == old(self).frame(),
    {
        self.vmcb.write_u64(vmcb::RAX, self.regs.rax);
        self.vmcb.write_u64(vmcb::RIP, self.regs.rip);
        self.vmcb.write_u64(vmcb::RSP, self.regs.rsp);
        self.vmcb.write_u64(vmcb::RFLAGS, self.regs.rflags);
        self.service_timer(tsc);
        self.inject_pending();
    }

    /// Deals with the `#VMEXIT` that ended a `VMRUN`, once the control block and the
    /// general-purpose registers hold what the processor left: refreshes the cached
    /// RAX, RIP, RSP and RFLAGS and decodes the exit.
    ///
    /// CPUID and XSETBV are left to the embedder to execute on behalf of the guest.
    /// `tsc` is the current value of the time-stamp counter.
    pub fn finish_run(&mut self, tsc: u64) -> (exit: Result<SvmExit, HypervisorError>)
        ensures
            (exit, final(self)@) == old(self)@.refreshed().decoded(tsc),
            final(self).frame() == old(self).frame(),
    {
        self.regs.rax = self.vmcb.read_u64(vmcb::RAX);
        self.regs.rip = self.vmcb.read_u64(vmcb::RIP);
        self.regs.rsp = self.vmcb.read_u64(vmcb::RSP);
        self.regs.rflags = self.vmcb.read_u64(vmcb::RFLAGS);
        assert(self@ == old(self)@.refreshed());
        let code = self.vmcb.read_u64(vmcb::EXITCODE);
        if code == exitcode::INTR {
            // A physical interrupt exited the guest; the host has already serviced
            // it. It was asynchronous, so the guest resumes at the same RIP.
            Ok(SvmExit::Reason(ExitReason::Success))
        } else if code == exitcode::PAUSE {
            self.regs.advance(2);
            Ok(SvmExit::Reason(ExitReason::Success))
        } else if code == exitcode::HLT {
            // The guest halted waiting for an interrupt. Advance past the HLT (`F4`,
            // one byte) and resume: the emulated APIC timer is polled and injected
            // before the next entry, so an idle guest keeps making progress instead
            // of stalling for want of a timed exit.
            self.regs.advance(1);
            Ok(SvmExit::Reason(ExitReason::Success))
        } else if code == exitcode::CPUID {
            // `eax` selects the leaf, `ecx` the sub-leaf.
            Ok(SvmExit::Cpuid { leaf: self.regs.rax as u32, sub_leaf: self.regs.rcx as u32 })
        } else if code == exitcode::MSR {
            self.handle_msr(tsc);
            Ok(SvmExit::Reason(ExitReason::Success))
        } else if code == exitcode::XSETBV {
            // `ecx` selects the XCR, `edx:eax` is the value.
            let index = self.regs.rcx as u32;
            let value = (self.regs.rdx << 32) | (self.regs.rax & 0xffff_ffff);
            // XSETBV is a fixed three-byte instruction (`0F 01 D1`).
            self.regs.advance(3);
            Ok(SvmExit::Xsetbv { index, value })
        } else if code == exitcode::IOIO {
            // Repackage the access into the layout of the VT-x exit qualification,
            // so that both are decoded alike. EXITINFO2 holds the RIP of the
            // instruction following the I/O.
            let info1 = self.vmcb.read_u64(vmcb::EXITINFO1);
            let is_in = info1 & 1;
            let port = (info1 >> 16) & 0xFFFF;
            let qualification = (port << 16) | (is_in << 3);
            self.regs.rip = self.vmcb.read_u64(vmcb::EXITINFO2);
            Ok(SvmExit::Reason(ExitReason::IoInstruction(qualification)))
        } else if code == exitcode::SHUTDOWN {
            // A triple fault is used to shut the system down.
            Ok(SvmExit::Reason(ExitReason::Shutdown))
        } else if code == exitcode::INVALID {
            // A VMCB consistency check failed, so the guest never started.
            Err(HypervisorError::VMEntryFailed(0))
        } else {
            Err(HypervisorError::UnknownVMExitReason)
        }
    }

    /// Passes the answer to a CPUID back to the guest, verbatim, and steps over the
    /// (two-byte) instruction.
    pub fn complete_cpuid(&mut self, answer: CpuidAnswer)
        ensures
            final(self)@ == old(self)@.answered(answer),
            final(self).frame() == old(self).frame(),
    {
        self.regs.rax = answer.eax as u64;
        self.regs.rbx = answer.ebx as u64;
        self.regs.rcx = answer.ecx as u64;
        self.regs.rdx = answer.edx as u64;
        self.regs.advance(2);
    }

    /// Emulates RDMSR or WRMSR and steps over the (two-byte) instruction.
    fn handle_msr(&mut self, tsc: u64)
        ensures
            final(self)@ == old(self)@.after_msr_exit(tsc),
            final(self).frame() == old(self).frame(),
    {
        let is_write = self.vmcb.read_u64(vmcb::EXITINFO1) & 1 != 0;
        let index = self.regs.rcx as u32;
        if is_write {
            let value = (self.regs.rdx << 32) | (self.regs.rax & 0xffff_ffff);
            self.write_msr(index, value, tsc);
        } else {
            let value = self.read_msr(index);
            self.regs.rax = value & 0xffff_ffff;
            self.regs.rdx = value >> 32;
        }
        self.regs.advance(2);
    }

    /// The guest VMCB, for copying it to its page before a `VMRUN`.
    pub fn vmcb(&self) -> (vmcb: &Vmcb)
        ensures
            vmcb@ == self@.vmcb,
    {
        &self.vmcb
    }

    /// Takes the guest VMCB over from its page after a `VMRUN`.
    pub fn load_vmcb(&mut self, page: [u8; 4096])
        ensures
            final(self)@ == (SvmState { vmcb: page@, ..old(self)@ }),
            final(self).frame() == old(self).frame(),
    {
        self.vmcb.load(page);
    }

    /// The areas the processor works on.
    pub fn areas(&self) -> (areas: SvmAreas)
        ensures
            areas == self.frame().areas,
    {
        self.areas
    }

    /// The I/O-permission map.
    pub fn iopm(&self) -> (iopm: &Bitmap)
        ensures
            *iopm == self.frame().iopm,
    {
        &self.iopm
    }

    /// The MSR-permission map.
    pub fn msrpm(&self) -> (msrpm: &Bitmap)
        ensures
            *msrpm == self.frame().msrpm,
    {
        &self.msrpm
    }

    /// Starts a run at time `tsc`, on a core whose `IA32_EFER` reads `efer` and whose
    /// extended FP state is `live`: decides what it takes to enable SVM, prepares the
    /// control block as [`SvmCpu::begin_run`] does, puts the host's FP state aside and
    /// says which one the guest continues with.
    ///
    /// The embedder then carries out the setup, copies the control block to its page,
    /// restores the FP state, enters the guest once, and hands what it finds afterwards
    /// to [`SvmCpu::leave`].
    pub fn enter(&mut self, efer: u64, tsc: u64, live: [u8; 4096]) -> (entry: SvmEntry)
        ensures
            entry.setup.efer == efer_write(efer),
            entry.setup.host_save_pa == old(self).frame().areas.host_save.hpa,
            entry.regs == old(self)@.regs,
            entry.vmcb_pa == old(self).frame().areas.vmcb.hpa,
            entry.host_vmcb_pa == old(self).frame().areas.host_vmcb.hpa,
            entry.fpu@ == old(self).frame().fp().guest,
            final(self)@ == old(self)@.mirrored().serviced(tsc).injected(),
            final(self).frame().fp() == old(self).frame().fp().entered(live@),
            final(self).frame() == (SvmFrame {
                host_fpu: final(self).frame().host_fpu,
                ..old(self).frame()
            }),
    {
        let setup = self.setup_svm(efer);
        let regs = self.regs;
        self.begin_run(tsc);
        self.host_fpu.load(live);
        SvmEntry {
            setup,
            regs,
            vmcb_pa: self.areas.vmcb.hpa,
            host_vmcb_pa: self.areas.host_vmcb.hpa,
            fpu: self.guest_fpu.area(),
        }
    }

    /// Ends a run at time `tsc`: takes over the general-purpose registers, the control
    /// block and the extended FP state that the guest left, deals with the `#VMEXIT` as
    /// [`SvmCpu::finish_run`] does, and hands back the host's FP state, which the
    /// embedder restores.
    pub fn leave(
        &mut self,
        regs: GuestRegisters,
        block: [u8; 4096],
        live: [u8; 4096],
        tsc: u64,
    ) -> (left: SvmLeft)
        ensures
            (left.exit, final(self)@) == (SvmState {
                vmcb: block@,
                regs,
                ..old(self)@
            }).refreshed().decoded(tsc),
            left.fpu@ == old(self).frame().fp().host,
            final(self).frame().fp() == old(self).frame().fp().left(live@),
            final(self).frame() == (SvmFrame {
                guest_fpu: final(self).frame().guest_fpu,
                ..old(self).frame()
            }),
    {
        self.guest_fpu.load(live);
        let fpu = self.host_fpu.area();
        self.regs = regs;
        self.load_vmcb(block);
        let exit = self.finish_run(tsc);
        SvmLeft { exit, fpu }
    }
}

impl VcpuBackend<GuestRegisters> for SvmCpu {
    open spec fn captured(&self) -> GuestRegisters {
        self@.regs
    }

    fn guest_registers(&self) -> (registers: &GuestRegisters) {
        &self.regs
    }

    fn guest_registers_mut(&mut self) -> (registers: &mut GuestRegisters)
        ensures
            final(self)@ == (SvmState { regs: *final(registers), ..old(self)@ }),
            final(self).frame() == old(self).frame(),
    {
        &mut self.regs
    }
}

} // verus!
