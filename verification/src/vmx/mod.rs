//! The Intel VT-x (VMX) backend of a single virtual CPU.
//!
//! The privileged operations that enabling VMX, setting up a VMCS and entering the
//! guest take are the embedder's part. It carries them out as the sequences in
//! [`sequence`] ask for them: [`VmxCpu::setup_vmxon`] and [`VmxCpu::setup_vmcs`] once
//! a vCPU has been created, and [`VmxCpu::run`] for every run.

pub mod control;
pub mod ept;
pub mod run;
pub mod sequence;
pub mod vmxon;

use vstd::prelude::*;

use crate::backend::VcpuBackend;
use crate::cpu;
use crate::error::HypervisorError;
use crate::host::{host_physical, HostMemory, HostMemoryCell};
use crate::paging;
use crate::paging::{Area, PagePool};
use crate::vmx::run::GuestRegisters;
use crate::vmx::sequence::{
    RunState, VmcsSetup, VmcsState, VmcsView, VmxRequest, VmxonSetup, VmxonState, VmxonView,
};
use crate::vmx::vmxon::{VmcsRegion, Vmxon};

verus! {

/// The Intel VT-x backend of a single virtual CPU.
///
/// Holds the per-CPU VMX state: the VMXON region (enabling VMX operation on the
/// physical core the vCPU runs on), the VMCS, the cached guest registers and the
/// launch state. The Extended Page Tables are *not* owned here: they belong to the
/// virtual machine and are shared between all of its vCPUs, which only need the EPT
/// pointer (a physical address) passed at construction.
pub struct VmxCpu {
    /// The VMXON (Virtual Machine Extensions On) region.
    vmxon_region: Vmxon,
    /// Where the VMXON region lives. It is bound to the address it was activated at.
    vmxon_area: Area,
    /// The VMCS (Virtual Machine Control Structure) for this vCPU.
    vmcs_region: VmcsRegion,
    /// Where the VMCS lives. It is bound to the address it was activated at.
    vmcs_area: Area,
    /// Saved guest general-purpose registers.
    regs: GuestRegisters,
    /// Whether the VMCS has already been launched.
    launched: bool,
    /// The EPT pointer shared by all vCPUs of the virtual machine.
    eptp: u64,
    /// Host-physical address of the APIC-access page.
    apic_access_hpa: u64,
    /// Guest entry point (initial RIP).
    entry_point: u64,
    /// Guest initial stack pointer.
    guest_rsp: u64,
}

/// What a vCPU is made of.
#[verifier::ext_equal]
pub struct VmxState {
    pub vmxon_area: Area,
    pub vmxon_revision: u32,
    /// The VMXON region, without its revision identifier.
    pub vmxon_data: Seq<u8>,
    pub vmcs_area: Area,
    pub vmcs_revision: u32,
    /// The VMCS region, without its revision identifier.
    pub vmcs_data: Seq<u8>,
    pub regs: GuestRegisters,
    pub launched: bool,
    pub eptp: u64,
    pub apic_access_hpa: u64,
    pub entry_point: u64,
    pub guest_rsp: u64,
}

impl View for VmxCpu {
    type V = VmxState;

    closed spec fn view(&self) -> VmxState {
        VmxState {
            vmxon_area: self.vmxon_area,
            vmxon_revision: self.vmxon_region.revision_id,
            vmxon_data: self.vmxon_region.data@,
            vmcs_area: self.vmcs_area,
            vmcs_revision: self.vmcs_region.revision_id,
            vmcs_data: self.vmcs_region.data@,
            regs: self.regs,
            launched: self.launched,
            eptp: self.eptp,
            apic_access_hpa: self.apic_access_hpa,
            entry_point: self.entry_point,
            guest_rsp: self.guest_rsp,
        }
    }
}

/// Whether the pool and the host's translation have what a vCPU needs: two pages with
/// host-physical addresses.
pub open spec fn can_create<H: HostMemory>(host: HostMemoryCell<H>, pool: Seq<u64>) -> bool {
    &&& pool.len() >= 2
    &&& host.translates(paging::pool_page(pool, 0)) is Some
    &&& host.translates(paging::pool_page(pool, 1)) is Some
}

impl VmxCpu {
    /// Creates the VT-x backend of a vCPU. It is ready to run once the embedder has
    /// gone through [`VmxCpu::setup_vmxon`] and [`VmxCpu::setup_vmcs`].
    ///
    /// `vmx_basic` is the value of `IA32_VMX_BASIC`, `eptp` the VM-wide EPT pointer,
    /// `apic_access_hpa` the page for hardware APIC virtualization, `cpu_id` becomes
    /// the guest's RSI (CPU id) and `entry_point`/`guest_rsp` its initial RIP/RSP. The
    /// boot-info pointer is passed to the guest in RDI, following the hermit kernel's
    /// entry convention.
    pub fn new<H: HostMemory>(
        host: &HostMemoryCell<H>,
        pool: &mut PagePool,
        vmx_basic: u64,
        eptp: u64,
        apic_access_hpa: u64,
        cpu_id: u64,
        entry_point: u64,
        guest_rsp: u64,
    ) -> (cpu: Result<Self, HypervisorError>)
        requires
            host.registered() is Some,
        ensures
            can_create(*host, old(pool)@) ==> {
                &&& cpu matches Ok(c) && c@ == (VmxState {
                    vmxon_area: paging::area(*host, old(pool)@, 0),
                    vmxon_revision: vmxon::revision_of(vmx_basic),
                    vmxon_data: Seq::new(vmxon::REGION_DATA as nat, |i: int| 0u8),
                    vmcs_area: paging::area(*host, old(pool)@, 1),
                    vmcs_revision: vmxon::revision_of(vmx_basic),
                    vmcs_data: Seq::new(vmxon::REGION_DATA as nat, |i: int| 0u8),
                    regs: run::boot_registers(cpu_id, entry_point, guest_rsp),
                    launched: false,
                    eptp,
                    apic_access_hpa,
                    entry_point,
                    guest_rsp,
                })
                &&& final(pool)@ == old(pool)@.take(old(pool)@.len() - 2)
            },
            !can_create(*host, old(pool)@) ==> {
                &&& cpu matches Err(e) && e == HypervisorError::AllocationFailed
                &&& final(pool)@ == old(pool)@
            },
    {
        if pool.len() < 2 {
            return Err(HypervisorError::AllocationFailed);
        }
        let vmxon_page = pool.peek(0);
        let vmcs_page = pool.peek(1);
        let vmxon_addr = match host_physical(host, vmxon_page) {
            Ok(hpa) => hpa,
            Err(error) => return Err(error),
        };
        let vmcs_addr = match host_physical(host, vmcs_page) {
            Ok(hpa) => hpa,
            Err(error) => return Err(error),
        };
        pool.advance(2);
        let mut cpu = VmxCpu {
            vmxon_region: Vmxon::zeroed(),
            vmxon_area: Area { vaddr: vmxon_page, hpa: vmxon_addr },
            vmcs_region: VmcsRegion::zeroed(),
            vmcs_area: Area { vaddr: vmcs_page, hpa: vmcs_addr },
            regs: GuestRegisters::boot(cpu_id, entry_point, guest_rsp),
            launched: false,
            eptp,
            apic_access_hpa,
            entry_point,
            guest_rsp,
        };
        cpu.init(vmx_basic);
        Ok(cpu)
    }

    /// Initializes the VMXON and VMCS regions with their revision identifiers.
    fn init(&mut self, vmx_basic: u64)
        ensures
            final(self)@ == (VmxState {
                vmxon_revision: vmxon::revision_of(vmx_basic),
                vmcs_revision: vmxon::revision_of(vmx_basic),
                ..old(self)@
            }),
    {
        self.vmxon_region.init(vmx_basic);
        self.vmcs_region.init(vmx_basic);
    }

    /// Starts enabling VMX operation on the current physical core.
    ///
    /// VMXON is a *per physical core* operation that is performed for each vCPU; a
    /// core that another vCPU has enabled already counts as a success. Mandatory bits of
    /// the control registers are set; none is cleared.
    pub fn setup_vmxon(&self) -> (setup: VmxonSetup)
        ensures
            setup@ == (VmxonView {
                state: VmxonState::EnableVmx,
                region: self@.vmxon_area.hpa,
                shared: true,
            }),
    {
        VmxonSetup::new(self.vmxon_area.hpa, true)
    }

    /// Starts clearing and loading the VMCS, and configuring its control, host and
    /// guest areas.
    pub fn setup_vmcs(&self) -> (setup: VmcsSetup)
        ensures
            setup@ == (VmcsView {
                state: VmcsState::Clear,
                region: self@.vmcs_area.hpa,
                program: seq![
                    VmxRequest::SetupControls {
                        eptp: self@.eptp,
                        apic_access_hpa: self@.apic_access_hpa,
                    },
                    VmxRequest::SetupHost,
                    VmxRequest::SetupGuest {
                        entry_point: self@.entry_point,
                        guest_rsp: self@.guest_rsp,
                    },
                ],
            }),
    {
        let program = [
            VmxRequest::SetupControls {
                eptp: self.eptp,
                apic_access_hpa: self.apic_access_hpa,
            },
            VmxRequest::SetupHost,
            VmxRequest::SetupGuest { entry_point: self.entry_point, guest_rsp: self.guest_rsp },
        ];
        let setup = VmcsSetup::new(self.vmcs_area.hpa, program);
        assert(setup@.program =~= seq![program[0], program[1], program[2]]);
        setup
    }

    /// The operation that a run of this vCPU asks for.
    ///
    /// A run starts at [`RunState::Activate`], which makes this vCPU's VMCS the
    /// current one: several vCPUs may share a physical core, and each VMLAUNCH or
    /// VMRESUME operates on whichever VMCS is currently loaded.
    pub fn request(&self, state: RunState) -> (request: VmxRequest)
        ensures
            request == state.requests(self@.vmcs_area.hpa),
    {
        state.request(self.vmcs_area.hpa)
    }

    /// Takes the reply to the operation that a run has asked for, and moves the run on
    /// by one step. It ends with the reason for the VM-exit, or with an error if the
    /// guest could not be entered or was left for an unknown reason.
    pub fn run(&mut self, state: RunState, reply: Result<u64, HypervisorError>) -> (next: RunState)
        ensures
            next == state.after(reply),
            final(self)@ == (VmxState {
                launched: old(self)@.launched || (state is Enter && reply is Ok),
                ..old(self)@
            }),
    {
        if let (RunState::Enter, Ok(_)) = (state, reply) {
            self.launched = true;
        }
        state.reply(reply)
    }

    /// The revision identifiers of the VMXON and VMCS regions, for the embedder to
    /// store at the start of their pages.
    pub fn revisions(&self) -> (revisions: (u32, u32))
        ensures
            revisions == (self@.vmxon_revision, self@.vmcs_revision),
    {
        (self.vmxon_region.revision_id, self.vmcs_region.revision_id)
    }

    /// Where the VMXON and VMCS regions live.
    pub fn areas(&self) -> (areas: (Area, Area))
        ensures
            areas == (self@.vmxon_area, self@.vmcs_area),
    {
        (self.vmxon_area, self.vmcs_area)
    }

    /// Whether the VMCS has already been launched (selects VMLAUNCH or VMRESUME).
    pub fn launched(&self) -> (launched: bool)
        ensures
            launched == self@.launched,
    {
        self.launched
    }
}

impl VcpuBackend<GuestRegisters> for VmxCpu {
    open spec fn captured(&self) -> GuestRegisters {
        self@.regs
    }

    fn guest_registers(&self) -> (registers: &GuestRegisters) {
        &self.regs
    }

    fn guest_registers_mut(&mut self) -> (registers: &mut GuestRegisters)
        ensures
            final(self)@ == (VmxState { regs: *final(registers), ..old(self)@ }),
    {
        &mut self.regs
    }
}

/// Checks if the CPU is supported for hypervisor operation.
///
/// Verifies the CPU is Intel with VMX support and Memory Type Range Registers (MTRRs)
/// support, as [`cpu::select_vmx`] does from what the processor reports.
///
/// # Returns
///
/// Returns `Ok(())` if the CPU meets all requirements, otherwise returns
/// `Err(HypervisorError)`.
pub fn check_supported_cpu() -> (supported: Result<(), HypervisorError>)
    ensures
        exists|vendor: Option<String>, vmx: Option<bool>, mtrr: Option<bool>|
            supported == #[trigger] cpu::vmx_support(vendor, vmx, mtrr),
{
    cpu::check_vmx()
}

} // verus!
