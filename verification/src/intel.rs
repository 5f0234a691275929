//! A virtual machine with a single VMX context of its own.

use vstd::prelude::*;

use crate::cpu;
use crate::error::HypervisorError;
use crate::vmx::sequence::{
    RunState, VmcsSetup, VmcsState, VmcsView, VmxRequest, VmxonSetup, VmxonState, VmxonView,
};
use crate::vmx::vmxon;
use crate::vmx::vmxon::{VmcsRegion, Vmxon};

verus! {

/// Represents a Virtual Machine (VM) instance, encapsulating its state and control
/// mechanisms.
pub struct Vm {
    /// The VMXON (Virtual Machine Extensions On) region for the VM.
    pub vmxon_region: Vmxon,
    /// The VMCS (Virtual Machine Control Structure) for the VM.
    pub vmcs_region: VmcsRegion,
}

impl Vm {
    /// Creates a new zeroed VM instance.
    pub fn zeroed() -> (vm: Self)
        ensures
            vm.vmxon_region.revision_id == 0,
            vm.vmxon_region.data@ == Seq::new(vmxon::REGION_DATA as nat, |i: int| 0u8),
            vm.vmcs_region.revision_id == 0,
            vm.vmcs_region.data@ == Seq::new(vmxon::REGION_DATA as nat, |i: int| 0u8),
    {
        Vm { vmxon_region: Vmxon::zeroed(), vmcs_region: VmcsRegion::zeroed() }
    }

    /// Initializes the regions of a new VM instance from the value of
    /// `IA32_VMX_BASIC`.
    pub fn init(&mut self, vmx_basic: u64) -> (done: Result<(), HypervisorError>)
        ensures
            done == Ok::<(), HypervisorError>(()),
            final(self).vmxon_region.revision_id == vmxon::revision_of(vmx_basic),
            final(self).vmxon_region.data == old(self).vmxon_region.data,
            final(self).vmcs_region.revision_id == vmxon::revision_of(vmx_basic),
            final(self).vmcs_region.data == old(self).vmcs_region.data,
    {
        self.vmxon_region.init(vmx_basic);
        self.vmcs_region.init(vmx_basic);
        Ok(())
    }

    /// Starts preparing the system for VMX operation by configuring necessary control
    /// registers and MSRs, with the VMXON region at the host-physical address
    /// `vmxon_addr`.
    ///
    /// This includes enabling VMX operation through control register modifications,
    /// setting the lock bit in the IA32_FEATURE_CONTROL MSR, and adjusting mandatory
    /// CR0 and CR4 bits. It ends with an error if the adjustments fail. VMXON has to
    /// succeed: the core is not expected to be in VMX operation already.
    pub fn setup_vmxon(&self, vmxon_addr: u64) -> (setup: VmxonSetup)
        ensures
            setup@ == (VmxonView {
                state: VmxonState::EnableVmx,
                region: vmxon_addr,
                shared: false,
            }),
    {
        VmxonSetup::new(vmxon_addr, false)
    }

    /// Starts activating the VMCS region at the host-physical address `vmcs_addr`:
    /// clears and loads it, setting it as the current VMCS for VMX operations, and
    /// configures it.
    pub fn setup_vmcs(&mut self, vmcs_addr: u64) -> (setup: VmcsSetup)
        ensures
            *final(self) == *old(self),
            setup@ == (VmcsView {
                state: VmcsState::Clear,
                region: vmcs_addr,
                program: seq![
                    VmxRequest::SetupCapabilities,
                    VmxRequest::SetupSystemGdt,
                    VmxRequest::SetupSystem64Bit,
                ],
            }),
    {
        let program = [
            VmxRequest::SetupCapabilities,
            VmxRequest::SetupSystemGdt,
            VmxRequest::SetupSystem64Bit,
        ];
        let setup = VmcsSetup::new(vmcs_addr, program);
        assert(setup@.program =~= seq![program[0], program[1], program[2]]);
        setup
    }

    /// The operation that a run of the VM asks for, with the VMCS region at the
    /// host-physical address `vmcs_addr`. A run starts at [`RunState::Activate`].
    pub fn request(&self, state: RunState, vmcs_addr: u64) -> (request: VmxRequest)
        ensures
            request == state.requests(vmcs_addr),
    {
        state.request(vmcs_addr)
    }

    /// Executes the VM, until a VM-exit occurs: takes the reply to the operation that
    /// the run has asked for, and moves the run on by one step.
    ///
    /// Launches or resumes the VM and captures the guest register state post-exit. The
    /// run ends with the reason for the VM-exit, or with an error if the VM fails to
    /// launch or the exit reason is unknown.
    pub fn run(&mut self, state: RunState, reply: Result<u64, HypervisorError>) -> (next: RunState)
        ensures
            next == state.after(reply),
            *final(self) == *old(self),
    {
        state.reply(reply)
    }
}

/// Checks if the CPU is supported for hypervisor operation.
///
/// Verifies the CPU is Intel with VMX support and Memory Type Range Registers (MTRRs)
/// support, as [`cpu::select_vmx`] does from what the processor reports.
///
/// # Returns
///
/// Returns `Ok(())` if the CPU meets all requirements, otherwise returns
/// `Err(HypervisorError)`.
pub fn check_supported_cpu() -> (supported: Result<(), HypervisorError>)
    ensures
        exists|vendor: Option<String>, vmx: Option<bool>, mtrr: Option<bool>|
            supported == #[trigger] cpu::vmx_support(vendor, vmx, mtrr),
{
    cpu::check_vmx()
}

} // verus!
