//! The sequences of privileged operations that the VT-x backend goes through.
//!
//! Reading and writing control registers and MSRs, and executing the VMX
//! instructions, is the embedder's part; deciding which of them comes next is done
//! here. Each sequence is a state machine: it names the operation to carry out
//! ([`VmxRequest`]) and takes the reply, until it is over.
//!
//! A reply is `Ok` with the value that was read, or with the flags that a VMX
//! instruction left; the value of a reply to anything else is of no interest. It is
//! `Err` where the embedder's access to the VMCS failed.

use vstd::prelude::*;

use crate::bytes;
use crate::error::HypervisorError;
use crate::vmx::control;
use crate::vmx::control::{cr0_flags, cr4_flags, CR0_KNOWN, CR4_KNOWN, CR4_VMXE};

verus! {

/// The feature-control register.
pub const IA32_FEATURE_CONTROL: u32 = 0x3a;

/// Locks the feature-control register.
pub const VMX_LOCK_BIT: u64 = 0x1;

/// Allows VMXON outside of SMX operation.
pub const VMXON_OUTSIDE_SMX: u64 = 0x4;

/// Capability Reporting Register of CR0 Bits Fixed to 0 (R/O)
pub const IA32_VMX_CR0_FIXED0: u32 = 0x486;

/// Capability Reporting Register of CR0 Bits Fixed to 1 (R/O)
pub const IA32_VMX_CR0_FIXED1: u32 = 0x487;

/// Capability Reporting Register of CR4 Bits Fixed to 0 (R/O)
pub const IA32_VMX_CR4_FIXED0: u32 = 0x488;

/// Capability Reporting Register of CR4 Bits Fixed to 1 (R/O)
pub const IA32_VMX_CR4_FIXED1: u32 = 0x489;

/// VM-instruction error: "VMXON executed in VMX root operation".
pub const VMXON_IN_ROOT: u64 = 15;

/// An operation for the embedder to carry out.
#[derive(Debug, Clone, Copy, PartialEq, Eq, Structural)]
pub enum VmxRequest {
    /// Set the bits `set` of CR0, then clear those that are not in `keep`.
    UpdateCr0 { set: u64, keep: u64 },
    /// Set the bits `set` of CR4, then clear those that are not in `keep`.
    UpdateCr4 { set: u64, keep: u64 },
    /// Read a model-specific register.
    ReadMsr(u32),
    /// Write a model-specific register.
    WriteMsr(u32, u64),
    /// Execute VMXON with the region at this host-physical address.
    Vmxon(u64),
    /// Execute VMCLEAR with the region at this host-physical address.
    Vmclear(u64),
    /// Execute VMPTRLD with the region at this host-physical address.
    Vmptrld(u64),
    /// Read the VM-instruction error field of the current VMCS.
    InstructionError,
    /// Configure the control area of the current VMCS.
    SetupControls { eptp: u64, apic_access_hpa: u64 },
    /// Configure the host area of the current VMCS.
    SetupHost,
    /// Configure the guest area of the current VMCS.
    SetupGuest { entry_point: u64, guest_rsp: u64 },
    /// Configure the current VMCS by the processor's capabilities.
    SetupCapabilities,
    /// Configure the descriptor tables in the current VMCS.
    SetupSystemGdt,
    /// Configure the current VMCS for a 64-bit system.
    SetupSystem64Bit,
    /// Copy the cached RIP, RSP and RFLAGS to the current VMCS.
    LoadGuestRegisters,
    /// Execute VMLAUNCH or VMRESUME with the cached registers.
    EnterGuest,
    /// Copy RIP, RSP and RFLAGS from the current VMCS to the cached registers.
    SaveGuestRegisters,
    /// Read the exit-reason field of the current VMCS.
    ReadExitReason,
    /// Look up a basic exit reason; the reply is `Err` where it is not a known one.
    DecodeExitReason(u32),
    /// Nothing: the sequence is over.
    Nothing,
}

// --- Enabling VMX operation ----------------------------------------------------

/// How far enabling VMX operation has got.
#[derive(Debug, Clone, Copy, PartialEq, Eq, Structural)]
pub enum VmxonState {
    /// `CR4.VMXE` is to be set.
    EnableVmx,
    /// The feature-control register is to be read.
    ReadFeatures,
    /// The feature-control register is to be written.
    LockFeatures(u64),
    /// The bits that CR0 must have set are to be read.
    ReadCr0Fixed0,
    /// The bits that CR0 may have set are to be read; holds those it must have.
    ReadCr0Fixed1(u64),
    /// The bits that CR0 must have are to be set, and those not to be kept cleared.
    FixCr0 { set: u64, keep: u64 },
    /// The bits that CR4 must have set are to be read.
    ReadCr4Fixed0,
    /// The bits that CR4 may have set are to be read; holds those it must have.
    ReadCr4Fixed1(u64),
    /// The bits that CR4 must have are to be set, and those not to be kept cleared.
    FixCr4 { set: u64, keep: u64 },
    /// VMXON is to be executed.
    Enter,
    /// VMXON failed; whether the core was in VMX operation already is to be found out.
    Confirm,
    /// VMX operation is enabled.
    Done,
    /// Enabling VMX operation failed: with `VmUnsupported` where the firmware has locked
    /// VMX out or the processor demands control-register bits that are not defined, and
    /// with `VMCLEARFailed` where VMXON failed.
    Failed(HypervisorError),
}

/// Enabling VMX operation on the current physical core.
pub struct VmxonSetup {
    state: VmxonState,
    region: u64,
    shared: bool,
}

/// What an [`VmxonSetup`] is about.
pub struct VmxonView {
    pub state: VmxonState,
    /// Host-physical address of the VMXON region.
    pub region: u64,
    /// Whether several vCPUs share the core. A core that is in VMX operation already
    /// then counts as a success, and no bit of its control registers is cleared.
    pub shared: bool,
}

impl View for VmxonSetup {
    type V = VmxonView;

    closed spec fn view(&self) -> VmxonView {
        VmxonView { state: self.state, region: self.region, shared: self.shared }
    }
}

impl VmxonView {
    /// The bits of a control register that are kept, of which those in `fixed1` may be
    /// set: on a shared core all of them.
    pub open spec fn keeps(self, fixed1: u64) -> u64 {
        if self.shared {
            u64::MAX
        } else {
            fixed1
        }
    }

    /// The operation to carry out.
    pub open spec fn request(self) -> VmxRequest {
        match self.state {
            VmxonState::EnableVmx => VmxRequest::UpdateCr4 { set: CR4_VMXE, keep: u64::MAX },
            VmxonState::ReadFeatures => VmxRequest::ReadMsr(IA32_FEATURE_CONTROL),
            VmxonState::LockFeatures(value) => VmxRequest::WriteMsr(IA32_FEATURE_CONTROL, value),
            VmxonState::ReadCr0Fixed0 => VmxRequest::ReadMsr(IA32_VMX_CR0_FIXED0),
            VmxonState::ReadCr0Fixed1(_) => VmxRequest::ReadMsr(IA32_VMX_CR0_FIXED1),
            VmxonState::FixCr0 { set, keep } => VmxRequest::UpdateCr0 { set, keep },
            VmxonState::ReadCr4Fixed0 => VmxRequest::ReadMsr(IA32_VMX_CR4_FIXED0),
            VmxonState::ReadCr4Fixed1(_) => VmxRequest::ReadMsr(IA32_VMX_CR4_FIXED1),
            VmxonState::FixCr4 { set, keep } => VmxRequest::UpdateCr4 { set, keep },
            VmxonState::Enter => VmxRequest::Vmxon(self.region),
            VmxonState::Confirm => VmxRequest::InstructionError,
            _ => VmxRequest::Nothing,
        }
    }

    /// Where a value that was read, or left in the flags, leads.
    pub open spec fn after_value(self, value: u64) -> VmxonState {
        match self.state {
            VmxonState::EnableVmx => VmxonState::ReadFeatures,
            VmxonState::ReadFeatures => if value & VMX_LOCK_BIT == 0 {
                VmxonState::LockFeatures(value | (VMX_LOCK_BIT | VMXON_OUTSIDE_SMX))
            } else if value & VMXON_OUTSIDE_SMX == 0 {
                VmxonState::Failed(HypervisorError::VmUnsupported)
            } else {
                VmxonState::ReadCr0Fixed0
            },
            VmxonState::LockFeatures(_) => VmxonState::ReadCr0Fixed0,
            VmxonState::ReadCr0Fixed0 => VmxonState::ReadCr0Fixed1(value),
            VmxonState::ReadCr0Fixed1(fixed0) => if fixed0 & !CR0_KNOWN == 0 {
                VmxonState::FixCr0 { set: fixed0, keep: self.keeps(value) }
            } else {
                VmxonState::Failed(HypervisorError::VmUnsupported)
            },
            VmxonState::FixCr0 { .. } => VmxonState::ReadCr4Fixed0,
            VmxonState::ReadCr4Fixed0 => VmxonState::ReadCr4Fixed1(value),
            VmxonState::ReadCr4Fixed1(fixed0) => if fixed0 & !CR4_KNOWN == 0 {
                VmxonState::FixCr4 { set: fixed0, keep: self.keeps(value) }
            } else {
                VmxonState::Failed(HypervisorError::VmUnsupported)
            },
            VmxonState::FixCr4 { .. } => VmxonState::Enter,
            VmxonState::Enter => if !control::vmx_failed(value) {
                VmxonState::Done
            } else if self.shared {
                VmxonState::Confirm
            } else {
                VmxonState::Failed(HypervisorError::VMCLEARFailed)
            },
            VmxonState::Confirm => if value == VMXON_IN_ROOT {
                VmxonState::Done
            } else {
                VmxonState::Failed(HypervisorError::VMCLEARFailed)
            },
            ended => ended,
        }
    }

    /// The setup after a reply. A VMCS that cannot be read does not confirm anything;
    /// no other operation of the sequence can fail.
    pub open spec fn after(self, reply: Result<u64, HypervisorError>) -> VmxonView {
        VmxonView {
            state: match reply {
                Ok(value) => self.after_value(value),
                Err(error) => match self.state {
                    VmxonState::Confirm => VmxonState::Failed(HypervisorError::VMCLEARFailed),
                    VmxonState::Done | VmxonState::Failed(_) => self.state,
                    _ => VmxonState::Failed(error),
                },
            },
            ..self
        }
    }
}

impl VmxonSetup {
    /// Starts enabling VMX operation with the VMXON region at `region`.
    ///
    /// VMXON is a *per physical core* operation: once a core is in VMX root operation,
    /// executing it again fails with VM-instruction error 15. Where several vCPUs
    /// share a core (`shared`), such a repeated-VMXON failure is treated as success:
    /// the core is already enabled. On such a core, mandatory bits of the control
    /// registers are set and none is cleared.
    pub fn new(region: u64, shared: bool) -> (setup: Self)
        ensures
            setup@ == (VmxonView { state: VmxonState::EnableVmx, region, shared }),
    {
        VmxonSetup { state: VmxonState::EnableVmx, region, shared }
    }

    /// The bits of a control register that are kept.
    fn keep(&self, fixed1: u64) -> (keep: u64)
        ensures
            keep == self@.keeps(fixed1),
    {
        if self.shared {
            u64::MAX
        } else {
            fixed1
        }
    }

    /// How far the setup has got.
    pub fn state(&self) -> (state: VmxonState)
        ensures
            state == self@.state,
    {
        self.state
    }

    /// The operation to carry out.
    pub fn request(&self) -> (request: VmxRequest)
        ensures
            request == self@.request(),
    {
        match self.state {
            VmxonState::EnableVmx => VmxRequest::UpdateCr4 { set: CR4_VMXE, keep: u64::MAX },
            VmxonState::ReadFeatures => VmxRequest::ReadMsr(IA32_FEATURE_CONTROL),
            VmxonState::LockFeatures(value) => VmxRequest::WriteMsr(IA32_FEATURE_CONTROL, value),
            VmxonState::ReadCr0Fixed0 => VmxRequest::ReadMsr(IA32_VMX_CR0_FIXED0),
            VmxonState::ReadCr0Fixed1(_) => VmxRequest::ReadMsr(IA32_VMX_CR0_FIXED1),
            VmxonState::FixCr0 { set, keep } => VmxRequest::UpdateCr0 { set, keep },
            VmxonState::ReadCr4Fixed0 => VmxRequest::ReadMsr(IA32_VMX_CR4_FIXED0),
            VmxonState::ReadCr4Fixed1(_) => VmxRequest::ReadMsr(IA32_VMX_CR4_FIXED1),
            VmxonState::FixCr4 { set, keep } => VmxRequest::UpdateCr4 { set, keep },
            VmxonState::Enter => VmxRequest::Vmxon(self.region),
            VmxonState::Confirm => VmxRequest::InstructionError,
            _ => VmxRequest::Nothing,
        }
    }

    /// Takes the reply to the requested operation.
    pub fn reply(&mut self, reply: Result<u64, HypervisorError>)
        ensures
            final(self)@ == old(self)@.after(reply),
    {
        let value = match reply {
            Ok(value) => value,
            Err(error) => {
                self.state = match self.state {
                    VmxonState::Confirm => VmxonState::Failed(HypervisorError::VMCLEARFailed),
                    VmxonState::Done | VmxonState::Failed(_) => self.state,
                    _ => VmxonState::Failed(error),
                };
                return;
            },
        };
        self.state = match self.state {
            VmxonState::EnableVmx => VmxonState::ReadFeatures,
            VmxonState::ReadFeatures => {
                if value & VMX_LOCK_BIT == 0 {
                    VmxonState::LockFeatures(value | (VMX_LOCK_BIT | VMXON_OUTSIDE_SMX))
                } else if value & VMXON_OUTSIDE_SMX == 0 {
                    VmxonState::Failed(HypervisorError::VmUnsupported)
                } else {
                    VmxonState::ReadCr0Fixed0
                }
            },
            VmxonState::LockFeatures(_) => VmxonState::ReadCr0Fixed0,
            VmxonState::ReadCr0Fixed0 => VmxonState::ReadCr0Fixed1(value),
            VmxonState::ReadCr0Fixed1(fixed0) => match cr0_flags(fixed0) {
                Some(set) => VmxonState::FixCr0 { set, keep: self.keep(value) },
                None => VmxonState::Failed(HypervisorError::VmUnsupported),
            },
            VmxonState::FixCr0 { .. } => VmxonState::ReadCr4Fixed0,
            VmxonState::ReadCr4Fixed0 => VmxonState::ReadCr4Fixed1(value),
            VmxonState::ReadCr4Fixed1(fixed0) => match cr4_flags(fixed0) {
                Some(set) => VmxonState::FixCr4 { set, keep: self.keep(value) },
                None => VmxonState::Failed(HypervisorError::VmUnsupported),
            },
            VmxonState::FixCr4 { .. } => VmxonState::Enter,
            VmxonState::Enter => match control::vmx_capture_status(value) {
                Ok(()) => VmxonState::Done,
                Err(error) => {
                    if self.shared {
                        VmxonState::Confirm
                    } else {
                        VmxonState::Failed(error)
                    }
                },
            },
            VmxonState::Confirm => {
                if value == VMXON_IN_ROOT {
                    VmxonState::Done
                } else {
                    VmxonState::Failed(HypervisorError::VMCLEARFailed)
                }
            },
            ended => ended,
        };
    }
}

/// An execution of VMXON: the region, and the registers of the core at that time.
pub struct VmxonEntry {
    pub region: u64,
    pub cr0: u64,
    pub cr4: u64,
    pub feature_control: u64,
}

/// A core as far as enabling VMX operation is concerned: its registers, and how it
/// answers to VMXON.
#[verifier::ext_equal]
pub struct Core {
    pub cr0: u64,
    pub cr4: u64,
    pub feature_control: u64,
    pub cr0_fixed0: u64,
    pub cr0_fixed1: u64,
    pub cr4_fixed0: u64,
    pub cr4_fixed1: u64,
    /// The flags that VMXON leaves.
    pub vmxon_flags: u64,
    /// The VM-instruction error that is read after it.
    pub instruction_error: Result<u64, HypervisorError>,
    /// The executions of VMXON, in order.
    pub entered: Seq<VmxonEntry>,
}

impl Core {
    /// The core after an operation.
    pub open spec fn after(self, request: VmxRequest) -> Core {
        match request {
            VmxRequest::UpdateCr0 { set, keep } => Core { cr0: (self.cr0 | set) & keep, ..self },
            VmxRequest::UpdateCr4 { set, keep } => Core { cr4: (self.cr4 | set) & keep, ..self },
            VmxRequest::WriteMsr(index, value) => if index == 0x3a {
                Core { feature_control: value, ..self }
            } else {
                self
            },
            VmxRequest::Vmxon(region) => Core {
                entered: self.entered.push(self.entry(region)),
                ..self
            },
            _ => self,
        }
    }

    /// The reply to an operation.
    pub open spec fn reply(self, request: VmxRequest) -> Result<u64, HypervisorError> {
        match request {
            VmxRequest::ReadMsr(index) => if index == 0x3a {
                Ok(self.feature_control)
            } else if index == 0x486 {
                Ok(self.cr0_fixed0)
            } else if index == 0x487 {
                Ok(self.cr0_fixed1)
            } else if index == 0x488 {
                Ok(self.cr4_fixed0)
            } else if index == 0x489 {
                Ok(self.cr4_fixed1)
            } else {
                Ok(0)
            },
            VmxRequest::Vmxon(_) => Ok(self.vmxon_flags),
            VmxRequest::InstructionError => self.instruction_error,
            _ => Ok(0),
        }
    }

    /// An execution of VMXON on the core as it is.
    pub open spec fn entry(self, region: u64) -> VmxonEntry {
        VmxonEntry {
            region,
            cr0: self.cr0,
            cr4: self.cr4,
            feature_control: self.feature_control,
        }
    }

    /// Whether the firmware has locked VMX out: the feature-control register is locked (bit
    /// 0) without VMXON allowed (bit 2).
    pub open spec fn locked_out(self) -> bool {
        self.feature_control % 2 == 1 && self.feature_control / 4 % 2 == 0
    }

    /// Whether VMX can be initialized on the core: the firmware has not locked it out,
    /// and the mandatory control-register bits are defined ones.
    pub open spec fn capable(self) -> bool {
        &&& !self.locked_out()
        &&& self.cr0_fixed0 & !0xE005_003Fu64 == 0
        &&& self.cr4_fixed0 & !0x01FF_7FFFu64 == 0
    }
}

/// The setup and the core after `n` operations have been carried out and replied to.
pub open spec fn carried_out(setup: VmxonView, core: Core, n: nat) -> (VmxonView, Core)
    decreases n,
{
    if n == 0 {
        (setup, core)
    } else {
        let request = setup.request();
        carried_out(setup.after(core.reply(request)), core.after(request), (n - 1) as nat)
    }
}

/// A sequence that is over stays over.
proof fn lemma_over(setup: VmxonView, core: Core, n: nat)
    requires
        setup.state is Done || setup.state is Failed,
    ensures
        carried_out(setup, core, n) == (setup, core),
    decreases n,
{
    if n > 0 {
        lemma_over(setup, core, (n - 1) as nat);
    }
}

/// From the mandatory control-register bits on.
proof fn lemma_fixing_registers(region: u64, shared: bool, core: Core, n: nat)
    requires
        n >= 8,
    ensures
        ({
            let start = VmxonView { state: VmxonState::ReadCr0Fixed0, region, shared };
            let (setup, now) = carried_out(start, core, n);
            let refused = VmxonState::Failed(HypervisorError::VmUnsupported);
            let one = Core {
                cr0: (core.cr0 | core.cr0_fixed0) & start.keeps(core.cr0_fixed1),
                ..core
            };
            let two = Core {
                cr4: (core.cr4 | core.cr4_fixed0) & start.keeps(core.cr4_fixed1),
                ..one
            };
            if core.cr0_fixed0 & !CR0_KNOWN != 0 {
                setup == (VmxonView { state: refused, ..start }) && now == core
            } else if core.cr4_fixed0 & !CR4_KNOWN != 0 {
                setup == (VmxonView { state: refused, ..start }) && now == one
            } else {
                now == (Core { entered: core.entered.push(two.entry(region)), ..two }) && setup == (
                VmxonView {
                    state: if !control::vmx_failed(core.vmxon_flags) || (shared
                        && core.instruction_error == Ok::<u64, HypervisorError>(VMXON_IN_ROOT)) {
                        VmxonState::Done
                    } else {
                        VmxonState::Failed(HypervisorError::VMCLEARFailed)
                    },
                    ..start
                })
            }
        }),
{
    let at = |state: VmxonState| VmxonView { state, region, shared };
    let refused = at(VmxonState::Failed(HypervisorError::VmUnsupported));
    let (f0, f4) = (core.cr0_fixed0, core.cr4_fixed0);
    let keep0 = at(VmxonState::Enter).keeps(core.cr0_fixed1);
    let keep4 = at(VmxonState::Enter).keeps(core.cr4_fixed1);
    let k = |used: int| (n - used) as nat;
    let start = at(VmxonState::ReadCr0Fixed0);
    assert(carried_out(start, core, n) == carried_out(
        at(VmxonState::ReadCr0Fixed1(f0)),
        core,
        k(1),
    ));
    if f0 & !CR0_KNOWN != 0 {
        lemma_over(refused, core, k(2));
    } else {
        let fix = at(VmxonState::FixCr0 { set: f0, keep: keep0 });
        assert(carried_out(start, core, n) == carried_out(fix, core, k(2)));
        let one = Core { cr0: (core.cr0 | f0) & keep0, ..core };
        assert(carried_out(start, core, n) == carried_out(
            at(VmxonState::ReadCr4Fixed0),
            one,
            k(3),
        ));
        assert(carried_out(start, core, n) == carried_out(
            at(VmxonState::ReadCr4Fixed1(f4)),
            one,
            k(4),
        ));
        if f4 & !CR4_KNOWN != 0 {
            lemma_over(refused, one, k(5));
        } else {
            let fix = at(VmxonState::FixCr4 { set: f4, keep: keep4 });
            assert(carried_out(start, core, n) == carried_out(fix, one, k(5)));
            let two = Core { cr4: (one.cr4 | f4) & keep4, ..one };
            assert(carried_out(start, core, n) == carried_out(at(VmxonState::Enter), two, k(6)));
            let three = Core { entered: core.entered.push(two.entry(region)), ..two };
            let entered = at(VmxonState::Enter).after(Ok(core.vmxon_flags));
            assert(carried_out(start, core, n) == carried_out(entered, three, k(7)));
            if entered.state is Confirm {
                let confirmed = entered.after(core.instruction_error);
                assert(carried_out(start, core, n) == carried_out(confirmed, three, k(8)));
                lemma_over(confirmed, three, k(8));
            } else {
                lemma_over(entered, three, k(7));
            }
        }
    }
}

/// Whether every bit that a core's control registers must have set is one that they may
/// have set.
pub open spec fn consistent(core: Core) -> bool {
    &&& core.cr0_fixed0 & !core.cr0_fixed1 == 0
    &&& core.cr4_fixed0 & !core.cr4_fixed1 == 0
}

/// An adjusted control register, with and without bits cleared.
proof fn lemma_adjusted(value: u64, fixed0: u64, fixed1: u64)
    ensures
        (value | fixed0) & u64::MAX == value | fixed0,
        (value | fixed0) & fixed0 == fixed0,
        ((value | fixed0) & fixed1) & !fixed1 == 0,
        fixed0 & !fixed1 == 0 ==> ((value | fixed0) & fixed1) & fixed0 == fixed0,
{
    assert((value | fixed0) & 0xFFFF_FFFF_FFFF_FFFF == value | fixed0 && (value | fixed0) & fixed0
        == fixed0 && ((value | fixed0) & fixed1) & !fixed1 == 0 && (fixed0 & !fixed1 == 0 ==> ((
    value | fixed0) & fixed1) & fixed0 == fixed0)) by (bit_vector);
}

/// Enabling VMX operation takes twelve operations at most.
///
/// It fails with `VmUnsupported`, without executing VMXON, exactly on a core that is not
/// capable of it; where the firmware has locked VMX out, the feature-control register is
/// not written.
///
/// On any other core VMXON is executed exactly once, with the region, and by then the
/// core meets the prerequisites: the bits that CR0 and CR4 must have are set, on a core
/// that is not shared those that they must not have are clear, and the feature-control
/// register is locked with VMXON allowed. No other bit of CR0 and CR4 has changed but
/// `CR4.VMXE`. It succeeds if VMXON does, or, where the core
/// may be shared, if VMXON failed because the core was in VMX operation already;
/// otherwise the error is `VMCLEARFailed`.
pub proof fn law_enabling_vmx(region: u64, shared: bool, core: Core)
    requires
        core.entered.len() == 0,
    ensures
        ({
            let start = VmxonView { state: VmxonState::EnableVmx, region, shared };
            let (setup, now) = carried_out(start, core, 12);
            &&& setup.request() == VmxRequest::Nothing
            &&& setup.state == VmxonState::Failed(HypervisorError::VmUnsupported)
                <==> !core.capable()
            &&& !core.capable() ==> now.entered.len() == 0
            &&& core.locked_out() ==> now.feature_control == core.feature_control
            &&& core.capable() ==> {
                &&& now.entered == seq![now.entry(region)]
                &&& now.cr0 & core.cr0_fixed0 == core.cr0_fixed0 || !consistent(core)
                &&& now.cr4 & core.cr4_fixed0 == core.cr4_fixed0 || !consistent(core)
                &&& shared ==> {
                    &&& now.cr0 == core.cr0 | core.cr0_fixed0
                    &&& now.cr4 == core.cr4 | 0x2000 | core.cr4_fixed0
                }
                &&& !shared ==> {
                    &&& now.cr0 == (core.cr0 | core.cr0_fixed0) & core.cr0_fixed1
                    &&& now.cr4 == (core.cr4 | 0x2000 | core.cr4_fixed0) & core.cr4_fixed1
                    &&& now.cr0 & !core.cr0_fixed1 == 0
                    &&& now.cr4 & !core.cr4_fixed1 == 0
                }
                &&& now.feature_control % 2 == 1 && now.feature_control / 4 % 2 == 1
                &&& now.feature_control == core.feature_control + (if core.feature_control % 2
                    == 1 {
                    0int
                } else if core.feature_control / 4 % 2 == 1 {
                    1
                } else {
                    5
                })
                &&& setup.state == (if (core.vmxon_flags % 2 == 0 && core.vmxon_flags / 0x40 % 2
                    == 0) || (shared && core.instruction_error == Ok::<u64, HypervisorError>(15)) {
                    VmxonState::Done
                } else {
                    VmxonState::Failed(HypervisorError::VMCLEARFailed)
                })
            }
        }),
{
    let at = |state: VmxonState| VmxonView { state, region, shared };
    let features = core.feature_control;
    bytes::lemma_bits(features);
    control::law_failure_flags(core.vmxon_flags);
    let start = at(VmxonState::EnableVmx);
    let one = Core { cr4: core.cr4 | CR4_VMXE, ..core };
    let (setup, now) = carried_out(start, core, 12);
    let cr4 = core.cr4;
    assert((cr4 | 0x2000) & 0xFFFF_FFFF_FFFF_FFFF == cr4 | 0x2000) by (bit_vector);
    assert(carried_out(start, core, 12) == carried_out(at(VmxonState::ReadFeatures), one, 11));
    if features & VMX_LOCK_BIT == 0 {
        let locked = features | (VMX_LOCK_BIT | VMXON_OUTSIDE_SMX);
        let two = Core { feature_control: locked, ..one };
        bytes::lemma_bits(locked);
        assert((features | (0x1u64 | 0x4u64)) & 0x1 != 0 && (features | (0x1u64 | 0x4u64)) & 0x4
            != 0 && (features % 2 == 0 && features / 4 % 2 == 1 ==> features | (0x1u64 | 0x4u64)
            == features + 1) && (features % 2 == 0 && features / 4 % 2 == 0 ==> features | (0x1u64
            | 0x4u64) == features + 5)) by (bit_vector);
        assert(carried_out(start, core, 12) == carried_out(
            at(VmxonState::LockFeatures(locked)),
            one,
            10,
        ));
        assert(carried_out(start, core, 12) == carried_out(at(VmxonState::ReadCr0Fixed0), two, 9));
        lemma_fixing_registers(region, shared, two, 9);
    } else if features & VMXON_OUTSIDE_SMX == 0 {
        lemma_over(at(VmxonState::Failed(HypervisorError::VmUnsupported)), one, 10);
    } else {
        assert(carried_out(start, core, 12) == carried_out(at(VmxonState::ReadCr0Fixed0), one, 10));
        lemma_fixing_registers(region, shared, one, 10);
    }
    if core.capable() {
        lemma_adjusted(core.cr0, core.cr0_fixed0, core.cr0_fixed1);
        lemma_adjusted(core.cr4 | CR4_VMXE, core.cr4_fixed0, core.cr4_fixed1);
        assert(now.entered =~= seq![now.entry(region)]);
    }
}

// --- Setting up a VMCS -----------------------------------------------------------

/// How far setting up a VMCS has got.
#[derive(Debug, Clone, Copy, PartialEq, Eq, Structural)]
pub enum VmcsState {
    /// The region is to be cleared.
    Clear,
    /// The region is to be made the current VMCS.
    Load,
    /// The given part of the VMCS is to be configured.
    Program(usize),
    /// The VMCS is set up.
    Done,
    /// Setting up the VMCS failed.
    Failed(HypervisorError),
}

/// Setting up a VMCS: clear it, make it the current one and configure its parts.
pub struct VmcsSetup {
    state: VmcsState,
    region: u64,
    program: [VmxRequest; 3],
}

/// What a [`VmcsSetup`] is about.
pub struct VmcsView {
    pub state: VmcsState,
    /// Host-physical address of the VMCS region.
    pub region: u64,
    /// The operations that configure it.
    pub program: Seq<VmxRequest>,
}

impl View for VmcsSetup {
    type V = VmcsView;

    closed spec fn view(&self) -> VmcsView {
        VmcsView { state: self.state, region: self.region, program: self.program@ }
    }
}

impl VmcsView {
    /// The operation to carry out.
    pub open spec fn request(self) -> VmxRequest {
        match self.state {
            VmcsState::Clear => VmxRequest::Vmclear(self.region),
            VmcsState::Load => VmxRequest::Vmptrld(self.region),
            VmcsState::Program(k) => if k < 3 {
                self.program[k as int]
            } else {
                VmxRequest::Nothing
            },
            _ => VmxRequest::Nothing,
        }
    }

    /// The setup after a reply. The first operation that fails ends it with its error.
    pub open spec fn after(self, reply: Result<u64, HypervisorError>) -> VmcsView {
        let state = match (self.state, reply) {
            (VmcsState::Done, _) => self.state,
            (VmcsState::Failed(_), _) => self.state,
            (_, Err(error)) => VmcsState::Failed(error),
            (VmcsState::Clear, Ok(flags)) => if control::vmx_failed(flags) {
                VmcsState::Failed(HypervisorError::VMCLEARFailed)
            } else {
                VmcsState::Load
            },
            (VmcsState::Load, Ok(flags)) => if control::vmx_failed(flags) {
                VmcsState::Failed(HypervisorError::VMCLEARFailed)
            } else {
                VmcsState::Program(0)
            },
            (VmcsState::Program(k), Ok(_)) => if k < 2 {
                VmcsState::Program((k + 1) as usize)
            } else {
                VmcsState::Done
            },
        };
        VmcsView { state, ..self }
    }

    /// The setup after the first `n` of the replies.
    pub open spec fn fed(self, replies: Seq<Result<u64, HypervisorError>>, n: nat) -> VmcsView
        decreases n,
    {
        if n == 0 {
            self
        } else {
            self.fed(replies, (n - 1) as nat).after(replies[n - 1])
        }
    }
}

impl VmcsSetup {
    /// Starts setting up the VMCS in `region`, which the operations in `program`
    /// configure.
    pub fn new(region: u64, program: [VmxRequest; 3]) -> (setup: Self)
        ensures
            setup@ == (VmcsView { state: VmcsState::Clear, region, program: program@ }),
    {
        VmcsSetup { state: VmcsState::Clear, region, program }
    }

    /// How far the setup has got.
    pub fn state(&self) -> (state: VmcsState)
        ensures
            state == self@.state,
    {
        self.state
    }

    /// The operation to carry out.
    pub fn request(&self) -> (request: VmxRequest)
        ensures
            request == self@.request(),
    {
        match self.state {
            VmcsState::Clear => VmxRequest::Vmclear(self.region),
            VmcsState::Load => VmxRequest::Vmptrld(self.region),
            VmcsState::Program(k) => {
                if k < 3 {
                    self.program[k]
                } else {
                    VmxRequest::Nothing
                }
            },
            _ => VmxRequest::Nothing,
        }
    }

    /// Takes the reply to the requested operation.
    pub fn reply(&mut self, reply: Result<u64, HypervisorError>)
        ensures
            final(self)@ == old(self)@.after(reply),
    {
        let over = match self.state {
            VmcsState::Done | VmcsState::Failed(_) => true,
            _ => false,
        };
        if over {
            return;
        }
        let value = match reply {
            Ok(value) => value,
            Err(error) => {
                self.state = VmcsState::Failed(error);
                return;
            },
        };
        self.state = match self.state {
            VmcsState::Clear => match control::vmx_capture_status(value) {
                Ok(()) => VmcsState::Load,
                Err(error) => VmcsState::Failed(error),
            },
            VmcsState::Load => match control::vmx_capture_status(value) {
                Ok(()) => VmcsState::Program(0),
                Err(error) => VmcsState::Failed(error),
            },
            VmcsState::Program(k) => {
                if k < 2 {
                    VmcsState::Program(k + 1)
                } else {
                    VmcsState::Done
                }
            },
            ended => ended,
        };
    }
}

/// Setting up a VMCS clears the region, loads it and configures its three parts, in
/// this order, and stops at the first of them that fails. VMCLEAR and VMPTRLD fail
/// with `VMCLEARFailed`, the others with their own errors; if none does, the VMCS is
/// set up.
pub proof fn law_setting_up_vmcs(
    region: u64,
    program: Seq<VmxRequest>,
    replies: Seq<Result<u64, HypervisorError>>,
)
    requires
        program.len() == 3,
        replies.len() == 5,
        replies[0] is Ok,
        replies[1] is Ok,
    ensures
        ({
            let start = VmcsView { state: VmcsState::Clear, region, program };
            let cleared = !control::vmx_failed(replies[0]->Ok_0);
            let loaded = cleared && !control::vmx_failed(replies[1]->Ok_0);
            &&& start.request() == VmxRequest::Vmclear(region)
            &&& cleared ==> start.fed(replies, 1).request() == VmxRequest::Vmptrld(region)
            &&& loaded ==> start.fed(replies, 2).request() == program[0]
            &&& loaded && replies[2] is Ok ==> start.fed(replies, 3).request() == program[1]
            &&& loaded && replies[2] is Ok && replies[3] is Ok ==> start.fed(replies, 4).request()
                == program[2]
            &&& start.fed(replies, 5).state == (if !loaded {
                VmcsState::Failed(HypervisorError::VMCLEARFailed)
            } else if replies[2] is Err {
                VmcsState::Failed(replies[2]->Err_0)
            } else if replies[3] is Err {
                VmcsState::Failed(replies[3]->Err_0)
            } else if replies[4] is Err {
                VmcsState::Failed(replies[4]->Err_0)
            } else {
                VmcsState::Done
            })
        }),
{
    let start = VmcsView { state: VmcsState::Clear, region, program };
    assert(start.fed(replies, 0) == start);
    assert(start.fed(replies, 1) == start.after(replies[0]));
    assert(start.fed(replies, 2) == start.fed(replies, 1).after(replies[1]));
    assert(start.fed(replies, 3) == start.fed(replies, 2).after(replies[2]));
    assert(start.fed(replies, 4) == start.fed(replies, 3).after(replies[3]));
    assert(start.fed(replies, 5) == start.fed(replies, 4).after(replies[4]));
}

// --- Running a vCPU ------------------------------------------------------------------

/// How far a run of a vCPU has got.
#[derive(Debug, Clone, Copy, PartialEq, Eq, Structural)]
pub enum RunState {
    /// The vCPU's VMCS is to be made the current one on the executing core.
    Activate,
    /// The cached registers are to be copied to the VMCS.
    Load,
    /// The guest is to be entered.
    Enter,
    /// The entry failed; the reason is to be found out.
    EntryError,
    /// The guest was left; the registers are to be copied from the VMCS.
    Save,
    /// The reason is to be read.
    ReadReason,
    /// The given reason is to be looked up.
    Decode(u32),
    /// The guest was left for this (known) reason.
    Exited(u32),
    /// The run failed.
    Failed(HypervisorError),
}

impl RunState {
    /// The operation to carry out, for a vCPU with its VMCS at `region`.
    pub open spec fn requests(self, region: u64) -> VmxRequest {
        match self {
            RunState::Activate => VmxRequest::Vmptrld(region),
            RunState::Load => VmxRequest::LoadGuestRegisters,
            RunState::Enter => VmxRequest::EnterGuest,
            RunState::EntryError => VmxRequest::InstructionError,
            RunState::Save => VmxRequest::SaveGuestRegisters,
            RunState::ReadReason => VmxRequest::ReadExitReason,
            RunState::Decode(reason) => VmxRequest::DecodeExitReason(reason),
            _ => VmxRequest::Nothing,
        }
    }

    /// The run after a reply.
    pub open spec fn after(self, reply: Result<u64, HypervisorError>) -> RunState {
        match (self, reply) {
            (RunState::Exited(_), _) => self,
            (RunState::Failed(_), _) => self,
            (RunState::EntryError, Ok(error)) => RunState::Failed(
                HypervisorError::VMEntryFailed(error),
            ),
            (RunState::EntryError, Err(_)) => RunState::Failed(HypervisorError::VMEntryFailed(0)),
            (RunState::Decode(_), Err(_)) => RunState::Failed(HypervisorError::UnknownVMExitReason),
            (_, Err(error)) => RunState::Failed(error),
            (RunState::Activate, Ok(flags)) => if control::vmx_failed(flags) {
                RunState::Failed(HypervisorError::VMCLEARFailed)
            } else {
                RunState::Load
            },
            (RunState::Load, Ok(_)) => RunState::Enter,
            (RunState::Enter, Ok(flags)) => if control::vmx_failed(flags) {
                RunState::EntryError
            } else {
                RunState::Save
            },
            (RunState::Save, Ok(_)) => RunState::ReadReason,
            (RunState::ReadReason, Ok(reason)) => RunState::Decode(reason as u32),
            (RunState::Decode(reason), Ok(_)) => RunState::Exited(reason),
        }
    }

    /// The operation to carry out, for a vCPU with its VMCS at `region`.
    pub fn request(&self, region: u64) -> (request: VmxRequest)
        ensures
            request == self.requests(region),
    {
        match self {
            RunState::Activate => VmxRequest::Vmptrld(region),
            RunState::Load => VmxRequest::LoadGuestRegisters,
            RunState::Enter => VmxRequest::EnterGuest,
            RunState::EntryError => VmxRequest::InstructionError,
            RunState::Save => VmxRequest::SaveGuestRegisters,
            RunState::ReadReason => VmxRequest::ReadExitReason,
            RunState::Decode(reason) => VmxRequest::DecodeExitReason(*reason),
            _ => VmxRequest::Nothing,
        }
    }

    /// Takes the reply to the requested operation.
    pub fn reply(self, reply: Result<u64, HypervisorError>) -> (state: RunState)
        ensures
            state == self.after(reply),
    {
        match reply {
            Ok(value) => match self {
                RunState::Activate => match control::vmx_capture_status(value) {
                    Ok(()) => RunState::Load,
                    Err(error) => RunState::Failed(error),
                },
                RunState::Load => RunState::Enter,
                RunState::Enter => {
                    // A set ZF (VMfailValid) or CF (VMfailInvalid) means VM-entry
                    // failed and no VM-exit occurred.
                    if control::failed(value) {
                        RunState::EntryError
                    } else {
                        RunState::Save
                    }
                },
                RunState::EntryError => RunState::Failed(HypervisorError::VMEntryFailed(value)),
                RunState::Save => RunState::ReadReason,
                RunState::ReadReason => RunState::Decode(value as u32),
                RunState::Decode(reason) => RunState::Exited(reason),
                ended => ended,
            },
            Err(error) => match self {
                RunState::EntryError => RunState::Failed(HypervisorError::VMEntryFailed(0)),
                RunState::Decode(_) => RunState::Failed(HypervisorError::UnknownVMExitReason),
                RunState::Exited(_) | RunState::Failed(_) => self,
                _ => RunState::Failed(error),
            },
        }
    }

    /// The state after the first `n` of the replies.
    pub open spec fn fed(self, replies: Seq<Result<u64, HypervisorError>>, n: nat) -> RunState
        decreases n,
    {
        if n == 0 {
            self
        } else {
            self.fed(replies, (n - 1) as nat).after(replies[n - 1])
        }
    }
}

/// A run loads the vCPU's VMCS, restores the guest's registers and enters the guest.
/// If the guest was entered and left again, the registers are captured and the run
/// ends with the reason, or with `UnknownVMExitReason` where it is not a known one. A
/// failed entry ends it with `VMEntryFailed` and the VM-instruction error, or zero
/// where that cannot be read, and no register is captured.
pub proof fn law_running_vcpu(region: u64, replies: Seq<Result<u64, HypervisorError>>)
    requires
        replies.len() == 6,
        replies[0] is Ok && !control::vmx_failed(replies[0]->Ok_0),
        replies[1] is Ok,
        replies[2] is Ok,
    ensures
        ({
            let start = RunState::Activate;
            let failed = control::vmx_failed(replies[2]->Ok_0);
            &&& start.requests(region) == VmxRequest::Vmptrld(region)
            &&& start.fed(replies, 1).requests(region) == VmxRequest::LoadGuestRegisters
            &&& start.fed(replies, 2).requests(region) == VmxRequest::EnterGuest
            &&& failed ==> {
                &&& start.fed(replies, 3).requests(region) == VmxRequest::InstructionError
                &&& start.fed(replies, 6) == RunState::Failed(
                    HypervisorError::VMEntryFailed(
                        match replies[3] {
                            Ok(error) => error,
                            Err(_) => 0,
                        },
                    ),
                )
            }
            &&& !failed && replies[3] is Ok && replies[4] is Ok ==> {
                &&& start.fed(replies, 3).requests(region) == VmxRequest::SaveGuestRegisters
                &&& start.fed(replies, 4).requests(region) == VmxRequest::ReadExitReason
                &&& start.fed(replies, 5).requests(region) == VmxRequest::DecodeExitReason(
                    replies[4]->Ok_0 as u32,
                )
                &&& start.fed(replies, 6) == (if replies[5] is Ok {
                    RunState::Exited(replies[4]->Ok_0 as u32)
                } else {
                    RunState::Failed(HypervisorError::UnknownVMExitReason)
                })
            }
        }),
{
    let start = RunState::Activate;
    assert(start.fed(replies, 0) == start);
    assert(start.fed(replies, 1) == start.after(replies[0]));
    assert(start.fed(replies, 2) == start.fed(replies, 1).after(replies[1]));
    assert(start.fed(replies, 3) == start.fed(replies, 2).after(replies[2]));
    assert(start.fed(replies, 4) == start.fed(replies, 3).after(replies[3]));
    assert(start.fed(replies, 5) == start.fed(replies, 4).after(replies[4]));
    assert(start.fed(replies, 6) == start.fed(replies, 5).after(replies[5]));
}

/// A reply that is an error ends enabling VMX operation with that error, except that a
/// VMCS that cannot be read after a failed VMXON leaves it at `VMCLEARFailed`. What is
/// over stays as it is, and the region and the sharing never change.
pub proof fn law_enabling_vmx_stops_at_errors(
    setup: VmxonView,
    reply: Result<u64, HypervisorError>,
    error: HypervisorError,
)
    ensures
        setup.after(reply).region == setup.region && setup.after(reply).shared == setup.shared,
        setup.state is Done || setup.state is Failed ==> setup.after(reply) == setup,
        setup.state is Confirm ==> setup.after(Err(error)).state == VmxonState::Failed(
            HypervisorError::VMCLEARFailed,
        ),
        setup.state !is Done && setup.state !is Failed && setup.state !is Confirm ==> setup.after(
            Err(error),
        ).state == VmxonState::Failed(error),
{
}

/// A reply that is an error ends setting up a VMCS with that error. What is over stays as
/// it is, and the region and the program never change.
pub proof fn law_setting_up_vmcs_stops_at_errors(
    setup: VmcsView,
    reply: Result<u64, HypervisorError>,
    error: HypervisorError,
)
    ensures
        setup.after(reply).region == setup.region && setup.after(reply).program == setup.program,
        setup.state is Done || setup.state is Failed ==> setup.after(reply) == setup,
        setup.state !is Done && setup.state !is Failed ==> setup.after(Err(error)).state
            == VmcsState::Failed(error),
        setup.state is Done || setup.state is Failed ==> setup.request() == VmxRequest::Nothing,
{
}

/// A run stops at the first operation that fails, with its error; an unknown reason is
/// `UnknownVMExitReason`, and a VMCS that cannot be loaded, by the carry or the zero flag,
/// `VMCLEARFailed`. The guest is entered only with its VMCS and registers loaded, and the
/// reason is the low 32 bits of what is read. What is over stays as it is.
pub proof fn law_run_stops_at_errors(
    state: RunState,
    region: u64,
    reply: Result<u64, HypervisorError>,
    error: HypervisorError,
    value: u64,
)
    ensures
        state is Exited || state is Failed ==> state.after(reply) == state && state.requests(region)
            == VmxRequest::Nothing,
        state is Activate || state is Load || state is Enter || state is Save || state is ReadReason
            ==> state.after(Err(error)) == RunState::Failed(error),
        state is EntryError ==> state.after(Err(error)) == RunState::Failed(
            HypervisorError::VMEntryFailed(0),
        ) && state.after(Ok(value)) == RunState::Failed(HypervisorError::VMEntryFailed(value)),
        state is Decode ==> state.after(Err(error)) == RunState::Failed(
            HypervisorError::UnknownVMExitReason,
        ),
        RunState::Activate.after(Ok(value)) == (if value % 2 == 1 || value / 0x40 % 2 == 1 {
            RunState::Failed(HypervisorError::VMCLEARFailed)
        } else {
            RunState::Load
        }),
        RunState::Enter.after(Ok(value)) == (if value % 2 == 1 || value / 0x40 % 2 == 1 {
            RunState::EntryError
        } else {
            RunState::Save
        }),
        RunState::ReadReason.after(Ok(value)) == RunState::Decode(
            (value % 0x1_0000_0000) as u32,
        ),
        state.requests(region) == VmxRequest::EnterGuest <==> state is Enter,
        state.after(reply) is Enter ==> state is Load && reply is Ok,
        state.after(reply) is Load ==> state is Activate && reply is Ok,
{
    control::law_failure_flags(value);
    bytes::lemma_bits(value);
}

} // verus!
